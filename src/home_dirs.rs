//! The directories that must exist under the daemon home before the
//! identity, runtime and image garbage-collection collaborators run.
use vstd::prelude::*;

verus! {

#[derive(Clone, Copy, PartialEq, Eq, Structural, Debug)]
pub enum HomeDir {
    /// Cached device identity.
    Cache,
    /// Staging of the workload API mounts.
    Mount,
    /// Bookkeeping of image garbage collection.
    Gc,
}

pub open spec fn home_dir_name(d: HomeDir) -> Seq<char> {
    match d {
        HomeDir::Cache => seq!['c', 'a', 'c', 'h', 'e'],
        HomeDir::Mount => seq!['m', 'n', 't'],
        HomeDir::Gc => seq!['g', 'c'],
    }
}

impl HomeDir {
    /// The name of the directory under the daemon home.
    pub fn name(&self) -> (r: &'static str)
        ensures
            r@ == home_dir_name(*self),
    {
        match self {
            HomeDir::Cache => {
                proof {
                    reveal_strlit("cache");
                }
                "cache"
            },
            HomeDir::Mount => {
                proof {
                    reveal_strlit("mnt");
                }
                "mnt"
            },
            HomeDir::Gc => {
                proof {
                    reveal_strlit("gc");
                }
                "gc"
            },
        }
    }
}

/// The directories to create under the daemon home, in the order of
/// creation: identity cache, mount staging, garbage-collection store.
pub fn required_home_dirs() -> (r: Vec<HomeDir>)
    ensures
        r@ == seq![HomeDir::Cache, HomeDir::Mount, HomeDir::Gc],
{
    vec![HomeDir::Cache, HomeDir::Mount, HomeDir::Gc]
}

} // verus!
