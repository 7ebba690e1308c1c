//! Lifecycle decisions of the IoT Edge daemon: validation of the image
//! garbage-collection policy, the steady-state race between health supervision
//! and image maintenance, bounded draining of the server tasks at shutdown, and
//! the final outcome with its process exit code.
pub mod time_span;
pub mod clock_time;
pub mod error;
pub mod home_dirs;
pub mod image_prune;
pub mod steady_state;
pub mod shutdown;
pub mod startup;

