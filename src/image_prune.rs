//! The image garbage-collection policy and its validation.
use vstd::prelude::*;
use crate::clock_time::{has_clock_shape, is_clock_time, is_valid_clock_time};
use crate::error::{EdgedError, ErrorKind};
use crate::time_span::{TimeSpan, SECS_PER_DAY};

verus! {

/// Default time between two cleanups: one day.
pub const DEFAULT_RECURRENCE_IN_SECS: u64 = 86_400;

/// Default age after which an unused image is removed: seven days.
pub const DEFAULT_MIN_AGE_IN_SECS: u64 = 604_800;

/// Default time of day of the cleanup: midnight.
pub open spec fn default_cleanup_time() -> Seq<char> {
    seq!['0', '0', ':', '0', '0']
}

/// The image garbage-collection policy as the settings give it; any of the
/// three durations and times may be absent.
#[derive(Debug)]
pub struct ImagePruneSettings {
    recurrence: Option<TimeSpan>,
    min_age: Option<TimeSpan>,
    cleanup_time: Option<String>,
    enabled: bool,
}

/// What an `ImagePruneSettings` holds, with the cleanup time as characters.
pub struct ImagePruneSettingsView {
    pub recurrence: Option<TimeSpan>,
    pub min_age: Option<TimeSpan>,
    pub cleanup_time: Option<Seq<char>>,
    pub enabled: bool,
}

impl View for ImagePruneSettings {
    type V = ImagePruneSettingsView;

    closed spec fn view(&self) -> ImagePruneSettingsView {
        ImagePruneSettingsView {
            recurrence: self.recurrence,
            min_age: self.min_age,
            cleanup_time: match self.cleanup_time {
                Some(t) => Some(t@),
                None => None,
            },
            enabled: self.enabled,
        }
    }
}

/// A recurrence, where given, is at least one day.
pub open spec fn recurrence_is_valid(v: ImagePruneSettingsView) -> bool {
    match v.recurrence {
        Some(r) => r.total_nanos() >= SECS_PER_DAY * 1_000_000_000,
        None => true,
    }
}

/// A cleanup time, where given, is a strict 24-hour `HH:MM`.
pub open spec fn cleanup_time_is_valid(v: ImagePruneSettingsView) -> bool {
    match v.cleanup_time {
        Some(t) => is_clock_time(t),
        None => true,
    }
}

pub open spec fn is_valid(v: ImagePruneSettingsView) -> bool {
    recurrence_is_valid(v) && cleanup_time_is_valid(v)
}

/// The policy with every absent value replaced by its default.
pub open spec fn populated(v: ImagePruneSettingsView) -> ImagePruneSettingsView {
    ImagePruneSettingsView {
        recurrence: Some(
            match v.recurrence {
                Some(r) => r,
                None => TimeSpan { secs: DEFAULT_RECURRENCE_IN_SECS, nanos: 0 },
            },
        ),
        min_age: Some(
            match v.min_age {
                Some(a) => a,
                None => TimeSpan { secs: DEFAULT_MIN_AGE_IN_SECS, nanos: 0 },
            },
        ),
        cleanup_time: Some(
            match v.cleanup_time {
                Some(t) => t,
                None => default_cleanup_time(),
            },
        ),
        enabled: v.enabled,
    }
}

impl ImagePruneSettings {
    /// Every duration is well formed.
    pub open spec fn wf(&self) -> bool {
        &&& (self@.recurrence matches Some(r) ==> r.wf())
        &&& (self@.min_age matches Some(a) ==> a.wf())
    }

    pub fn new(
        recurrence: Option<TimeSpan>,
        min_age: Option<TimeSpan>,
        cleanup_time: Option<String>,
        enabled: bool,
    ) -> (r: ImagePruneSettings)
        ensures
            r@.recurrence == recurrence,
            r@.min_age == min_age,
            r@.cleanup_time == (match cleanup_time {
                Some(t) => Some(t@),
                None => None::<Seq<char>>,
            }),
            r@.enabled == enabled,
    {
        ImagePruneSettings { recurrence, min_age, cleanup_time, enabled }
    }

    pub fn cleanup_recurrence(&self) -> (r: Option<TimeSpan>)
        ensures
            r == self@.recurrence,
    {
        self.recurrence
    }

    pub fn image_age_cleanup_threshold(&self) -> (r: Option<TimeSpan>)
        ensures
            r == self@.min_age,
    {
        self.min_age
    }

    pub fn cleanup_time(&self) -> (r: Option<String>)
        ensures
            r matches Some(t) ==> self@.cleanup_time == Some(t@),
            r is None ==> self@.cleanup_time is None,
    {
        match &self.cleanup_time {
            Some(t) => Some(t.clone()),
            None => None,
        }
    }

    pub fn is_enabled(&self) -> (r: bool)
        ensures
            r == self@.enabled,
    {
        self.enabled
    }
}

/// Validates the policy and fills in the defaults of what is absent.
///
/// It fails, with an `InvalidSettings` error, exactly when a recurrence
/// shorter than one day or a cleanup time that is not a strict 24-hour
/// `HH:MM` is given. Otherwise every absent value takes its default (one day,
/// seven days, `00:00`), every given one is kept as it is, and `enabled`
/// passes through.
pub fn check_settings_and_populate(settings: &ImagePruneSettings) -> (r: Result<
    ImagePruneSettings,
    EdgedError,
>)
    requires
        settings.wf(),
    ensures
        r is Ok <==> is_valid(settings@),
        r matches Ok(p) ==> p@ == populated(settings@) && p.wf(),
        r matches Err(e) ==> e.kind == ErrorKind::InvalidSettings,
{
    let recurrence = match settings.cleanup_recurrence() {
        Some(r) => {
            if r.is_shorter_than_secs(SECS_PER_DAY) {
                return Err(
                    EdgedError::new(
                        ErrorKind::InvalidSettings,
                        "invalid settings provided in config: cleanup recurrence cannot be less than 1 day".to_owned(),
                    ),
                );
            }
            r
        },
        None => TimeSpan::from_secs(DEFAULT_RECURRENCE_IN_SECS),
    };
    let cleanup_time = match settings.cleanup_time() {
        Some(t) => {
            if !is_valid_clock_time(t.as_str()) {
                return Err(
                    EdgedError::new(
                        ErrorKind::InvalidSettings,
                        "invalid settings provided in config: invalid cleanup time, expected format is \"HH:MM\" in 24-hour format".to_owned(),
                    ),
                );
            }
            t
        },
        None => {
            let t = "00:00".to_owned();
            proof {
                reveal_strlit("00:00");
            }
            assert(t@ =~= default_cleanup_time());
            t
        },
    };
    let min_age = match settings.image_age_cleanup_threshold() {
        Some(a) => a,
        None => TimeSpan::from_secs(DEFAULT_MIN_AGE_IN_SECS),
    };
    let p = ImagePruneSettings::new(
        Some(recurrence),
        Some(min_age),
        Some(cleanup_time),
        settings.is_enabled(),
    );
    assert(p@ == populated(settings@));
    Ok(p)
}

/// The two-digit text of a number below one hundred.
pub open spec fn two_digits(n: int) -> Seq<char> {
    seq![(('0' as int) + n / 10) as char, (('0' as int) + n % 10) as char]
}

/// The text `HH:MM` of an hour and a minute.
pub open spec fn clock_text(hour: int, minute: int) -> Seq<char> {
    two_digits(hour) + seq![':'] + two_digits(minute)
}

/// The recurrence bound: validation fails for every given recurrence shorter
/// than one day, and a recurrence of exactly one day passes as long as the
/// cleanup time is valid or absent.
pub proof fn lemma_recurrence_bound(v: ImagePruneSettingsView)
    requires
        v.recurrence matches Some(r) && r.wf(),
    ensures
        v.recurrence->0.total_nanos() < SECS_PER_DAY * 1_000_000_000 ==> !is_valid(v),
        v.recurrence == Some(TimeSpan { secs: SECS_PER_DAY, nanos: 0 }) && cleanup_time_is_valid(v)
            ==> is_valid(v),
{
}

/// The cleanup-time format: every time from `00:00` through `23:59` passes
/// validation, given a valid or absent recurrence, and validation fails for
/// every text that is not two digits, a colon and two digits.
pub proof fn lemma_cleanup_time_format(v: ImagePruneSettingsView, hour: int, minute: int)
    requires
        0 <= hour < 24,
        0 <= minute < 60,
    ensures
        v.cleanup_time == Some(clock_text(hour, minute)) && recurrence_is_valid(v) ==> is_valid(v),
        v.cleanup_time matches Some(t) && !has_clock_shape(t) ==> !is_valid(v),
{
    let t = clock_text(hour, minute);
    assert(t.len() == 5);
    assert(t[0] == (('0' as int) + hour / 10) as char);
    assert(t[1] == (('0' as int) + hour % 10) as char);
    assert(t[2] == ':');
    assert(t[3] == (('0' as int) + minute / 10) as char);
    assert(t[4] == (('0' as int) + minute % 10) as char);
    assert(is_clock_time(t));
}

/// Absent values take their defaults in the populated policy: a recurrence
/// of one day, a minimum age of seven days and a cleanup time of midnight.
pub proof fn lemma_populated_defaults(v: ImagePruneSettingsView)
    ensures
        v.recurrence is None ==> populated(v).recurrence == Some(
            TimeSpan { secs: 86_400, nanos: 0 },
        ),
        v.min_age is None ==> populated(v).min_age == Some(TimeSpan { secs: 604_800, nanos: 0 }),
        v.cleanup_time is None ==> populated(v).cleanup_time == Some(seq!['0', '0', ':', '0', '0']),
        populated(v).enabled == v.enabled,
{
}

} // verus!
