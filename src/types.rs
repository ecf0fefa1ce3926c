//! Job records and the values they are made of.
use vstd::prelude::*;

verus! {

/// Lifecycle state of a job.
#[derive(Debug, Clone, Copy, PartialEq, Eq, Structural)]
pub enum StreamStatus {
    Idle,
    Live,
    Scheduled,
    Completed,
    Error,
    Stopping,
}

impl Default for StreamStatus {
    fn default() -> (r: Self)
        ensures
            r == StreamStatus::Idle,
    {
        StreamStatus::Idle
    }
}

/// The word under which a status is stored.
pub open spec fn status_word(s: StreamStatus) -> Seq<char> {
    match s {
        StreamStatus::Idle => "idle"@,
        StreamStatus::Live => "live"@,
        StreamStatus::Scheduled => "scheduled"@,
        StreamStatus::Completed => "completed"@,
        StreamStatus::Error => "error"@,
        StreamStatus::Stopping => "stopping"@,
    }
}

/// The status a stored word stands for; an unknown word reads as `Idle`.
pub open spec fn status_of_word(w: Seq<char>) -> StreamStatus {
    if w == "live"@ {
        StreamStatus::Live
    } else if w == "scheduled"@ {
        StreamStatus::Scheduled
    } else if w == "completed"@ {
        StreamStatus::Completed
    } else if w == "error"@ {
        StreamStatus::Error
    } else if w == "stopping"@ {
        StreamStatus::Stopping
    } else {
        StreamStatus::Idle
    }
}

/// Character-wise equality of two string slices.
pub fn text_eq(a: &str, b: &str) -> (r: bool)
    ensures
        r == (a@ == b@),
{
    let n = a.unicode_len();
    if n != b.unicode_len() {
        return false;
    }
    let mut i: usize = 0;
    while i < n
        invariant
            n == a@.len(),
            n == b@.len(),
            i <= n,
            a@.subrange(0, i as int) == b@.subrange(0, i as int),
        decreases n - i,
    {
        if a.get_char(i) != b.get_char(i) {
            return false;
        }
        assert(a@.subrange(0, i + 1) == a@.subrange(0, i as int).push(a@[i as int]));
        assert(b@.subrange(0, i + 1) == b@.subrange(0, i as int).push(b@[i as int]));
        i = i + 1;
    }
    assert(a@ == a@.subrange(0, n as int));
    assert(b@ == b@.subrange(0, n as int));
    true
}

impl StreamStatus {
    /// The word under which this status is stored.
    pub fn to_word(&self) -> (r: &'static str)
        ensures
            r@ == status_word(*self),
    {
        match self {
            StreamStatus::Idle => "idle",
            StreamStatus::Live => "live",
            StreamStatus::Scheduled => "scheduled",
            StreamStatus::Completed => "completed",
            StreamStatus::Error => "error",
            StreamStatus::Stopping => "stopping",
        }
    }

    /// Reads a stored word back; a word that names no status reads as `Idle`.
    pub fn from_word(w: &str) -> (r: StreamStatus)
        ensures
            r == status_of_word(w@),
    {
        if text_eq(w, "live") {
            StreamStatus::Live
        } else if text_eq(w, "scheduled") {
            StreamStatus::Scheduled
        } else if text_eq(w, "completed") {
            StreamStatus::Completed
        } else if text_eq(w, "error") {
            StreamStatus::Error
        } else if text_eq(w, "stopping") {
            StreamStatus::Stopping
        } else {
            StreamStatus::Idle
        }
    }
}

/// How the automatic stop of a job is decided.
#[derive(Debug, Clone, Copy, PartialEq, Eq, Structural)]
pub enum ScheduleType {
    Manual,
    Duration,
    Absolute,
}

/// A run length in hours, minutes and seconds.
#[derive(Debug, Clone, Copy, PartialEq, Eq, Structural)]
pub struct DurationConfig {
    pub hours: u32,
    pub minutes: u32,
    pub seconds: u32,
}

/// Total number of seconds of a run length.
pub open spec fn duration_seconds(d: DurationConfig) -> int {
    d.hours as int * 3600 + d.minutes as int * 60 + d.seconds as int
}

impl DurationConfig {
    pub fn to_seconds(&self) -> (r: u64)
        ensures
            r as int == duration_seconds(*self),
    {
        (self.hours as u64 * 3600) + (self.minutes as u64 * 60) + self.seconds as u64
    }
}

/// A wall-clock stop time: a local date-time and the name of its time zone.
#[derive(Debug, Clone)]
pub struct AbsoluteConfig {
    pub datetime: String,
    pub timezone: String,
}

/// The stored schedule of a job.
#[derive(Debug, Clone)]
pub struct ScheduleConfig {
    pub schedule_type: ScheduleType,
    pub duration: Option<DurationConfig>,
    pub absolute: Option<AbsoluteConfig>,
}

impl ScheduleConfig {
    /// The schedule that arms no stop; a stored schedule that cannot be read
    /// degrades to it.
    pub fn manual() -> (r: ScheduleConfig)
        ensures
            r.schedule_type == ScheduleType::Manual,
            r.duration is None,
            r.absolute is None,
    {
        ScheduleConfig { schedule_type: ScheduleType::Manual, duration: None, absolute: None }
    }
}

/// A persisted job, with its derived `elapsed_seconds`.
#[derive(Debug, Clone)]
pub struct Stream {
    pub id: String,
    pub name: String,
    pub youtube_key: String,
    pub video_path: String,
    pub status: StreamStatus,
    pub schedule: ScheduleConfig,
    pub started_at: Option<String>,
    pub stopped_at: Option<String>,
    pub created_at: String,
    pub elapsed_seconds: Option<u64>,
    pub last_elapsed_seconds: Option<u64>,
}

/// What a caller supplies to create a job.
#[derive(Debug, Clone)]
pub struct StreamInput {
    pub name: String,
    pub youtube_key: String,
    pub video_path: String,
    pub schedule: ScheduleConfig,
    pub created_at: String,
    pub start_immediately: bool,
}

/// Parameters of the set-up call of an instance.
#[derive(Debug, Clone)]
pub struct InitializeParams {
    pub instance_id: String,
}

} // verus!
