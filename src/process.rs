//! Decisions of the external encoder process: where it sends, which encoder
//! variants it tries and in which order, what it is asked to produce, and how
//! a stop proceeds.
use vstd::prelude::*;
use vstd::string::StringExecFns;

verus! {

/// Base of the endpoint that a destination key is appended to.
pub const STREAM_URL_BASE: &'static str = "rtmp://a.rtmp.youtube.com/live2/";

/// Seconds that a stop waits for the process to exit before it force-kills it.
pub const KILL_WAIT_SECS: u64 = 3;

/// Why an encoder process could not be started or stopped.
#[derive(Debug, Clone)]
pub enum ProcessError {
    Spawn(String),
    Exit(String),
    VideoNotFound(String),
}

/// Endpoint that the encoder pushes to for a destination key.
pub fn stream_url(stream_key: &str) -> (r: String)
    ensures
        r@ == STREAM_URL_BASE@ + stream_key@,
{
    String::from_str(STREAM_URL_BASE).concat(stream_key)
}

/// Refuses to start on a source file that does not exist.
pub fn check_source(video_path: &str, exists: bool) -> (r: Result<(), ProcessError>)
    ensures
        exists <==> r is Ok,
        r matches Err(e) ==> e matches ProcessError::VideoNotFound(p) && p@ == video_path@,
{
    if exists {
        Ok(())
    } else {
        Err(ProcessError::VideoNotFound(String::from_str(video_path)))
    }
}

/// Host platform, which decides the hardware encoders worth trying.
#[derive(Debug, Clone, Copy, PartialEq, Eq, Structural)]
pub enum Platform {
    Windows,
    MacOs,
    Other,
}

/// An encoder that a process can be started with.
#[derive(Debug, Clone, Copy, PartialEq, Eq, Structural)]
pub enum EncoderVariant {
    Nvenc,
    QuickSync,
    VideoToolbox,
    Software,
}

/// Encoders to try on a platform, best first; the last is always software.
pub open spec fn encoder_order_of(p: Platform) -> Seq<EncoderVariant> {
    match p {
        Platform::Windows => seq![EncoderVariant::Nvenc, EncoderVariant::QuickSync, EncoderVariant::Software],
        Platform::MacOs => seq![EncoderVariant::VideoToolbox, EncoderVariant::Software],
        Platform::Other => seq![EncoderVariant::Software],
    }
}

pub fn encoder_order(p: Platform) -> (r: Vec<EncoderVariant>)
    ensures
        r@ == encoder_order_of(p),
{
    match p {
        Platform::Windows => vec![EncoderVariant::Nvenc, EncoderVariant::QuickSync, EncoderVariant::Software],
        Platform::MacOs => vec![EncoderVariant::VideoToolbox, EncoderVariant::Software],
        Platform::Other => vec![EncoderVariant::Software],
    }
}

/// What an encoder process is asked to produce.
#[derive(Debug, Clone, Copy, PartialEq, Eq, Structural)]
pub struct EncoderSettings {
    pub encoder: EncoderVariant,
    pub frame_rate: u32,
    pub keyframe_interval: u32,
    pub video_kbps: u32,
    pub max_kbps: u32,
    pub buffer_kbps: u32,
    pub audio_kbps: u32,
    pub audio_hz: u32,
    pub audio_channels: u32,
}

/// Video bit rate of an encoder: hardware encoders get more than software.
pub open spec fn video_kbps_of(v: EncoderVariant) -> u32 {
    if v == EncoderVariant::Software {
        3000
    } else {
        4500
    }
}

/// Settings of an encoder: 30 frames a second, a keyframe every two seconds,
/// a capped bit rate with a buffer of twice the cap, stereo audio at 44.1 kHz.
pub open spec fn settings_of(v: EncoderVariant) -> EncoderSettings {
    EncoderSettings {
        encoder: v,
        frame_rate: 30,
        keyframe_interval: 60,
        video_kbps: video_kbps_of(v),
        max_kbps: video_kbps_of(v),
        buffer_kbps: (2 * video_kbps_of(v)) as u32,
        audio_kbps: 128,
        audio_hz: 44100,
        audio_channels: 2,
    }
}

pub fn settings_for(v: EncoderVariant) -> (r: EncoderSettings)
    ensures
        r == settings_of(v),
{
    let kbps: u32 = match v {
        EncoderVariant::Software => 3000,
        _ => 4500,
    };
    EncoderSettings {
        encoder: v,
        frame_rate: 30,
        keyframe_interval: 60,
        video_kbps: kbps,
        max_kbps: kbps,
        buffer_kbps: 2 * kbps,
        audio_kbps: 128,
        audio_hz: 44100,
        audio_channels: 2,
    }
}

/// The tiered start-up of an encoder process: the variants are tried in order
/// and the first one that spawns is kept.
pub struct StartupPlan {
    order: Vec<EncoderVariant>,
    next: usize,
    chosen: Option<EncoderVariant>,
}

/// Abstract state of a start-up: the order, how many variants failed, and
/// the one that was kept.
pub struct StartupState {
    pub order: Seq<EncoderVariant>,
    pub failed: nat,
    pub chosen: Option<EncoderVariant>,
}

impl View for StartupPlan {
    type V = StartupState;

    closed spec fn view(&self) -> StartupState {
        StartupState { order: self.order@, failed: self.next as nat, chosen: self.chosen }
    }
}

impl StartupPlan {
    /// Invariant: no more failures than variants, and a kept variant is the
    /// one tried after the failures.
    pub open spec fn wf(&self) -> bool {
        &&& self@.failed <= self@.order.len()
        &&& self@.chosen matches Some(v) ==> self@.failed < self@.order.len()
            && v == self@.order[self@.failed as int]
    }

    /// The variant to try next, if any is left and none was kept.
    pub open spec fn pending(&self) -> Option<EncoderVariant> {
        if self@.chosen is None && self@.failed < self@.order.len() {
            Some(self@.order[self@.failed as int])
        } else {
            None
        }
    }

    pub fn new(p: Platform) -> (r: StartupPlan)
        ensures
            r.wf(),
            r@.order == encoder_order_of(p),
            r@.failed == 0,
            r@.chosen is None,
    {
        StartupPlan { order: encoder_order(p), next: 0, chosen: None }
    }

    /// The variant to try next.
    pub fn next_variant(&self) -> (r: Option<EncoderVariant>)
        requires
            self.wf(),
        ensures
            r == self.pending(),
    {
        if self.chosen.is_none() && self.next < self.order.len() {
            Some(self.order[self.next])
        } else {
            None
        }
    }

    /// Records whether the pending variant spawned.
    pub fn report(&mut self, spawned: bool)
        requires
            old(self).wf(),
            old(self).pending() is Some,
        ensures
            final(self).wf(),
            final(self)@.order == old(self)@.order,
            spawned ==> final(self)@.failed == old(self)@.failed
                && final(self)@.chosen == old(self).pending(),
            !spawned ==> final(self)@.failed == old(self)@.failed + 1
                && final(self)@.chosen is None,
    {
        if spawned {
            self.chosen = Some(self.order[self.next]);
        } else {
            let n = self.order.len();
            assert(self.next < n);
            self.next = self.next + 1;
        }
    }

    /// The variant that was kept, if one spawned.
    pub fn chosen(&self) -> (r: Option<EncoderVariant>)
        ensures
            r == self@.chosen,
    {
        self.chosen
    }
}

/// How the bounded wait for an exiting process ended.
#[derive(Debug, Clone, Copy, PartialEq, Eq, Structural)]
pub enum WaitOutcome {
    Exited,
    WaitFailed,
    TimedOut,
}

/// What a stop does after its bounded wait.
#[derive(Debug, Clone, Copy, PartialEq, Eq, Structural)]
pub enum StopAction {
    /// The stop is over.
    Done,
    /// Kill the process once more and wait for it without a bound.
    ForceKill,
}

/// Only a wait that ran out of time leads to a forced kill.
pub fn after_wait(w: WaitOutcome) -> (r: StopAction)
    ensures
        r == (if w == WaitOutcome::TimedOut { StopAction::ForceKill } else { StopAction::Done }),
{
    match w {
        WaitOutcome::TimedOut => StopAction::ForceKill,
        _ => StopAction::Done,
    }
}

/// Whole seconds a process has run: from `started_at` to `now`, zero if the
/// clock went back.
pub fn elapsed_between(started_at: u64, now: u64) -> (r: u64)
    ensures
        r as int == if now >= started_at { now - started_at } else { 0 },
{
    if now >= started_at {
        now - started_at
    } else {
        0
    }
}

} // verus!
