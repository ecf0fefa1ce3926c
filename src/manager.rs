//! The job orchestrator: the process table and the timer table, and every
//! decision of start, stop, scheduled stop, reconciliation, delete and list.
//! The caller runs the outside work (spawning, probing, waiting, the store)
//! and hands the outcomes back; the store is told what to write as a list of
//! [`StoreOp`]s.
use vstd::prelude::*;
use vstd::string::StringExecFns;
use crate::process::elapsed_between;
use crate::scheduler::{Scheduler, TimerState, TimerStep, deadline_of, poll_step, seconds_until, zoned_instant, LOCAL_DATETIME_FORMAT};
use crate::table::HandleTable;
use crate::types::{DurationConfig, ScheduleConfig, ScheduleType, Stream, StreamInput, StreamStatus, duration_seconds};

verus! {

/// Seconds between a spawn and the liveness probe that confirms a start.
pub const START_GRACE_SECS: u64 = 2;

/// Seconds between two passes of the reconciliation loop.
pub const MONITOR_INTERVAL_SECS: u64 = 3;

/// A classified failure of an orchestrator operation.
#[derive(Debug, Clone)]
pub enum ManagerError {
    Database(String),
    NotFound(String),
    AlreadyRunning(String),
    DuplicateKey(String),
    FFmpeg(String),
    Io(String),
    NotInitialized,
}

/// A write to the persisted store.
#[derive(Debug, Clone)]
pub enum StoreOp {
    SetStatus(String, StreamStatus),
    /// `started_at` becomes the current time.
    MarkStarted(String),
    /// `stopped_at` becomes the current time.
    MarkStopped(String),
    SetLastElapsed(String, u64),
    Delete(String),
}

/// What the store holds of a job, as far as the orchestrator's rules go.
pub struct JobState {
    pub status: StreamStatus,
    pub last_elapsed: Option<u64>,
}

/// The store after one write. A write to an id that it does not hold changes nothing.
pub open spec fn apply_op(m: Map<Seq<char>, JobState>, op: StoreOp) -> Map<Seq<char>, JobState> {
    match op {
        StoreOp::SetStatus(id, s) => if m.contains_key(id@) {
            m.insert(id@, JobState { status: s, ..m[id@] })
        } else {
            m
        },
        StoreOp::SetLastElapsed(id, e) => if m.contains_key(id@) {
            m.insert(id@, JobState { last_elapsed: Some(e), ..m[id@] })
        } else {
            m
        },
        StoreOp::Delete(id) => m.remove(id@),
        _ => m,
    }
}

/// The store after a list of writes, in order.
pub open spec fn apply_ops(m: Map<Seq<char>, JobState>, ops: Seq<StoreOp>) -> Map<Seq<char>, JobState>
    decreases ops.len(),
{
    if ops.len() == 0 {
        m
    } else {
        apply_ops(apply_op(m, ops[0]), ops.drop_first())
    }
}

/// Writes of a confirmed start.
pub open spec fn start_ops(id: String) -> Seq<StoreOp> {
    seq![StoreOp::SetStatus(id, StreamStatus::Live), StoreOp::MarkStarted(id)]
}

/// Write of a start whose process died within the grace window.
pub open spec fn failed_start_ops(id: String) -> Seq<StoreOp> {
    seq![StoreOp::SetStatus(id, StreamStatus::Error)]
}

/// Write that opens a stop.
pub open spec fn stopping_ops(id: String) -> Seq<StoreOp> {
    seq![StoreOp::SetStatus(id, StreamStatus::Stopping)]
}

/// Writes that close a stop: the final status, the stop time, and the run
/// length where a process was running.
pub open spec fn finish_ops(id: String, status: StreamStatus, elapsed: Option<u64>) -> Seq<StoreOp> {
    let head = seq![StoreOp::SetStatus(id, status), StoreOp::MarkStopped(id)];
    match elapsed {
        Some(e) => head.push(StoreOp::SetLastElapsed(id, e)),
        None => head,
    }
}

/// Writes for a process found dead by the reconciliation loop.
pub open spec fn dead_ops(id: String, elapsed: u64) -> Seq<StoreOp> {
    seq![
        StoreOp::SetStatus(id, StreamStatus::Error),
        StoreOp::MarkStopped(id),
        StoreOp::SetLastElapsed(id, elapsed),
    ]
}

/// Why a start is refused before any process is spawned.
#[derive(Debug, Clone, Copy, PartialEq, Eq, Structural)]
pub enum Refusal {
    NotFound,
    AlreadyRunning,
    DuplicateKey,
}

/// Another job with destination key `key` has a live process.
pub open spec fn key_clash(id: Seq<char>, key: Seq<char>, all: Seq<Stream>, live: Set<Seq<char>>) -> bool {
    exists|i: int|
        0 <= i < all.len() && all[i].id@ != id && all[i].youtube_key@ == key && #[trigger] live.contains(all[i].id@)
}

/// Whether, and why, a start of job `id` is refused.
pub open spec fn start_refusal(id: Seq<char>, job: Option<Stream>, all: Seq<Stream>, live: Set<Seq<char>>) -> Option<Refusal> {
    match job {
        None => Some(Refusal::NotFound),
        Some(j) => if j.status == StreamStatus::Live {
            Some(Refusal::AlreadyRunning)
        } else if key_clash(id, j.youtube_key@, all, live) {
            Some(Refusal::DuplicateKey)
        } else {
            None
        },
    }
}

/// The record behind an optional reference.
pub open spec fn record_of(job: Option<&Stream>) -> Option<Stream> {
    match job {
        Some(j) => Some(*j),
        None => None,
    }
}

/// A persisted job with this destination key is `Live`.
pub open spec fn key_taken(existing: Seq<Stream>, key: Seq<char>) -> bool {
    exists|i: int| 0 <= i < existing.len() && #[trigger] existing[i].youtube_key@ == key && existing[i].status == StreamStatus::Live
}

/// Seconds until the automatic stop of a schedule, where its kind has one
/// and it can be worked out.
pub open spec fn stop_delay_defined(s: ScheduleConfig) -> bool {
    match s.schedule_type {
        ScheduleType::Manual => false,
        ScheduleType::Duration => s.duration is Some,
        ScheduleType::Absolute => s.absolute matches Some(a)
            && zoned_instant(a.datetime@, LOCAL_DATETIME_FORMAT@, a.timezone@) is Some,
    }
}

/// What a scheduled stop leaves for the caller: the process to stop, and the
/// writes to make afterwards.
pub struct ScheduledStop<P> {
    pub handle: Option<P>,
    pub ops: Vec<StoreOp>,
}

/// A process that the reconciliation loop found dead.
pub struct Reaped<P> {
    pub handle: P,
    pub elapsed: u64,
    pub ops: Vec<StoreOp>,
}

/// A start whose process died within the grace window.
pub struct StartFailure<P> {
    pub handle: Option<P>,
    pub ops: Vec<StoreOp>,
    pub error: ManagerError,
}

/// A live process: when it started (seconds) and the caller's handle to it.
pub struct ProcessEntry<P> {
    pub started_at: u64,
    pub handle: P,
}

/// Relies on uuid's `Uuid::new_v4` and its hyphenated `Display`: a random
/// identifier written as 36 characters.
#[verifier::external_body]
fn fresh_stream_id() -> (r: String)
    ensures
        r@.len() == 36,
{
    uuid::Uuid::new_v4().to_string()
}

fn owned(s: &String) -> (r: String)
    ensures
        r == *s,
{
    s.clone()
}

/// The orchestrator's tables: at most one live process and at most one timer per job id.
pub struct StreamManager<P> {
    processes: HandleTable<ProcessEntry<P>>,
    schedulers: HandleTable<Scheduler>,
}

impl<P> StreamManager<P> {
    pub closed spec fn wf(&self) -> bool {
        self.processes.wf() && self.schedulers.wf()
    }

    /// The process table.
    pub closed spec fn procs(&self) -> Map<Seq<char>, ProcessEntry<P>> {
        self.processes@
    }

    /// The timer table.
    pub closed spec fn timers(&self) -> Map<Seq<char>, TimerState> {
        self.schedulers@.map_values(|s: Scheduler| s@)
    }

    pub fn new() -> (r: Self)
        ensures
            r.wf(),
            r.procs() == Map::<Seq<char>, ProcessEntry<P>>::empty(),
            r.timers() == Map::<Seq<char>, TimerState>::empty(),
    {
        let r = StreamManager { processes: HandleTable::new(), schedulers: HandleTable::new() };
        assert(r.timers() =~= Map::<Seq<char>, TimerState>::empty());
        r
    }

    /// Whether job `id` has a live process.
    pub fn is_live(&self, id: &String) -> (r: bool)
        requires
            self.wf(),
        ensures
            r == self.procs().contains_key(id@),
    {
        self.processes.contains(id)
    }

    /// Whether job `id` has an armed timer.
    pub fn has_timer(&self, id: &String) -> (r: bool)
        requires
            self.wf(),
        ensures
            r == self.timers().contains_key(id@),
    {
        self.schedulers.contains(id)
    }

    /// The ids of the jobs that have a live process.
    pub fn process_ids(&self) -> (r: Vec<String>)
        requires
            self.wf(),
        ensures
            forall|k: Seq<char>|
                self.procs().contains_key(k) <==> exists|i: int| 0 <= i < r@.len() && #[trigger] r@[i]@ == k,
    {
        self.processes.keys()
    }

    /// The caller's handle to the process of job `id`.
    pub fn process(&self, id: &String) -> (r: Option<&P>)
        requires
            self.wf(),
        ensures
            r is Some == self.procs().contains_key(id@),
            r matches Some(h) ==> *h == self.procs()[id@].handle,
    {
        match self.processes.get(id) {
            Some(e) => Some(&e.handle),
            None => None,
        }
    }

    /// Refuses a new job whose destination key a `Live` job already uses;
    /// otherwise the `Idle` record to persist, under a fresh id.
    pub fn add_stream(&self, existing: &Vec<Stream>, input: StreamInput) -> (r: Result<Stream, ManagerError>)
        ensures
            r is Err <==> key_taken(existing@, input.youtube_key@),
            r matches Err(e) ==> e matches ManagerError::DuplicateKey(k) && k@ == input.youtube_key@,
            r matches Ok(s) ==> s.id@.len() == 36 && s.name == input.name
                && s.youtube_key == input.youtube_key && s.video_path == input.video_path
                && s.status == StreamStatus::Idle && s.schedule == input.schedule
                && s.started_at is None && s.stopped_at is None && s.created_at == input.created_at
                && s.elapsed_seconds is None && s.last_elapsed_seconds is None,
    {
        let mut i: usize = 0;
        while i < existing.len()
            invariant
                i <= existing@.len(),
                forall|j: int| 0 <= j < i ==> !(#[trigger] existing@[j].youtube_key@ == input.youtube_key@
                    && existing@[j].status == StreamStatus::Live),
            decreases existing@.len() - i,
        {
            if existing[i].youtube_key == input.youtube_key && existing[i].status == StreamStatus::Live {
                return Err(ManagerError::DuplicateKey(owned(&input.youtube_key)));
            }
            i = i + 1;
        }
        Ok(Stream {
            id: fresh_stream_id(),
            name: input.name,
            youtube_key: input.youtube_key,
            video_path: input.video_path,
            status: StreamStatus::Idle,
            schedule: input.schedule,
            started_at: None,
            stopped_at: None,
            created_at: input.created_at,
            elapsed_seconds: None,
            last_elapsed_seconds: None,
        })
    }

    /// Checks a start of job `id`, whose record is `job`, against all records:
    /// refused if it is unknown, already `Live`, or if another job with its
    /// destination key has a live process.
    pub fn begin_start(&self, id: &String, job: Option<&Stream>, all: &Vec<Stream>) -> (r: Result<(), ManagerError>)
        requires
            self.wf(),
        ensures
            r is Ok <==> start_refusal(id@, record_of(job), all@, self.procs().dom()) is None,
            r matches Err(e) ==> match start_refusal(id@, record_of(job), all@, self.procs().dom()) {
                Some(Refusal::NotFound) => e matches ManagerError::NotFound(s) && s@ == id@,
                Some(Refusal::AlreadyRunning) => e matches ManagerError::AlreadyRunning(s) && s@ == id@,
                Some(Refusal::DuplicateKey) => e matches ManagerError::DuplicateKey(s)
                    && s@ == job->0.youtube_key@,
                None => false,
            },
    {
        if job.is_none() {
            return Err(ManagerError::NotFound(owned(id)));
        }
        let j = job.unwrap();
        assert(record_of(job) == Some(*j));
        if j.status == StreamStatus::Live {
            return Err(ManagerError::AlreadyRunning(owned(id)));
        }
        let mut i: usize = 0;
        while i < all.len()
            invariant
                self.wf(),
                record_of(job) == Some(*j),
                j.status != StreamStatus::Live,
                i <= all@.len(),
                forall|k: int| 0 <= k < i ==> !(all@[k].id@ != id@ && all@[k].youtube_key@ == j.youtube_key@
                    && #[trigger] self.procs().dom().contains(all@[k].id@)),
            decreases all@.len() - i,
        {
            let other = &all[i];
            if other.id != *id && other.youtube_key == j.youtube_key && self.processes.contains(&other.id) {
                assert(self.procs().dom().contains(all@[i as int].id@));
                assert(key_clash(id@, j.youtube_key@, all@, self.procs().dom()));
                return Err(ManagerError::DuplicateKey(owned(&j.youtube_key)));
            }
            i = i + 1;
        }
        Ok(())
    }

    /// Records the process just spawned for job `id`, handing back a handle
    /// it replaces.
    pub fn register_process(&mut self, id: String, handle: P, started_at: u64) -> (r: Option<P>)
        requires
            old(self).wf(),
        ensures
            final(self).wf(),
            final(self).procs() == old(self).procs().insert(id@, ProcessEntry { started_at, handle }),
            final(self).timers() == old(self).timers(),
            r is Some == old(self).procs().contains_key(id@),
            r matches Some(h) ==> h == old(self).procs()[id@].handle,
    {
        match self.processes.insert(id, ProcessEntry { started_at, handle }) {
            Some(e) => Some(e.handle),
            None => None,
        }
    }

    /// Settles a start after the grace window, given whether the process of
    /// job `id` is still running. A live process makes the job `Live`; a dead
    /// one is taken out of the table and the job becomes `Error`.
    pub fn confirm_start(&mut self, id: &String, running: bool) -> (r: Result<Vec<StoreOp>, StartFailure<P>>)
        requires
            old(self).wf(),
        ensures
            final(self).wf(),
            final(self).timers() == old(self).timers(),
            r is Ok == running,
            running ==> final(self).procs() == old(self).procs(),
            !running ==> final(self).procs() == old(self).procs().remove(id@),
            r matches Ok(ops) ==> ops@ == start_ops(*id),
            r matches Err(f) ==> f.ops@ == failed_start_ops(*id) && f.error is FFmpeg
                && f.handle is Some == old(self).procs().contains_key(id@),
            r matches Err(f) ==> (f.handle matches Some(h) ==> h == old(self).procs()[id@].handle),
    {
        if running {
            Ok(vec![StoreOp::SetStatus(owned(id), StreamStatus::Live), StoreOp::MarkStarted(owned(id))])
        } else {
            let handle = match self.processes.remove(id) {
                Some(e) => Some(e.handle),
                None => None,
            };
            Err(StartFailure {
                handle,
                ops: vec![StoreOp::SetStatus(owned(id), StreamStatus::Error)],
                error: ManagerError::FFmpeg(String::from_str(
                    "FFmpeg process exited immediately - check video file or stream key",
                )),
            })
        }
    }
}

/// Whole seconds a process that started at `started_at` has run at `now`.
pub open spec fn elapsed_secs(started_at: u64, now: u64) -> u64 {
    if now >= started_at {
        (now - started_at) as u64
    } else {
        0
    }
}

/// Run length of the process of job `id` at `now`, if it has one.
pub open spec fn elapsed_of<P>(procs: Map<Seq<char>, ProcessEntry<P>>, id: Seq<char>, now: u64) -> Option<u64> {
    if procs.contains_key(id) {
        Some(elapsed_secs(procs[id].started_at, now))
    } else {
        None
    }
}

/// The run length shown for a record: the live one while a process runs,
/// else the one recorded at its last stop.
pub open spec fn shown_elapsed<P>(s: Stream, procs: Map<Seq<char>, ProcessEntry<P>>, now: u64) -> Option<u64> {
    if procs.contains_key(s.id@) {
        Some(elapsed_secs(procs[s.id@].started_at, now))
    } else if s.last_elapsed_seconds is Some {
        s.last_elapsed_seconds
    } else {
        s.elapsed_seconds
    }
}

/// Seconds until the automatic stop of a schedule: none for a manual one,
/// the run length for a duration, the time left until a wall-clock instant
/// (zero if past) for an absolute one.
pub fn stop_delay(schedule: &ScheduleConfig) -> (r: Option<u64>)
    ensures
        r is Some <==> stop_delay_defined(*schedule),
        schedule.schedule_type == ScheduleType::Duration ==> (r matches Some(v)
            ==> v as int == duration_seconds(schedule.duration->0)),
        schedule.schedule_type == ScheduleType::Absolute ==> (r matches Some(v) ==> exists|now: i64|
            #![trigger seconds_until(zoned_instant(schedule.absolute->0.datetime@, LOCAL_DATETIME_FORMAT@,
                schedule.absolute->0.timezone@)->0, now as int)]
            v as int == seconds_until(zoned_instant(schedule.absolute->0.datetime@, LOCAL_DATETIME_FORMAT@,
                schedule.absolute->0.timezone@)->0, now as int)),
{
    match schedule.schedule_type {
        ScheduleType::Duration => match &schedule.duration {
            Some(d) => Some(d.to_seconds()),
            None => None,
        },
        ScheduleType::Absolute => match &schedule.absolute {
            Some(a) => Scheduler::calculate_seconds_until(a.datetime.as_str(), a.timezone.as_str()),
            None => None,
        },
        ScheduleType::Manual => None,
    }
}

/// The write that opens a stop of job `id`.
pub fn opening_stop(id: &String) -> (r: Vec<StoreOp>)
    ensures
        r@ == stopping_ops(*id),
{
    vec![StoreOp::SetStatus(owned(id), StreamStatus::Stopping)]
}

/// The writes that close a stop of job `id` with `status`.
pub fn closing_stop(id: &String, status: StreamStatus, elapsed: Option<u64>) -> (r: Vec<StoreOp>)
    ensures
        r@ == finish_ops(*id, status, elapsed),
{
    let mut ops = vec![StoreOp::SetStatus(owned(id), status), StoreOp::MarkStopped(owned(id))];
    if let Some(e) = elapsed {
        ops.push(StoreOp::SetLastElapsed(owned(id), e));
    }
    ops
}

/// Deleting a job stops it first where it is `Live`.
pub fn needs_stop_before_delete(job: Option<&Stream>) -> (r: bool)
    ensures
        r == (job matches Some(j) && j.status == StreamStatus::Live),
{
    match job {
        Some(j) => j.status == StreamStatus::Live,
        None => false,
    }
}

/// The write that deletes job `id`.
pub fn delete_ops(id: &String) -> (r: Vec<StoreOp>)
    ensures
        r@ == seq![StoreOp::Delete(*id)],
{
    vec![StoreOp::Delete(owned(id))]
}

impl<P> StreamManager<P> {
    /// Arms the automatic stop of job `id` at `now_ms`, where its schedule has
    /// one; gives the delay in seconds.
    pub fn arm_stop(&mut self, id: &String, schedule: &ScheduleConfig, now_ms: u64) -> (r: Option<u64>)
        requires
            old(self).wf(),
        ensures
            final(self).wf(),
            final(self).procs() == old(self).procs(),
            r is Some <==> stop_delay_defined(*schedule),
            schedule.schedule_type == ScheduleType::Duration ==> (r matches Some(v)
                ==> v as int == duration_seconds(schedule.duration->0)),
            r matches Some(secs) ==> final(self).timers() == old(self).timers().insert(
                id@,
                TimerState { deadline_ms: deadline_of(secs, now_ms), cancelled: false, fired: false },
            ),
            r is None ==> final(self).timers() == old(self).timers(),
    {
        let delay = stop_delay(schedule);
        if let Some(secs) = delay {
            let t = Scheduler::new(secs, now_ms);
            let _ = self.schedulers.insert(owned(id), t);
            assert(self.timers() =~= old(self).timers().insert(id@, t@));
        }
        delay
    }

    /// Polls the timer of job `id` at `now_ms`. A timer that is no longer in
    /// the table was disarmed: its driver stops and runs nothing.
    pub fn poll_timer(&mut self, id: &String, now_ms: u64) -> (r: TimerStep)
        requires
            old(self).wf(),
        ensures
            final(self).wf(),
            final(self).procs() == old(self).procs(),
            !old(self).timers().contains_key(id@) ==> r == TimerStep::Finished
                && final(self).timers() == old(self).timers(),
            old(self).timers().contains_key(id@) ==> r == poll_step(old(self).timers()[id@], now_ms).1
                && final(self).timers() == old(self).timers().insert(
                    id@,
                    poll_step(old(self).timers()[id@], now_ms).0,
                ),
    {
        match self.schedulers.remove(id) {
            None => {
                TimerStep::Finished
            },
            Some(mut t) => {
                let step = t.poll(now_ms);
                let _ = self.schedulers.insert(owned(id), t);
                assert(self.timers() =~= old(self).timers().insert(id@, t@));
                step
            },
        }
    }

    /// First part of a requested stop of job `id` at `now` (seconds): disarms
    /// its timer and gives the run length of its process.
    pub fn begin_stop(&mut self, id: &String, now: u64) -> (r: Option<u64>)
        requires
            old(self).wf(),
        ensures
            final(self).wf(),
            final(self).procs() == old(self).procs(),
            final(self).timers() == old(self).timers().remove(id@),
            r == elapsed_of(old(self).procs(), id@, now),
    {
        let elapsed = match self.processes.get(id) {
            Some(e) => Some(elapsed_between(e.started_at, now)),
            None => None,
        };
        let _ = self.schedulers.remove(id);
        assert(self.timers() =~= old(self).timers().remove(id@));
        elapsed
    }

    /// Takes the process of job `id` out of the table, for the caller to stop.
    pub fn take_process(&mut self, id: &String) -> (r: Option<P>)
        requires
            old(self).wf(),
        ensures
            final(self).wf(),
            final(self).procs() == old(self).procs().remove(id@),
            final(self).timers() == old(self).timers(),
            r is Some == old(self).procs().contains_key(id@),
            r matches Some(h) ==> h == old(self).procs()[id@].handle,
    {
        match self.processes.remove(id) {
            Some(e) => Some(e.handle),
            None => None,
        }
    }

    /// The stop that the timer of job `id` fired, at `now` (seconds). Where
    /// the timer is no longer in the table a requested stop or a delete came
    /// first, and nothing is done.
    pub fn scheduled_stop(&mut self, id: &String, now: u64) -> (r: Option<ScheduledStop<P>>)
        requires
            old(self).wf(),
        ensures
            final(self).wf(),
            r is Some == old(self).timers().contains_key(id@),
            r is None ==> final(self).procs() == old(self).procs() && final(self).timers() == old(self).timers(),
            r is Some ==> final(self).procs() == old(self).procs().remove(id@)
                && final(self).timers() == old(self).timers().remove(id@),
            r matches Some(s) ==> s.ops@ == finish_ops(*id, StreamStatus::Completed, elapsed_of(old(self).procs(), id@, now))
                && s.handle is Some == old(self).procs().contains_key(id@),
            r matches Some(s) ==> (s.handle matches Some(h) ==> h == old(self).procs()[id@].handle),
    {
        if !self.schedulers.contains(id) {
            return None;
        }
        let elapsed = self.begin_stop(id, now);
        let handle = self.take_process(id);
        Some(ScheduledStop { handle, ops: closing_stop(id, StreamStatus::Completed, elapsed) })
    }

    /// Reconciles job `id` with its liveness probe at `now` (seconds): a
    /// process that no longer runs is taken out of the table and the job is
    /// marked `Error` with its run length.
    pub fn reap(&mut self, id: &String, running: bool, now: u64) -> (r: Option<Reaped<P>>)
        requires
            old(self).wf(),
        ensures
            final(self).wf(),
            final(self).timers() == old(self).timers(),
            r is Some == (!running && old(self).procs().contains_key(id@)),
            r is None ==> final(self).procs() == old(self).procs(),
            r matches Some(d) ==> final(self).procs() == old(self).procs().remove(id@)
                && d.handle == old(self).procs()[id@].handle
                && d.elapsed == elapsed_secs(old(self).procs()[id@].started_at, now)
                && d.ops@ == dead_ops(*id, d.elapsed),
    {
        if running {
            return None;
        }
        match self.processes.remove(id) {
            None => None,
            Some(e) => {
                let elapsed = elapsed_between(e.started_at, now);
                let ops = vec![
                    StoreOp::SetStatus(owned(id), StreamStatus::Error),
                    StoreOp::MarkStopped(owned(id)),
                    StoreOp::SetLastElapsed(owned(id), elapsed),
                ];
                Some(Reaped { handle: e.handle, elapsed, ops })
            },
        }
    }

    /// Records as listed, each with the run length to show at `now` (seconds).
    pub fn overlay_elapsed(&self, streams: Vec<Stream>, now: u64) -> (r: Vec<Stream>)
        requires
            self.wf(),
        ensures
            r@.len() == streams@.len(),
            forall|i: int| 0 <= i < r@.len() ==> #[trigger] r@[i] == (Stream {
                elapsed_seconds: shown_elapsed(streams@[i], self.procs(), now),
                ..streams@[i]
            }),
    {
        let ghost input = streams@;
        let mut rest = streams;
        let mut out: Vec<Stream> = Vec::new();
        while rest.len() > 0
            invariant
                self.wf(),
                out@.len() + rest@.len() == input.len(),
                rest@ == input.subrange(out@.len() as int, input.len() as int),
                forall|i: int| 0 <= i < out@.len() ==> #[trigger] out@[i] == (Stream {
                    elapsed_seconds: shown_elapsed(input[i], self.procs(), now),
                    ..input[i]
                }),
            decreases rest@.len(),
        {
            let ghost k = out@.len() as int;
            let mut s = rest.remove(0);
            assert(s == input[k]);
            match self.processes.get(&s.id) {
                Some(e) => {
                    s.elapsed_seconds = Some(elapsed_between(e.started_at, now));
                },
                None => {
                    if s.last_elapsed_seconds.is_some() {
                        s.elapsed_seconds = s.last_elapsed_seconds;
                    }
                },
            }
            out.push(s);
            assert(rest@ =~= input.subrange(out@.len() as int, input.len() as int));
        }
        out
    }
}

} // verus!
