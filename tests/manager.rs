use youtube_live_manager::manager::{
    closing_stop, delete_ops, needs_stop_before_delete, opening_stop, stop_delay, ManagerError, StoreOp,
    StreamManager,
};
use youtube_live_manager::scheduler::TimerStep;
use youtube_live_manager::types::{
    AbsoluteConfig, DurationConfig, ScheduleConfig, ScheduleType, Stream, StreamInput, StreamStatus,
};

/// A store kept in memory, newest record first.
struct Store {
    rows: Vec<Stream>,
}

impl Store {
    fn get(&self, id: &str) -> Option<&Stream> {
        self.rows.iter().find(|s| s.id == id)
    }

    fn apply(&mut self, ops: &[StoreOp]) {
        for op in ops {
            match op {
                StoreOp::SetStatus(id, st) => {
                    if let Some(r) = self.rows.iter_mut().find(|s| &s.id == id) {
                        r.status = *st;
                    }
                }
                StoreOp::MarkStarted(id) => {
                    if let Some(r) = self.rows.iter_mut().find(|s| &s.id == id) {
                        r.started_at = Some("now".to_string());
                    }
                }
                StoreOp::MarkStopped(id) => {
                    if let Some(r) = self.rows.iter_mut().find(|s| &s.id == id) {
                        r.stopped_at = Some("now".to_string());
                    }
                }
                StoreOp::SetLastElapsed(id, e) => {
                    if let Some(r) = self.rows.iter_mut().find(|s| &s.id == id) {
                        r.last_elapsed_seconds = Some(*e);
                    }
                }
                StoreOp::Delete(id) => self.rows.retain(|s| &s.id != id),
            }
        }
    }
}

fn input(key: &str, schedule: ScheduleConfig) -> StreamInput {
    StreamInput {
        name: format!("job {}", key),
        youtube_key: key.to_string(),
        video_path: "/videos/loop.mp4".to_string(),
        schedule,
        created_at: "2024-01-01T00:00:00Z".to_string(),
        start_immediately: false,
    }
}

fn add(m: &StreamManager<u32>, store: &mut Store, key: &str, schedule: ScheduleConfig) -> String {
    let s = m.add_stream(&store.rows, input(key, schedule)).unwrap();
    let id = s.id.clone();
    store.rows.insert(0, s);
    id
}

/// A start whose process is confirmed alive, at `now` seconds.
fn start(m: &mut StreamManager<u32>, store: &mut Store, id: &str, handle: u32, now: u64) -> Result<(), ManagerError> {
    let id = id.to_string();
    let job = store.get(&id).cloned();
    m.begin_start(&id, job.as_ref(), &store.rows)?;
    assert_eq!(m.register_process(id.clone(), handle, now), None);
    let ops = m.confirm_start(&id, true).ok().unwrap();
    store.apply(&ops);
    m.arm_stop(&id, &job.unwrap().schedule, now * 1000);
    Ok(())
}

fn stop(m: &mut StreamManager<u32>, store: &mut Store, id: &str, now: u64) -> Option<u32> {
    let id = id.to_string();
    let elapsed = m.begin_stop(&id, now);
    store.apply(&opening_stop(&id));
    let h = m.take_process(&id);
    store.apply(&closing_stop(&id, StreamStatus::Completed, elapsed));
    h
}

fn consistent(m: &StreamManager<u32>, store: &Store) -> bool {
    store.rows.iter().all(|s| (s.status == StreamStatus::Live) == m.is_live(&s.id))
}

#[test]
fn add_creates_idle_record_with_fresh_id() {
    let m: StreamManager<u32> = StreamManager::new();
    let mut store = Store { rows: Vec::new() };
    let a = add(&m, &mut store, "k1", ScheduleConfig::manual());
    let b = add(&m, &mut store, "k2", ScheduleConfig::manual());
    assert_eq!(a.len(), 36);
    assert_ne!(a, b);
    let s = store.get(&a).unwrap();
    assert_eq!(s.status, StreamStatus::Idle);
    assert_eq!(s.youtube_key, "k1");
    assert!(s.started_at.is_none() && s.last_elapsed_seconds.is_none() && s.elapsed_seconds.is_none());
}

#[test]
fn add_refuses_key_of_live_job() {
    let mut m: StreamManager<u32> = StreamManager::new();
    let mut store = Store { rows: Vec::new() };
    let a = add(&m, &mut store, "same", ScheduleConfig::manual());
    // An idle job with the key does not block a new one.
    assert!(m.add_stream(&store.rows, input("same", ScheduleConfig::manual())).is_ok());
    start(&mut m, &mut store, &a, 7, 100).unwrap();
    match m.add_stream(&store.rows, input("same", ScheduleConfig::manual())) {
        Err(ManagerError::DuplicateKey(k)) => assert_eq!(k, "same"),
        other => panic!("unexpected {:?}", other.map(|s| s.id)),
    }
}

#[test]
fn start_unknown_job_is_not_found() {
    let m: StreamManager<u32> = StreamManager::new();
    let id = "nope".to_string();
    match m.begin_start(&id, None, &Vec::new()) {
        Err(ManagerError::NotFound(s)) => assert_eq!(s, "nope"),
        other => panic!("unexpected {:?}", other),
    }
}

#[test]
fn start_live_job_is_already_running() {
    let mut m: StreamManager<u32> = StreamManager::new();
    let mut store = Store { rows: Vec::new() };
    let a = add(&m, &mut store, "k", ScheduleConfig::manual());
    start(&mut m, &mut store, &a, 1, 0).unwrap();
    match start(&mut m, &mut store, &a, 2, 1) {
        Err(ManagerError::AlreadyRunning(s)) => assert_eq!(s, a),
        other => panic!("unexpected {:?}", other),
    }
}

#[test]
fn duplicate_key_refused_until_first_stops() {
    let mut m: StreamManager<u32> = StreamManager::new();
    let mut store = Store { rows: Vec::new() };
    let a = add(&m, &mut store, "shared", ScheduleConfig::manual());
    let b = add(&m, &mut store, "shared", ScheduleConfig::manual());
    start(&mut m, &mut store, &a, 1, 0).unwrap();
    match start(&mut m, &mut store, &b, 2, 5) {
        Err(ManagerError::DuplicateKey(k)) => assert_eq!(k, "shared"),
        other => panic!("unexpected {:?}", other),
    }
    assert_eq!(stop(&mut m, &mut store, &a, 10), Some(1));
    start(&mut m, &mut store, &b, 2, 11).unwrap();
    assert!(m.is_live(&b));
    assert!(consistent(&m, &store));
}

#[test]
fn live_status_matches_process_table_over_start_stop() {
    let mut m: StreamManager<u32> = StreamManager::new();
    let mut store = Store { rows: Vec::new() };
    let a = add(&m, &mut store, "k", ScheduleConfig::manual());
    assert!(consistent(&m, &store));
    start(&mut m, &mut store, &a, 1, 0).unwrap();
    assert!(consistent(&m, &store));
    stop(&mut m, &mut store, &a, 30);
    assert!(consistent(&m, &store));
    start(&mut m, &mut store, &a, 2, 40).unwrap();
    assert!(consistent(&m, &store));
    stop(&mut m, &mut store, &a, 45);
    assert!(consistent(&m, &store));
    let s = store.get(&a).unwrap();
    assert_eq!(s.status, StreamStatus::Completed);
    assert_eq!(s.last_elapsed_seconds, Some(5));
}

#[test]
fn process_dying_in_grace_window_marks_error() {
    let mut m: StreamManager<u32> = StreamManager::new();
    let mut store = Store { rows: Vec::new() };
    let a = add(&m, &mut store, "k", ScheduleConfig::manual());
    let job = store.get(&a).cloned();
    m.begin_start(&a, job.as_ref(), &store.rows).unwrap();
    m.register_process(a.clone(), 9, 0);
    match m.confirm_start(&a, false) {
        Err(f) => {
            assert_eq!(f.handle, Some(9));
            assert!(matches!(f.error, ManagerError::FFmpeg(_)));
            store.apply(&f.ops);
        }
        Ok(_) => panic!("a dead process must not start"),
    }
    assert!(!m.is_live(&a));
    assert_eq!(store.get(&a).unwrap().status, StreamStatus::Error);
    assert!(consistent(&m, &store));
}

#[test]
fn duration_schedule_fires_scheduled_stop() {
    let mut m: StreamManager<u32> = StreamManager::new();
    let mut store = Store { rows: Vec::new() };
    let sched = ScheduleConfig {
        schedule_type: ScheduleType::Duration,
        duration: Some(DurationConfig { hours: 0, minutes: 1, seconds: 30 }),
        absolute: None,
    };
    let a = add(&m, &mut store, "k", sched);
    start(&mut m, &mut store, &a, 3, 1_000).unwrap();
    assert!(m.has_timer(&a));
    assert_eq!(m.poll_timer(&a, 1_000_000), TimerStep::Sleep(100));
    assert_eq!(m.poll_timer(&a, 1_090_000), TimerStep::Fire);
    let s = m.scheduled_stop(&a, 1_090).unwrap();
    assert_eq!(s.handle, Some(3));
    store.apply(&s.ops);
    assert!(!m.has_timer(&a) && !m.is_live(&a));
    let rec = store.get(&a).unwrap();
    assert_eq!(rec.status, StreamStatus::Completed);
    assert_eq!(rec.last_elapsed_seconds, Some(90));
    assert_eq!(m.poll_timer(&a, 1_100_000), TimerStep::Finished);
}

#[test]
fn stop_then_late_timer_is_a_no_op() {
    let mut m: StreamManager<u32> = StreamManager::new();
    let mut store = Store { rows: Vec::new() };
    let sched = ScheduleConfig {
        schedule_type: ScheduleType::Duration,
        duration: Some(DurationConfig { hours: 0, minutes: 0, seconds: 10 }),
        absolute: None,
    };
    let a = add(&m, &mut store, "k", sched);
    start(&mut m, &mut store, &a, 4, 0).unwrap();
    assert_eq!(m.poll_timer(&a, 10_000), TimerStep::Fire);
    assert_eq!(stop(&mut m, &mut store, &a, 10), Some(4));
    assert!(m.scheduled_stop(&a, 10).is_none());
    assert!(m.take_process(&a).is_none());
    assert_eq!(store.get(&a).unwrap().status, StreamStatus::Completed);
    assert_eq!(m.poll_timer(&a, 20_000), TimerStep::Finished);
}

#[test]
fn reconciliation_marks_dead_process_error() {
    let mut m: StreamManager<u32> = StreamManager::new();
    let mut store = Store { rows: Vec::new() };
    let a = add(&m, &mut store, "k1", ScheduleConfig::manual());
    let b = add(&m, &mut store, "k2", ScheduleConfig::manual());
    start(&mut m, &mut store, &a, 1, 100).unwrap();
    start(&mut m, &mut store, &b, 2, 100).unwrap();
    assert!(m.reap(&a, true, 103).is_none());
    let d = m.reap(&b, false, 103).unwrap();
    assert_eq!((d.handle, d.elapsed), (2, 3));
    store.apply(&d.ops);
    let rec = store.get(&b).unwrap();
    assert_eq!(rec.status, StreamStatus::Error);
    assert_eq!(rec.last_elapsed_seconds, Some(3));
    assert!(rec.stopped_at.is_some());
    assert!(m.is_live(&a) && !m.is_live(&b));
    assert!(m.reap(&b, false, 106).is_none());
    assert!(consistent(&m, &store));
}

#[test]
fn deleting_live_job_stops_it_first() {
    let mut m: StreamManager<u32> = StreamManager::new();
    let mut store = Store { rows: Vec::new() };
    let a = add(&m, &mut store, "k", ScheduleConfig::manual());
    start(&mut m, &mut store, &a, 5, 0).unwrap();
    assert!(needs_stop_before_delete(store.get(&a)));
    assert_eq!(stop(&mut m, &mut store, &a, 8), Some(5));
    assert_eq!(store.get(&a).unwrap().status, StreamStatus::Completed);
    store.apply(&delete_ops(&a));
    assert!(store.get(&a).is_none());
    assert!(!m.is_live(&a));
    let listed = m.overlay_elapsed(store.rows.clone(), 9);
    assert!(listed.iter().all(|s| s.id != a));
    assert!(!needs_stop_before_delete(None));
}

#[test]
fn list_overlays_elapsed() {
    let mut m: StreamManager<u32> = StreamManager::new();
    let mut store = Store { rows: Vec::new() };
    let a = add(&m, &mut store, "k1", ScheduleConfig::manual());
    let b = add(&m, &mut store, "k2", ScheduleConfig::manual());
    let c = add(&m, &mut store, "k3", ScheduleConfig::manual());
    start(&mut m, &mut store, &a, 1, 100).unwrap();
    start(&mut m, &mut store, &b, 2, 100).unwrap();
    stop(&mut m, &mut store, &b, 160);
    let listed = m.overlay_elapsed(store.rows.clone(), 130);
    assert_eq!(listed.len(), 3);
    let by_id = |id: &str| listed.iter().find(|s| s.id == id).unwrap().elapsed_seconds;
    assert_eq!(by_id(&a), Some(30));
    assert_eq!(by_id(&b), Some(60));
    assert_eq!(by_id(&c), None);
    assert_eq!(listed[0].id, c);
}

#[test]
fn stop_delay_per_schedule_kind() {
    assert_eq!(stop_delay(&ScheduleConfig::manual()), None);
    let d = ScheduleConfig {
        schedule_type: ScheduleType::Duration,
        duration: Some(DurationConfig { hours: 2, minutes: 0, seconds: 5 }),
        absolute: None,
    };
    assert_eq!(stop_delay(&d), Some(7205));
    let missing = ScheduleConfig { schedule_type: ScheduleType::Duration, duration: None, absolute: None };
    assert_eq!(stop_delay(&missing), None);
    let past = ScheduleConfig {
        schedule_type: ScheduleType::Absolute,
        duration: None,
        absolute: Some(AbsoluteConfig { datetime: "2001-01-01T00:00".to_string(), timezone: "UTC".to_string() }),
    };
    assert_eq!(stop_delay(&past), Some(0));
    let bad = ScheduleConfig {
        schedule_type: ScheduleType::Absolute,
        duration: None,
        absolute: Some(AbsoluteConfig { datetime: "soon".to_string(), timezone: "UTC".to_string() }),
    };
    assert_eq!(stop_delay(&bad), None);
}

#[test]
fn closing_stop_writes() {
    let id = "x".to_string();
    let ops = closing_stop(&id, StreamStatus::Completed, None);
    assert_eq!(ops.len(), 2);
    let ops = closing_stop(&id, StreamStatus::Completed, Some(4));
    assert!(matches!(ops[2], StoreOp::SetLastElapsed(_, 4)));
    assert!(matches!(opening_stop(&id)[0], StoreOp::SetStatus(_, StreamStatus::Stopping)));
}

#[test]
fn register_replaces_existing_handle() {
    let mut m: StreamManager<u32> = StreamManager::new();
    let id = "j".to_string();
    assert_eq!(m.register_process(id.clone(), 1, 0), None);
    assert_eq!(m.register_process(id.clone(), 2, 5), Some(1));
    assert_eq!(m.process(&id), Some(&2));
    assert_eq!(m.process_ids(), vec![id]);
}
