use waypace::session::{SessionId, SessionManager, StartOutcome, TickOutcome};
use waypace::storage::{bool_to_i64, now_ms};

fn sid(hi: u64, lo: u64) -> SessionId {
    SessionId { hi, lo }
}

#[test]
fn idle_default_snapshot() {
    let m = SessionManager::new();
    let dto = m.get_state_dto(now_ms());
    assert_eq!(dto.status, "idle");
    assert_eq!(dto.session_id, None);
    assert_eq!(dto.planned_duration_sec, 2700);
    assert_eq!(dto.start_ts_ms, None);
    assert_eq!(dto.remaining_sec, 0);
}

#[test]
fn default_duration() {
    let mut m = SessionManager::new();
    let r = m.start(None);
    assert_eq!(r.dto.planned_duration_sec, 2700);
    assert_eq!(r.dto.status, "running");
    assert!(r.spawned.is_some());
}

#[test]
fn idempotent_start() {
    let mut m = SessionManager::new();
    let first = m.start_at(5_000, sid(7, 8), Some(60));
    let again = m.start_at(5_400, sid(9, 10), Some(120));
    assert_eq!(again.dto.session_id, first.dto.session_id);
    assert_eq!(again.dto.start_ts_ms, Some(5_000));
    assert_eq!(again.dto.planned_duration_sec, 60);
    assert!(again.spawned.is_none());
}

#[test]
fn monotonic_remaining() {
    let mut m = SessionManager::new();
    m.start_at(0, sid(1, 1), Some(10));
    let mut last = u64::MAX;
    for now in [0i64, 1, 999, 1_000, 1_001, 5_500, 9_999, 10_000, 20_000] {
        let remaining = m.get_state_dto(now).remaining_sec;
        assert!(remaining <= last);
        last = remaining;
    }
    assert_eq!(last, 0);
}

#[test]
fn exact_expiry_semantics() {
    let t0: i64 = 10_000;
    let id = sid(3, 4);
    let mut m = SessionManager::new();
    m.start_at(t0, id, Some(2));
    assert_eq!(m.get_state_dto(t0).remaining_sec, 2);
    assert_eq!(m.get_state_dto(t0 + 999).remaining_sec, 2);
    assert_eq!(m.get_state_dto(t0 + 1_000).remaining_sec, 1);
    assert_eq!(m.get_state_dto(t0 + 2_000).remaining_sec, 0);

    // A wake before expiry only ticks.
    match m.on_tick(id, t0 + 1_000) {
        TickOutcome::Tick { remaining_sec } => assert_eq!(remaining_sec, 1),
        other => panic!("expected a tick, got {other:?}"),
    }
    // The wake at expiry yields exactly one terminal snapshot.
    match m.on_tick(id, t0 + 3_000) {
        TickOutcome::Expired { dto } => {
            assert_eq!(dto.status, "idle");
            assert_eq!(dto.session_id, None);
            assert_eq!(dto.remaining_sec, 0);
        }
        other => panic!("expected expiry, got {other:?}"),
    }
    assert_eq!(m.get_state_dto(t0 + 3_000).status, "idle");
    // Any later wake of the same task is superseded: no second terminal event.
    assert!(matches!(m.on_tick(id, t0 + 4_000), TickOutcome::Superseded));
}

#[test]
fn stop_then_start_race() {
    let old_id = sid(11, 12);
    let new_id = sid(13, 14);
    let mut m = SessionManager::new();
    m.start_at(1_000, old_id, Some(30));
    let stopped = m.stop();
    assert_eq!(stopped.status, "idle");

    // The old task wakes between the stop and the new start: superseded.
    assert!(matches!(m.on_tick(old_id, 1_500), TickOutcome::Superseded));

    let started = m.start_at(2_000, new_id, Some(30));
    assert!(started.spawned.is_some());

    // The old task's late wake must not disturb the new session.
    assert!(matches!(m.on_tick(old_id, 2_500), TickOutcome::Superseded));
    let dto = m.get_state_dto(3_000);
    assert_eq!(dto.status, "running");
    assert_eq!(dto.start_ts_ms, Some(2_000));
    assert_eq!(dto.remaining_sec, 29);
    // The new session's remaining sequence is undisturbed afterwards.
    assert_eq!(m.get_state_dto(12_000).remaining_sec, 20);
}

#[test]
fn superseded_tasks_emit_nothing() {
    let mut m = SessionManager::new();
    let mut old_ids: Vec<SessionId> = Vec::new();
    for round in 0..4u64 {
        let id = sid(round, round);
        m.start_at(round as i64 * 1_000, id, Some(600));
        m.stop();
        old_ids.push(id);
    }
    let live = sid(99, 99);
    m.start_at(10_000, live, Some(600));
    // Every superseded task's wake is silent, at any time.
    for id in &old_ids {
        assert!(matches!(m.on_tick(*id, 10_500), TickOutcome::Superseded));
    }
    // Only the live task ticks.
    assert!(matches!(m.on_tick(live, 10_500), TickOutcome::Tick { .. }));
}

#[test]
fn stop_while_idle_is_noop() {
    let mut m = SessionManager::new();
    let dto = m.stop();
    assert_eq!(dto.status, "idle");
    assert_eq!(dto.session_id, None);
    assert_eq!(dto.planned_duration_sec, 2700);
    assert_eq!(dto.remaining_sec, 0);
    let dto2 = m.get_state_dto(now_ms());
    assert_eq!(dto2.status, "idle");
}

#[test]
fn session_id_text_is_hyphenated_uuid() {
    let mut m = SessionManager::new();
    let r = m.start_at(0, sid(0xa1a2a3a4b1b2c1c2, 0xd1d2d3d4d5d6d7d8), Some(5));
    assert_eq!(
        r.dto.session_id.as_deref(),
        Some("a1a2a3a4-b1b2-c1c2-d1d2-d3d4d5d6d7d8")
    );

    let mut m2 = SessionManager::new();
    let r2 = m2.start_at(0, sid(1, 2), Some(5));
    let expected = uuid::Uuid::from_u64_pair(1, 2).to_string();
    assert_eq!(r2.dto.session_id.as_deref(), Some(expected.as_str()));
}

#[test]
fn fresh_ids_vary() {
    let mut m = SessionManager::new();
    let StartOutcome { dto: first, .. } = m.start(Some(5));
    m.stop();
    let StartOutcome { dto: second, .. } = m.start(Some(5));
    // Random v4 identifiers: a collision would be astronomically unlikely.
    assert_ne!(first.session_id, second.session_id);
}

#[test]
fn remaining_formula_exact_values() {
    let mut m = SessionManager::new();
    m.start_at(1_000_000, sid(2, 2), Some(2700));
    assert_eq!(m.get_state_dto(1_000_000).remaining_sec, 2700);
    assert_eq!(m.get_state_dto(1_000_999).remaining_sec, 2700);
    assert_eq!(m.get_state_dto(1_001_000).remaining_sec, 2699);
    assert_eq!(m.get_state_dto(1_350_500).remaining_sec, 2350);
    assert_eq!(m.get_state_dto(3_700_000).remaining_sec, 0);
    assert_eq!(m.get_state_dto(999_999_999).remaining_sec, 0);
    // A clock reading before the start counts as zero elapsed time.
    assert_eq!(m.get_state_dto(500_000).remaining_sec, 2700);
    assert_eq!(m.get_state_dto(i64::MIN).remaining_sec, 2700);
    assert_eq!(m.get_state_dto(i64::MAX).remaining_sec, 0);
}

#[test]
fn bool_encoding() {
    assert_eq!(bool_to_i64(true), 1);
    assert_eq!(bool_to_i64(false), 0);
}
