//! The session timer state machine: one mutable slot holding at most one
//! running session, a snapshot projection, and the decision a periodic tick
//! wake must take.
//!
//! Every read or mutation of a `SessionManager` is meant to happen under one
//! exclusive-access guard owned by the caller. Event emission, task spawning
//! and persistence are the caller's side effects, driven by the outcomes the
//! operations return; the machine itself only computes.
use vstd::prelude::*;

verus! {

/// The planned duration used when a start request names none: 45 minutes.
pub const DEFAULT_DURATION_SEC: u64 = 45 * 60;

/// Whether a session is currently running.
#[derive(Debug, Clone, Copy, PartialEq, Eq, Structural)]
pub enum Status {
    Idle,
    Running,
}

/// An opaque session identifier, held as its 128 bits.
#[derive(Debug, Clone, Copy, PartialEq, Eq, Structural)]
pub struct SessionId {
    pub hi: u64,
    pub lo: u64,
}

/// One running session: immutable once created; ending a session discards it.
#[derive(Debug, Clone, Copy, PartialEq, Eq, Structural)]
pub struct Session {
    pub id: SessionId,
    pub start_ts_ms: i64,
    pub planned_duration_sec: u64,
}

/// The timer state machine. `current` is present iff `status` is `Running`;
/// `tick_task` names the session id the one outstanding tick task serves.
#[derive(Debug)]
pub struct SessionManager {
    pub status: Status,
    pub current: Option<Session>,
    pub tick_task: Option<SessionId>,
}

/// A read-only projection of the timer state for display.
#[derive(Debug, Clone)]
pub struct SessionStateDto {
    pub status: String,
    pub session_id: Option<String>,
    pub planned_duration_sec: u64,
    pub start_ts_ms: Option<i64>,
    pub remaining_sec: u64,
}

/// What a start request produced: the snapshot to emit, and, when a new
/// session was created, the id a fresh tick task must be spawned for.
#[derive(Debug, Clone)]
pub struct StartOutcome {
    pub dto: SessionStateDto,
    pub spawned: Option<SessionId>,
}

/// What one wake of a tick task must do.
#[derive(Debug, Clone)]
pub enum TickOutcome {
    /// The task no longer serves the current session: exit, emit nothing.
    Superseded,
    /// Time remains: emit a tick with this remaining time and sleep again.
    Tick { remaining_sec: u64 },
    /// The session expired: the machine is idle again; emit this terminal
    /// snapshot, record the end with reason "timer", and exit.
    Expired { dto: SessionStateDto },
}

/// The planned duration a start request asks for, or the default.
pub open spec fn duration_or_default(planned_duration_sec: Option<u64>) -> u64 {
    match planned_duration_sec {
        Some(d) => d,
        None => DEFAULT_DURATION_SEC,
    }
}

/// Whole seconds elapsed since `start_ts_ms` at `now_ms`, floored at zero.
pub open spec fn elapsed_sec_at(start_ts_ms: i64, now_ms: i64) -> int {
    (if now_ms >= start_ts_ms {
        now_ms - start_ts_ms
    } else {
        0
    }) / 1000
}

/// Seconds left of a session planned for `planned_duration_sec` that started
/// at `start_ts_ms`, read at `now_ms`: planned minus elapsed, floored at zero.
pub open spec fn remaining_sec_at(planned_duration_sec: u64, start_ts_ms: i64, now_ms: i64) -> u64 {
    let elapsed = elapsed_sec_at(start_ts_ms, now_ms);
    if planned_duration_sec > elapsed {
        (planned_duration_sec - elapsed) as u64
    } else {
        0
    }
}

/// The name of the text uuid's formatting gives an identifier's bits.
pub uninterp spec fn id_str_of(hi: u64, lo: u64) -> Seq<char>;

/// The snapshot an idle machine reports.
pub open spec fn is_idle_dto(dto: SessionStateDto) -> bool {
    &&& dto.status@ == "idle"@
    &&& dto.session_id is None
    &&& dto.planned_duration_sec == DEFAULT_DURATION_SEC
    &&& dto.start_ts_ms is None
    &&& dto.remaining_sec == 0
}

/// The snapshot of session `s` read at `now_ms`.
pub open spec fn is_running_dto(dto: SessionStateDto, s: Session, now_ms: i64) -> bool {
    &&& dto.status@ == "running"@
    &&& dto.session_id matches Some(sid) && sid@ == id_str_of(s.id.hi, s.id.lo)
    &&& dto.planned_duration_sec == s.planned_duration_sec
    &&& dto.start_ts_ms == Some(s.start_ts_ms)
    &&& dto.remaining_sec == remaining_sec_at(s.planned_duration_sec, s.start_ts_ms, now_ms)
}

/// `dto` is the snapshot of machine `m` read at `now_ms`.
pub open spec fn is_snapshot_of(dto: SessionStateDto, m: SessionManager, now_ms: i64) -> bool {
    if m.status == Status::Running && m.current is Some {
        is_running_dto(dto, m.current->0, now_ms)
    } else {
        is_idle_dto(dto)
    }
}

/// The state of a freshly constructed or stopped machine.
pub open spec fn idle_manager() -> SessionManager {
    SessionManager { status: Status::Idle, current: None, tick_task: None }
}

/// The state right after a session with id `id` and planned duration
/// `planned_sec` started at `now_ms`.
pub open spec fn running_manager(now_ms: i64, id: SessionId, planned_sec: u64) -> SessionManager {
    SessionManager {
        status: Status::Running,
        current: Some(Session { id, start_ts_ms: now_ms, planned_duration_sec: planned_sec }),
        tick_task: Some(id),
    }
}

/// A tick task spawned for `task_id` waking against machine `m` finds itself
/// superseded: the machine is not running, or runs some other session. Such a
/// wake must exit without emitting or mutating anything.
pub open spec fn tick_superseded(m: SessionManager, task_id: SessionId) -> bool {
    !(m.status == Status::Running && m.current is Some && m.current->0.id == task_id)
}

impl SessionManager {
    /// The machine's invariant: `current` is present iff running, the tick
    /// task handle is present iff running, and the outstanding tick task is
    /// the current session's.
    pub open spec fn wf(self) -> bool {
        &&& ((self.status == Status::Running) <==> (self.current is Some))
        &&& ((self.status == Status::Running) <==> (self.tick_task is Some))
        &&& (self.current is Some ==> self.tick_task == Some(self.current->0.id))
    }
}

impl SessionStateDto {
    /// The snapshot reported while no session runs.
    pub fn idle() -> (dto: SessionStateDto)
        ensures
            is_idle_dto(dto),
    {
        SessionStateDto {
            status: "idle".to_owned(),
            session_id: None,
            planned_duration_sec: DEFAULT_DURATION_SEC,
            start_ts_ms: None,
            remaining_sec: 0,
        }
    }
}

/// Relies on uuid::Uuid::new_v4 for a fresh random identifier. The value is
/// random, so nothing is assumed of it: every caller is proved for any value.
#[verifier::external_body]
fn new_session_id() -> SessionId {
    let (hi, lo) = uuid::Uuid::new_v4().as_u64_pair();
    SessionId { hi, lo }
}

/// Relies on uuid::Uuid::from_u64_pair and uuid's Display impl (hyphenated
/// lowercase hex): the text depends on the identifier's bits alone.
#[verifier::external_body]
fn session_id_string(id: &SessionId) -> (r: String)
    ensures
        r@ == id_str_of(id.hi, id.lo),
{
    uuid::Uuid::from_u64_pair(id.hi, id.lo).to_string()
}

impl SessionManager {
    /// A fresh machine: idle, no session, no tick task.
    pub fn new() -> (m: SessionManager)
        ensures
            m == idle_manager(),
            m.wf(),
    {
        SessionManager { status: Status::Idle, current: None, tick_task: None }
    }

    /// Pure read: the snapshot of this machine at `now_ms`. Never mutates,
    /// never fails, safe from any context that holds the guard.
    pub fn get_state_dto(&self, now_ms: i64) -> (dto: SessionStateDto)
        ensures
            is_snapshot_of(dto, *self, now_ms),
    {
        match (&self.status, &self.current) {
            (Status::Running, Some(session)) => {
                let diff: i128 = (now_ms as i128) - (session.start_ts_ms as i128);
                assert(diff <= u64::MAX as i128);
                let elapsed_ms: u64 = if diff >= 0 {
                    diff as u64
                } else {
                    0
                };
                let elapsed_sec: u64 = elapsed_ms / 1000;
                let remaining: u64 = if session.planned_duration_sec > elapsed_sec {
                    session.planned_duration_sec - elapsed_sec
                } else {
                    0
                };
                SessionStateDto {
                    status: "running".to_owned(),
                    session_id: Some(session_id_string(&session.id)),
                    planned_duration_sec: session.planned_duration_sec,
                    start_ts_ms: Some(session.start_ts_ms),
                    remaining_sec: remaining,
                }
            },
            _ => SessionStateDto::idle(),
        }
    }

    /// Forgets the outstanding tick task, if any. The caller owns the actual
    /// task handle and must abort it whenever a new task is about to be
    /// installed or the machine goes idle.
    fn cancel_tick_task(&mut self)
        ensures
            *final(self) == (SessionManager { tick_task: None, ..*old(self) }),
    {
        self.tick_task = None;
    }

    /// Manual stop: cancels the tick task, goes idle, and returns the idle
    /// snapshot for the caller to emit. A stop while already idle is a safe
    /// no-op that still yields the idle snapshot. The caller records the end
    /// (reason "manual") against the id that was active before this call.
    pub fn stop(&mut self) -> (dto: SessionStateDto)
        ensures
            *final(self) == idle_manager(),
            is_idle_dto(dto),
    {
        self.cancel_tick_task();
        self.status = Status::Idle;
        self.current = None;
        self.get_state_dto(crate::storage::now_ms())
    }

    /// Start at a given time with a given fresh identifier. While already
    /// running this is a no-op that returns the current snapshot: a duplicate
    /// start must not reset or restart the in-flight session. From idle it
    /// installs a new session (planned duration defaulted when absent),
    /// records the new tick task's id, and returns the snapshot to emit plus
    /// the id to spawn the task for.
    pub fn start_at(
        &mut self,
        now_ms: i64,
        id: SessionId,
        planned_duration_sec: Option<u64>,
    ) -> (r: StartOutcome)
        ensures
            old(self).status == Status::Running ==> ({
                &&& *final(self) == *old(self)
                &&& r.spawned is None
                &&& is_snapshot_of(r.dto, *old(self), now_ms)
            }),
            old(self).status == Status::Idle ==> ({
                &&& *final(self) == running_manager(
                    now_ms,
                    id,
                    duration_or_default(planned_duration_sec),
                )
                &&& r.spawned == Some(id)
                &&& is_running_dto(
                    r.dto,
                    (Session {
                        id,
                        start_ts_ms: now_ms,
                        planned_duration_sec: duration_or_default(planned_duration_sec),
                    }),
                    now_ms,
                )
            }),
            old(self).wf() ==> final(self).wf(),
    {
        if self.status == Status::Running {
            let dto = self.get_state_dto(now_ms);
            return StartOutcome { dto, spawned: None };
        }
        self.cancel_tick_task();
        let planned = match planned_duration_sec {
            Some(d) => d,
            None => DEFAULT_DURATION_SEC,
        };
        let session = Session { id, start_ts_ms: now_ms, planned_duration_sec: planned };
        self.status = Status::Running;
        self.current = Some(session);
        self.tick_task = Some(id);
        let dto = self.get_state_dto(now_ms);
        StartOutcome { dto, spawned: Some(id) }
    }

    /// Start a session now, with a fresh random identifier. Idempotent while
    /// running: the existing session's id and start time are untouched and its
    /// snapshot is returned.
    pub fn start(&mut self, planned_duration_sec: Option<u64>) -> (r: StartOutcome)
        ensures
            old(self).status == Status::Running ==> ({
                &&& *final(self) == *old(self)
                &&& r.spawned is None
                &&& (exists|t: i64| is_snapshot_of(r.dto, *old(self), t))
            }),
            old(self).status == Status::Idle ==> ({
                let s = final(self).current->0;
                &&& final(self).status == Status::Running
                &&& final(self).current is Some
                &&& s.planned_duration_sec == duration_or_default(planned_duration_sec)
                &&& final(self).tick_task == Some(s.id)
                &&& r.spawned == Some(s.id)
                &&& is_running_dto(r.dto, s, s.start_ts_ms)
            }),
            old(self).wf() ==> final(self).wf(),
    {
        let now_ms = crate::storage::now_ms();
        let id = new_session_id();
        self.start_at(now_ms, id, planned_duration_sec)
    }

    /// One wake of the tick task spawned for `task_id`, at time `now_ms`.
    /// If the machine no longer runs that session the task is superseded and
    /// nothing changes. Otherwise, with time remaining the wake reports a
    /// tick; at zero the machine goes idle and the wake reports expiry with
    /// the terminal snapshot to emit.
    pub fn on_tick(&mut self, task_id: SessionId, now_ms: i64) -> (r: TickOutcome)
        ensures
            tick_superseded(*old(self), task_id) ==> r == TickOutcome::Superseded && *final(self)
                == *old(self),
            !tick_superseded(*old(self), task_id) ==> ({
                let s = old(self).current->0;
                let rem = remaining_sec_at(s.planned_duration_sec, s.start_ts_ms, now_ms);
                &&& rem > 0 ==> r == (TickOutcome::Tick { remaining_sec: rem }) && *final(self)
                    == *old(self)
                &&& rem == 0 ==> (r matches TickOutcome::Expired { dto } && is_idle_dto(dto))
                    && *final(self) == idle_manager()
            }),
            old(self).wf() ==> final(self).wf(),
    {
        let authoritative = match (&self.status, &self.current) {
            (Status::Running, Some(session)) => session.id == task_id,
            _ => false,
        };
        if !authoritative {
            return TickOutcome::Superseded;
        }
        let dto = self.get_state_dto(now_ms);
        if dto.remaining_sec > 0 {
            TickOutcome::Tick { remaining_sec: dto.remaining_sec }
        } else {
            self.cancel_tick_task();
            self.status = Status::Idle;
            self.current = None;
            let end_dto = self.get_state_dto(now_ms);
            TickOutcome::Expired { dto: end_dto }
        }
    }
}

/// Monotonic remaining time: for one session, later readings never report
/// more remaining seconds, and the value is floored at zero by its type.
pub proof fn lemma_remaining_monotonic(planned_duration_sec: u64, start_ts_ms: i64, n1: i64, n2: i64)
    requires
        n1 <= n2,
    ensures
        remaining_sec_at(planned_duration_sec, start_ts_ms, n2) <= remaining_sec_at(
            planned_duration_sec,
            start_ts_ms,
            n1,
        ),
{
    let e1 = if n1 >= start_ts_ms {
        n1 - start_ts_ms
    } else {
        0int
    };
    let e2 = if n2 >= start_ts_ms {
        n2 - start_ts_ms
    } else {
        0int
    };
    vstd::arithmetic::div_mod::lemma_div_is_ordered(e1, e2, 1000);
}

/// Stop-then-start race safety: after a stop and a fresh start with a new
/// identifier, a wake of the tick task of the stopped session is superseded —
/// both against the idle machine the stop leaves and against the machine the
/// new start installs — so by `on_tick`'s contract it exits without emitting
/// and leaves the new session's state untouched.
pub proof fn lemma_stop_start_race_safety(
    old_task: SessionId,
    new_id: SessionId,
    now_ms: i64,
    planned_sec: u64,
)
    requires
        old_task != new_id,
    ensures
        tick_superseded(idle_manager(), old_task),
        tick_superseded(running_manager(now_ms, new_id, planned_sec), old_task),
{
}

/// At most one live ticking task can act: against a well-formed machine, a
/// wake for any session id other than the one the machine's tick task serves
/// is superseded, so superseded tasks emit nothing after being replaced.
pub proof fn lemma_superseded_task_is_silent(m: SessionManager, task_id: SessionId)
    requires
        m.wf(),
        m.tick_task != Some(task_id),
    ensures
        tick_superseded(m, task_id),
{
}

} // verus!
