use vstd::prelude::*;
use crate::errors::ErrorKind;

verus! {

/// What a client asks for when creating a container.
#[derive(Debug, PartialEq, Eq)]
pub struct ContainerConfig {
    pub bundle_path: String,
    pub image: String,
    pub command: Vec<String>,
}

/// Whether a container creation request passes validation: a non-empty
/// image reference.
pub open spec fn ctr_cfg_valid(cfg: ContainerConfig) -> bool {
    cfg.image@.len() > 0
}

/// The phase of one container's lifecycle. `Creating` covers the gap
/// between accepting `Create` and the runtime's exit plus the pid-file
/// read; `StartPending` the gap between accepting `Start` and the
/// runtime's exit; `Deleting` covers the forced cleanup.
#[derive(Debug, Clone, Copy, PartialEq, Eq, Structural)]
pub enum CtrPhase {
    Absent,
    Creating,
    Created,
    StartPending,
    Running,
    Exited,
    Failed,
    Deleting,
}

/// Why a container was marked failed.
#[derive(Debug, Clone, Copy, PartialEq, Eq, Structural)]
pub enum CtrFailReason {
    CreateFailed,
    StartFailed,
}

/// A container lifecycle event published to subscribers.
#[derive(Debug, Clone, Copy, PartialEq, Eq, Structural)]
pub enum CtrEventKind {
    ContainerCreated { pid: i32 },
    ContainerStarted,
    ContainerStopped { code: i32 },
    ContainerFailed { reason: CtrFailReason },
}

/// An event tagged with the owning workload id.
#[derive(Debug, Clone, Copy, PartialEq, Eq, Structural)]
pub struct CtrEvent {
    pub id: u128,
    pub kind: CtrEventKind,
}

/// What the container dispatcher hears: client commands, and outcomes of
/// the runtime work performed on its behalf.
#[derive(Debug)]
pub enum CtrMsg {
    Create(ContainerConfig),
    /// The create protocol finished: the runtime exited cleanly and the
    /// pid-file parsed to this init pid.
    CreateDone { pid: i32 },
    /// The create protocol failed on any of its paths.
    CreateFailed,
    Start,
    /// The runtime's `start` call exited cleanly.
    StartDone,
    /// The runtime's `start` call failed.
    StartFailed,
    /// Forward a signal to the running container.
    Kill { signal: u64 },
    /// The background reaper saw the init process exit with this code
    /// (already folded through the signal rule).
    Reaped { code: i32 },
    Delete,
    /// The runtime's forced cleanup finished.
    DeleteFinished,
}

/// The runtime work a step asks the surrounding runtime to perform.
/// `RunCreate` stands for the whole create protocol (spawn with null
/// output, wait, read and remove the pid-file); `SpawnReaper` for a
/// background `waitpid` on the init pid; `RunDelete` for
/// `delete --force`.
#[derive(Debug, Clone, Copy, PartialEq, Eq, Structural)]
pub enum CtrAction {
    Idle,
    RunCreate,
    RunStart,
    SpawnReaper,
    RunKill { signal: u64 },
    RunDelete,
}

/// What a step does to the published event log.
#[derive(Debug, Clone, Copy, PartialEq, Eq, Structural)]
pub enum CtrEffect {
    Keep,
    Emit(CtrEventKind),
    Clear,
}

/// The control-relevant state of one container dispatcher.
#[derive(Debug, Clone, Copy, PartialEq, Eq, Structural)]
pub struct CtrModel {
    pub phase: CtrPhase,
    pub pid: Option<i32>,
    pub exit_code: Option<i32>,
}

/// The single transition function of the per-container state machine.
/// `ContainerCreated{pid}` is published only when the create protocol
/// hands a pid back; `ContainerStarted` is published by the same step
/// that spawns the reaper, so it always precedes the reaper's
/// `ContainerStopped`; deletion is accepted on settled records only and
/// ends with the record absent.
pub open spec fn ctr_step(m: CtrModel, msg: CtrMsg) -> (CtrModel, CtrEffect, Result<
    (),
    ErrorKind,
>, CtrAction) {
    let keep = (m, CtrEffect::Keep, Result::<(), ErrorKind>::Err(ErrorKind::InvalidState), CtrAction::Idle);
    match msg {
        CtrMsg::Create(cfg) => {
            if m.phase != CtrPhase::Absent {
                (m, CtrEffect::Keep, Err(ErrorKind::AlreadyExists), CtrAction::Idle)
            } else if !ctr_cfg_valid(cfg) {
                (m, CtrEffect::Keep, Err(ErrorKind::InvalidArgument), CtrAction::Idle)
            } else {
                (
                    CtrModel { phase: CtrPhase::Creating, pid: None, exit_code: None },
                    CtrEffect::Keep,
                    Ok(()),
                    CtrAction::RunCreate,
                )
            }
        },
        CtrMsg::CreateDone { pid } => {
            if m.phase == CtrPhase::Creating {
                (
                    CtrModel { phase: CtrPhase::Created, pid: Some(pid), exit_code: None },
                    CtrEffect::Emit(CtrEventKind::ContainerCreated { pid }),
                    Ok(()),
                    CtrAction::Idle,
                )
            } else {
                keep
            }
        },
        CtrMsg::CreateFailed => {
            if m.phase == CtrPhase::Creating {
                (
                    CtrModel { phase: CtrPhase::Failed, pid: None, exit_code: None },
                    CtrEffect::Emit(
                        CtrEventKind::ContainerFailed { reason: CtrFailReason::CreateFailed },
                    ),
                    Ok(()),
                    CtrAction::Idle,
                )
            } else {
                keep
            }
        },
        CtrMsg::Start => {
            if m.phase == CtrPhase::Created {
                (
                    CtrModel { phase: CtrPhase::StartPending, ..m },
                    CtrEffect::Keep,
                    Ok(()),
                    CtrAction::RunStart,
                )
            } else if m.phase == CtrPhase::Absent {
                (m, CtrEffect::Keep, Err(ErrorKind::NotFound), CtrAction::Idle)
            } else {
                keep
            }
        },
        CtrMsg::StartDone => {
            if m.phase == CtrPhase::StartPending {
                (
                    CtrModel { phase: CtrPhase::Running, ..m },
                    CtrEffect::Emit(CtrEventKind::ContainerStarted),
                    Ok(()),
                    CtrAction::SpawnReaper,
                )
            } else {
                keep
            }
        },
        CtrMsg::StartFailed => {
            if m.phase == CtrPhase::StartPending {
                (
                    CtrModel { phase: CtrPhase::Failed, pid: None, exit_code: None },
                    CtrEffect::Emit(
                        CtrEventKind::ContainerFailed { reason: CtrFailReason::StartFailed },
                    ),
                    Ok(()),
                    CtrAction::Idle,
                )
            } else {
                keep
            }
        },
        CtrMsg::Kill { signal } => {
            if m.phase == CtrPhase::Running {
                (m, CtrEffect::Keep, Ok(()), CtrAction::RunKill { signal })
            } else if m.phase == CtrPhase::Absent {
                (m, CtrEffect::Keep, Err(ErrorKind::NotFound), CtrAction::Idle)
            } else {
                keep
            }
        },
        CtrMsg::Reaped { code } => {
            if m.phase == CtrPhase::Running {
                (
                    CtrModel { phase: CtrPhase::Exited, pid: None, exit_code: Some(code) },
                    CtrEffect::Emit(CtrEventKind::ContainerStopped { code }),
                    Ok(()),
                    CtrAction::Idle,
                )
            } else {
                keep
            }
        },
        CtrMsg::Delete => {
            if m.phase == CtrPhase::Created || m.phase == CtrPhase::Exited || m.phase
                == CtrPhase::Failed {
                (
                    CtrModel { phase: CtrPhase::Deleting, pid: None, exit_code: None },
                    CtrEffect::Keep,
                    Ok(()),
                    CtrAction::RunDelete,
                )
            } else if m.phase == CtrPhase::Absent {
                (m, CtrEffect::Keep, Err(ErrorKind::NotFound), CtrAction::Idle)
            } else {
                keep
            }
        },
        CtrMsg::DeleteFinished => {
            if m.phase == CtrPhase::Deleting {
                (
                    CtrModel { phase: CtrPhase::Absent, pid: None, exit_code: None },
                    CtrEffect::Clear,
                    Ok(()),
                    CtrAction::Idle,
                )
            } else {
                keep
            }
        },
    }
}

/// Abstract positions of a container trace through the event automaton.
#[derive(Debug, Clone, Copy, PartialEq, Eq, Structural)]
pub enum CtrTracePos {
    Fresh,
    Made,
    Live,
    Done,
}

/// The event automaton of the container state machine: creation comes
/// first, a start may follow, and exactly one terminal event ends the
/// trace — so `ContainerStarted` can never follow `ContainerStopped`,
/// and no lifecycle event repeats.
pub open spec fn ctr_ev_next(p: CtrTracePos, e: CtrEventKind) -> Option<CtrTracePos> {
    match (p, e) {
        (CtrTracePos::Fresh, CtrEventKind::ContainerCreated { .. }) => Some(CtrTracePos::Made),
        (CtrTracePos::Fresh, CtrEventKind::ContainerFailed { .. }) => Some(CtrTracePos::Done),
        (CtrTracePos::Made, CtrEventKind::ContainerStarted) => Some(CtrTracePos::Live),
        (CtrTracePos::Made, CtrEventKind::ContainerFailed { .. }) => Some(CtrTracePos::Done),
        (CtrTracePos::Live, CtrEventKind::ContainerStopped { .. }) => Some(CtrTracePos::Done),
        _ => None,
    }
}

/// Replays a published container event sequence; `None` means the
/// sequence is not a trace of the state machine.
pub open spec fn ctr_replay(t: Seq<CtrEventKind>) -> Option<CtrTracePos>
    decreases t.len(),
{
    if t.len() == 0 {
        Some(CtrTracePos::Fresh)
    } else {
        match ctr_replay(t.drop_last()) {
            Some(p) => ctr_ev_next(p, t.last()),
            None => None,
        }
    }
}

/// A published container event sequence is an initial run of the state
/// machine.
pub open spec fn ctr_trace_valid(t: Seq<CtrEventKind>) -> bool {
    ctr_replay(t) is Some
}

/// The trace positions a container phase can legitimately stand at.
pub open spec fn ctr_phase_trace_ok(phase: CtrPhase, p: CtrTracePos) -> bool {
    match phase {
        CtrPhase::Absent | CtrPhase::Creating => p == CtrTracePos::Fresh,
        CtrPhase::Created | CtrPhase::StartPending => p == CtrTracePos::Made,
        CtrPhase::Running => p == CtrTracePos::Live,
        CtrPhase::Exited | CtrPhase::Failed => p == CtrTracePos::Done,
        CtrPhase::Deleting => p == CtrTracePos::Made || p == CtrTracePos::Done,
    }
}

/// The phases during which the container's init pid is recorded.
pub open spec fn ctr_phase_has_pid(phase: CtrPhase) -> bool {
    phase == CtrPhase::Created || phase == CtrPhase::StartPending || phase == CtrPhase::Running
}

/// The kinds of a tagged container event sequence.
pub open spec fn ctr_kinds(s: Seq<CtrEvent>) -> Seq<CtrEventKind> {
    s.map_values(|e: CtrEvent| e.kind)
}

/// The single owning task of one container record: the only writer of
/// its state, and the publisher of its lifecycle events. Every message
/// yields exactly one reply.
pub struct ContainerDispatcher {
    pub id: u128,
    pub phase: CtrPhase,
    pub pid: Option<i32>,
    pub exit_code: Option<i32>,
    pub cfg: Option<ContainerConfig>,
    pub events: Vec<CtrEvent>,
}

impl ContainerDispatcher {
    /// The control-relevant abstraction of this dispatcher.
    pub open spec fn model(self) -> CtrModel {
        CtrModel { phase: self.phase, pid: self.pid, exit_code: self.exit_code }
    }

    /// Dispatcher invariant: the init pid is held exactly while a created
    /// process exists, the exit code exactly in `Exited`, the record's
    /// config exactly while the record exists, and the published events
    /// always form a valid trace matching the current phase.
    pub open spec fn wf(self) -> bool {
        &&& self.pid is Some <==> ctr_phase_has_pid(self.phase)
        &&& self.exit_code is Some <==> self.phase == CtrPhase::Exited
        &&& self.cfg is Some <==> self.phase != CtrPhase::Absent
        &&& exists|p: CtrTracePos|
            ctr_replay(ctr_kinds(self.events@)) == Some(p) && #[trigger] ctr_phase_trace_ok(
                self.phase,
                p,
            )
        &&& forall|i: int| 0 <= i < self.events.len() ==> (#[trigger] self.events[i]).id == self.id
    }

    /// A fresh container dispatcher for workload `id`, holding no record.
    pub fn new(id: u128) -> (r: ContainerDispatcher)
        ensures
            r.wf(),
            r.id == id,
            r.phase == CtrPhase::Absent,
            r.events@ =~= Seq::<CtrEvent>::empty(),
            r.cfg is None,
    {
        let d = ContainerDispatcher {
            id,
            phase: CtrPhase::Absent,
            pid: None,
            exit_code: None,
            cfg: None,
            events: Vec::new(),
        };
        proof {
            assert(ctr_kinds(d.events@) =~= Seq::<CtrEventKind>::empty());
            assert(ctr_replay(ctr_kinds(d.events@)) == Some(CtrTracePos::Fresh));
            assert(ctr_phase_trace_ok(CtrPhase::Absent, CtrTracePos::Fresh));
        }
        d
    }

    /// A container dispatcher owning a freshly minted random workload id.
    pub fn for_new_workload() -> (r: ContainerDispatcher)
        ensures
            r.wf(),
            r.phase == CtrPhase::Absent,
            r.events@ =~= Seq::<CtrEvent>::empty(),
            r.cfg is None,
    {
        let id = crate::ids::fresh_workload_id();
        ContainerDispatcher::new(id)
    }

    /// Applies one command or runtime outcome, exactly as `ctr_step`
    /// says: the model moves to `ctr_step`'s next model, the event log
    /// gets its effect, and the reply and requested runtime work are its
    /// outputs.
    pub fn handle(&mut self, msg: CtrMsg) -> (r: (Result<(), ErrorKind>, CtrAction))
        requires
            old(self).wf(),
        ensures
            final(self).wf(),
            final(self).id == old(self).id,
            ({
                let (m2, eff, rep, act) = ctr_step(old(self).model(), msg);
                &&& final(self).model() == m2
                &&& r.0 == rep
                &&& r.1 == act
                &&& match eff {
                    CtrEffect::Keep => final(self).events@ == old(self).events@,
                    CtrEffect::Emit(k) => final(self).events@ == old(self).events@.push(
                        CtrEvent { id: old(self).id, kind: k },
                    ),
                    CtrEffect::Clear => final(self).events@ == Seq::<CtrEvent>::empty(),
                }
            }),
            ({
                let (m2, eff, rep, act) = ctr_step(old(self).model(), msg);
                match msg {
                    CtrMsg::Create(cfg) => if rep is Ok {
                        final(self).cfg == Some(cfg)
                    } else {
                        final(self).cfg == old(self).cfg
                    },
                    CtrMsg::DeleteFinished => if rep is Ok {
                        final(self).cfg is None
                    } else {
                        final(self).cfg == old(self).cfg
                    },
                    _ => final(self).cfg == old(self).cfg,
                }
            }),
    {
        let ghost pre_events = self.events@;
        let ghost pre_pos: CtrTracePos = choose|p: CtrTracePos|
            ctr_replay(ctr_kinds(pre_events)) == Some(p) && ctr_phase_trace_ok(self.phase, p);
        match msg {
            CtrMsg::Create(cfg) => {
                if self.phase != CtrPhase::Absent {
                    (Err(ErrorKind::AlreadyExists), CtrAction::Idle)
                } else if cfg.image.as_str().unicode_len() == 0 {
                    (Err(ErrorKind::InvalidArgument), CtrAction::Idle)
                } else {
                    self.phase = CtrPhase::Creating;
                    self.cfg = Some(cfg);
                    proof {
                        assert(ctr_replay(ctr_kinds(self.events@)) == Some(pre_pos));
                        assert(ctr_phase_trace_ok(self.phase, pre_pos));
                    }
                    (Ok(()), CtrAction::RunCreate)
                }
            },
            CtrMsg::CreateDone { pid } => {
                if self.phase == CtrPhase::Creating {
                    self.phase = CtrPhase::Created;
                    self.pid = Some(pid);
                    let k = CtrEventKind::ContainerCreated { pid };
                    self.events.push(CtrEvent { id: self.id, kind: k });
                    proof {
                        lemma_ctr_replay_push(ctr_kinds(pre_events), k);
                        assert(ctr_kinds(self.events@) =~= ctr_kinds(pre_events).push(k));
                        assert(pre_pos == CtrTracePos::Fresh);
                        assert(ctr_replay(ctr_kinds(self.events@)) == Some(CtrTracePos::Made));
                        assert(ctr_phase_trace_ok(self.phase, CtrTracePos::Made));
                    }
                    (Ok(()), CtrAction::Idle)
                } else {
                    (Err(ErrorKind::InvalidState), CtrAction::Idle)
                }
            },
            CtrMsg::CreateFailed => {
                if self.phase == CtrPhase::Creating {
                    self.phase = CtrPhase::Failed;
                    self.pid = None;
                    self.exit_code = None;
                    let k = CtrEventKind::ContainerFailed { reason: CtrFailReason::CreateFailed };
                    self.events.push(CtrEvent { id: self.id, kind: k });
                    proof {
                        lemma_ctr_replay_push(ctr_kinds(pre_events), k);
                        assert(ctr_kinds(self.events@) =~= ctr_kinds(pre_events).push(k));
                        assert(pre_pos == CtrTracePos::Fresh);
                        assert(ctr_replay(ctr_kinds(self.events@)) == Some(CtrTracePos::Done));
                        assert(ctr_phase_trace_ok(self.phase, CtrTracePos::Done));
                    }
                    (Ok(()), CtrAction::Idle)
                } else {
                    (Err(ErrorKind::InvalidState), CtrAction::Idle)
                }
            },
            CtrMsg::Start => {
                if self.phase == CtrPhase::Created {
                    self.phase = CtrPhase::StartPending;
                    proof {
                        assert(ctr_replay(ctr_kinds(self.events@)) == Some(pre_pos));
                        assert(ctr_phase_trace_ok(self.phase, pre_pos));
                    }
                    (Ok(()), CtrAction::RunStart)
                } else if self.phase == CtrPhase::Absent {
                    (Err(ErrorKind::NotFound), CtrAction::Idle)
                } else {
                    (Err(ErrorKind::InvalidState), CtrAction::Idle)
                }
            },
            CtrMsg::StartDone => {
                if self.phase == CtrPhase::StartPending {
                    self.phase = CtrPhase::Running;
                    let k = CtrEventKind::ContainerStarted;
                    self.events.push(CtrEvent { id: self.id, kind: k });
                    proof {
                        lemma_ctr_replay_push(ctr_kinds(pre_events), k);
                        assert(ctr_kinds(self.events@) =~= ctr_kinds(pre_events).push(k));
                        assert(pre_pos == CtrTracePos::Made);
                        assert(ctr_replay(ctr_kinds(self.events@)) == Some(CtrTracePos::Live));
                        assert(ctr_phase_trace_ok(self.phase, CtrTracePos::Live));
                    }
                    (Ok(()), CtrAction::SpawnReaper)
                } else {
                    (Err(ErrorKind::InvalidState), CtrAction::Idle)
                }
            },
            CtrMsg::StartFailed => {
                if self.phase == CtrPhase::StartPending {
                    self.phase = CtrPhase::Failed;
                    self.pid = None;
                    self.exit_code = None;
                    let k = CtrEventKind::ContainerFailed { reason: CtrFailReason::StartFailed };
                    self.events.push(CtrEvent { id: self.id, kind: k });
                    proof {
                        lemma_ctr_replay_push(ctr_kinds(pre_events), k);
                        assert(ctr_kinds(self.events@) =~= ctr_kinds(pre_events).push(k));
                        assert(pre_pos == CtrTracePos::Made);
                        assert(ctr_replay(ctr_kinds(self.events@)) == Some(CtrTracePos::Done));
                        assert(ctr_phase_trace_ok(self.phase, CtrTracePos::Done));
                    }
                    (Ok(()), CtrAction::Idle)
                } else {
                    (Err(ErrorKind::InvalidState), CtrAction::Idle)
                }
            },
            CtrMsg::Kill { signal } => {
                if self.phase == CtrPhase::Running {
                    (Ok(()), CtrAction::RunKill { signal })
                } else if self.phase == CtrPhase::Absent {
                    (Err(ErrorKind::NotFound), CtrAction::Idle)
                } else {
                    (Err(ErrorKind::InvalidState), CtrAction::Idle)
                }
            },
            CtrMsg::Reaped { code } => {
                if self.phase == CtrPhase::Running {
                    self.phase = CtrPhase::Exited;
                    self.pid = None;
                    self.exit_code = Some(code);
                    let k = CtrEventKind::ContainerStopped { code };
                    self.events.push(CtrEvent { id: self.id, kind: k });
                    proof {
                        lemma_ctr_replay_push(ctr_kinds(pre_events), k);
                        assert(ctr_kinds(self.events@) =~= ctr_kinds(pre_events).push(k));
                        assert(pre_pos == CtrTracePos::Live);
                        assert(ctr_replay(ctr_kinds(self.events@)) == Some(CtrTracePos::Done));
                        assert(ctr_phase_trace_ok(self.phase, CtrTracePos::Done));
                    }
                    (Ok(()), CtrAction::Idle)
                } else {
                    (Err(ErrorKind::InvalidState), CtrAction::Idle)
                }
            },
            CtrMsg::Delete => {
                if self.phase == CtrPhase::Created || self.phase == CtrPhase::Exited || self.phase
                    == CtrPhase::Failed {
                    self.phase = CtrPhase::Deleting;
                    self.pid = None;
                    self.exit_code = None;
                    proof {
                        assert(ctr_replay(ctr_kinds(self.events@)) == Some(pre_pos));
                        assert(ctr_phase_trace_ok(self.phase, pre_pos));
                    }
                    (Ok(()), CtrAction::RunDelete)
                } else if self.phase == CtrPhase::Absent {
                    (Err(ErrorKind::NotFound), CtrAction::Idle)
                } else {
                    (Err(ErrorKind::InvalidState), CtrAction::Idle)
                }
            },
            CtrMsg::DeleteFinished => {
                if self.phase == CtrPhase::Deleting {
                    self.phase = CtrPhase::Absent;
                    self.pid = None;
                    self.exit_code = None;
                    self.cfg = None;
                    self.events = Vec::new();
                    proof {
                        assert(ctr_kinds(self.events@) =~= Seq::<CtrEventKind>::empty());
                        assert(ctr_replay(ctr_kinds(self.events@)) == Some(CtrTracePos::Fresh));
                        assert(ctr_phase_trace_ok(self.phase, CtrTracePos::Fresh));
                    }
                    (Ok(()), CtrAction::Idle)
                } else {
                    (Err(ErrorKind::InvalidState), CtrAction::Idle)
                }
            },
        }
    }

    /// A read-only snapshot of the record: the stored configuration,
    /// which reflects every field the creating call passed in.
    /// `NotFound` exactly when no record exists.
    pub fn get_container(&self) -> (r: Result<&ContainerConfig, ErrorKind>)
        requires
            self.wf(),
        ensures
            self.phase == CtrPhase::Absent ==> r == Err::<&ContainerConfig, ErrorKind>(
                ErrorKind::NotFound,
            ),
            self.phase != CtrPhase::Absent ==> r is Ok && *r.unwrap() == self.cfg.unwrap(),
    {
        match &self.cfg {
            Some(c) => Ok(c),
            None => Err(ErrorKind::NotFound),
        }
    }

    /// The published events, in order.
    pub fn events(&self) -> (r: &Vec<CtrEvent>)
        ensures
            r@ == self.events@,
    {
        &self.events
    }
}

proof fn lemma_ctr_replay_push(t: Seq<CtrEventKind>, e: CtrEventKind)
    ensures
        ctr_replay(t.push(e)) == match ctr_replay(t) {
            Some(p) => ctr_ev_next(p, e),
            None => None::<CtrTracePos>,
        },
{
    assert(t.push(e).drop_last() =~= t);
    assert(t.push(e).last() == e);
}

/// Any container dispatcher satisfying the invariant has published a
/// sequence of events that is a run of the state machine.
pub proof fn lemma_ctr_events_are_valid_trace(d: ContainerDispatcher)
    requires
        d.wf(),
    ensures
        ctr_trace_valid(ctr_kinds(d.events@)),
{
}

/// Valid container traces are closed under prefixes.
pub proof fn lemma_ctr_trace_prefix_closed(t: Seq<CtrEventKind>, k: int)
    requires
        ctr_trace_valid(t),
        0 <= k <= t.len(),
    ensures
        ctr_trace_valid(t.take(k)),
    decreases t.len() - k,
{
    if k == t.len() {
        assert(t.take(k) =~= t);
    } else {
        lemma_ctr_trace_prefix_closed(t, k + 1);
        assert(t.take(k + 1).drop_last() =~= t.take(k));
    }
}

/// `ContainerStopped` can only be published out of `Running`, and
/// `Running` is entered only by the step that publishes
/// `ContainerStarted` and spawns the reaper: the reaper's stop event
/// always follows the start event.
pub proof fn lemma_stop_follows_start(m: CtrModel, msg: CtrMsg)
    ensures
        (ctr_step(m, msg).1 matches CtrEffect::Emit(k) && k matches CtrEventKind::ContainerStopped {
            ..
        }) ==> m.phase == CtrPhase::Running,
        ctr_step(m, msg).0.phase == CtrPhase::Running && m.phase != CtrPhase::Running ==> (msg
            == CtrMsg::StartDone && ctr_step(m, msg).1 == CtrEffect::Emit(
            CtrEventKind::ContainerStarted,
        ) && ctr_step(m, msg).3 == CtrAction::SpawnReaper),
{
}

/// The clean container lifecycle publishes exactly `ContainerCreated`,
/// `ContainerStarted`, `ContainerStopped`: create, the runtime's clean
/// exit with a parsed pid, start, the start call's clean exit, and the
/// reaper's report, stepped through `ctr_step` from an empty record;
/// deletion then leaves the record absent.
pub proof fn lemma_container_lifecycle_event_sequence(cfg: ContainerConfig, pid: i32, code: i32)
    requires
        ctr_cfg_valid(cfg),
    ensures
        ({
            let m0 = CtrModel { phase: CtrPhase::Absent, pid: None, exit_code: None };
            let (m1, e1, r1, _) = ctr_step(m0, CtrMsg::Create(cfg));
            let (m2, e2, r2, _) = ctr_step(m1, CtrMsg::CreateDone { pid });
            let (m3, e3, r3, _) = ctr_step(m2, CtrMsg::Start);
            let (m4, e4, r4, _) = ctr_step(m3, CtrMsg::StartDone);
            let (m5, e5, r5, _) = ctr_step(m4, CtrMsg::Reaped { code });
            let (m6, e6, r6, _) = ctr_step(m5, CtrMsg::Delete);
            let (m7, e7, r7, _) = ctr_step(m6, CtrMsg::DeleteFinished);
            &&& r1 is Ok && r2 is Ok && r3 is Ok && r4 is Ok && r5 is Ok && r6 is Ok && r7 is Ok
            &&& e1 == CtrEffect::Keep
            &&& e2 == CtrEffect::Emit(CtrEventKind::ContainerCreated { pid })
            &&& e3 == CtrEffect::Keep
            &&& e4 == CtrEffect::Emit(CtrEventKind::ContainerStarted)
            &&& e5 == CtrEffect::Emit(CtrEventKind::ContainerStopped { code })
            &&& e6 == CtrEffect::Keep
            &&& m5.exit_code == Some(code)
            &&& m7.phase == CtrPhase::Absent
        }),
{
}

} // verus!
