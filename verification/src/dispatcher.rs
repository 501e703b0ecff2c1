use vstd::prelude::*;
use crate::errors::ErrorKind;

verus! {

/// Minimum VM memory the hypervisor accepts: 64 MiB.
pub const MIN_VM_MEMORY_BYTES: u64 = 67108864;

/// How a VM boots: a firmware blob, or a direct kernel boot.
#[derive(Debug, Clone, PartialEq, Eq)]
pub enum BootSpec {
    Firmware { firmware_path: String },
    Kernel { kernel_path: String, initramfs_path: String, cmdline: String },
}

/// One disk attached to a VM; the first is the root filesystem.
#[derive(Debug, Clone, PartialEq, Eq)]
pub struct DiskAttachment {
    pub path: String,
    pub read_only: bool,
}

/// One NIC attached to a VM.
#[derive(Debug, Clone, PartialEq, Eq)]
pub enum NicAttachment {
    Tap { name: String, mac: [u8; 6], ipv6: u128 },
    PciPassthru { bdf: String },
}

/// What a client asks for when creating a VM.
#[derive(Debug, PartialEq, Eq)]
pub struct VmConfig {
    pub cpu: u32,
    pub memory_bytes: u64,
    pub image_id: String,
    pub boot: BootSpec,
    pub ignition: Option<Vec<u8>>,
    pub nics: Vec<NicAttachment>,
    pub disks: Vec<DiskAttachment>,
}

/// Whether a creation request passes validation: positive CPU count,
/// memory at or above the hypervisor minimum, and a non-empty image id.
pub open spec fn cfg_valid(cfg: VmConfig) -> bool {
    &&& cfg.cpu > 0
    &&& cfg.memory_bytes >= MIN_VM_MEMORY_BYTES
    &&& cfg.image_id@.len() > 0
}

/// The phase of one VM's lifecycle, as the dispatcher tracks it.
/// `Starting` covers the gap between accepting `Start` and learning the
/// spawn outcome; `Deleting` covers teardown; `Absent` is "no record".
#[derive(Debug, Clone, Copy, PartialEq, Eq, Structural)]
pub enum VmPhase {
    Absent,
    Created,
    Starting,
    Booting,
    Running,
    Paused,
    Stopping,
    Stopped,
    Failed,
    Deleting,
}

/// Why a VM was marked failed.
#[derive(Debug, Clone, Copy, PartialEq, Eq, Structural)]
pub enum FailReason {
    StartFailed,
    BootTimeout,
    Backend,
}

/// A lifecycle event published to subscribers.
#[derive(Debug, Clone, Copy, PartialEq, Eq, Structural)]
pub enum VmEventKind {
    VmCreated,
    VmBooted,
    VmStopped { code: i32 },
    VmFailed { reason: FailReason },
}

/// An event tagged with the owning workload id.
#[derive(Debug, Clone, Copy, PartialEq, Eq, Structural)]
pub struct VmEvent {
    pub id: u128,
    pub kind: VmEventKind,
}

/// What the dispatcher hears: client commands, and outcomes of the backend
/// work that the surrounding runtime performed on its behalf.
#[derive(Debug)]
pub enum VmMsg {
    Create(VmConfig),
    Start,
    Pause,
    Resume,
    Shutdown,
    Delete,
    SpawnOk { pid: i32 },
    SpawnFailed,
    PingOk,
    BootTimedOut,
    Exited { code: i32 },
    BackendFailed,
    DeleteFinished,
}

/// The backend work a step asks the surrounding runtime to perform.
/// `SpawnVmm` stands for init + create + boot of the hypervisor child;
/// `ProbeBoot` for pinging the API until it answers or a deadline passes;
/// `TearDown` for delete + shutdown + reaping the child and removing the
/// `{id}.api` and `{id}.console` socket files.
#[derive(Debug, Clone, Copy, PartialEq, Eq, Structural)]
pub enum VmAction {
    Idle,
    SpawnVmm,
    ProbeBoot,
    PauseVmm,
    ResumeVmm,
    ShutdownVmm,
    TearDown,
}

/// What a step does to the published event log.
#[derive(Debug, Clone, Copy, PartialEq, Eq, Structural)]
pub enum EventsEffect {
    Keep,
    Emit(VmEventKind),
    Clear,
}

/// The control-relevant state of one dispatcher.
#[derive(Debug, Clone, Copy, PartialEq, Eq, Structural)]
pub struct VmModel {
    pub phase: VmPhase,
    pub pid: Option<i32>,
    pub shutdown_pending: bool,
    pub delete_pending: bool,
}

/// The single transition function of the per-VM state machine. Every
/// command or backend outcome maps the current model to a next model, an
/// effect on the event log, a reply, and backend work to perform.
pub open spec fn vm_step(m: VmModel, msg: VmMsg) -> (VmModel, EventsEffect, Result<
    (),
    ErrorKind,
>, VmAction) {
    let keep = (m, EventsEffect::Keep, Result::<(), ErrorKind>::Err(ErrorKind::InvalidState), VmAction::Idle);
    match msg {
        VmMsg::Create(cfg) => {
            if m.phase != VmPhase::Absent {
                (m, EventsEffect::Keep, Err(ErrorKind::AlreadyExists), VmAction::Idle)
            } else if !cfg_valid(cfg) {
                (m, EventsEffect::Keep, Err(ErrorKind::InvalidArgument), VmAction::Idle)
            } else {
                (
                    VmModel { phase: VmPhase::Created, pid: None, shutdown_pending: false, delete_pending: false },
                    EventsEffect::Emit(VmEventKind::VmCreated),
                    Ok(()),
                    VmAction::Idle,
                )
            }
        },
        VmMsg::Start => {
            if m.phase == VmPhase::Created {
                (
                    VmModel { phase: VmPhase::Starting, ..m },
                    EventsEffect::Keep,
                    Ok(()),
                    VmAction::SpawnVmm,
                )
            } else if m.phase == VmPhase::Absent {
                (m, EventsEffect::Keep, Err(ErrorKind::NotFound), VmAction::Idle)
            } else {
                keep
            }
        },
        VmMsg::Pause => {
            if m.phase == VmPhase::Running {
                (
                    VmModel { phase: VmPhase::Paused, ..m },
                    EventsEffect::Keep,
                    Ok(()),
                    VmAction::PauseVmm,
                )
            } else if m.phase == VmPhase::Absent {
                (m, EventsEffect::Keep, Err(ErrorKind::NotFound), VmAction::Idle)
            } else {
                keep
            }
        },
        VmMsg::Resume => {
            if m.phase == VmPhase::Paused {
                (
                    VmModel { phase: VmPhase::Running, ..m },
                    EventsEffect::Keep,
                    Ok(()),
                    VmAction::ResumeVmm,
                )
            } else if m.phase == VmPhase::Absent {
                (m, EventsEffect::Keep, Err(ErrorKind::NotFound), VmAction::Idle)
            } else {
                keep
            }
        },
        VmMsg::Shutdown => {
            if m.phase == VmPhase::Running || m.phase == VmPhase::Paused {
                (
                    VmModel { phase: VmPhase::Stopping, ..m },
                    EventsEffect::Keep,
                    Ok(()),
                    VmAction::ShutdownVmm,
                )
            } else if m.phase == VmPhase::Booting {
                (
                    VmModel { shutdown_pending: true, ..m },
                    EventsEffect::Keep,
                    Ok(()),
                    VmAction::Idle,
                )
            } else if m.phase == VmPhase::Absent {
                (m, EventsEffect::Keep, Err(ErrorKind::NotFound), VmAction::Idle)
            } else {
                keep
            }
        },
        VmMsg::Delete => {
            if m.phase == VmPhase::Created || m.phase == VmPhase::Stopped || m.phase
                == VmPhase::Failed || m.phase == VmPhase::Booting {
                (
                    VmModel { phase: VmPhase::Deleting, pid: None, shutdown_pending: false, delete_pending: false },
                    EventsEffect::Keep,
                    Ok(()),
                    VmAction::TearDown,
                )
            } else if m.phase == VmPhase::Stopping {
                (
                    VmModel { delete_pending: true, ..m },
                    EventsEffect::Keep,
                    Ok(()),
                    VmAction::Idle,
                )
            } else if m.phase == VmPhase::Absent {
                (m, EventsEffect::Keep, Err(ErrorKind::NotFound), VmAction::Idle)
            } else {
                keep
            }
        },
        VmMsg::SpawnOk { pid } => {
            if m.phase == VmPhase::Starting {
                (
                    VmModel { phase: VmPhase::Booting, pid: Some(pid), ..m },
                    EventsEffect::Keep,
                    Ok(()),
                    VmAction::ProbeBoot,
                )
            } else {
                keep
            }
        },
        VmMsg::SpawnFailed => {
            if m.phase == VmPhase::Starting {
                (
                    VmModel { phase: VmPhase::Failed, pid: None, shutdown_pending: false, delete_pending: false },
                    EventsEffect::Emit(VmEventKind::VmFailed { reason: FailReason::StartFailed }),
                    Ok(()),
                    VmAction::Idle,
                )
            } else {
                keep
            }
        },
        VmMsg::PingOk => {
            if m.phase == VmPhase::Booting {
                if m.shutdown_pending {
                    (
                        VmModel { phase: VmPhase::Stopping, shutdown_pending: false, ..m },
                        EventsEffect::Emit(VmEventKind::VmBooted),
                        Ok(()),
                        VmAction::ShutdownVmm,
                    )
                } else {
                    (
                        VmModel { phase: VmPhase::Running, ..m },
                        EventsEffect::Emit(VmEventKind::VmBooted),
                        Ok(()),
                        VmAction::Idle,
                    )
                }
            } else {
                keep
            }
        },
        VmMsg::BootTimedOut => {
            if m.phase == VmPhase::Booting {
                (
                    VmModel { phase: VmPhase::Failed, pid: None, shutdown_pending: false, delete_pending: false },
                    EventsEffect::Emit(VmEventKind::VmFailed { reason: FailReason::BootTimeout }),
                    Ok(()),
                    VmAction::Idle,
                )
            } else {
                keep
            }
        },
        VmMsg::Exited { code } => {
            if m.phase == VmPhase::Booting || m.phase == VmPhase::Running || m.phase
                == VmPhase::Paused {
                (
                    VmModel { phase: VmPhase::Stopped, pid: None, shutdown_pending: false, delete_pending: false },
                    EventsEffect::Emit(VmEventKind::VmStopped { code }),
                    Ok(()),
                    VmAction::Idle,
                )
            } else if m.phase == VmPhase::Stopping {
                if m.delete_pending {
                    (
                        VmModel { phase: VmPhase::Deleting, pid: None, shutdown_pending: false, delete_pending: false },
                        EventsEffect::Emit(VmEventKind::VmStopped { code }),
                        Ok(()),
                        VmAction::TearDown,
                    )
                } else {
                    (
                        VmModel { phase: VmPhase::Stopped, pid: None, shutdown_pending: false, delete_pending: false },
                        EventsEffect::Emit(VmEventKind::VmStopped { code }),
                        Ok(()),
                        VmAction::Idle,
                    )
                }
            } else {
                keep
            }
        },
        VmMsg::BackendFailed => {
            if m.phase == VmPhase::Booting || m.phase == VmPhase::Running || m.phase
                == VmPhase::Paused || m.phase == VmPhase::Stopping {
                (
                    VmModel { phase: VmPhase::Failed, pid: None, shutdown_pending: false, delete_pending: false },
                    EventsEffect::Emit(VmEventKind::VmFailed { reason: FailReason::Backend }),
                    Ok(()),
                    VmAction::Idle,
                )
            } else {
                keep
            }
        },
        VmMsg::DeleteFinished => {
            if m.phase == VmPhase::Deleting {
                (
                    VmModel { phase: VmPhase::Absent, pid: None, shutdown_pending: false, delete_pending: false },
                    EventsEffect::Clear,
                    Ok(()),
                    VmAction::Idle,
                )
            } else {
                keep
            }
        },
    }
}

/// Abstract positions of a trace through the event automaton.
#[derive(Debug, Clone, Copy, PartialEq, Eq, Structural)]
pub enum TracePos {
    Fresh,
    Live,
    Booted,
    Done,
}

/// The event automaton of the state machine: which event may follow a
/// trace position, and where it leads.
pub open spec fn ev_next(p: TracePos, e: VmEventKind) -> Option<TracePos> {
    match (p, e) {
        (TracePos::Fresh, VmEventKind::VmCreated) => Some(TracePos::Live),
        (TracePos::Live, VmEventKind::VmBooted) => Some(TracePos::Booted),
        (TracePos::Live, VmEventKind::VmStopped { .. }) => Some(TracePos::Done),
        (TracePos::Live, VmEventKind::VmFailed { .. }) => Some(TracePos::Done),
        (TracePos::Booted, VmEventKind::VmStopped { .. }) => Some(TracePos::Done),
        (TracePos::Booted, VmEventKind::VmFailed { .. }) => Some(TracePos::Done),
        _ => None,
    }
}

/// Replays a published event sequence through the automaton; `None` means
/// the sequence is not a trace of the state machine.
pub open spec fn replay(t: Seq<VmEventKind>) -> Option<TracePos>
    decreases t.len(),
{
    if t.len() == 0 {
        Some(TracePos::Fresh)
    } else {
        match replay(t.drop_last()) {
            Some(p) => ev_next(p, t.last()),
            None => None,
        }
    }
}

/// A published event sequence is an initial run of the state machine.
pub open spec fn trace_valid(t: Seq<VmEventKind>) -> bool {
    replay(t) is Some
}

/// The trace positions a phase can legitimately stand at.
pub open spec fn phase_trace_ok(phase: VmPhase, p: TracePos) -> bool {
    match phase {
        VmPhase::Absent => p == TracePos::Fresh,
        VmPhase::Created | VmPhase::Starting | VmPhase::Booting => p == TracePos::Live,
        VmPhase::Running | VmPhase::Paused | VmPhase::Stopping => p == TracePos::Booted,
        VmPhase::Stopped | VmPhase::Failed => p == TracePos::Done,
        VmPhase::Deleting => p == TracePos::Live || p == TracePos::Done,
    }
}

/// The phases during which a hypervisor child process is attached.
pub open spec fn phase_has_pid(phase: VmPhase) -> bool {
    phase == VmPhase::Booting || phase == VmPhase::Running || phase == VmPhase::Paused || phase
        == VmPhase::Stopping
}

/// The kinds of a tagged event sequence.
pub open spec fn kinds(s: Seq<VmEvent>) -> Seq<VmEventKind> {
    s.map_values(|e: VmEvent| e.kind)
}

/// The single owning task of one VM record: the only writer of its state,
/// and the publisher of its lifecycle events.
pub struct VmDispatcher {
    pub id: u128,
    pub phase: VmPhase,
    pub pid: Option<i32>,
    pub shutdown_pending: bool,
    pub delete_pending: bool,
    pub cfg: Option<VmConfig>,
    pub events: Vec<VmEvent>,
}

impl VmDispatcher {
    /// The control-relevant abstraction of this dispatcher.
    pub open spec fn model(self) -> VmModel {
        VmModel {
            phase: self.phase,
            pid: self.pid,
            shutdown_pending: self.shutdown_pending,
            delete_pending: self.delete_pending,
        }
    }

    /// Dispatcher invariant: the child pid is held exactly in the phases
    /// with a live hypervisor process, a record's config is held exactly
    /// while the record exists, pending flags only in their queueing phase,
    /// and the published events always form a valid trace that matches the
    /// current phase.
    pub open spec fn wf(self) -> bool {
        &&& self.pid is Some <==> phase_has_pid(self.phase)
        &&& self.cfg is Some <==> self.phase != VmPhase::Absent
        &&& self.shutdown_pending ==> self.phase == VmPhase::Booting
        &&& self.delete_pending ==> self.phase == VmPhase::Stopping
        &&& exists|p: TracePos|
            replay(kinds(self.events@)) == Some(p) && #[trigger] phase_trace_ok(self.phase, p)
        &&& forall|i: int| 0 <= i < self.events.len() ==> (#[trigger] self.events[i]).id == self.id
    }

    /// A fresh dispatcher for workload `id`, holding no record.
    pub fn new(id: u128) -> (r: VmDispatcher)
        ensures
            r.wf(),
            r.id == id,
            r.phase == VmPhase::Absent,
            r.events@ =~= Seq::<VmEvent>::empty(),
            r.cfg is None,
    {
        let d = VmDispatcher {
            id,
            phase: VmPhase::Absent,
            pid: None,
            shutdown_pending: false,
            delete_pending: false,
            cfg: None,
            events: Vec::new(),
        };
        proof {
            assert(kinds(d.events@) =~= Seq::<VmEventKind>::empty());
            assert(replay(kinds(d.events@)) == Some(TracePos::Fresh));
            assert(phase_trace_ok(VmPhase::Absent, TracePos::Fresh));
        }
        d
    }

    /// A dispatcher owning a freshly minted random workload id.
    pub fn for_new_workload() -> (r: VmDispatcher)
        ensures
            r.wf(),
            r.phase == VmPhase::Absent,
            r.events@ =~= Seq::<VmEvent>::empty(),
            r.cfg is None,
    {
        let id = crate::ids::fresh_workload_id();
        VmDispatcher::new(id)
    }

    /// Applies one command or backend outcome, exactly as `vm_step` says:
    /// the model moves to `vm_step`'s next model, the event log gets its
    /// effect, and the reply and requested backend action are its outputs.
    pub fn handle(&mut self, msg: VmMsg) -> (r: (Result<(), ErrorKind>, VmAction))
        requires
            old(self).wf(),
        ensures
            final(self).wf(),
            final(self).id == old(self).id,
            ({
                let (m2, eff, rep, act) = vm_step(old(self).model(), msg);
                &&& final(self).model() == m2
                &&& r.0 == rep
                &&& r.1 == act
                &&& match eff {
                    EventsEffect::Keep => final(self).events@ == old(self).events@,
                    EventsEffect::Emit(k) => final(self).events@ == old(self).events@.push(
                        VmEvent { id: old(self).id, kind: k },
                    ),
                    EventsEffect::Clear => final(self).events@ == Seq::<VmEvent>::empty(),
                }
            }),
            ({
                let (m2, eff, rep, act) = vm_step(old(self).model(), msg);
                match msg {
                    VmMsg::Create(cfg) => if rep is Ok {
                        final(self).cfg == Some(cfg)
                    } else {
                        final(self).cfg == old(self).cfg
                    },
                    VmMsg::DeleteFinished => if rep is Ok {
                        final(self).cfg is None
                    } else {
                        final(self).cfg == old(self).cfg
                    },
                    _ => final(self).cfg == old(self).cfg,
                }
            }),
    {
        let ghost pre = self.model();
        let ghost pre_events = self.events@;
        let ghost pre_pos: TracePos = choose|p: TracePos|
            replay(kinds(pre_events)) == Some(p) && phase_trace_ok(self.phase, p);
        match msg {
            VmMsg::Create(cfg) => {
                if self.phase != VmPhase::Absent {
                    (Err(ErrorKind::AlreadyExists), VmAction::Idle)
                } else if !(cfg.cpu > 0 && cfg.memory_bytes >= MIN_VM_MEMORY_BYTES
                    && cfg.image_id.as_str().unicode_len() > 0) {
                    (Err(ErrorKind::InvalidArgument), VmAction::Idle)
                } else {
                    self.phase = VmPhase::Created;
                    self.cfg = Some(cfg);
                    let ev = VmEvent { id: self.id, kind: VmEventKind::VmCreated };
                    self.events.push(ev);
                    proof {
                        lemma_replay_push(kinds(pre_events), VmEventKind::VmCreated);
                        assert(kinds(self.events@) =~= kinds(pre_events).push(
                            VmEventKind::VmCreated,
                        ));
                        assert(pre_pos == TracePos::Fresh);
                        assert(replay(kinds(self.events@)) == Some(TracePos::Live));
                        assert(phase_trace_ok(self.phase, TracePos::Live));
                    }
                    (Ok(()), VmAction::Idle)
                }
            },
            VmMsg::Start => {
                if self.phase == VmPhase::Created {
                    self.phase = VmPhase::Starting;
                    proof {
                        assert(replay(kinds(self.events@)) == Some(pre_pos));
                        assert(phase_trace_ok(self.phase, pre_pos));
                    }
                    (Ok(()), VmAction::SpawnVmm)
                } else if self.phase == VmPhase::Absent {
                    (Err(ErrorKind::NotFound), VmAction::Idle)
                } else {
                    (Err(ErrorKind::InvalidState), VmAction::Idle)
                }
            },
            VmMsg::Pause => {
                if self.phase == VmPhase::Running {
                    self.phase = VmPhase::Paused;
                    proof {
                        assert(replay(kinds(self.events@)) == Some(pre_pos));
                        assert(phase_trace_ok(self.phase, pre_pos));
                    }
                    (Ok(()), VmAction::PauseVmm)
                } else if self.phase == VmPhase::Absent {
                    (Err(ErrorKind::NotFound), VmAction::Idle)
                } else {
                    (Err(ErrorKind::InvalidState), VmAction::Idle)
                }
            },
            VmMsg::Resume => {
                if self.phase == VmPhase::Paused {
                    self.phase = VmPhase::Running;
                    proof {
                        assert(replay(kinds(self.events@)) == Some(pre_pos));
                        assert(phase_trace_ok(self.phase, pre_pos));
                    }
                    (Ok(()), VmAction::ResumeVmm)
                } else if self.phase == VmPhase::Absent {
                    (Err(ErrorKind::NotFound), VmAction::Idle)
                } else {
                    (Err(ErrorKind::InvalidState), VmAction::Idle)
                }
            },
            VmMsg::Shutdown => {
                if self.phase == VmPhase::Running || self.phase == VmPhase::Paused {
                    self.phase = VmPhase::Stopping;
                    proof {
                        assert(replay(kinds(self.events@)) == Some(pre_pos));
                        assert(phase_trace_ok(self.phase, pre_pos));
                    }
                    (Ok(()), VmAction::ShutdownVmm)
                } else if self.phase == VmPhase::Booting {
                    self.shutdown_pending = true;
                    proof {
                        assert(replay(kinds(self.events@)) == Some(pre_pos));
                        assert(phase_trace_ok(self.phase, pre_pos));
                    }
                    (Ok(()), VmAction::Idle)
                } else if self.phase == VmPhase::Absent {
                    (Err(ErrorKind::NotFound), VmAction::Idle)
                } else {
                    (Err(ErrorKind::InvalidState), VmAction::Idle)
                }
            },
            VmMsg::Delete => {
                if self.phase == VmPhase::Created || self.phase == VmPhase::Stopped || self.phase
                    == VmPhase::Failed || self.phase == VmPhase::Booting {
                    self.phase = VmPhase::Deleting;
                    self.pid = None;
                    self.shutdown_pending = false;
                    self.delete_pending = false;
                    proof {
                        assert(replay(kinds(self.events@)) == Some(pre_pos));
                        assert(phase_trace_ok(self.phase, pre_pos));
                    }
                    (Ok(()), VmAction::TearDown)
                } else if self.phase == VmPhase::Stopping {
                    self.delete_pending = true;
                    proof {
                        assert(replay(kinds(self.events@)) == Some(pre_pos));
                        assert(phase_trace_ok(self.phase, pre_pos));
                    }
                    (Ok(()), VmAction::Idle)
                } else if self.phase == VmPhase::Absent {
                    (Err(ErrorKind::NotFound), VmAction::Idle)
                } else {
                    (Err(ErrorKind::InvalidState), VmAction::Idle)
                }
            },
            VmMsg::SpawnOk { pid } => {
                if self.phase == VmPhase::Starting {
                    self.phase = VmPhase::Booting;
                    self.pid = Some(pid);
                    proof {
                        assert(replay(kinds(self.events@)) == Some(pre_pos));
                        assert(phase_trace_ok(self.phase, pre_pos));
                    }
                    (Ok(()), VmAction::ProbeBoot)
                } else {
                    (Err(ErrorKind::InvalidState), VmAction::Idle)
                }
            },
            VmMsg::SpawnFailed => {
                if self.phase == VmPhase::Starting {
                    self.phase = VmPhase::Failed;
                    self.pid = None;
                    self.shutdown_pending = false;
                    self.delete_pending = false;
                    let k = VmEventKind::VmFailed { reason: FailReason::StartFailed };
                    let ev = VmEvent { id: self.id, kind: k };
                    self.events.push(ev);
                    proof {
                        lemma_replay_push(kinds(pre_events), k);
                        assert(kinds(self.events@) =~= kinds(pre_events).push(k));
                        assert(pre_pos == TracePos::Live);
                        assert(replay(kinds(self.events@)) == Some(TracePos::Done));
                        assert(phase_trace_ok(self.phase, TracePos::Done));
                    }
                    (Ok(()), VmAction::Idle)
                } else {
                    (Err(ErrorKind::InvalidState), VmAction::Idle)
                }
            },
            VmMsg::PingOk => {
                if self.phase == VmPhase::Booting {
                    let shutdown_now = self.shutdown_pending;
                    if shutdown_now {
                        self.phase = VmPhase::Stopping;
                        self.shutdown_pending = false;
                    } else {
                        self.phase = VmPhase::Running;
                    }
                    let ev = VmEvent { id: self.id, kind: VmEventKind::VmBooted };
                    self.events.push(ev);
                    proof {
                        lemma_replay_push(kinds(pre_events), VmEventKind::VmBooted);
                        assert(kinds(self.events@) =~= kinds(pre_events).push(
                            VmEventKind::VmBooted,
                        ));
                        assert(pre_pos == TracePos::Live);
                        assert(replay(kinds(self.events@)) == Some(TracePos::Booted));
                        assert(phase_trace_ok(self.phase, TracePos::Booted));
                    }
                    if shutdown_now {
                        (Ok(()), VmAction::ShutdownVmm)
                    } else {
                        (Ok(()), VmAction::Idle)
                    }
                } else {
                    (Err(ErrorKind::InvalidState), VmAction::Idle)
                }
            },
            VmMsg::BootTimedOut => {
                if self.phase == VmPhase::Booting {
                    self.phase = VmPhase::Failed;
                    self.pid = None;
                    self.shutdown_pending = false;
                    self.delete_pending = false;
                    let k = VmEventKind::VmFailed { reason: FailReason::BootTimeout };
                    let ev = VmEvent { id: self.id, kind: k };
                    self.events.push(ev);
                    proof {
                        lemma_replay_push(kinds(pre_events), k);
                        assert(kinds(self.events@) =~= kinds(pre_events).push(k));
                        assert(pre_pos == TracePos::Live || pre_pos == TracePos::Booted);
                        assert(replay(kinds(self.events@)) == Some(TracePos::Done));
                        assert(phase_trace_ok(self.phase, TracePos::Done));
                    }
                    (Ok(()), VmAction::Idle)
                } else {
                    (Err(ErrorKind::InvalidState), VmAction::Idle)
                }
            },
            VmMsg::Exited { code } => {
                if self.phase == VmPhase::Booting || self.phase == VmPhase::Running || self.phase
                    == VmPhase::Paused {
                    self.phase = VmPhase::Stopped;
                    self.pid = None;
                    self.shutdown_pending = false;
                    self.delete_pending = false;
                    let k = VmEventKind::VmStopped { code };
                    let ev = VmEvent { id: self.id, kind: k };
                    self.events.push(ev);
                    proof {
                        lemma_replay_push(kinds(pre_events), k);
                        assert(kinds(self.events@) =~= kinds(pre_events).push(k));
                        assert(pre_pos == TracePos::Live || pre_pos == TracePos::Booted);
                        assert(replay(kinds(self.events@)) == Some(TracePos::Done));
                        assert(phase_trace_ok(self.phase, TracePos::Done));
                    }
                    (Ok(()), VmAction::Idle)
                } else if self.phase == VmPhase::Stopping {
                    let del = self.delete_pending;
                    if del {
                        self.phase = VmPhase::Deleting;
                    } else {
                        self.phase = VmPhase::Stopped;
                    }
                    self.pid = None;
                    self.shutdown_pending = false;
                    self.delete_pending = false;
                    let k = VmEventKind::VmStopped { code };
                    let ev = VmEvent { id: self.id, kind: k };
                    self.events.push(ev);
                    proof {
                        lemma_replay_push(kinds(pre_events), k);
                        assert(kinds(self.events@) =~= kinds(pre_events).push(k));
                        assert(pre_pos == TracePos::Live || pre_pos == TracePos::Booted);
                        assert(replay(kinds(self.events@)) == Some(TracePos::Done));
                        assert(phase_trace_ok(self.phase, TracePos::Done));
                    }
                    if del {
                        (Ok(()), VmAction::TearDown)
                    } else {
                        (Ok(()), VmAction::Idle)
                    }
                } else {
                    (Err(ErrorKind::InvalidState), VmAction::Idle)
                }
            },
            VmMsg::BackendFailed => {
                if self.phase == VmPhase::Booting || self.phase == VmPhase::Running || self.phase
                    == VmPhase::Paused || self.phase == VmPhase::Stopping {
                    self.phase = VmPhase::Failed;
                    self.pid = None;
                    self.shutdown_pending = false;
                    self.delete_pending = false;
                    let k = VmEventKind::VmFailed { reason: FailReason::Backend };
                    let ev = VmEvent { id: self.id, kind: k };
                    self.events.push(ev);
                    proof {
                        lemma_replay_push(kinds(pre_events), k);
                        assert(kinds(self.events@) =~= kinds(pre_events).push(k));
                        assert(pre_pos == TracePos::Live || pre_pos == TracePos::Booted);
                        assert(replay(kinds(self.events@)) == Some(TracePos::Done));
                        assert(phase_trace_ok(self.phase, TracePos::Done));
                    }
                    (Ok(()), VmAction::Idle)
                } else {
                    (Err(ErrorKind::InvalidState), VmAction::Idle)
                }
            },
            VmMsg::DeleteFinished => {
                if self.phase == VmPhase::Deleting {
                    self.phase = VmPhase::Absent;
                    self.pid = None;
                    self.shutdown_pending = false;
                    self.delete_pending = false;
                    self.cfg = None;
                    self.events = Vec::new();
                    proof {
                        assert(kinds(self.events@) =~= Seq::<VmEventKind>::empty());
                        assert(replay(kinds(self.events@)) == Some(TracePos::Fresh));
                        assert(phase_trace_ok(self.phase, TracePos::Fresh));
                    }
                    (Ok(()), VmAction::Idle)
                } else {
                    (Err(ErrorKind::InvalidState), VmAction::Idle)
                }
            },
        }
    }

    /// A read-only snapshot of the record: the stored configuration, which
    /// reflects every field the creating call passed in. `NotFound` exactly
    /// when no record exists.
    pub fn get_vm(&self) -> (r: Result<&VmConfig, ErrorKind>)
        requires
            self.wf(),
        ensures
            self.phase == VmPhase::Absent ==> r == Err::<&VmConfig, ErrorKind>(ErrorKind::NotFound),
            self.phase != VmPhase::Absent ==> r is Ok && *r.unwrap() == self.cfg.unwrap(),
    {
        match &self.cfg {
            Some(c) => Ok(c),
            None => Err(ErrorKind::NotFound),
        }
    }

    /// The published events, in order.
    pub fn events(&self) -> (r: &Vec<VmEvent>)
        ensures
            r@ == self.events@,
    {
        &self.events
    }
}

proof fn lemma_replay_push(t: Seq<VmEventKind>, e: VmEventKind)
    ensures
        replay(t.push(e)) == match replay(t) {
            Some(p) => ev_next(p, e),
            None => None::<TracePos>,
        },
{
    assert(t.push(e).drop_last() =~= t);
    assert(t.push(e).last() == e);
}

/// Any dispatcher that satisfies the invariant has published a sequence of
/// events that is a run of the state machine: the event order is always a
/// prefix of a valid trace.
pub proof fn lemma_events_are_valid_trace(d: VmDispatcher)
    requires
        d.wf(),
    ensures
        trace_valid(kinds(d.events@)),
{
}

/// Valid traces are closed under prefixes: what a subscriber has seen so
/// far of a valid trace is itself a valid trace.
pub proof fn lemma_trace_prefix_closed(t: Seq<VmEventKind>, k: int)
    requires
        trace_valid(t),
        0 <= k <= t.len(),
    ensures
        trace_valid(t.take(k)),
    decreases t.len() - k,
{
    if k == t.len() {
        assert(t.take(k) =~= t);
    } else {
        lemma_trace_prefix_closed(t, k + 1);
        assert(t.take(k + 1).drop_last() =~= t.take(k));
    }
}

/// A hypervisor child pid is recorded exactly while the record is in a
/// phase with a live hypervisor process.
pub proof fn lemma_pid_tracks_process(d: VmDispatcher)
    requires
        d.wf(),
    ensures
        d.pid is Some <==> (d.phase == VmPhase::Booting || d.phase == VmPhase::Running || d.phase
            == VmPhase::Paused || d.phase == VmPhase::Stopping),
{
}

/// The full clean lifecycle publishes exactly `VmCreated, VmBooted,
/// VmStopped`: create, start, spawn, boot confirmation, shutdown, exit,
/// then delete, stepped through `vm_step` from an empty record.
pub proof fn lemma_lifecycle_event_sequence(cfg: VmConfig, pid: i32, code: i32)
    requires
        cfg_valid(cfg),
    ensures
        ({
            let m0 = VmModel {
                phase: VmPhase::Absent,
                pid: None,
                shutdown_pending: false,
                delete_pending: false,
            };
            let (m1, e1, r1, _) = vm_step(m0, VmMsg::Create(cfg));
            let (m2, e2, r2, _) = vm_step(m1, VmMsg::Start);
            let (m3, e3, r3, _) = vm_step(m2, VmMsg::SpawnOk { pid });
            let (m4, e4, r4, _) = vm_step(m3, VmMsg::PingOk);
            let (m5, e5, r5, _) = vm_step(m4, VmMsg::Shutdown);
            let (m6, e6, r6, _) = vm_step(m5, VmMsg::Exited { code });
            let (m7, e7, r7, _) = vm_step(m6, VmMsg::Delete);
            let (m8, e8, r8, _) = vm_step(m7, VmMsg::DeleteFinished);
            &&& r1 is Ok && r2 is Ok && r3 is Ok && r4 is Ok && r5 is Ok && r6 is Ok && r7 is Ok
                && r8 is Ok
            &&& e1 == EventsEffect::Emit(VmEventKind::VmCreated)
            &&& e2 == EventsEffect::Keep
            &&& e3 == EventsEffect::Keep
            &&& e4 == EventsEffect::Emit(VmEventKind::VmBooted)
            &&& e5 == EventsEffect::Keep
            &&& e6 == EventsEffect::Emit(VmEventKind::VmStopped { code })
            &&& e7 == EventsEffect::Keep
            &&& m8.phase == VmPhase::Absent
        }),
{
}

/// Starting a VM whose record is `Stopped` is refused with `InvalidState`
/// and moves nothing.
pub proof fn lemma_start_on_stopped_rejected(m: VmModel)
    requires
        m.phase == VmPhase::Stopped,
    ensures
        ({
            let (m2, eff, rep, act) = vm_step(m, VmMsg::Start);
            &&& rep == Err::<(), ErrorKind>(ErrorKind::InvalidState)
            &&& m2 == m
            &&& eff == EventsEffect::Keep
            &&& act == VmAction::Idle
        }),
{
}

/// Creating a VM with less than the hypervisor minimum of memory is
/// refused with `InvalidArgument` and moves nothing.
pub proof fn lemma_create_undersized_rejected(m: VmModel, cfg: VmConfig)
    requires
        m.phase == VmPhase::Absent,
        cfg.memory_bytes < MIN_VM_MEMORY_BYTES,
    ensures
        ({
            let (m2, eff, rep, act) = vm_step(m, VmMsg::Create(cfg));
            &&& rep == Err::<(), ErrorKind>(ErrorKind::InvalidArgument)
            &&& m2 == m
            &&& eff == EventsEffect::Keep
        }),
{
}

} // verus!
