use vstd::prelude::*;
use vstd::string::StringExecFns;

verus! {

/// The sub-prefix length reserved for each isolated pod.
pub const POD_PREFIX_LEN: u8 = 80;

/// The vCPU count of the backing micro-VM.
pub const POD_VM_CPUS: u32 = 2;

/// The memory of the backing micro-VM: 4 GiB.
pub const POD_VM_MEMORY: u64 = 4294967296;

/// The kernel command line of the nested-agent micro-VM.
pub fn pod_vm_cmdline() -> (r: String)
    ensures
        r@ == "console=tty0 console=ttyS0,115200 intel_iommu=on iommu=pt"@,
{
    proof {
        reveal_strlit("console=tty0 console=ttyS0,115200 intel_iommu=on iommu=pt");
    }
    String::from_str("console=tty0 console=ttyS0,115200 intel_iommu=on iommu=pt")
}

/// Where one isolated pod stands in its bring-up or teardown.
#[derive(Debug, Clone, Copy, PartialEq, Eq, Structural)]
pub enum PodPhase {
    /// Reserving a sub-prefix from the delegated pool.
    Reserving,
    /// Spawning the micro-VM's hypervisor.
    VmInit,
    /// Issuing `vm.create` for the micro-VM.
    VmCreating,
    /// Booting the micro-VM.
    VmBooting,
    /// Attaching the pod's TAP NIC.
    NetAttaching,
    /// Starting router advertisements on the TAP.
    RaStarting,
    /// Dialing the in-guest agent over vsock.
    Dialing { attempts: u8 },
    /// Forwarding the inner container creation to the guest agent.
    InnerCreating,
    /// The pod runs; the inner container id is recorded.
    Ready { inner: u128 },
    /// Deleting the inner containers through the guest agent.
    InnerDeleting,
    /// Detaching the TAP.
    TapDetaching,
    /// Deleting the micro-VM; the prefix is still held.
    VmTearingDown { failed: bool },
    /// The micro-VM is confirmed gone; releasing the sub-prefix last.
    PrefixReleasing { failed: bool },
    /// Bring-up failed; everything was torn down and the prefix released.
    Failed,
    /// The pod was deleted; everything was torn down and the prefix
    /// released.
    Gone,
}

/// What the composer hears from the backends.
#[derive(Debug, Clone, Copy, PartialEq, Eq, Structural)]
pub enum PodEvent {
    /// The sub-prefix was reserved.
    PrefixReady { addr: u128 },
    /// The current bring-up step succeeded.
    StepOk,
    /// The current bring-up step failed.
    StepFailed,
    /// A vsock dial attempt succeeded.
    DialOk,
    /// A vsock dial attempt failed.
    DialFailed,
    /// The guest agent created the inner container.
    InnerCreated { inner: u128 },
    /// A client asked for the pod's deletion.
    Delete,
    /// The inner containers are gone.
    InnerDeleted,
    /// The TAP is detached.
    TapDetached,
    /// The micro-VM is confirmed gone.
    VmDeleted,
    /// The sub-prefix release finished.
    PrefixReleased,
}

/// What the composer asks the surrounding runtime to do next.
#[derive(Debug, Clone, Copy, PartialEq, Eq, Structural)]
pub enum PodAction {
    Idle,
    AllocatePrefix,
    InitVm,
    CreateVm,
    BootVm,
    AttachTap,
    StartRa,
    Dial,
    CreateInner,
    DeleteInner,
    DetachTap,
    DeleteVm,
    ReleasePrefix,
}

/// The transition function of the isolated-pod composer. Bring-up walks
/// prefix, hypervisor, boot, TAP, router advertisement, vsock dial (up to
/// twenty attempts) and inner-container creation; any failure after the
/// prefix is reserved tears the micro-VM down first and releases the
/// sub-prefix only once the VM is confirmed gone.
pub open spec fn pod_spec_step(ph: PodPhase, ev: PodEvent) -> (PodPhase, PodAction) {
    match (ph, ev) {
        (PodPhase::Reserving, PodEvent::PrefixReady { addr }) => (
            PodPhase::VmInit,
            PodAction::InitVm,
        ),
        (PodPhase::Reserving, PodEvent::StepFailed) => (PodPhase::Failed, PodAction::Idle),
        (PodPhase::VmInit, PodEvent::StepOk) => (PodPhase::VmCreating, PodAction::CreateVm),
        (PodPhase::VmInit, PodEvent::StepFailed) => (
            PodPhase::PrefixReleasing { failed: true },
            PodAction::ReleasePrefix,
        ),
        (PodPhase::VmCreating, PodEvent::StepOk) => (PodPhase::VmBooting, PodAction::BootVm),
        (PodPhase::VmCreating, PodEvent::StepFailed) => (
            PodPhase::VmTearingDown { failed: true },
            PodAction::DeleteVm,
        ),
        (PodPhase::VmBooting, PodEvent::StepOk) => (PodPhase::NetAttaching, PodAction::AttachTap),
        (PodPhase::VmBooting, PodEvent::StepFailed) => (
            PodPhase::VmTearingDown { failed: true },
            PodAction::DeleteVm,
        ),
        (PodPhase::NetAttaching, PodEvent::StepOk) => (PodPhase::RaStarting, PodAction::StartRa),
        (PodPhase::NetAttaching, PodEvent::StepFailed) => (
            PodPhase::VmTearingDown { failed: true },
            PodAction::DeleteVm,
        ),
        (PodPhase::RaStarting, PodEvent::StepOk) => (
            PodPhase::Dialing { attempts: 0 },
            PodAction::Dial,
        ),
        (PodPhase::RaStarting, PodEvent::StepFailed) => (
            PodPhase::VmTearingDown { failed: true },
            PodAction::DeleteVm,
        ),
        (PodPhase::Dialing { attempts }, PodEvent::DialOk) => (
            PodPhase::InnerCreating,
            PodAction::CreateInner,
        ),
        (PodPhase::Dialing { attempts }, PodEvent::DialFailed) => {
            if attempts + 1 < crate::vsock::DIAL_ATTEMPTS {
                (PodPhase::Dialing { attempts: (attempts + 1) as u8 }, PodAction::Dial)
            } else {
                (PodPhase::VmTearingDown { failed: true }, PodAction::DeleteVm)
            }
        },
        (PodPhase::InnerCreating, PodEvent::InnerCreated { inner }) => (
            PodPhase::Ready { inner },
            PodAction::Idle,
        ),
        (PodPhase::InnerCreating, PodEvent::StepFailed) => (
            PodPhase::VmTearingDown { failed: true },
            PodAction::DeleteVm,
        ),
        (PodPhase::Ready { inner }, PodEvent::Delete) => (
            PodPhase::InnerDeleting,
            PodAction::DeleteInner,
        ),
        (PodPhase::InnerDeleting, PodEvent::InnerDeleted) => (
            PodPhase::TapDetaching,
            PodAction::DetachTap,
        ),
        (PodPhase::InnerDeleting, PodEvent::StepFailed) => (
            PodPhase::TapDetaching,
            PodAction::DetachTap,
        ),
        (PodPhase::TapDetaching, PodEvent::TapDetached) => (
            PodPhase::VmTearingDown { failed: false },
            PodAction::DeleteVm,
        ),
        (PodPhase::VmTearingDown { failed }, PodEvent::VmDeleted) => (
            PodPhase::PrefixReleasing { failed },
            PodAction::ReleasePrefix,
        ),
        (PodPhase::PrefixReleasing { failed }, PodEvent::PrefixReleased) => {
            if failed {
                (PodPhase::Failed, PodAction::Idle)
            } else {
                (PodPhase::Gone, PodAction::Idle)
            }
        },
        (ph2, _) => (ph2, PodAction::Idle),
    }
}

/// Applies one event to a pod, exactly as `pod_spec_step` says.
pub fn pod_step(ph: PodPhase, ev: PodEvent) -> (r: (PodPhase, PodAction))
    ensures
        r == pod_spec_step(ph, ev),
{
    match (ph, ev) {
        (PodPhase::Reserving, PodEvent::PrefixReady { addr }) => (
            PodPhase::VmInit,
            PodAction::InitVm,
        ),
        (PodPhase::Reserving, PodEvent::StepFailed) => (PodPhase::Failed, PodAction::Idle),
        (PodPhase::VmInit, PodEvent::StepOk) => (PodPhase::VmCreating, PodAction::CreateVm),
        (PodPhase::VmInit, PodEvent::StepFailed) => (
            PodPhase::PrefixReleasing { failed: true },
            PodAction::ReleasePrefix,
        ),
        (PodPhase::VmCreating, PodEvent::StepOk) => (PodPhase::VmBooting, PodAction::BootVm),
        (PodPhase::VmCreating, PodEvent::StepFailed) => (
            PodPhase::VmTearingDown { failed: true },
            PodAction::DeleteVm,
        ),
        (PodPhase::VmBooting, PodEvent::StepOk) => (PodPhase::NetAttaching, PodAction::AttachTap),
        (PodPhase::VmBooting, PodEvent::StepFailed) => (
            PodPhase::VmTearingDown { failed: true },
            PodAction::DeleteVm,
        ),
        (PodPhase::NetAttaching, PodEvent::StepOk) => (PodPhase::RaStarting, PodAction::StartRa),
        (PodPhase::NetAttaching, PodEvent::StepFailed) => (
            PodPhase::VmTearingDown { failed: true },
            PodAction::DeleteVm,
        ),
        (PodPhase::RaStarting, PodEvent::StepOk) => (
            PodPhase::Dialing { attempts: 0 },
            PodAction::Dial,
        ),
        (PodPhase::RaStarting, PodEvent::StepFailed) => (
            PodPhase::VmTearingDown { failed: true },
            PodAction::DeleteVm,
        ),
        (PodPhase::Dialing { attempts }, PodEvent::DialOk) => (
            PodPhase::InnerCreating,
            PodAction::CreateInner,
        ),
        (PodPhase::Dialing { attempts }, PodEvent::DialFailed) => {
            if attempts < crate::vsock::DIAL_ATTEMPTS - 1 {
                (PodPhase::Dialing { attempts: attempts + 1 }, PodAction::Dial)
            } else {
                (PodPhase::VmTearingDown { failed: true }, PodAction::DeleteVm)
            }
        },
        (PodPhase::InnerCreating, PodEvent::InnerCreated { inner }) => (
            PodPhase::Ready { inner },
            PodAction::Idle,
        ),
        (PodPhase::InnerCreating, PodEvent::StepFailed) => (
            PodPhase::VmTearingDown { failed: true },
            PodAction::DeleteVm,
        ),
        (PodPhase::Ready { inner }, PodEvent::Delete) => (
            PodPhase::InnerDeleting,
            PodAction::DeleteInner,
        ),
        (PodPhase::InnerDeleting, PodEvent::InnerDeleted) => (
            PodPhase::TapDetaching,
            PodAction::DetachTap,
        ),
        (PodPhase::InnerDeleting, PodEvent::StepFailed) => (
            PodPhase::TapDetaching,
            PodAction::DetachTap,
        ),
        (PodPhase::TapDetaching, PodEvent::TapDetached) => (
            PodPhase::VmTearingDown { failed: false },
            PodAction::DeleteVm,
        ),
        (PodPhase::VmTearingDown { failed }, PodEvent::VmDeleted) => (
            PodPhase::PrefixReleasing { failed },
            PodAction::ReleasePrefix,
        ),
        (PodPhase::PrefixReleasing { failed }, PodEvent::PrefixReleased) => {
            if failed {
                (PodPhase::Failed, PodAction::Idle)
            } else {
                (PodPhase::Gone, PodAction::Idle)
            }
        },
        (ph2, _) => (ph2, PodAction::Idle),
    }
}

/// The scoped-release discipline: once the micro-VM exists, the
/// sub-prefix is released only after the VM is confirmed gone. The
/// release action arises either before any hypervisor was created at all,
/// or on the `VmDeleted` confirmation.
pub proof fn lemma_release_only_after_vm_gone(ph: PodPhase, ev: PodEvent)
    ensures
        pod_spec_step(ph, ev).1 == PodAction::ReleasePrefix ==> (ph == PodPhase::VmInit || (ph
            matches PodPhase::VmTearingDown { .. } && ev == PodEvent::VmDeleted)),
{
}

/// Teardown never ends with the prefix still held: the terminal phases
/// are reached only out of `PrefixReleasing`, whose release has finished,
/// or — for `Failed` — when nothing had been reserved beyond the request.
pub proof fn lemma_terminal_after_release(ph: PodPhase, ev: PodEvent)
    ensures
        (pod_spec_step(ph, ev).0 == PodPhase::Gone && ph != PodPhase::Gone) ==> ph
            matches PodPhase::PrefixReleasing { .. },
        (pod_spec_step(ph, ev).0 == PodPhase::Failed && ph != PodPhase::Failed) ==> (ph
            matches PodPhase::PrefixReleasing { .. } || ph == PodPhase::Reserving),
{
}

/// One isolated pod's record: its phase, the creating call's image and
/// command (held for verbatim forwarding to the guest agent), the
/// reserved sub-prefix, and the inner container id the guest returned.
pub struct IsolatedPod {
    pub phase: PodPhase,
    pub image: String,
    pub command: Vec<String>,
    pub sub_prefix: Option<u128>,
    pub inner: Option<u128>,
}

impl IsolatedPod {
    /// A fresh pod record for one creation request, about to reserve its
    /// sub-prefix; the request's image and command are stored verbatim.
    pub fn new(image: String, command: Vec<String>) -> (r: IsolatedPod)
        ensures
            r.phase == PodPhase::Reserving,
            r.image == image,
            r.command == command,
            r.sub_prefix is None,
            r.inner is None,
    {
        IsolatedPod { phase: PodPhase::Reserving, image, command, sub_prefix: None, inner: None }
    }

    /// Applies one event, exactly as `pod_spec_step` says; the creating
    /// call's image and command are never altered, the sub-prefix is
    /// recorded when its reservation answers, and the inner container id
    /// when the guest agent returns it.
    pub fn step(&mut self, ev: PodEvent) -> (r: PodAction)
        ensures
            (final(self).phase, r) == pod_spec_step(old(self).phase, ev),
            final(self).image == old(self).image,
            final(self).command == old(self).command,
            (old(self).phase == PodPhase::Reserving && ev matches PodEvent::PrefixReady { .. })
                ==> final(self).sub_prefix == Some(ev->PrefixReady_addr),
            !(old(self).phase == PodPhase::Reserving && ev matches PodEvent::PrefixReady { .. })
                ==> final(self).sub_prefix == old(self).sub_prefix,
            (old(self).phase == PodPhase::InnerCreating && ev matches PodEvent::InnerCreated {
                ..
            }) ==> final(self).inner == Some(ev->InnerCreated_inner),
            !(old(self).phase == PodPhase::InnerCreating && ev matches PodEvent::InnerCreated {
                ..
            }) ==> final(self).inner == old(self).inner,
    {
        if self.phase == PodPhase::Reserving {
            if let PodEvent::PrefixReady { addr } = ev {
                self.sub_prefix = Some(addr);
            }
        }
        if self.phase == PodPhase::InnerCreating {
            if let PodEvent::InnerCreated { inner } = ev {
                self.inner = Some(inner);
            }
        }
        let (next, action) = pod_step(self.phase, ev);
        self.phase = next;
        action
    }

    /// What is forwarded to the guest agent when the `CreateInner`
    /// action runs: exactly the image and command of the creating call.
    pub fn inner_request(&self) -> (r: (&String, &Vec<String>))
        ensures
            r.0 == &self.image,
            r.1 == &self.command,
    {
        (&self.image, &self.command)
    }

    /// Answers a state query for the pod: `running` once the inner
    /// container is up, `creating` through bring-up, `stopping` through
    /// teardown, and the terminal words after it.
    pub fn state_container(&self) -> (r: &'static str)
        ensures
            self.phase matches PodPhase::Ready { .. } ==> r@ == "running"@,
            (self.phase == PodPhase::Reserving || self.phase == PodPhase::VmInit || self.phase
                == PodPhase::VmCreating || self.phase == PodPhase::VmBooting || self.phase
                == PodPhase::NetAttaching || self.phase == PodPhase::RaStarting || self.phase
                matches PodPhase::Dialing { .. } || self.phase == PodPhase::InnerCreating) ==> r@
                == "creating"@,
            (self.phase == PodPhase::InnerDeleting || self.phase == PodPhase::TapDetaching
                || self.phase matches PodPhase::VmTearingDown { .. } || self.phase
                matches PodPhase::PrefixReleasing { .. }) ==> r@ == "stopping"@,
            self.phase == PodPhase::Failed ==> r@ == "failed"@,
            self.phase == PodPhase::Gone ==> r@ == "deleted"@,
    {
        proof {
            reveal_strlit("running");
            reveal_strlit("creating");
            reveal_strlit("stopping");
            reveal_strlit("failed");
            reveal_strlit("deleted");
        }
        match self.phase {
            PodPhase::Ready { .. } => "running",
            PodPhase::Reserving | PodPhase::VmInit | PodPhase::VmCreating | PodPhase::VmBooting
                | PodPhase::NetAttaching | PodPhase::RaStarting | PodPhase::Dialing { .. }
                | PodPhase::InnerCreating => "creating",
            PodPhase::InnerDeleting | PodPhase::TapDetaching | PodPhase::VmTearingDown { .. }
                | PodPhase::PrefixReleasing { .. } => "stopping",
            PodPhase::Failed => "failed",
            PodPhase::Gone => "deleted",
        }
    }
}

} // verus!
