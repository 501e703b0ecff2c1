use feos::api::{CommandChannel, COMMAND_CHANNEL_CAPACITY};
use feos::compose::{pod_step, IsolatedPod, PodAction, PodEvent, PodPhase};
use feos::container::{
    ContainerConfig, ContainerDispatcher, CtrAction, CtrEventKind, CtrFailReason, CtrMsg, CtrPhase,
};
use feos::dispatcher::{
    BootSpec, FailReason, VmAction, VmConfig, VmDispatcher, VmEventKind, VmMsg, VmPhase,
};
use feos::errors::{status_of, ErrorKind, StatusCode};
use feos::prefix::PrefixAllocator;
use feos::runc::{
    create_args, create_spawn_plan, create_step, delete_args, exit_code_of, kill_args, parse_pid,
    start_args, CreateAction, CreateEvent, CreateState, WaitOutcome,
};
use feos::platform::{bytes_contains, dmi_indicates_vm, strip_sysfs_id, to_ascii_lower};
use feos::vsock::{handshake_ok, may_retry_dial, split_first_line, vsock_connect_line};

const POOL_BASE: u128 = 0x2001_0db8_0000_0000_0000_0000_0000_0000; // 2001:db8::/48
const SUB_STRIDE: u128 = 1 << 48; // one /80 inside a /48

fn test_cfg() -> VmConfig {
    VmConfig {
        cpu: 2,
        memory_bytes: 536_870_912,
        image_id: String::from("alpine"),
        boot: BootSpec::Firmware { firmware_path: String::from("/usr/share/ch/hypervisor-fw") },
        ignition: None,
        nics: Vec::new(),
        disks: Vec::new(),
    }
}

#[test]
fn allocate_lowest_and_idempotent() {
    let mut pool = PrefixAllocator::new(POOL_BASE, 48);
    let a1 = pool.allocate(1, 80).unwrap();
    assert_eq!(a1, POOL_BASE);
    let a2 = pool.allocate(2, 80).unwrap();
    assert_eq!(a2, POOL_BASE + SUB_STRIDE);
    // a second call for the same workload returns the same address
    let again = pool.allocate(1, 80).unwrap();
    assert_eq!(again, a1);
    assert_eq!(pool.len(), 2);
    // after release, the same id may get a fresh allocation
    pool.release(1);
    assert_eq!(pool.len(), 1);
    let fresh = pool.allocate(1, 80).unwrap();
    assert_eq!(fresh, POOL_BASE);
}

#[test]
fn allocate_exhausts_small_pool() {
    // a /126 pool holds exactly four /128 addresses
    let mut pool = PrefixAllocator::new(0xfd00_0000_0000_0000_0000_0000_0000_0000, 126);
    for id in 0..4u128 {
        assert!(pool.allocate(id, 128).is_ok());
    }
    assert_eq!(pool.allocate(99, 128), Err(ErrorKind::PoolExhausted));
}

#[test]
fn allocate_mixed_lengths_disjoint() {
    let mut pool = PrefixAllocator::new(POOL_BASE, 48);
    let a = pool.allocate(1, 64).unwrap();
    let b = pool.allocate(2, 80).unwrap();
    // the /80 lands outside the first /64
    assert_eq!(a, POOL_BASE);
    assert_eq!(b, POOL_BASE + (1u128 << 64));
}

#[test]
fn prefix_churn_leaves_pool_empty() {
    let mut pool = PrefixAllocator::new(POOL_BASE, 48);
    let mut addrs: Vec<u128> = Vec::new();
    for id in 0..100u128 {
        let a = pool.allocate(id, 80).unwrap();
        assert!(!addrs.contains(&a));
        addrs.push(a);
    }
    for id in 0..100u128 {
        pool.release(id);
    }
    assert_eq!(pool.len(), 0);
}

#[test]
fn vm_lifecycle_event_sequence() {
    let mut d = VmDispatcher::new(7);
    let (r, _) = d.handle(VmMsg::Create(test_cfg()));
    assert!(r.is_ok());
    let (r, act) = d.handle(VmMsg::Start);
    assert!(r.is_ok());
    assert_eq!(act, VmAction::SpawnVmm);
    let (r, act) = d.handle(VmMsg::SpawnOk { pid: 4242 });
    assert!(r.is_ok());
    assert_eq!(act, VmAction::ProbeBoot);
    assert_eq!(d.pid, Some(4242));
    let (r, _) = d.handle(VmMsg::PingOk);
    assert!(r.is_ok());
    assert_eq!(d.phase, VmPhase::Running);
    let (r, act) = d.handle(VmMsg::Shutdown);
    assert!(r.is_ok());
    assert_eq!(act, VmAction::ShutdownVmm);
    let (r, _) = d.handle(VmMsg::Exited { code: 0 });
    assert!(r.is_ok());
    assert_eq!(d.phase, VmPhase::Stopped);
    assert_eq!(d.pid, None);

    let kinds: Vec<_> = d.events().iter().map(|e| e.kind).collect();
    assert_eq!(
        kinds,
        vec![VmEventKind::VmCreated, VmEventKind::VmBooted, VmEventKind::VmStopped { code: 0 }]
    );
    for e in d.events() {
        assert_eq!(e.id, 7);
    }

    let (r, act) = d.handle(VmMsg::Delete);
    assert!(r.is_ok());
    assert_eq!(act, VmAction::TearDown);
    let (r, _) = d.handle(VmMsg::DeleteFinished);
    assert!(r.is_ok());
    assert_eq!(d.phase, VmPhase::Absent);
    assert_eq!(d.get_vm(), Err(ErrorKind::NotFound));
}

#[test]
fn create_with_undersized_memory_rejected() {
    let mut d = VmDispatcher::new(1);
    let mut cfg = test_cfg();
    cfg.memory_bytes = 1_048_576; // below the 64 MiB hypervisor minimum
    let (r, _) = d.handle(VmMsg::Create(cfg));
    assert_eq!(r, Err(ErrorKind::InvalidArgument));
    assert_eq!(d.phase, VmPhase::Absent);
    assert!(d.events().is_empty());
}

#[test]
fn start_on_stopped_rejected() {
    let mut d = VmDispatcher::new(1);
    d.handle(VmMsg::Create(test_cfg())).0.unwrap();
    d.handle(VmMsg::Start).0.unwrap();
    d.handle(VmMsg::SpawnOk { pid: 1 }).0.unwrap();
    d.handle(VmMsg::PingOk).0.unwrap();
    d.handle(VmMsg::Exited { code: 0 }).0.unwrap();
    assert_eq!(d.phase, VmPhase::Stopped);
    let (r, act) = d.handle(VmMsg::Start);
    assert_eq!(r, Err(ErrorKind::InvalidState));
    assert_eq!(act, VmAction::Idle);
    assert_eq!(d.phase, VmPhase::Stopped);
}

#[test]
fn get_vm_reflects_created_config() {
    let mut d = VmDispatcher::new(1);
    let cfg = test_cfg();
    d.handle(VmMsg::Create(cfg)).0.unwrap();
    let info = d.get_vm().unwrap();
    assert_eq!(info.cpu, 2);
    assert_eq!(info.memory_bytes, 536_870_912);
    assert_eq!(info.image_id, "alpine");
    assert_eq!(
        info.boot,
        BootSpec::Firmware { firmware_path: String::from("/usr/share/ch/hypervisor-fw") }
    );
}

#[test]
fn accepted_start_completes_without_client() {
    // the client's disconnection drops only the reply: the backend
    // outcomes still drive the record to Running and publish VmBooted
    let mut d = VmDispatcher::new(1);
    d.handle(VmMsg::Create(test_cfg())).0.unwrap();
    d.handle(VmMsg::Start).0.unwrap();
    // client goes away here; nothing is cancelled
    d.handle(VmMsg::SpawnOk { pid: 9 }).0.unwrap();
    d.handle(VmMsg::PingOk).0.unwrap();
    assert_eq!(d.phase, VmPhase::Running);
    assert!(d.events().iter().any(|e| e.kind == VmEventKind::VmBooted));
}

#[test]
fn boot_timeout_fails_record() {
    let mut d = VmDispatcher::new(1);
    d.handle(VmMsg::Create(test_cfg())).0.unwrap();
    d.handle(VmMsg::Start).0.unwrap();
    d.handle(VmMsg::SpawnOk { pid: 9 }).0.unwrap();
    d.handle(VmMsg::BootTimedOut).0.unwrap();
    assert_eq!(d.phase, VmPhase::Failed);
    assert_eq!(d.pid, None);
    assert!(d
        .events()
        .iter()
        .any(|e| e.kind == VmEventKind::VmFailed { reason: FailReason::BootTimeout }));
}

#[test]
fn shutdown_while_booting_is_queued() {
    let mut d = VmDispatcher::new(1);
    d.handle(VmMsg::Create(test_cfg())).0.unwrap();
    d.handle(VmMsg::Start).0.unwrap();
    d.handle(VmMsg::SpawnOk { pid: 9 }).0.unwrap();
    let (r, act) = d.handle(VmMsg::Shutdown);
    assert!(r.is_ok());
    assert_eq!(act, VmAction::Idle);
    let (r, act) = d.handle(VmMsg::PingOk);
    assert!(r.is_ok());
    assert_eq!(act, VmAction::ShutdownVmm);
    assert_eq!(d.phase, VmPhase::Stopping);
}

#[test]
fn error_translation_table() {
    assert_eq!(status_of(ErrorKind::NotFound), StatusCode::NotFound);
    assert_eq!(status_of(ErrorKind::AlreadyExists), StatusCode::AlreadyExists);
    assert_eq!(status_of(ErrorKind::InvalidState), StatusCode::FailedPrecondition);
    assert_eq!(status_of(ErrorKind::BackendRejected), StatusCode::Internal);
    assert_eq!(status_of(ErrorKind::SocketTimeout), StatusCode::Unavailable);
    assert_eq!(status_of(ErrorKind::PoolExhausted), StatusCode::ResourceExhausted);
    assert_eq!(status_of(ErrorKind::InvalidArgument), StatusCode::InvalidArgument);
}

#[test]
fn runc_argument_lists() {
    let c = create_args("/bundles/b1", "c-1");
    assert_eq!(
        c,
        vec!["create", "--bundle", "/bundles/b1", "--pid-file", "/bundles/b1/container.pid", "c-1"]
    );
    assert_eq!(start_args("c-1"), vec!["start", "c-1"]);
    assert_eq!(kill_args("c-1", 15), vec!["kill", "c-1", "15"]);
    assert_eq!(delete_args("c-1"), vec!["delete", "--force", "c-1"]);
}

#[test]
fn runc_exit_code_mapping() {
    assert_eq!(exit_code_of(WaitOutcome::Exited { code: 3 }), 3);
    assert_eq!(exit_code_of(WaitOutcome::Signaled { signo: 9 }), 137);
    assert_eq!(exit_code_of(WaitOutcome::Other), 255);
}

#[test]
fn pid_file_parsing() {
    assert_eq!(parse_pid(b"1234"), Some(1234));
    assert_eq!(parse_pid(b"  1234\n"), Some(1234));
    assert_eq!(parse_pid(b"0001234\n"), Some(1234));
    assert_eq!(parse_pid(b""), None);
    assert_eq!(parse_pid(b"  \n"), None);
    assert_eq!(parse_pid(b"12a4"), None);
    assert_eq!(parse_pid(b"99999999999999999999"), None);
    assert_eq!(parse_pid(b"2147483647"), Some(2147483647));
    assert_eq!(parse_pid(b"2147483648"), None);
}

#[test]
fn runc_create_removes_pid_file_on_success() {
    let (s, a) = create_step(CreateState::AwaitExit, CreateEvent::RuntimeExited { success: true });
    assert_eq!(s, CreateState::ReadingPid);
    assert_eq!(a, CreateAction::ReadPidFile);
    let (s, a) = create_step(s, CreateEvent::PidRead { pid: Some(42) });
    assert_eq!(a, CreateAction::RemovePidFile);
    let (s, a) = create_step(s, CreateEvent::PidFileRemoved);
    assert_eq!(s, CreateState::Done { result: Ok(42) });
    assert_eq!(a, CreateAction::Wait);
}

#[test]
fn runc_create_removes_pid_file_on_failure() {
    let (s, a) = create_step(CreateState::AwaitExit, CreateEvent::RuntimeExited { success: false });
    assert_eq!(s, CreateState::RemovingPid { result: Err(ErrorKind::BackendRejected) });
    assert_eq!(a, CreateAction::RemovePidFile);
    let (s, _) = create_step(s, CreateEvent::PidFileRemoved);
    assert_eq!(s, CreateState::Done { result: Err(ErrorKind::BackendRejected) });
}

#[test]
fn runc_create_discards_runtime_output() {
    // a runtime that floods stderr cannot block the caller: both streams
    // are sunk to null in the spawn plan
    let plan = create_spawn_plan("/bundles/b1", "c-1");
    assert!(plan.stdout_null);
    assert!(plan.stderr_null);
    assert_eq!(
        plan.args,
        vec!["create", "--bundle", "/bundles/b1", "--pid-file", "/bundles/b1/container.pid", "c-1"]
    );
}

#[test]
fn vsock_handshake_framing() {
    assert_eq!(vsock_connect_line(), "CONNECT 1337\n");
    let buf = b"OK some banner\nGRPC-BYTES";
    let (line, rest) = split_first_line(buf).unwrap();
    assert_eq!(line, b"OK some banner");
    assert_eq!(rest, b"GRPC-BYTES");
    assert!(handshake_ok(&line));
    assert!(!handshake_ok(b"ERR no listener"));
    assert!(split_first_line(b"partial").is_none());
    assert!(may_retry_dial(19));
    assert!(!may_retry_dial(20));
}

#[test]
fn pod_happy_path() {
    let (p, a) = pod_step(PodPhase::Reserving, PodEvent::PrefixReady { addr: POOL_BASE });
    assert_eq!((p, a), (PodPhase::VmInit, PodAction::InitVm));
    let (p, a) = pod_step(p, PodEvent::StepOk);
    assert_eq!((p, a), (PodPhase::VmCreating, PodAction::CreateVm));
    let (p, a) = pod_step(p, PodEvent::StepOk);
    assert_eq!((p, a), (PodPhase::VmBooting, PodAction::BootVm));
    let (p, a) = pod_step(p, PodEvent::StepOk);
    assert_eq!((p, a), (PodPhase::NetAttaching, PodAction::AttachTap));
    let (p, a) = pod_step(p, PodEvent::StepOk);
    assert_eq!((p, a), (PodPhase::RaStarting, PodAction::StartRa));
    let (p, a) = pod_step(p, PodEvent::StepOk);
    assert_eq!((p, a), (PodPhase::Dialing { attempts: 0 }, PodAction::Dial));
    let (p, a) = pod_step(p, PodEvent::DialOk);
    assert_eq!((p, a), (PodPhase::InnerCreating, PodAction::CreateInner));
    let (p, a) = pod_step(p, PodEvent::InnerCreated { inner: 55 });
    assert_eq!((p, a), (PodPhase::Ready { inner: 55 }, PodAction::Idle));
}

#[test]
fn pod_failure_releases_prefix_last() {
    // exhaust the dial attempts, then confirm the teardown order:
    // delete the VM first, release the prefix only once it is gone
    let mut p = PodPhase::Dialing { attempts: 0 };
    let mut hops = 0;
    loop {
        let (next, act) = pod_step(p, PodEvent::DialFailed);
        p = next;
        hops += 1;
        if act != PodAction::Dial {
            assert_eq!(act, PodAction::DeleteVm);
            break;
        }
        assert!(hops < 25);
    }
    assert_eq!(hops, 20);
    assert_eq!(p, PodPhase::VmTearingDown { failed: true });
    let (p, a) = pod_step(p, PodEvent::VmDeleted);
    assert_eq!((p, a), (PodPhase::PrefixReleasing { failed: true }, PodAction::ReleasePrefix));
    let (p, a) = pod_step(p, PodEvent::PrefixReleased);
    assert_eq!((p, a), (PodPhase::Failed, PodAction::Idle));
}

#[test]
fn pod_deletion_walks_teardown() {
    let (p, a) = pod_step(PodPhase::Ready { inner: 1 }, PodEvent::Delete);
    assert_eq!((p, a), (PodPhase::InnerDeleting, PodAction::DeleteInner));
    let (p, a) = pod_step(p, PodEvent::InnerDeleted);
    assert_eq!((p, a), (PodPhase::TapDetaching, PodAction::DetachTap));
    let (p, a) = pod_step(p, PodEvent::TapDetached);
    assert_eq!((p, a), (PodPhase::VmTearingDown { failed: false }, PodAction::DeleteVm));
    let (p, a) = pod_step(p, PodEvent::VmDeleted);
    assert_eq!((p, a), (PodPhase::PrefixReleasing { failed: false }, PodAction::ReleasePrefix));
    let (p, a) = pod_step(p, PodEvent::PrefixReleased);
    assert_eq!((p, a), (PodPhase::Gone, PodAction::Idle));
}

#[test]
fn host_detection_from_dmi() {
    assert!(dmi_indicates_vm(b"Cloud Hypervisor\n", b"cloud-hypervisor"));
    assert!(!dmi_indicates_vm(b"Standard PC\n", b"cloud-hypervisor"));
    assert!(bytes_contains(b"abcdef", b"cde"));
    assert!(!bytes_contains(b"abcdef", b"cdf"));
    assert!(bytes_contains(b"abc", b""));
    assert_eq!(to_ascii_lower(b"MiXeD-09"), b"mixed-09".to_vec());
    assert_eq!(strip_sysfs_id(b"0x8086\n"), Some(b"8086".to_vec()));
    assert_eq!(strip_sysfs_id(b"0x10d3  "), Some(b"10d3".to_vec()));
    assert_eq!(strip_sysfs_id(b"0"), None);
}

#[test]
fn command_channel_priority_and_backpressure() {
    let mut ch = CommandChannel::new();
    // fill the channel: info commands first, one lifecycle command last
    for t in 0..(COMMAND_CHANNEL_CAPACITY as u64 - 1) {
        assert_eq!(ch.offer(t, false), Ok(()));
    }
    assert_eq!(ch.offer(1000, true), Ok(()));
    // a full channel refuses further senders
    assert_eq!(ch.offer(2000, false), Err(ErrorKind::Busy));
    // the lifecycle command preempts the earlier info commands
    assert_eq!(ch.take(), Some(1000));
    assert_eq!(ch.take(), Some(0));
    for t in 1..(COMMAND_CHANNEL_CAPACITY as u64 - 1) {
        assert_eq!(ch.take(), Some(t));
    }
    assert_eq!(ch.take(), None);
}

fn test_ctr_cfg() -> ContainerConfig {
    ContainerConfig {
        bundle_path: String::from("/bundles/b1"),
        image: String::from("nginx:alpine"),
        command: vec![String::from("nginx"), String::from("-g"), String::from("daemon off;")],
    }
}

#[test]
fn container_lifecycle_event_sequence() {
    let mut d = ContainerDispatcher::new(11);
    let (r, act) = d.handle(CtrMsg::Create(test_ctr_cfg()));
    assert!(r.is_ok());
    assert_eq!(act, CtrAction::RunCreate);
    assert!(d.events().is_empty());
    let (r, _) = d.handle(CtrMsg::CreateDone { pid: 777 });
    assert!(r.is_ok());
    assert_eq!(d.pid, Some(777));
    let (r, act) = d.handle(CtrMsg::Start);
    assert!(r.is_ok());
    assert_eq!(act, CtrAction::RunStart);
    // the started event and the reaper arise from the same step
    let (r, act) = d.handle(CtrMsg::StartDone);
    assert!(r.is_ok());
    assert_eq!(act, CtrAction::SpawnReaper);
    assert_eq!(d.phase, CtrPhase::Running);
    let (r, _) = d.handle(CtrMsg::Reaped { code: 0 });
    assert!(r.is_ok());
    assert_eq!(d.phase, CtrPhase::Exited);
    assert_eq!(d.exit_code, Some(0));
    assert_eq!(d.pid, None);

    let kinds: Vec<_> = d.events().iter().map(|e| e.kind).collect();
    assert_eq!(
        kinds,
        vec![
            CtrEventKind::ContainerCreated { pid: 777 },
            CtrEventKind::ContainerStarted,
            CtrEventKind::ContainerStopped { code: 0 },
        ]
    );
    for e in d.events() {
        assert_eq!(e.id, 11);
    }

    let (r, act) = d.handle(CtrMsg::Delete);
    assert!(r.is_ok());
    assert_eq!(act, CtrAction::RunDelete);
    let (r, _) = d.handle(CtrMsg::DeleteFinished);
    assert!(r.is_ok());
    assert_eq!(d.phase, CtrPhase::Absent);
    assert_eq!(d.get_container(), Err(ErrorKind::NotFound));
}

#[test]
fn container_create_failure_publishes_failed() {
    let mut d = ContainerDispatcher::new(1);
    d.handle(CtrMsg::Create(test_ctr_cfg())).0.unwrap();
    let (r, _) = d.handle(CtrMsg::CreateFailed);
    assert!(r.is_ok());
    assert_eq!(d.phase, CtrPhase::Failed);
    let kinds: Vec<_> = d.events().iter().map(|e| e.kind).collect();
    assert_eq!(
        kinds,
        vec![CtrEventKind::ContainerFailed { reason: CtrFailReason::CreateFailed }]
    );
    // stopped can never be published now: the record is settled
    let (r, _) = d.handle(CtrMsg::Reaped { code: 9 });
    assert_eq!(r, Err(ErrorKind::InvalidState));
}

#[test]
fn container_rejections() {
    let mut d = ContainerDispatcher::new(1);
    let mut bad = test_ctr_cfg();
    bad.image = String::new();
    assert_eq!(d.handle(CtrMsg::Create(bad)).0, Err(ErrorKind::InvalidArgument));
    assert_eq!(d.handle(CtrMsg::Start).0, Err(ErrorKind::NotFound));
    assert_eq!(d.handle(CtrMsg::Delete).0, Err(ErrorKind::NotFound));
    d.handle(CtrMsg::Create(test_ctr_cfg())).0.unwrap();
    assert_eq!(
        d.handle(CtrMsg::Create(test_ctr_cfg())).0,
        Err(ErrorKind::AlreadyExists)
    );
    // a started runtime call is required before a kill
    assert_eq!(d.handle(CtrMsg::Kill { signal: 15 }).0, Err(ErrorKind::InvalidState));
    d.handle(CtrMsg::CreateDone { pid: 5 }).0.unwrap();
    d.handle(CtrMsg::Start).0.unwrap();
    d.handle(CtrMsg::StartDone).0.unwrap();
    let (r, act) = d.handle(CtrMsg::Kill { signal: 15 });
    assert!(r.is_ok());
    assert_eq!(act, CtrAction::RunKill { signal: 15 });
    // deletion waits for the record to settle
    assert_eq!(d.handle(CtrMsg::Delete).0, Err(ErrorKind::InvalidState));
}

#[test]
fn pod_record_forwards_request_verbatim() {
    let mut pod = IsolatedPod::new(
        String::from("nginx:alpine"),
        vec![String::from("nginx"), String::from("-g"), String::from("daemon off;")],
    );
    assert_eq!(pod.state_container(), "creating");
    let act = pod.step(PodEvent::PrefixReady { addr: POOL_BASE });
    assert_eq!(act, PodAction::InitVm);
    assert_eq!(pod.sub_prefix, Some(POOL_BASE));
    for _ in 0..4 {
        pod.step(PodEvent::StepOk);
    }
    assert_eq!(pod.step(PodEvent::StepOk), PodAction::Dial);
    assert_eq!(pod.step(PodEvent::DialOk), PodAction::CreateInner);
    // what goes to the guest agent is exactly the creating call's request
    let (image, command) = pod.inner_request();
    assert_eq!(image, "nginx:alpine");
    assert_eq!(command, &vec![
        String::from("nginx"),
        String::from("-g"),
        String::from("daemon off;"),
    ]);
    pod.step(PodEvent::InnerCreated { inner: 42 });
    assert_eq!(pod.inner, Some(42));
    assert_eq!(pod.state_container(), "running");
    pod.step(PodEvent::Delete);
    assert_eq!(pod.state_container(), "stopping");
    pod.step(PodEvent::InnerDeleted);
    pod.step(PodEvent::TapDetached);
    pod.step(PodEvent::VmDeleted);
    pod.step(PodEvent::PrefixReleased);
    assert_eq!(pod.state_container(), "deleted");
}
