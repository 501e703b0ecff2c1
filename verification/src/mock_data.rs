use vstd::prelude::*;
use vstd::string::StringExecFns;

verus! {

/// One network interface of the host, as shown on the dashboard.
#[derive(Debug, PartialEq, Eq)]
pub struct NetInterface {
    pub name: String,
    pub mac_address: String,
    pub ipv6_address: String,
}

/// A host summary: uptime, memory, cores, delegated prefix, interfaces.
#[derive(Debug, PartialEq, Eq)]
pub struct HostInfo {
    pub uptime: u64,
    pub ram_total: u64,
    pub ram_unused: u64,
    pub num_cores: u32,
    pub delegated_prefix: String,
    pub net_interfaces: Vec<NetInterface>,
}

/// The display status of a VM.
#[derive(Debug, Clone, Copy, PartialEq, Eq, Structural)]
pub enum VmStatus {
    Running,
    Stopped,
    Starting,
    Stopping,
    Error,
}

impl VmStatus {
    /// The display name of the status.
    pub fn as_str(&self) -> (r: &'static str)
        ensures
            *self == VmStatus::Running ==> r@ == "Running"@,
            *self == VmStatus::Stopped ==> r@ == "Stopped"@,
            *self == VmStatus::Starting ==> r@ == "Starting"@,
            *self == VmStatus::Stopping ==> r@ == "Stopping"@,
            *self == VmStatus::Error ==> r@ == "Error"@,
    {
        match self {
            VmStatus::Running => "Running",
            VmStatus::Stopped => "Stopped",
            VmStatus::Starting => "Starting",
            VmStatus::Stopping => "Stopping",
            VmStatus::Error => "Error",
        }
    }
}

/// A VM row of the dashboard.
#[derive(Debug, PartialEq, Eq)]
pub struct VmInfo {
    pub uuid: String,
    pub status: VmStatus,
    pub cpu_count: u32,
    pub memory_bytes: u64,
    pub image_uuid: String,
    pub image_name: String,
}

/// The display status of a container.
#[derive(Debug, Clone, Copy, PartialEq, Eq, Structural)]
pub enum ContainerStatus {
    Running,
    Stopped,
    Starting,
    Stopping,
    Error,
    Exited,
}

impl ContainerStatus {
    /// The display name of the status.
    pub fn as_str(&self) -> (r: &'static str)
        ensures
            *self == ContainerStatus::Running ==> r@ == "Running"@,
            *self == ContainerStatus::Stopped ==> r@ == "Stopped"@,
            *self == ContainerStatus::Starting ==> r@ == "Starting"@,
            *self == ContainerStatus::Stopping ==> r@ == "Stopping"@,
            *self == ContainerStatus::Error ==> r@ == "Error"@,
            *self == ContainerStatus::Exited ==> r@ == "Exited"@,
    {
        match self {
            ContainerStatus::Running => "Running",
            ContainerStatus::Stopped => "Stopped",
            ContainerStatus::Starting => "Starting",
            ContainerStatus::Stopping => "Stopping",
            ContainerStatus::Error => "Error",
            ContainerStatus::Exited => "Exited",
        }
    }
}

/// A container row; the CPU limit is held in tenths of a core, zero
/// meaning no limit.
#[derive(Debug, PartialEq, Eq)]
pub struct ContainerInfo {
    pub id: String,
    pub name: String,
    pub status: ContainerStatus,
    pub image: String,
    pub ports: Vec<String>,
    pub created: u64,
    pub memory_limit: u64,
    pub cpu_tenths: u64,
}

/// The display status of an isolated pod.
#[derive(Debug, Clone, Copy, PartialEq, Eq, Structural)]
pub enum IsolatedPodStatus {
    Running,
    Stopped,
    Starting,
    Stopping,
    Error,
}

impl IsolatedPodStatus {
    /// The display name of the status.
    pub fn as_str(&self) -> (r: &'static str)
        ensures
            *self == IsolatedPodStatus::Running ==> r@ == "Running"@,
            *self == IsolatedPodStatus::Stopped ==> r@ == "Stopped"@,
            *self == IsolatedPodStatus::Starting ==> r@ == "Starting"@,
            *self == IsolatedPodStatus::Stopping ==> r@ == "Stopping"@,
            *self == IsolatedPodStatus::Error ==> r@ == "Error"@,
    {
        match self {
            IsolatedPodStatus::Running => "Running",
            IsolatedPodStatus::Stopped => "Stopped",
            IsolatedPodStatus::Starting => "Starting",
            IsolatedPodStatus::Stopping => "Stopping",
            IsolatedPodStatus::Error => "Error",
        }
    }
}

/// A container inside an isolated pod; CPU limit in tenths of a core.
#[derive(Debug, PartialEq, Eq)]
pub struct IsolatedPodContainer {
    pub id: String,
    pub name: String,
    pub status: ContainerStatus,
    pub image: String,
    pub memory_limit: u64,
    pub cpu_tenths: u64,
    pub restart_count: u32,
}

/// An isolated pod: its micro-VM and the containers inside it.
#[derive(Debug, PartialEq, Eq)]
pub struct IsolatedPodInfo {
    pub id: String,
    pub name: String,
    pub status: IsolatedPodStatus,
    pub microvm_id: String,
    pub cpu_count: u32,
    pub memory_bytes: u64,
    pub kernel_version: String,
    pub created: u64,
    pub containers: Vec<IsolatedPodContainer>,
    pub kernel_logs: Vec<LogEntry>,
}

/// One log line with its timestamp and level.
#[derive(Debug, PartialEq, Eq)]
pub struct LogEntry {
    pub timestamp: u64,
    pub level: String,
    pub message: String,
}

/// Builds one log entry.
fn log_entry(timestamp: u64, level: &str, message: &str) -> (r: LogEntry)
    ensures
        r.timestamp == timestamp,
        r.level@ == level@,
        r.message@ == message@,
{
    LogEntry { timestamp, level: level.to_owned(), message: message.to_owned() }
}

/// Advances the update counter that drives the changing demo data,
/// wrapping at the numeric limit.
pub fn tick_updates(counter: &mut u64)
    ensures
        *old(counter) < u64::MAX ==> *final(counter) == *old(counter) + 1,
        *old(counter) == u64::MAX ==> *final(counter) == 0,
{
    if *counter < u64::MAX {
        *counter = *counter + 1;
    } else {
        *counter = 0;
    }
}

/// The demo host summary for one update tick: a fixed 8-core, 16 GiB
/// host whose unused memory wobbles with the tick, with two interfaces.
pub fn get_mock_host_info(updates: u64) -> (r: HostInfo)
    ensures
        r.num_cores == 8,
        r.ram_total == 17179869184,
        r.ram_unused < r.ram_total,
        r.uptime > 0,
        r.net_interfaces@.len() == 2,
        r.delegated_prefix@.len() > 0,
        forall|i: int|
            0 <= i < r.net_interfaces@.len() ==> (#[trigger] r.net_interfaces@[i]).name@.len() > 0
                && r.net_interfaces@[i].mac_address@.len() > 0
                && r.net_interfaces@[i].ipv6_address@.len() > 0,
{
    proof {
        reveal_strlit("2001:db8:1000::/48");
        reveal_strlit("eth0");
        reveal_strlit("eth1");
        reveal_strlit("52:54:00:12:34:56");
        reveal_strlit("52:54:00:12:34:57");
        reveal_strlit("2001:db8:1::10");
        reveal_strlit("2001:db8:1::11");
    }
    let base_uptime: u64 = 3600 * 24 * 7;
    let ram_base_unused: u64 = 8 * 1024 * 1024 * 1024;
    let ram_variation: u64 = (updates % 20) * 100 * 1024 * 1024;
    let ram_unused: u64 = if updates % 40 < 20 {
        ram_base_unused + ram_variation
    } else {
        ram_base_unused - ram_variation
    };
    let extra = updates % 1000000;
    let mut interfaces: Vec<NetInterface> = Vec::new();
    interfaces.push(
        NetInterface {
            name: String::from_str("eth0"),
            mac_address: String::from_str("52:54:00:12:34:56"),
            ipv6_address: String::from_str("2001:db8:1::10"),
        },
    );
    interfaces.push(
        NetInterface {
            name: String::from_str("eth1"),
            mac_address: String::from_str("52:54:00:12:34:57"),
            ipv6_address: String::from_str("2001:db8:1::11"),
        },
    );
    HostInfo {
        uptime: base_uptime + extra * 5,
        ram_total: 16 * 1024 * 1024 * 1024,
        ram_unused,
        num_cores: 8,
        delegated_prefix: String::from_str("2001:db8:1000::/48"),
        net_interfaces: interfaces,
    }
}

/// The demo VM table for one update tick: four VMs whose statuses cycle
/// with the tick; the second is always running, and at tick zero the
/// third is stopped.
pub fn get_mock_vms(updates: u64) -> (r: Vec<VmInfo>)
    ensures
        r@.len() == 4,
        forall|i: int|
            0 <= i < 4 ==> (#[trigger] r@[i]).cpu_count > 0 && r@[i].memory_bytes > 0
                && r@[i].uuid@.len() > 0 && r@[i].image_uuid@.len() > 0 && r@[i].image_name@.len()
                > 0,
        r@[1].status == VmStatus::Running,
        r@[1].uuid@ == "vm-002"@,
        updates == 0 ==> r@[0].status == VmStatus::Running && r@[2].status == VmStatus::Stopped,
{
    proof {
        reveal_strlit("vm-001");
        reveal_strlit("vm-002");
        reveal_strlit("vm-003");
        reveal_strlit("vm-004");
        reveal_strlit("img-ubuntu-001");
        reveal_strlit("img-fedora-001");
        reveal_strlit("img-alpine-001");
        reveal_strlit("img-debian-001");
        reveal_strlit("Ubuntu 22.04");
        reveal_strlit("Fedora 39");
        reveal_strlit("Alpine Linux");
        reveal_strlit("Debian 12");
    }
    let vm1_status = match (updates / 10) % 4 {
        0 => VmStatus::Running,
        1 => VmStatus::Running,
        2 => VmStatus::Stopping,
        _ => VmStatus::Stopped,
    };
    let vm3_status = match (updates / 15) % 5 {
        0 => VmStatus::Stopped,
        1 => VmStatus::Starting,
        _ => VmStatus::Running,
    };
    let vm4_status = if updates % 30 < 25 {
        VmStatus::Error
    } else {
        VmStatus::Stopped
    };
    let mut vms: Vec<VmInfo> = Vec::new();
    vms.push(
        VmInfo {
            uuid: String::from_str("vm-001"),
            status: vm1_status,
            cpu_count: 2,
            memory_bytes: 2 * 1024 * 1024 * 1024,
            image_uuid: String::from_str("img-ubuntu-001"),
            image_name: String::from_str("Ubuntu 22.04"),
        },
    );
    vms.push(
        VmInfo {
            uuid: String::from_str("vm-002"),
            status: VmStatus::Running,
            cpu_count: 4,
            memory_bytes: 4 * 1024 * 1024 * 1024,
            image_uuid: String::from_str("img-fedora-001"),
            image_name: String::from_str("Fedora 39"),
        },
    );
    vms.push(
        VmInfo {
            uuid: String::from_str("vm-003"),
            status: vm3_status,
            cpu_count: 1,
            memory_bytes: 1024 * 1024 * 1024,
            image_uuid: String::from_str("img-alpine-001"),
            image_name: String::from_str("Alpine Linux"),
        },
    );
    vms.push(
        VmInfo {
            uuid: String::from_str("vm-004"),
            status: vm4_status,
            cpu_count: 2,
            memory_bytes: 2 * 1024 * 1024 * 1024,
            image_uuid: String::from_str("img-debian-001"),
            image_name: String::from_str("Debian 12"),
        },
    );
    vms
}

/// Sixty CPU-usage samples for the dashboard sparkline, each a
/// percentage, anchored at zero and varying with the tick.
pub fn get_mock_cpu_history(updates: u64) -> (r: Vec<u64>)
    ensures
        r@.len() == 60,
        forall|i: int| 0 <= i < 60 ==> (#[trigger] r@[i]) <= 100,
        r@[0] == 0,
{
    let mut history: Vec<u64> = Vec::new();
    history.push(0);
    let mut i: u64 = 1;
    while i < 60
        invariant
            1 <= i <= 60,
            history@.len() == i,
            forall|j: int| 0 <= j < i ==> (#[trigger] history@[j]) <= 100,
            history@[0] == 0,
        decreases 60 - i,
    {
        let wave = (i * 7 + (i * 13) % 23 + updates % 15) % 61;
        let value = 25 + wave;
        history.push(value);
        i = i + 1;
    }
    history
}

/// Sixty memory-usage samples for the dashboard sparkline, each a
/// percentage, anchored at zero, steadier than the CPU curve.
pub fn get_mock_memory_history(updates: u64) -> (r: Vec<u64>)
    ensures
        r@.len() == 60,
        forall|i: int| 0 <= i < 60 ==> (#[trigger] r@[i]) <= 100,
        r@[0] == 0,
{
    let mut history: Vec<u64> = Vec::new();
    history.push(0);
    let mut i: u64 = 1;
    while i < 60
        invariant
            1 <= i <= 60,
            history@.len() == i,
            forall|j: int| 0 <= j < i ==> (#[trigger] history@[j]) <= 100,
            history@[0] == 0,
        decreases 60 - i,
    {
        let wave = (i * 3 + ((updates % 13) * 3 + i) % 13) % 31;
        let value = 50 + wave;
        history.push(value);
        i = i + 1;
    }
    history
}

/// The initial agent log lines shown before streaming begins.
pub fn get_mock_feos_logs() -> (r: Vec<LogEntry>)
    ensures
        r@.len() > 0,
        forall|i: int|
            0 <= i < r@.len() ==> (#[trigger] r@[i]).timestamp > 0 && r@[i].message@.len() > 0,
{
    proof {
        reveal_strlit("INFO");
        reveal_strlit("WARN");
        reveal_strlit("ERROR");
        reveal_strlit("Agent daemon started successfully");
        reveal_strlit("Listening for RPC connections");
        reveal_strlit("VM vm-001 started successfully");
        reveal_strlit("VM vm-004 failed to start: insufficient memory");
        reveal_strlit("Image fetch completed: img-ubuntu-001");
        reveal_strlit("Container web-server restarted successfully");
        reveal_strlit("Failed to connect to database: timeout");
        reveal_strlit("Backup completed successfully");
        reveal_strlit("High memory usage detected on VM vm-002");
        reveal_strlit("New container image pulled");
        reveal_strlit("Disk space low on the container volume");
        reveal_strlit("Network configuration updated for eth0");
    }
    let mut logs: Vec<LogEntry> = Vec::new();
    logs.push(log_entry(1705314615, "INFO", "Agent daemon started successfully"));
    logs.push(log_entry(1705314616, "INFO", "Listening for RPC connections"));
    logs.push(log_entry(1705314682, "INFO", "VM vm-001 started successfully"));
    logs.push(log_entry(1705314730, "WARN", "VM vm-004 failed to start: insufficient memory"));
    logs.push(log_entry(1705314825, "INFO", "Image fetch completed: img-ubuntu-001"));
    logs.push(log_entry(1705314900, "INFO", "Container web-server restarted successfully"));
    logs.push(log_entry(1705314950, "ERROR", "Failed to connect to database: timeout"));
    logs.push(log_entry(1705315000, "INFO", "Backup completed successfully"));
    logs.push(log_entry(1705315050, "WARN", "High memory usage detected on VM vm-002"));
    logs.push(log_entry(1705315100, "INFO", "New container image pulled"));
    logs.push(log_entry(1705315150, "ERROR", "Disk space low on the container volume"));
    logs.push(log_entry(1705315200, "INFO", "Network configuration updated for eth0"));
    logs
}

/// The initial kernel log lines shown before streaming begins.
pub fn get_mock_kernel_logs() -> (r: Vec<LogEntry>)
    ensures
        r@.len() > 0,
        forall|i: int|
            0 <= i < r@.len() ==> (#[trigger] r@[i]).timestamp > 0 && r@[i].message@.len() > 0,
{
    proof {
        reveal_strlit("INFO");
        reveal_strlit("WARN");
        reveal_strlit("ERROR");
        reveal_strlit("Kernel image loaded");
        reveal_strlit("Memory: 16384000K available");
        reveal_strlit("Hardware virtualization enabled");
        reveal_strlit("Package temperature above threshold");
        reveal_strlit("Root filesystem mounted with ordered data mode");
        reveal_strlit("Out of memory: killed runaway test process");
        reveal_strlit("Network interface eth0 up and running");
        reveal_strlit("Disk I/O retry on the boot device");
        reveal_strlit("Hash tables configured");
        reveal_strlit("vsock transport initialized");
        reveal_strlit("IPv6 link becomes ready on eth0");
    }
    let mut logs: Vec<LogEntry> = Vec::new();
    logs.push(log_entry(1705314598, "INFO", "Kernel image loaded"));
    logs.push(log_entry(1705314601, "INFO", "Memory: 16384000K available"));
    logs.push(log_entry(1705314603, "INFO", "Hardware virtualization enabled"));
    logs.push(log_entry(1705314604, "WARN", "Package temperature above threshold"));
    logs.push(log_entry(1705314605, "INFO", "Root filesystem mounted with ordered data mode"));
    logs.push(log_entry(1705314606, "ERROR", "Out of memory: killed runaway test process"));
    logs.push(log_entry(1705314607, "INFO", "Network interface eth0 up and running"));
    logs.push(log_entry(1705314608, "WARN", "Disk I/O retry on the boot device"));
    logs.push(log_entry(1705314618, "INFO", "Hash tables configured"));
    logs.push(log_entry(1705314640, "INFO", "vsock transport initialized"));
    logs.push(log_entry(1705314648, "INFO", "IPv6 link becomes ready on eth0"));
    logs
}

/// Picks a streaming log level from a rolling counter: mostly
/// informational, some warnings, occasionally an error.
fn stream_level(k: u64) -> (r: &'static str)
    ensures
        r@ == "INFO"@ || r@ == "WARN"@ || r@ == "ERROR"@,
{
    proof {
        reveal_strlit("INFO");
        reveal_strlit("WARN");
        reveal_strlit("ERROR");
    }
    let m = k % 15;
    if m <= 10 {
        "INFO"
    } else if m <= 13 {
        "WARN"
    } else {
        "ERROR"
    }
}

/// One to four fresh agent log entries for a streaming tick, stamped at
/// or after `now`.
pub fn get_new_feos_log_entries(log_count: u64, now: u64) -> (r: Vec<LogEntry>)
    requires
        now <= u64::MAX - 4,
    ensures
        1 <= r@.len() <= 4,
        forall|i: int| 0 <= i < r@.len() ==> (#[trigger] r@[i]).timestamp >= now,
{
    proof {
        reveal_strlit("VM health check completed");
        reveal_strlit("Network interface traffic sampled");
        reveal_strlit("Memory cleanup completed");
        reveal_strlit("Image cache updated");
        reveal_strlit("RPC connection established");
        reveal_strlit("System backup initiated");
        reveal_strlit("Container health check passed");
        reveal_strlit("Isolated pod vsock connection established");
    }
    let count = (log_count % 4) + 1;
    let mut entries: Vec<LogEntry> = Vec::new();
    let mut i: u64 = 0;
    while i < count
        invariant
            i <= count <= 4,
            now <= u64::MAX - 4,
            entries@.len() == i,
            forall|j: int| 0 <= j < i ==> (#[trigger] entries@[j]).timestamp >= now,
        decreases count - i,
    {
        let m = match (log_count % 8 + i) % 8 {
            0 => "VM health check completed",
            1 => "Network interface traffic sampled",
            2 => "Memory cleanup completed",
            3 => "Image cache updated",
            4 => "RPC connection established",
            5 => "System backup initiated",
            6 => "Container health check passed",
            _ => "Isolated pod vsock connection established",
        };
        entries.push(log_entry(now + i, stream_level(log_count % 15 + i), m));
        i = i + 1;
    }
    entries
}

/// Zero to two fresh kernel log entries for a streaming tick, stamped at
/// or after `now`.
pub fn get_new_kernel_log_entries(log_count: u64, now: u64) -> (r: Vec<LogEntry>)
    requires
        now <= u64::MAX - 4,
    ensures
        r@.len() <= 2,
        forall|i: int| 0 <= i < r@.len() ==> (#[trigger] r@[i]).timestamp >= now,
{
    proof {
        reveal_strlit("Bridge entered forwarding state");
        reveal_strlit("Memory compaction completed");
        reveal_strlit("Filesystem journal recovery complete");
        reveal_strlit("IPv6 address configuration changed");
        reveal_strlit("Container runtime cgroup attached");
        reveal_strlit("Clocksource watchdog fired");
    }
    let count = log_count % 3;
    let mut entries: Vec<LogEntry> = Vec::new();
    let mut i: u64 = 0;
    while i < count
        invariant
            i <= count <= 2,
            now <= u64::MAX - 4,
            entries@.len() == i,
            forall|j: int| 0 <= j < i ==> (#[trigger] entries@[j]).timestamp >= now,
        decreases count - i,
    {
        let m = match (log_count % 6 + i) % 6 {
            0 => "Bridge entered forwarding state",
            1 => "Memory compaction completed",
            2 => "Filesystem journal recovery complete",
            3 => "IPv6 address configuration changed",
            4 => "Container runtime cgroup attached",
            _ => "Clocksource watchdog fired",
        };
        entries.push(log_entry(now + i, stream_level(log_count % 15 + i), m));
        i = i + 1;
    }
    entries
}

/// Zero to two fresh log entries for one container's stream, each line
/// prefixed with the container's name.
pub fn get_new_container_log_entries(container_name: &str, log_count: u64, now: u64) -> (r: Vec<
    LogEntry,
>)
    requires
        now <= u64::MAX - 4,
    ensures
        r@.len() <= 2,
        forall|i: int|
            0 <= i < r@.len() ==> (#[trigger] r@[i]).timestamp >= now && r@[i].message@.len()
                >= container_name@.len(),
{
    proof {
        reveal_strlit(": application heartbeat");
        reveal_strlit(": request served");
        reveal_strlit(": cache refreshed");
        reveal_strlit(": configuration reloaded");
    }
    let count = log_count % 3;
    let mut entries: Vec<LogEntry> = Vec::new();
    let mut i: u64 = 0;
    while i < count
        invariant
            i <= count <= 2,
            now <= u64::MAX - 4,
            entries@.len() == i,
            forall|j: int|
                0 <= j < i ==> (#[trigger] entries@[j]).timestamp >= now
                    && entries@[j].message@.len() >= container_name@.len(),
        decreases count - i,
    {
        let suffix = match (log_count % 4 + i) % 4 {
            0 => ": application heartbeat",
            1 => ": request served",
            2 => ": cache refreshed",
            _ => ": configuration reloaded",
        };
        let mut msg = container_name.to_owned();
        msg.append(suffix);
        entries.push(
            LogEntry {
                timestamp: now + i,
                level: stream_level(log_count % 15 + i).to_owned(),
                message: msg,
            },
        );
        i = i + 1;
    }
    entries
}

/// A short, fixed log history for a newly shown container, each line
/// prefixed with the container's name and stamped before `now`.
pub fn generate_container_logs(container_name: &str, image: &str, now: u64) -> (r: Vec<LogEntry>)
    ensures
        r@.len() > 0,
        forall|i: int|
            0 <= i < r@.len() ==> (#[trigger] r@[i]).message@.len() >= container_name@.len(),
{
    proof {
        reveal_strlit(": container started");
        reveal_strlit(": application initialized");
        reveal_strlit(": ready to serve requests");
        reveal_strlit(": health check passed");
    }
    let mut suffixes: Vec<&'static str> = Vec::new();
    suffixes.push(": container started");
    suffixes.push(": application initialized");
    suffixes.push(": ready to serve requests");
    suffixes.push(": health check passed");
    let n = suffixes.len();
    let mut logs: Vec<LogEntry> = Vec::new();
    let mut i: usize = 0;
    while i < n
        invariant
            i <= n == suffixes@.len(),
            n == 4,
            logs@.len() == i,
            forall|j: int| 0 <= j < suffixes@.len() ==> (#[trigger] suffixes@[j])@.len() > 0,
            forall|j: int|
                0 <= j < i ==> (#[trigger] logs@[j]).message@.len() >= container_name@.len(),
        decreases n - i,
    {
        let mut msg = container_name.to_owned();
        msg.append(suffixes[i]);
        let ts = if now >= ((n - i) as u64) * 10 {
            now - ((n - i) as u64) * 10
        } else {
            0
        };
        logs.push(
            LogEntry { timestamp: ts, level: stream_level(i as u64).to_owned(), message: msg },
        );
        i = i + 1;
    }
    logs
}

/// The demo container table for one update tick; entries carry their
/// creation time relative to `now`.
pub fn get_mock_containers(updates: u64, now: u64) -> (r: Vec<ContainerInfo>)
    ensures
        r@.len() == 5,
        forall|i: int|
            0 <= i < r@.len() ==> (#[trigger] r@[i]).id@.len() > 0 && r@[i].name@.len() > 0
                && r@[i].image@.len() > 0,
{
    proof {
        reveal_strlit("c1a2b3c4d5e6");
        reveal_strlit("f7g8h9i0j1k2");
        reveal_strlit("l3m4n5o6p7q8");
        reveal_strlit("r9s0t1u2v3w4");
        reveal_strlit("x5y6z7a8b9c0");
        reveal_strlit("web-server");
        reveal_strlit("api-service");
        reveal_strlit("database");
        reveal_strlit("temp-worker");
        reveal_strlit("monitoring");
        reveal_strlit("nginx:alpine");
        reveal_strlit("api:v1.2.3");
        reveal_strlit("postgres:15-alpine");
        reveal_strlit("alpine:latest");
        reveal_strlit("prometheus:latest");
        reveal_strlit("80:8080");
        reveal_strlit("5432:5432");
        reveal_strlit("9090:9090");
    }
    let web_status = match (updates / 8) % 4 {
        0 => ContainerStatus::Running,
        1 => ContainerStatus::Running,
        2 => ContainerStatus::Stopping,
        _ => ContainerStatus::Stopped,
    };
    let api_status = if updates % 25 < 20 {
        ContainerStatus::Running
    } else {
        ContainerStatus::Error
    };
    let db_status = match (updates / 12) % 5 {
        0 => ContainerStatus::Stopped,
        1 => ContainerStatus::Starting,
        _ => ContainerStatus::Running,
    };
    let temp_status = match (updates / 6) % 6 {
        0 => ContainerStatus::Starting,
        1 => ContainerStatus::Running,
        2 => ContainerStatus::Running,
        3 => ContainerStatus::Stopping,
        4 => ContainerStatus::Exited,
        _ => ContainerStatus::Stopped,
    };
    let mut v: Vec<ContainerInfo> = Vec::new();
    let mut ports1: Vec<String> = Vec::new();
    ports1.push(String::from_str("80:8080"));
    v.push(
        ContainerInfo {
            id: String::from_str("c1a2b3c4d5e6"),
            name: String::from_str("web-server"),
            status: web_status,
            image: String::from_str("nginx:alpine"),
            ports: ports1,
            created: if now >= 7200 {
                now - 7200
            } else {
                0
            },
            memory_limit: 512 * 1024 * 1024,
            cpu_tenths: 10,
        },
    );
    v.push(
        ContainerInfo {
            id: String::from_str("f7g8h9i0j1k2"),
            name: String::from_str("api-service"),
            status: api_status,
            image: String::from_str("api:v1.2.3"),
            ports: Vec::new(),
            created: if now >= 14400 {
                now - 14400
            } else {
                0
            },
            memory_limit: 1024 * 1024 * 1024,
            cpu_tenths: 20,
        },
    );
    let mut ports3: Vec<String> = Vec::new();
    ports3.push(String::from_str("5432:5432"));
    v.push(
        ContainerInfo {
            id: String::from_str("l3m4n5o6p7q8"),
            name: String::from_str("database"),
            status: db_status,
            image: String::from_str("postgres:15-alpine"),
            ports: ports3,
            created: if now >= 86400 {
                now - 86400
            } else {
                0
            },
            memory_limit: 2048 * 1024 * 1024,
            cpu_tenths: 15,
        },
    );
    v.push(
        ContainerInfo {
            id: String::from_str("r9s0t1u2v3w4"),
            name: String::from_str("temp-worker"),
            status: temp_status,
            image: String::from_str("alpine:latest"),
            ports: Vec::new(),
            created: if now >= 300 {
                now - 300
            } else {
                0
            },
            memory_limit: 0,
            cpu_tenths: 0,
        },
    );
    let mut ports5: Vec<String> = Vec::new();
    ports5.push(String::from_str("9090:9090"));
    v.push(
        ContainerInfo {
            id: String::from_str("x5y6z7a8b9c0"),
            name: String::from_str("monitoring"),
            status: ContainerStatus::Running,
            image: String::from_str("prometheus:latest"),
            ports: ports5,
            created: if now >= 43200 {
                now - 43200
            } else {
                0
            },
            memory_limit: 256 * 1024 * 1024,
            cpu_tenths: 5,
        },
    );
    v
}

/// One demo pod container.
fn pod_container(id: &str, name: &str, image: &str, status: ContainerStatus, mem: u64, cpu_tenths: u64, restarts: u32) -> (r: IsolatedPodContainer)
    ensures
        r.id@ == id@,
        r.name@ == name@,
        r.image@ == image@,
        r.status == status,
{
    IsolatedPodContainer {
        id: id.to_owned(),
        name: name.to_owned(),
        status,
        image: image.to_owned(),
        memory_limit: mem,
        cpu_tenths,
        restart_count: restarts,
    }
}

/// The demo isolated-pod table for one update tick: two pods, each with
/// containers and a short kernel log.
pub fn get_mock_isolated_pods(updates: u64, now: u64) -> (r: Vec<IsolatedPodInfo>)
    ensures
        r@.len() == 2,
        forall|i: int|
            0 <= i < r@.len() ==> (#[trigger] r@[i]).id@.len() > 0 && r@[i].containers@.len() > 0,
{
    proof {
        reveal_strlit("pod-web-001");
        reveal_strlit("pod-data-001");
        reveal_strlit("web-application-pod");
        reveal_strlit("data-processing-pod");
        reveal_strlit("microvm-web-001");
        reveal_strlit("microvm-data-001");
        reveal_strlit("6.12.21");
        reveal_strlit("c-nginx-001");
        reveal_strlit("nginx-frontend");
        reveal_strlit("nginx:1.25-alpine");
        reveal_strlit("c-app-001");
        reveal_strlit("web-app");
        reveal_strlit("node:18-alpine");
        reveal_strlit("c-postgres-001");
        reveal_strlit("postgres-db");
        reveal_strlit("postgres:15");
    }
    let web_status = match (updates / 7) % 4 {
        0 => IsolatedPodStatus::Running,
        1 => IsolatedPodStatus::Running,
        2 => IsolatedPodStatus::Stopping,
        _ => IsolatedPodStatus::Stopped,
    };
    let data_status = if updates % 20 < 16 {
        IsolatedPodStatus::Running
    } else {
        IsolatedPodStatus::Error
    };
    let inner_web = if web_status == IsolatedPodStatus::Running {
        ContainerStatus::Running
    } else {
        ContainerStatus::Stopped
    };
    let inner_data = if data_status == IsolatedPodStatus::Running {
        ContainerStatus::Running
    } else {
        ContainerStatus::Error
    };
    let mut web_containers: Vec<IsolatedPodContainer> = Vec::new();
    web_containers.push(
        pod_container(
            "c-nginx-001",
            "nginx-frontend",
            "nginx:1.25-alpine",
            inner_web,
            512 * 1024 * 1024,
            10,
            0,
        ),
    );
    web_containers.push(
        pod_container("c-app-001", "web-app", "node:18-alpine", inner_web, 1024 * 1024 * 1024, 20, 1),
    );
    let mut data_containers: Vec<IsolatedPodContainer> = Vec::new();
    data_containers.push(
        pod_container(
            "c-postgres-001",
            "postgres-db",
            "postgres:15",
            inner_data,
            4 * 1024 * 1024 * 1024,
            40,
            2,
        ),
    );
    let boot_time = if now <= u64::MAX - 100 {
        now
    } else {
        0
    };
    let web_logs = generate_pod_kernel_logs("microvm-web-001", boot_time);
    let data_logs = generate_pod_kernel_logs("microvm-data-001", boot_time);
    let mut pods: Vec<IsolatedPodInfo> = Vec::new();
    pods.push(
        IsolatedPodInfo {
            id: String::from_str("pod-web-001"),
            name: String::from_str("web-application-pod"),
            status: web_status,
            microvm_id: String::from_str("microvm-web-001"),
            cpu_count: 4,
            memory_bytes: 4 * 1024 * 1024 * 1024,
            kernel_version: String::from_str("6.12.21"),
            created: if now >= 7200 {
                now - 7200
            } else {
                0
            },
            containers: web_containers,
            kernel_logs: web_logs,
        },
    );
    pods.push(
        IsolatedPodInfo {
            id: String::from_str("pod-data-001"),
            name: String::from_str("data-processing-pod"),
            status: data_status,
            microvm_id: String::from_str("microvm-data-001"),
            cpu_count: 8,
            memory_bytes: 8 * 1024 * 1024 * 1024,
            kernel_version: String::from_str("6.12.21"),
            created: if now >= 14400 {
                now - 14400
            } else {
                0
            },
            containers: data_containers,
            kernel_logs: data_logs,
        },
    );
    pods
}

/// A short, fixed boot log for one pod's micro-VM kernel, each line
/// prefixed with the micro-VM's id and spaced eight seconds apart from
/// the boot time.
pub fn generate_pod_kernel_logs(microvm_id: &str, start_time: u64) -> (r: Vec<LogEntry>)
    requires
        start_time <= u64::MAX - 100,
    ensures
        r@.len() > 0,
        forall|i: int|
            0 <= i < r@.len() ==> (#[trigger] r@[i]).message@.len() >= microvm_id@.len()
                && r@[i].timestamp >= start_time,
{
    proof {
        reveal_strlit(": kernel image loaded");
        reveal_strlit(": memory map initialized");
        reveal_strlit(": virtio block device registered");
        reveal_strlit(": virtio net device registered");
        reveal_strlit(": root filesystem mounted");
        reveal_strlit(": vsock transport ready");
        reveal_strlit(": guest agent started");
    }
    let mut suffixes: Vec<&'static str> = Vec::new();
    suffixes.push(": kernel image loaded");
    suffixes.push(": memory map initialized");
    suffixes.push(": virtio block device registered");
    suffixes.push(": virtio net device registered");
    suffixes.push(": root filesystem mounted");
    suffixes.push(": vsock transport ready");
    suffixes.push(": guest agent started");
    let n = suffixes.len();
    let mut logs: Vec<LogEntry> = Vec::new();
    let mut i: usize = 0;
    while i < n
        invariant
            i <= n == suffixes@.len(),
            n == 7,
            start_time <= u64::MAX - 100,
            logs@.len() == i,
            forall|j: int|
                0 <= j < i ==> (#[trigger] logs@[j]).message@.len() >= microvm_id@.len()
                    && logs@[j].timestamp >= start_time,
        decreases n - i,
    {
        let mut msg = microvm_id.to_owned();
        msg.append(suffixes[i]);
        logs.push(
            LogEntry {
                timestamp: start_time + (i as u64) * 8,
                level: stream_level(i as u64).to_owned(),
                message: msg,
            },
        );
        i = i + 1;
    }
    logs
}

} // verus!
