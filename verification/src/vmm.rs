use vstd::prelude::*;
use vstd::string::{StringExecFns, StringSliceAdditionalSpecFns};
use crate::errors::ErrorKind;
use crate::dispatcher::{BootSpec, DiskAttachment};
use crate::ids;
use crate::textfmt::{dec_str, append_u64};

verus! {

/// A character that may stand inside a JSON string without escaping:
/// printable ASCII other than the quote and the backslash.
pub open spec fn json_plain_char(c: char) -> bool {
    c != '"' && c != '\\' && ' ' <= c && c <= '~'
}

/// A string whose characters all stand in JSON unescaped.
pub open spec fn json_plain(s: Seq<char>) -> bool {
    forall|i: int| 0 <= i < s.len() ==> json_plain_char(#[trigger] s[i])
}

/// Checks that a path may be embedded in a JSON body without escaping.
pub fn check_json_plain(s: &str) -> (r: bool)
    ensures
        r == (vstd::string::is_ascii(s) && json_plain(s@)),
{
    proof {
        broadcast use vstd::string::is_ascii_spec_bytes;
    }
    if !s.is_ascii() {
        return false;
    }
    let bytes = s.as_bytes();
    let n = bytes.len();
    let mut i: usize = 0;
    while i < n
        invariant
            i <= n == bytes@.len(),
            vstd::string::is_ascii(s),
            bytes@ == s.spec_bytes(),
            bytes@ =~= Seq::new(s@.len(), |j: int| s@[j] as u8),
            forall|j: int| 0 <= j < i ==> json_plain_char(#[trigger] s@[j]),
        decreases n - i,
    {
        let b = bytes[i];
        if b == 0x22 || b == 0x5c || b < 0x20 || b > 0x7e {
            proof {
                assert(s@[i as int] as u8 == b);
                assert(!json_plain_char(s@[i as int]));
            }
            return false;
        }
        proof {
            assert(s@[i as int] as u8 == b);
            assert((s@[i as int] as u32) < 128);
            assert(json_plain_char(s@[i as int]));
        }
        i = i + 1;
    }
    true
}

/// The JSON of the boot payload: a firmware path, or kernel, initramfs
/// and command line.
pub open spec fn payload_json(boot: BootSpec) -> Seq<char> {
    match boot {
        BootSpec::Firmware { firmware_path } => "{\"firmware\":\""@ + firmware_path@ + "\"}"@,
        BootSpec::Kernel { kernel_path, initramfs_path, cmdline } => "{\"kernel\":\""@
            + kernel_path@ + "\",\"initramfs\":\""@ + initramfs_path@ + "\",\"cmdline\":\""@
            + cmdline@ + "\"}"@,
    }
}

/// The JSON of one disk attachment.
pub open spec fn disk_json(d: DiskAttachment) -> Seq<char> {
    "{\"path\":\""@ + d.path@ + "\",\"readonly\":"@ + (if d.read_only {
        "true"@
    } else {
        "false"@
    }) + "}"@
}

/// The JSON of a disk list, comma separated.
pub open spec fn disks_json(ds: Seq<DiskAttachment>) -> Seq<char>
    decreases ds.len(),
{
    if ds.len() == 0 {
        Seq::empty()
    } else if ds.len() == 1 {
        disk_json(ds[0])
    } else {
        disks_json(ds.drop_last()) + ","@ + disk_json(ds.last())
    }
}

/// The full `vm.create` body: vCPU counts, shared memory size, the boot
/// payload, the disks (first is the root filesystem), and a serial
/// console bound to the VM's console socket.
pub open spec fn vm_create_body(
    cpu: u8,
    memory: u64,
    boot: BootSpec,
    disks: Seq<DiskAttachment>,
    console: Seq<char>,
) -> Seq<char> {
    "{\"cpus\":{\"boot_vcpus\":"@ + dec_str(cpu as nat) + ",\"max_vcpus\":"@ + dec_str(cpu as nat)
        + "},\"memory\":{\"size\":"@ + dec_str(memory as nat) + ",\"shared\":true},\"payload\":"@
        + payload_json(boot) + ",\"disks\":["@ + disks_json(disks) + "],\"serial\":{\"socket\":\""@
        + console + "\",\"mode\":\"Socket\"}}"@
}

/// A string that may be embedded in a JSON body as it stands: ASCII and
/// free of characters that would need escaping.
pub open spec fn json_ready(s: Seq<char>) -> bool {
    vstd::utf8::is_ascii_chars(s) && json_plain(s)
}

/// Whether every path inside a boot payload may stand in JSON.
pub open spec fn boot_ready(boot: BootSpec) -> bool {
    match boot {
        BootSpec::Firmware { firmware_path } => json_ready(firmware_path@),
        BootSpec::Kernel { kernel_path, initramfs_path, cmdline } => json_ready(kernel_path@)
            && json_ready(initramfs_path@) && json_ready(cmdline@),
    }
}

/// Whether every disk path may stand in JSON.
pub open spec fn disks_ready(ds: Seq<DiskAttachment>) -> bool {
    forall|i: int| 0 <= i < ds.len() ==> json_ready((#[trigger] ds[i]).path@)
}

/// Validates the boot payload paths for JSON embedding.
pub fn check_boot_ready(boot: &BootSpec) -> (r: bool)
    ensures
        r == boot_ready(*boot),
{
    match boot {
        BootSpec::Firmware { firmware_path } => check_json_plain(firmware_path.as_str()),
        BootSpec::Kernel { kernel_path, initramfs_path, cmdline } => {
            check_json_plain(kernel_path.as_str()) && check_json_plain(initramfs_path.as_str())
                && check_json_plain(cmdline.as_str())
        },
    }
}

/// Validates the disk paths for JSON embedding.
pub fn check_disks_ready(disks: &Vec<DiskAttachment>) -> (r: bool)
    ensures
        r == disks_ready(disks@),
{
    let n = disks.len();
    let mut i: usize = 0;
    while i < n
        invariant
            i <= n == disks@.len(),
            forall|j: int| 0 <= j < i ==> json_ready((#[trigger] disks@[j]).path@),
        decreases n - i,
    {
        if !check_json_plain(disks[i].path.as_str()) {
            proof {
                assert(!json_ready(disks@[i as int].path@));
            }
            return false;
        }
        i = i + 1;
    }
    true
}

/// Appends the boot payload JSON.
fn append_payload(out: &mut String, boot: &BootSpec)
    ensures
        final(out)@ == old(out)@ + payload_json(*boot),
{
    proof {
        reveal_strlit("{\"firmware\":\"");
        reveal_strlit("{\"kernel\":\"");
        reveal_strlit("\",\"initramfs\":\"");
        reveal_strlit("\",\"cmdline\":\"");
        reveal_strlit("\"}");
    }
    match boot {
        BootSpec::Firmware { firmware_path } => {
            out.append("{\"firmware\":\"");
            out.append(firmware_path.as_str());
            out.append("\"}");
        },
        BootSpec::Kernel { kernel_path, initramfs_path, cmdline } => {
            out.append("{\"kernel\":\"");
            out.append(kernel_path.as_str());
            out.append("\",\"initramfs\":\"");
            out.append(initramfs_path.as_str());
            out.append("\",\"cmdline\":\"");
            out.append(cmdline.as_str());
            out.append("\"}");
        },
    }
    proof {
        assert(final(out)@ =~= old(out)@ + payload_json(*boot));
    }
}

/// Appends the disk list JSON.
fn append_disks(out: &mut String, disks: &Vec<DiskAttachment>)
    ensures
        final(out)@ == old(out)@ + disks_json(disks@),
{
    let n = disks.len();
    let mut i: usize = 0;
    while i < n
        invariant
            i <= n == disks@.len(),
            out@ == old(out)@ + disks_json(disks@.take(i as int)),
        decreases n - i,
    {
        proof {
            reveal_strlit("{\"path\":\"");
            reveal_strlit("\",\"readonly\":");
            reveal_strlit("true");
            reveal_strlit("false");
            reveal_strlit("}");
            reveal_strlit(",");
        }
        if i > 0 {
            out.append(",");
        }
        out.append("{\"path\":\"");
        out.append(disks[i].path.as_str());
        out.append("\",\"readonly\":");
        if disks[i].read_only {
            out.append("true");
        } else {
            out.append("false");
        }
        out.append("}");
        proof {
            assert(disks@.take((i + 1) as int).drop_last() =~= disks@.take(i as int));
            assert(disks@.take((i + 1) as int).last() == disks@[i as int]);
            if i == 0 {
                assert(out@ =~= old(out)@ + disks_json(disks@.take(1)));
            } else {
                assert(out@ =~= old(out)@ + disks_json(disks@.take((i + 1) as int)));
            }
        }
        i = i + 1;
    }
    proof {
        assert(disks@.take(n as int) =~= disks@);
    }
}

/// Builds the `vm.create` JSON body for one VM.
pub fn build_vm_create_body(
    id: u128,
    cpu: u8,
    memory: u64,
    boot: &BootSpec,
    disks: &Vec<DiskAttachment>,
) -> (r: String)
    ensures
        r@ == vm_create_body(
            cpu,
            memory,
            *boot,
            disks@,
            crate::ids::id_hex(id) + ".console"@,
        ),
{
    proof {
        reveal_strlit("{\"cpus\":{\"boot_vcpus\":");
        reveal_strlit(",\"max_vcpus\":");
        reveal_strlit("},\"memory\":{\"size\":");
        reveal_strlit(",\"shared\":true},\"payload\":");
        reveal_strlit(",\"disks\":[");
        reveal_strlit("],\"serial\":{\"socket\":\"");
        reveal_strlit("\",\"mode\":\"Socket\"}}");
    }
    let mut s = String::from_str("{\"cpus\":{\"boot_vcpus\":");
    append_u64(&mut s, cpu as u64);
    s.append(",\"max_vcpus\":");
    append_u64(&mut s, cpu as u64);
    s.append("},\"memory\":{\"size\":");
    append_u64(&mut s, memory);
    s.append(",\"shared\":true},\"payload\":");
    append_payload(&mut s, boot);
    s.append(",\"disks\":[");
    append_disks(&mut s, disks);
    s.append("],\"serial\":{\"socket\":\"");
    let console = ids::console_socket_name(id);
    s.append(console.as_str());
    s.append("\",\"mode\":\"Socket\"}}");
    proof {
        assert(s@ =~= vm_create_body(
            cpu,
            memory,
            *boot,
            disks@,
            crate::ids::id_hex(id) + ".console"@,
        ));
    }
    s
}

/// One HTTP request to the hypervisor's API socket.
#[derive(Debug, PartialEq, Eq)]
pub struct ApiRequest {
    pub method: String,
    pub endpoint: String,
    pub body: Option<String>,
}

/// The plan for tearing one VM down: the API calls to issue, how long to
/// wait for the child before killing it, and the socket files that must
/// not survive the deletion.
#[derive(Debug, PartialEq, Eq)]
pub struct TeardownPlan {
    pub delete_endpoint: String,
    pub shutdown_vmm_endpoint: String,
    pub wait_deadline_ms: u64,
    pub remove_files: Vec<String>,
}

/// No id occurs twice in the sequence.
pub open spec fn ids_unique(s: Seq<u128>) -> bool {
    forall|i: int, j: int|
        0 <= i < s.len() && 0 <= j < s.len() && i != j ==> (#[trigger] s[i]) != (#[trigger] s[j])
}

/// Some element of the sequence equals `id`.
pub open spec fn ids_have(s: Seq<u128>, id: u128) -> bool {
    exists|i: int| 0 <= i < s.len() && (#[trigger] s[i]) == id
}

/// Tracks which workload ids have a hypervisor child registered; the
/// supervisor of the per-VM Cloud-Hypervisor processes.
pub struct VmmRegistry {
    pub ids: Vec<u128>,
}

impl VmmRegistry {
    /// No id is registered twice.
    pub open spec fn wf(self) -> bool {
        ids_unique(self.ids@)
    }

    /// Whether `id` is registered.
    pub open spec fn has(self, id: u128) -> bool {
        ids_have(self.ids@, id)
    }

    /// An empty registry.
    pub fn new() -> (r: VmmRegistry)
        ensures
            r.wf(),
            r.ids@ =~= Seq::<u128>::empty(),
    {
        VmmRegistry { ids: Vec::new() }
    }

    /// Looks `id` up.
    pub fn contains(&self, id: u128) -> (r: bool)
        ensures
            r == self.has(id),
    {
        let n = self.ids.len();
        let mut i: usize = 0;
        while i < n
            invariant
                i <= n == self.ids@.len(),
                forall|j: int| 0 <= j < i ==> self.ids@[j] != id,
            decreases n - i,
        {
            if self.ids[i] == id {
                return true;
            }
            i = i + 1;
        }
        false
    }

    /// Registers a fresh hypervisor child for `id` and says how to spawn
    /// it: `cloud-hypervisor --api-socket {id}.api`, polling for the
    /// socket for up to 2 s at 250 ms intervals when asked to wait.
    /// Fails with `AlreadyExists` exactly when `id` is registered.
    pub fn init_vmm(&mut self, id: u128, wait: bool) -> (r: Result<SpawnPlan, ErrorKind>)
        requires
            old(self).wf(),
        ensures
            final(self).wf(),
            old(self).has(id) ==> r == Err::<SpawnPlan, ErrorKind>(ErrorKind::AlreadyExists)
                && final(self).ids@ == old(self).ids@,
            !old(self).has(id) ==> final(self).ids@ == old(self).ids@.push(id) && (r matches Ok(p)
                && p.api_socket_arg@ == crate::ids::id_hex(id) + ".api"@ && p.wait_for_socket
                == wait && p.poll_attempts == 8 && p.poll_interval_ms == 250),
    {
        if self.contains(id) {
            return Err(ErrorKind::AlreadyExists);
        }
        self.ids.push(id);
        proof {
            assert forall|i: int, j: int|
                0 <= i < self.ids.len() && 0 <= j < self.ids.len() && i != j implies self.ids[i]
                != self.ids[j] by {
                if i < old(self).ids.len() && j < old(self).ids.len() {
                } else {
                    assert(!old(self).has(id));
                }
            }
        }
        let plan = SpawnPlan {
            api_socket_arg: ids::api_socket_name(id),
            wait_for_socket: wait,
            poll_attempts: 8,
            poll_interval_ms: 250,
        };
        Ok(plan)
    }

    /// The `vm.create` call for a registered VM: succeeds exactly when
    /// `id` is registered, the vCPU count fits the hypervisor's 8-bit
    /// field, and every path can stand in JSON; `NotFound` exactly when
    /// `id` is not registered, `InvalidArgument` on the other failures.
    pub fn create_vm(
        &self,
        id: u128,
        cpu: u32,
        memory: u64,
        boot: &BootSpec,
        disks: &Vec<DiskAttachment>,
    ) -> (r: Result<ApiRequest, ErrorKind>)
        ensures
            r == Err::<ApiRequest, ErrorKind>(ErrorKind::NotFound) <==> !self.has(id),
            self.has(id) && (cpu > 255 || !boot_ready(*boot) || !disks_ready(disks@)) ==> r
                == Err::<ApiRequest, ErrorKind>(ErrorKind::InvalidArgument),
            self.has(id) && cpu <= 255 && boot_ready(*boot) && disks_ready(disks@) ==> r is Ok,
            r matches Ok(req) ==> {
                &&& self.has(id)
                &&& cpu <= 255
                &&& req.method@ == "PUT"@
                &&& req.endpoint@ == "vm.create"@
                &&& req.body matches Some(b) && b@ == vm_create_body(
                    cpu as u8,
                    memory,
                    *boot,
                    disks@,
                    crate::ids::id_hex(id) + ".console"@,
                )
            },
    {
        proof {
            reveal_strlit("PUT");
            reveal_strlit("vm.create");
        }
        if !self.contains(id) {
            return Err(ErrorKind::NotFound);
        }
        if cpu > 255 {
            return Err(ErrorKind::InvalidArgument);
        }
        if !check_boot_ready(boot) || !check_disks_ready(disks) {
            return Err(ErrorKind::InvalidArgument);
        }
        let body = build_vm_create_body(id, cpu as u8, memory, boot, disks);
        Ok(
            ApiRequest {
                method: String::from_str("PUT"),
                endpoint: String::from_str("vm.create"),
                body: Some(body),
            },
        )
    }

    /// A body-less lifecycle call for a registered VM; `NotFound` exactly
    /// when `id` is not registered.
    fn simple_call(&self, id: u128, method: &str, endpoint: &str) -> (r: Result<
        ApiRequest,
        ErrorKind,
    >)
        ensures
            !self.has(id) ==> r == Err::<ApiRequest, ErrorKind>(ErrorKind::NotFound),
            self.has(id) ==> (r matches Ok(req) && req.method@ == method@ && req.endpoint@
                == endpoint@ && req.body is None),
    {
        if !self.contains(id) {
            return Err(ErrorKind::NotFound);
        }
        Ok(
            ApiRequest {
                method: String::from_str(method),
                endpoint: String::from_str(endpoint),
                body: None,
            },
        )
    }

    /// `PUT vm.boot` for a registered VM.
    pub fn boot_vm(&self, id: u128) -> (r: Result<ApiRequest, ErrorKind>)
        ensures
            !self.has(id) ==> r == Err::<ApiRequest, ErrorKind>(ErrorKind::NotFound),
            self.has(id) ==> (r matches Ok(req) && req.method@ == "PUT"@ && req.endpoint@
                == "vm.boot"@ && req.body is None),
    {
        proof {
            reveal_strlit("PUT");
            reveal_strlit("vm.boot");
        }
        self.simple_call(id, "PUT", "vm.boot")
    }

    /// `PUT vm.pause` for a registered VM.
    pub fn pause_vm(&self, id: u128) -> (r: Result<ApiRequest, ErrorKind>)
        ensures
            !self.has(id) ==> r == Err::<ApiRequest, ErrorKind>(ErrorKind::NotFound),
            self.has(id) ==> (r matches Ok(req) && req.method@ == "PUT"@ && req.endpoint@
                == "vm.pause"@ && req.body is None),
    {
        proof {
            reveal_strlit("PUT");
            reveal_strlit("vm.pause");
        }
        self.simple_call(id, "PUT", "vm.pause")
    }

    /// `PUT vm.resume` for a registered VM.
    pub fn resume_vm(&self, id: u128) -> (r: Result<ApiRequest, ErrorKind>)
        ensures
            !self.has(id) ==> r == Err::<ApiRequest, ErrorKind>(ErrorKind::NotFound),
            self.has(id) ==> (r matches Ok(req) && req.method@ == "PUT"@ && req.endpoint@
                == "vm.resume"@ && req.body is None),
    {
        proof {
            reveal_strlit("PUT");
            reveal_strlit("vm.resume");
        }
        self.simple_call(id, "PUT", "vm.resume")
    }

    /// `PUT vm.shutdown` for a registered VM.
    pub fn shutdown_vm(&self, id: u128) -> (r: Result<ApiRequest, ErrorKind>)
        ensures
            !self.has(id) ==> r == Err::<ApiRequest, ErrorKind>(ErrorKind::NotFound),
            self.has(id) ==> (r matches Ok(req) && req.method@ == "PUT"@ && req.endpoint@
                == "vm.shutdown"@ && req.body is None),
    {
        proof {
            reveal_strlit("PUT");
            reveal_strlit("vm.shutdown");
        }
        self.simple_call(id, "PUT", "vm.shutdown")
    }

    /// `GET vmm.ping` for a registered VM.
    pub fn ping_vmm(&self, id: u128) -> (r: Result<ApiRequest, ErrorKind>)
        ensures
            !self.has(id) ==> r == Err::<ApiRequest, ErrorKind>(ErrorKind::NotFound),
            self.has(id) ==> (r matches Ok(req) && req.method@ == "GET"@ && req.endpoint@
                == "vmm.ping"@ && req.body is None),
    {
        proof {
            reveal_strlit("GET");
            reveal_strlit("vmm.ping");
        }
        self.simple_call(id, "GET", "vmm.ping")
    }

    /// `GET vm.info` for a registered VM.
    pub fn get_vm(&self, id: u128) -> (r: Result<ApiRequest, ErrorKind>)
        ensures
            !self.has(id) ==> r == Err::<ApiRequest, ErrorKind>(ErrorKind::NotFound),
            self.has(id) ==> (r matches Ok(req) && req.method@ == "GET"@ && req.endpoint@
                == "vm.info"@ && req.body is None),
    {
        proof {
            reveal_strlit("GET");
            reveal_strlit("vm.info");
        }
        self.simple_call(id, "GET", "vm.info")
    }

    /// The console socket of a registered VM; `NotFound` exactly when the
    /// id is not registered.
    pub fn console(&self, id: u128) -> (r: Result<String, ErrorKind>)
        ensures
            !self.has(id) ==> r == Err::<String, ErrorKind>(ErrorKind::NotFound),
            self.has(id) ==> (r matches Ok(p) && p@ == crate::ids::id_hex(id) + ".console"@),
    {
        if !self.contains(id) {
            return Err(ErrorKind::NotFound);
        }
        Ok(ids::console_socket_name(id))
    }

    /// Unregisters `id` and says how to tear its hypervisor down:
    /// `vm.delete`, then `vmm.shutdown`, a 5 s wait before the kill, and
    /// the removal of the `{id}.api` and `{id}.console` socket files.
    /// `NotFound` exactly when `id` is not registered.
    pub fn delete(&mut self, id: u128) -> (r: Result<TeardownPlan, ErrorKind>)
        requires
            old(self).wf(),
        ensures
            final(self).wf(),
            !final(self).has(id),
            !old(self).has(id) ==> r == Err::<TeardownPlan, ErrorKind>(ErrorKind::NotFound)
                && final(self).ids@ == old(self).ids@,
            old(self).has(id) ==> (r matches Ok(p) && {
                &&& p.delete_endpoint@ == "vm.delete"@
                &&& p.shutdown_vmm_endpoint@ == "vmm.shutdown"@
                &&& p.wait_deadline_ms == 5000
                &&& p.remove_files@.len() == 2
                &&& p.remove_files@[0]@ == crate::ids::id_hex(id) + ".api"@
                &&& p.remove_files@[1]@ == crate::ids::id_hex(id) + ".console"@
            }),
    {
        proof {
            reveal_strlit("vm.delete");
            reveal_strlit("vmm.shutdown");
        }
        let n = self.ids.len();
        let mut k: usize = 0;
        while k < n
            invariant
                old(self).wf(),
                n == self.ids.len(),
                self.ids@ == old(self).ids@,
                forall|j: int| 0 <= j < k ==> (#[trigger] self.ids@[j]) != id,
            decreases n - k,
        {
            if self.ids[k] == id {
                self.ids.remove(k);
                proof {
                    assert forall|i: int, j: int|
                        0 <= i < self.ids.len() && 0 <= j < self.ids.len() && i != j implies self
                        .ids[i] != self.ids[j] by {
                        let i0 = if i < k { i } else { i + 1 };
                        let j0 = if j < k { j } else { j + 1 };
                        assert(self.ids[i] == old(self).ids[i0]);
                        assert(self.ids[j] == old(self).ids[j0]);
                    }
                    assert forall|j: int|
                        0 <= j < self.ids.len() implies self.ids@[j] != id by {
                        let j0 = if j < k { j } else { j + 1 };
                        assert(self.ids[j] == old(self).ids[j0]);
                        assert(old(self).ids[j0] != old(self).ids[k as int]);
                    }
                }
                let mut files: Vec<String> = Vec::new();
                files.push(ids::api_socket_name(id));
                files.push(ids::console_socket_name(id));
                return Ok(
                    TeardownPlan {
                        delete_endpoint: String::from_str("vm.delete"),
                        shutdown_vmm_endpoint: String::from_str("vmm.shutdown"),
                        wait_deadline_ms: 5000,
                        remove_files: files,
                    },
                );
            }
            k = k + 1;
        }
        proof {
            assert forall|j: int|
                0 <= j < old(self).ids@.len() implies (#[trigger] old(self).ids@[j]) != id by {
                assert(old(self).ids@[j] == self.ids@[j]);
            }
            assert(!ids_have(old(self).ids@, id));
        }
        Err(ErrorKind::NotFound)
    }
}

/// How to spawn one hypervisor child.
#[derive(Debug, PartialEq, Eq)]
pub struct SpawnPlan {
    pub api_socket_arg: String,
    pub wait_for_socket: bool,
    pub poll_attempts: u8,
    pub poll_interval_ms: u64,
}

/// The line written to the vfio driver's `new_id` file: the vendor and
/// device identifiers separated by one space.
pub fn vendor_device_line(vendor: &str, device: &str) -> (r: String)
    ensures
        r@ == vendor@ + " "@ + device@,
{
    proof {
        reveal_strlit(" ");
    }
    let mut s = String::from_str(vendor);
    s.append(" ");
    s.append(device);
    s
}

/// The `vm.add-net` body: the TAP device name and the host-side MAC.
pub open spec fn add_net_body(tap: Seq<char>, mac: Seq<u8>) -> Seq<char> {
    "{\"tap\":\""@ + tap + "\",\"host_mac\":\""@ + crate::netaddr::mac_str(mac) + "\"}"@
}

/// The `vm.add-device` body: the sysfs path of the passed-through PCI
/// device.
pub open spec fn add_device_body(bdf: Seq<char>) -> Seq<char> {
    "{\"path\":\"/sys/bus/pci/devices/"@ + bdf + "/\",\"iommu\":false,\"pci_segment\":0}"@
}

impl VmmRegistry {
    /// `PUT vm.add-net` attaching an externally created TAP to a
    /// registered VM: succeeds exactly when `id` is registered, the
    /// hardware address has six bytes, and the TAP name can stand in
    /// JSON; `NotFound` exactly when `id` is not registered,
    /// `InvalidArgument` on the other failures.
    pub fn add_net(&self, id: u128, tap_name: &str, mac: &Vec<u8>) -> (r: Result<
        ApiRequest,
        ErrorKind,
    >)
        ensures
            r == Err::<ApiRequest, ErrorKind>(ErrorKind::NotFound) <==> !self.has(id),
            self.has(id) && (mac@.len() != 6 || !json_ready(tap_name@)) ==> r == Err::<
                ApiRequest,
                ErrorKind,
            >(ErrorKind::InvalidArgument),
            self.has(id) && mac@.len() == 6 && json_ready(tap_name@) ==> r is Ok,
            r matches Ok(req) ==> {
                &&& self.has(id)
                &&& mac@.len() == 6
                &&& req.method@ == "PUT"@
                &&& req.endpoint@ == "vm.add-net"@
                &&& req.body matches Some(b) && b@ == add_net_body(tap_name@, mac@)
            },
    {
        proof {
            reveal_strlit("PUT");
            reveal_strlit("vm.add-net");
            reveal_strlit("{\"tap\":\"");
            reveal_strlit("\",\"host_mac\":\"");
            reveal_strlit("\"}");
        }
        if !self.contains(id) {
            return Err(ErrorKind::NotFound);
        }
        if mac.len() != 6 || !check_json_plain(tap_name) {
            return Err(ErrorKind::InvalidArgument);
        }
        let mut body = String::from_str("{\"tap\":\"");
        body.append(tap_name);
        body.append("\",\"host_mac\":\"");
        let mac_text = crate::netaddr::format_mac(mac);
        body.append(mac_text.as_str());
        body.append("\"}");
        proof {
            assert(body@ =~= add_net_body(tap_name@, mac@));
        }
        Ok(
            ApiRequest {
                method: String::from_str("PUT"),
                endpoint: String::from_str("vm.add-net"),
                body: Some(body),
            },
        )
    }

    /// `PUT vm.add-device` passing a PCI device through to a registered
    /// VM: succeeds exactly when `id` is registered and the device
    /// address can stand in JSON; `NotFound` exactly when `id` is not
    /// registered, `InvalidArgument` on a malformed device address.
    pub fn add_device(&self, id: u128, bdf: &str) -> (r: Result<ApiRequest, ErrorKind>)
        ensures
            r == Err::<ApiRequest, ErrorKind>(ErrorKind::NotFound) <==> !self.has(id),
            self.has(id) && !json_ready(bdf@) ==> r == Err::<ApiRequest, ErrorKind>(
                ErrorKind::InvalidArgument,
            ),
            self.has(id) && json_ready(bdf@) ==> r is Ok,
            r matches Ok(req) ==> {
                &&& self.has(id)
                &&& req.method@ == "PUT"@
                &&& req.endpoint@ == "vm.add-device"@
                &&& req.body matches Some(b) && b@ == add_device_body(bdf@)
            },
    {
        proof {
            reveal_strlit("PUT");
            reveal_strlit("vm.add-device");
            reveal_strlit("{\"path\":\"/sys/bus/pci/devices/");
            reveal_strlit("/\",\"iommu\":false,\"pci_segment\":0}");
        }
        if !self.contains(id) {
            return Err(ErrorKind::NotFound);
        }
        if !check_json_plain(bdf) {
            return Err(ErrorKind::InvalidArgument);
        }
        let mut body = String::from_str("{\"path\":\"/sys/bus/pci/devices/");
        body.append(bdf);
        body.append("/\",\"iommu\":false,\"pci_segment\":0}");
        proof {
            assert(body@ =~= add_device_body(bdf@));
        }
        Ok(
            ApiRequest {
                method: String::from_str("PUT"),
                endpoint: String::from_str("vm.add-device"),
                body: Some(body),
            },
        )
    }
}

/// The sysfs file carrying a PCI device's vendor id.
pub fn pci_vendor_path(bdf: &str) -> (r: String)
    ensures
        r@ == "/sys/bus/pci/devices/"@ + bdf@ + "/vendor"@,
{
    proof {
        reveal_strlit("/sys/bus/pci/devices/");
        reveal_strlit("/vendor");
    }
    let mut s = String::from_str("/sys/bus/pci/devices/");
    s.append(bdf);
    s.append("/vendor");
    s
}

/// The sysfs file carrying a PCI device's device id.
pub fn pci_device_path(bdf: &str) -> (r: String)
    ensures
        r@ == "/sys/bus/pci/devices/"@ + bdf@ + "/device"@,
{
    proof {
        reveal_strlit("/sys/bus/pci/devices/");
        reveal_strlit("/device");
    }
    let mut s = String::from_str("/sys/bus/pci/devices/");
    s.append(bdf);
    s.append("/device");
    s
}

/// The outcome of waiting for the hypervisor's API socket: when the
/// caller asked to wait and the socket never appeared within the polling
/// window, the spawn fails with `SocketTimeout`; otherwise it succeeded.
pub fn init_wait_result(wait_for_socket: bool, socket_seen: bool) -> (r: Result<(), ErrorKind>)
    ensures
        r is Ok <==> (!wait_for_socket || socket_seen),
        wait_for_socket && !socket_seen ==> r == Err::<(), ErrorKind>(ErrorKind::SocketTimeout),
{
    if wait_for_socket && !socket_seen {
        Err(ErrorKind::SocketTimeout)
    } else {
        Ok(())
    }
}

/// The status-line prefix of a successful hypervisor reply.
pub open spec fn http_ok_prefix() -> Seq<u8> {
    seq![72u8, 84u8, 84u8, 80u8, 47u8, 49u8, 46u8, 49u8, 32u8, 50u8]
}

/// Whether the blank line ending the headers stands at offset `k`.
pub open spec fn header_end_at(s: Seq<u8>, k: int) -> bool {
    &&& 0 <= k
    &&& k + 4 <= s.len()
    &&& s[k] == 13
    &&& s[k + 1] == 10
    &&& s[k + 2] == 13
    &&& s[k + 3] == 10
}

/// Reads the hypervisor's build string out of a `GET vmm.ping` reply:
/// the body of a successful response. Exactly the replies with a 2xx
/// status line, a header terminator, and a non-empty body yield it.
pub fn parse_ping_response(resp: &[u8]) -> (r: Option<Vec<u8>>)
    ensures
        r matches Some(body) ==> {
            &&& resp@.len() >= 10 && resp@.subrange(0, 10) == http_ok_prefix()
            &&& exists|k: int|
                #[trigger] header_end_at(resp@, k) && body@ == resp@.skip(k + 4) && (forall|j: int|
                    0 <= j < k ==> !header_end_at(resp@, j))
            &&& body@.len() > 0
        },
        r is None ==> (resp@.len() < 10 || resp@.subrange(0, 10) != http_ok_prefix() || (forall|
            k: int,
        | !(#[trigger] header_end_at(resp@, k))) || exists|k: int|
            #[trigger] header_end_at(resp@, k) && k + 4 == resp@.len() && (forall|j: int|
                0 <= j < k ==> !header_end_at(resp@, j))),
{
    let n = resp.len();
    if n < 10 {
        return None;
    }
    if !(resp[0] == 72 && resp[1] == 84 && resp[2] == 84 && resp[3] == 80 && resp[4] == 47
        && resp[5] == 49 && resp[6] == 46 && resp[7] == 49 && resp[8] == 32 && resp[9] == 50) {
        proof {
            assert(resp@.subrange(0, 10) != http_ok_prefix());
        }
        return None;
    }
    proof {
        assert(resp@.subrange(0, 10) =~= http_ok_prefix());
    }
    let mut k: usize = 0;
    while k < n && n - k >= 4
        invariant
            k <= n == resp@.len(),
            resp@.len() >= 10,
            resp@.subrange(0, 10) == http_ok_prefix(),
            forall|j: int| 0 <= j < k ==> !header_end_at(resp@, j),
        decreases n - k,
    {
        if resp[k] == 13 && resp[k + 1] == 10 && resp[k + 2] == 13 && resp[k + 3] == 10 {
            if k + 4 == n {
                proof {
                    assert(header_end_at(resp@, k as int));
                }
                return None;
            }
            let mut body: Vec<u8> = Vec::new();
            crate::icmp6::append_bytes(&mut body, vstd::slice::slice_subrange(resp, k + 4, n));
            proof {
                assert(header_end_at(resp@, k as int));
                assert(body@ =~= resp@.skip(k as int + 4));
            }
            return Some(body);
        }
        k = k + 1;
    }
    proof {
        assert forall|k2: int| !(#[trigger] header_end_at(resp@, k2)) by {
            if 0 <= k2 && k2 + 4 <= resp@.len() {
                assert(k2 < k);
            }
        }
    }
    None
}

} // verus!
