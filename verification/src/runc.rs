use vstd::prelude::*;
use vstd::string::StringExecFns;
use crate::errors::ErrorKind;
use crate::textfmt::{pow10, dec_str, fmt_u64};

verus! {

/// An ASCII whitespace byte, as file trimming treats it.
pub open spec fn is_ws(b: u8) -> bool {
    b == 32 || b == 9 || b == 10 || b == 13
}

/// An ASCII decimal digit.
pub open spec fn is_digit(b: u8) -> bool {
    48 <= b <= 57
}

/// Every byte is a digit.
pub open spec fn all_digits(s: Seq<u8>) -> bool {
    forall|i: int| 0 <= i < s.len() ==> is_digit(#[trigger] s[i])
}

/// The byte string without its leading whitespace.
pub open spec fn trim_front(s: Seq<u8>) -> Seq<u8>
    decreases s.len(),
{
    if s.len() > 0 && is_ws(s[0]) {
        trim_front(s.skip(1))
    } else {
        s
    }
}

/// The byte string without its trailing whitespace.
pub open spec fn trim_back(s: Seq<u8>) -> Seq<u8>
    decreases s.len(),
{
    if s.len() > 0 && is_ws(s.last()) {
        trim_back(s.drop_last())
    } else {
        s
    }
}

/// The decimal value of a digit string.
pub open spec fn dec_val(s: Seq<u8>) -> nat
    decreases s.len(),
{
    if s.len() == 0 {
        0
    } else {
        dec_val(s.drop_last()) * 10 + (s.last() - 48) as nat
    }
}

/// What a pid-file's content parses to: its whitespace-trimmed body read
/// as a decimal number, when that body is non-empty, all digits, and fits
/// a 32-bit pid.
pub open spec fn pid_of_bytes(s: Seq<u8>) -> Option<i32> {
    let core = trim_back(trim_front(s));
    if core.len() > 0 && all_digits(core) && dec_val(core) <= 0x7fffffff {
        Some(dec_val(core) as i32)
    } else {
        None
    }
}

/// Dropping a leading zero does not change the value.
proof fn lemma_leading_zero(s: Seq<u8>)
    requires
        s.len() > 0,
        s[0] == 48,
    ensures
        dec_val(s) == dec_val(s.skip(1)),
    decreases s.len(),
{
    if s.len() == 1 {
        assert(s.skip(1).len() == 0);
        assert(dec_val(s) == dec_val(s.drop_last()) * 10 + ((s.last() - 48) as nat));
        assert(s.drop_last().len() == 0);
    } else {
        assert(s.drop_last()[0] == 48);
        lemma_leading_zero(s.drop_last());
        assert(s.drop_last().skip(1) =~= s.skip(1).drop_last());
        assert(s.skip(1).last() == s.last());
        assert(dec_val(s) == dec_val(s.drop_last()) * 10 + ((s.last() - 48) as nat));
        assert(dec_val(s.skip(1)) == dec_val(s.skip(1).drop_last()) * 10 + ((s.skip(
            1,
        ).last() - 48) as nat));
    }
}

/// A digit string that does not start with zero is at least `10^(len-1)`.
proof fn lemma_dec_val_min(s: Seq<u8>)
    requires
        s.len() > 0,
        all_digits(s),
        s[0] != 48,
    ensures
        dec_val(s) >= pow10((s.len() - 1) as nat),
    decreases s.len(),
{
    if s.len() == 1 {
        assert(pow10(0) == 1);
    } else {
        assert(s.drop_last()[0] == s[0]);
        assert(all_digits(s.drop_last()));
        lemma_dec_val_min(s.drop_last());
        assert(dec_val(s.drop_last()) * 10 >= pow10((s.len() - 2) as nat) * 10) by (nonlinear_arith)
            requires
                dec_val(s.drop_last()) >= pow10((s.len() - 2) as nat),
        ;
    }
}

/// Parses the decimal pid a runtime wrote into its pid-file, ignoring
/// surrounding whitespace; rejects anything else.
pub fn parse_pid(bytes: &[u8]) -> (r: Option<i32>)
    ensures
        r == pid_of_bytes(bytes@),
{
    let n = bytes.len();
    let mut a: usize = 0;
    proof {
        assert(bytes@.skip(0) =~= bytes@);
    }
    while a < n && (bytes[a] == 32 || bytes[a] == 9 || bytes[a] == 10 || bytes[a] == 13)
        invariant
            a <= n == bytes@.len(),
            trim_front(bytes@) == trim_front(bytes@.skip(a as int)),
        decreases n - a,
    {
        proof {
            assert(bytes@.skip(a as int)[0] == bytes@[a as int]);
            assert(bytes@.skip(a as int).skip(1) =~= bytes@.skip(a as int + 1));
        }
        a = a + 1;
    }
    proof {
        if a < n {
            assert(bytes@.skip(a as int)[0] == bytes@[a as int]);
        }
        assert(trim_front(bytes@) == bytes@.skip(a as int));
    }
    let mut b: usize = n;
    while b > a && (bytes[b - 1] == 32 || bytes[b - 1] == 9 || bytes[b - 1] == 10 || bytes[b - 1]
        == 13)
        invariant
            a <= b <= n == bytes@.len(),
            trim_front(bytes@) == bytes@.skip(a as int),
            trim_back(bytes@.skip(a as int)) == trim_back(bytes@.subrange(a as int, b as int)),
        decreases b,
    {
        proof {
            assert(bytes@.subrange(a as int, b as int).last() == bytes@[b as int - 1]);
            assert(bytes@.subrange(a as int, b as int).drop_last() =~= bytes@.subrange(
                a as int,
                b as int - 1,
            ));
        }
        b = b - 1;
    }
    proof {
        if b > a {
            assert(bytes@.subrange(a as int, b as int).last() == bytes@[b as int - 1]);
        }
        assert(trim_back(bytes@.subrange(a as int, b as int)) == bytes@.subrange(
            a as int,
            b as int,
        ));
    }
    let ghost core = bytes@.subrange(a as int, b as int);
    if a == b {
        return None;
    }
    // check digits
    let mut k: usize = a;
    while k < b
        invariant
            a <= k <= b <= n == bytes@.len(),
            core == bytes@.subrange(a as int, b as int),
            trim_back(trim_front(bytes@)) == core,
            forall|i: int| 0 <= i < k - a ==> is_digit(#[trigger] core[i]),
        decreases b - k,
    {
        let c = bytes[k];
        if c < 48 || c > 57 {
            proof {
                assert(core[k as int - a as int] == bytes@[k as int]);
                assert(!all_digits(core));
            }
            return None;
        }
        proof {
            assert(core[k as int - a as int] == bytes@[k as int]);
        }
        k = k + 1;
    }
    assert(all_digits(core));
    // strip leading zeros
    let mut z: usize = a;
    while z < b - 1 && bytes[z] == 48
        invariant
            a <= z < b <= n == bytes@.len(),
            core == bytes@.subrange(a as int, b as int),
            all_digits(core),
            dec_val(core) == dec_val(bytes@.subrange(z as int, b as int)),
        decreases b - z,
    {
        proof {
            assert(bytes@.subrange(z as int, b as int)[0] == bytes@[z as int]);
            assert(bytes@.subrange(z as int, b as int).skip(1) =~= bytes@.subrange(
                z as int + 1,
                b as int,
            ));
            lemma_leading_zero(bytes@.subrange(z as int, b as int));
        }
        z = z + 1;
    }
    let ghost lead = bytes@.subrange(z as int, b as int);
    if b - z > 10 {
        proof {
            assert(lead[0] == bytes@[z as int]);
            assert(lead[0] != 48);
            assert forall|i: int| 0 <= i < lead.len() implies is_digit(#[trigger] lead[i]) by {
                assert(lead[i] == core[i + z - a]);
            }
            lemma_dec_val_min(lead);
            lemma_pow10_ge(lead.len() - 1 as int, 10);
            assert(pow10(10) == 10000000000) by {
                reveal_with_fuel(pow10, 11);
            }
        }
        return None;
    }
    let mut acc: u64 = 0;
    let mut k2: usize = z;
    proof {
        assert(lead.take(0) =~= Seq::<u8>::empty());
        assert forall|i: int| 0 <= i < lead.len() implies is_digit(#[trigger] lead[i]) by {
            assert(lead[i] == core[i + z - a]);
        }
    }
    while k2 < b
        invariant
            z <= k2 <= b <= n == bytes@.len(),
            b - z <= 10,
            lead == bytes@.subrange(z as int, b as int),
            all_digits(lead),
            acc as nat == dec_val(lead.take(k2 as int - z as int)),
            acc < 10000000000,
        decreases b - k2,
    {
        proof {
            assert(lead.take(k2 as int - z as int + 1).drop_last() =~= lead.take(
                k2 as int - z as int,
            ));
            assert(lead.take(k2 as int - z as int + 1).last() == lead[k2 as int - z as int]);
            assert(lead[k2 as int - z as int] == bytes@[k2 as int]);
            assert(is_digit(lead[k2 as int - z as int]));
            lemma_dec_val_take_bound(lead, k2 as int - z as int + 1);
            lemma_pow10_ge(10, (k2 as int - z as int + 1) as nat);
            assert(pow10(10) == 10000000000) by {
                reveal_with_fuel(pow10, 11);
            }
        }
        acc = acc * 10 + ((bytes[k2] - 48) as u64);
        k2 = k2 + 1;
    }
    proof {
        assert(lead.take(b as int - z as int) =~= lead);
    }
    if acc > 0x7fffffff {
        return None;
    }
    proof {
        assert(dec_val(core) == dec_val(lead));
    }
    Some(acc as i32)
}

/// A digit string's prefix value is bounded when the string is short.
proof fn lemma_dec_val_take_bound(s: Seq<u8>, m: int)
    requires
        all_digits(s),
        0 < m <= s.len(),
        s.len() <= 10,
    ensures
        dec_val(s.take(m)) < pow10(m as nat),
    decreases m,
{
    assert(s.take(m).drop_last() =~= s.take(m - 1));
    assert(s.take(m).last() == s[m - 1]);
    if m == 1 {
        assert(pow10(1) == 10) by {
            reveal_with_fuel(pow10, 2);
        }
        assert(dec_val(s.take(1)) == (s[0] - 48) as nat);
    } else {
        lemma_dec_val_take_bound(s, m - 1);
        assert(dec_val(s.take(m - 1)) * 10 + 9 < pow10((m - 1) as nat) * 10) by (nonlinear_arith)
            requires
                dec_val(s.take(m - 1)) < pow10((m - 1) as nat),
        ;
    }
}

/// `10^a` is monotone up to `10^b` for `a <= b`.
proof fn lemma_pow10_ge(a: int, b: nat)
    requires
        a >= b,
    ensures
        pow10(a as nat) >= pow10(b),
    decreases a,
{
    if a > b {
        lemma_pow10_ge(a - 1, b);
    }
}

/// The exit outcome of a reaped process, as `waitpid` reports it.
#[derive(Debug, Clone, Copy, PartialEq, Eq, Structural)]
pub enum WaitOutcome {
    Exited { code: i32 },
    Signaled { signo: i32 },
    Other,
}

/// Maps a wait outcome onto the exit code the dispatcher publishes: the
/// code itself, `128 + signo` for signal-terminated children, `255` for
/// anything else.
pub fn exit_code_of(w: WaitOutcome) -> (r: i32)
    requires
        w matches WaitOutcome::Signaled { signo } ==> 0 <= signo <= 127,
    ensures
        w matches WaitOutcome::Exited { code } ==> r == code,
        w matches WaitOutcome::Signaled { signo } ==> r == 128 + signo,
        w == WaitOutcome::Other ==> r == 255,
{
    match w {
        WaitOutcome::Exited { code } => code,
        WaitOutcome::Signaled { signo } => 128 + signo,
        WaitOutcome::Other => 255,
    }
}

/// The pid-file path of a bundle: `{bundle}/container.pid`.
pub fn pid_file_path(bundle_path: &str) -> (r: String)
    ensures
        r@ == bundle_path@ + "/container.pid"@,
{
    proof {
        reveal_strlit("/container.pid");
    }
    let mut s = bundle_path.to_owned();
    s.append("/container.pid");
    s
}

/// The argument list of `{runtime} create --bundle {bundle} --pid-file
/// {bundle}/container.pid {id}`.
pub fn create_args(bundle_path: &str, id: &str) -> (r: Vec<String>)
    ensures
        r@.len() == 6,
        r@[0]@ == "create"@,
        r@[1]@ == "--bundle"@,
        r@[2]@ == bundle_path@,
        r@[3]@ == "--pid-file"@,
        r@[4]@ == bundle_path@ + "/container.pid"@,
        r@[5]@ == id@,
{
    proof {
        reveal_strlit("create");
        reveal_strlit("--bundle");
        reveal_strlit("--pid-file");
    }
    let mut v: Vec<String> = Vec::new();
    v.push(String::from_str("create"));
    v.push(String::from_str("--bundle"));
    v.push(bundle_path.to_owned());
    v.push(String::from_str("--pid-file"));
    v.push(pid_file_path(bundle_path));
    v.push(id.to_owned());
    v
}

/// The argument list of `{runtime} start {id}`.
pub fn start_args(id: &str) -> (r: Vec<String>)
    ensures
        r@.len() == 2,
        r@[0]@ == "start"@,
        r@[1]@ == id@,
{
    proof {
        reveal_strlit("start");
    }
    let mut v: Vec<String> = Vec::new();
    v.push(String::from_str("start"));
    v.push(id.to_owned());
    v
}

/// The argument list of `{runtime} kill {id} {signal}`.
pub fn kill_args(id: &str, signal: u64) -> (r: Vec<String>)
    ensures
        r@.len() == 3,
        r@[0]@ == "kill"@,
        r@[1]@ == id@,
        r@[2]@ == dec_str(signal as nat),
{
    proof {
        reveal_strlit("kill");
    }
    let mut v: Vec<String> = Vec::new();
    v.push(String::from_str("kill"));
    v.push(id.to_owned());
    v.push(fmt_u64(signal));
    v
}

/// The argument list of `{runtime} delete --force {id}`.
pub fn delete_args(id: &str) -> (r: Vec<String>)
    ensures
        r@.len() == 3,
        r@[0]@ == "delete"@,
        r@[1]@ == "--force"@,
        r@[2]@ == id@,
{
    proof {
        reveal_strlit("delete");
        reveal_strlit("--force");
    }
    let mut v: Vec<String> = Vec::new();
    v.push(String::from_str("delete"));
    v.push(String::from_str("--force"));
    v.push(id.to_owned());
    v
}

/// How a runtime subprocess is spawned: its arguments, with stdout and
/// stderr always redirected to the null sink so a chatty runtime can
/// never block the caller on a full pipe.
#[derive(Debug, PartialEq, Eq)]
pub struct SpawnPlan {
    pub args: Vec<String>,
    pub stdout_null: bool,
    pub stderr_null: bool,
}

/// The spawn plan of `create`: the create arguments with both output
/// streams discarded.
pub fn create_spawn_plan(bundle_path: &str, id: &str) -> (r: SpawnPlan)
    ensures
        r.stdout_null,
        r.stderr_null,
        r.args@.len() == 6,
        r.args@[0]@ == "create"@,
        r.args@[1]@ == "--bundle"@,
        r.args@[2]@ == bundle_path@,
        r.args@[3]@ == "--pid-file"@,
        r.args@[4]@ == bundle_path@ + "/container.pid"@,
        r.args@[5]@ == id@,
{
    SpawnPlan { args: create_args(bundle_path, id), stdout_null: true, stderr_null: true }
}

/// The create protocol: where one `create` call stands between spawning
/// the runtime and reporting its result.
#[derive(Debug, Clone, Copy, PartialEq, Eq)]
pub enum CreateState {
    /// The runtime was spawned; waiting for it to exit.
    AwaitExit,
    /// The runtime exited; the pid-file is being read.
    ReadingPid,
    /// The result is decided; the pid-file is being removed before it is
    /// reported.
    RemovingPid { result: Result<i32, ErrorKind> },
    /// The call is over.
    Done { result: Result<i32, ErrorKind> },
}

/// What the create protocol hears.
#[derive(Debug, Clone, Copy, PartialEq, Eq)]
pub enum CreateEvent {
    /// The runtime could not be spawned at all.
    SpawnFailed,
    /// The runtime exited with or without success.
    RuntimeExited { success: bool },
    /// The pid-file was read (or could not be parsed).
    PidRead { pid: Option<i32> },
    /// The pid-file removal finished.
    PidFileRemoved,
}

/// What the surrounding runtime must do next.
#[derive(Debug, Clone, Copy, PartialEq, Eq, Structural)]
pub enum CreateAction {
    Wait,
    ReadPidFile,
    RemovePidFile,
}

/// The transition function of one `create` call. On every path on which
/// the runtime ran — success or failure — the pid-file is removed before
/// the call completes.
pub open spec fn create_spec_step(st: CreateState, ev: CreateEvent) -> (CreateState, CreateAction) {
    match (st, ev) {
        (CreateState::AwaitExit, CreateEvent::SpawnFailed) => (
            CreateState::Done { result: Err(ErrorKind::BackendRejected) },
            CreateAction::Wait,
        ),
        (CreateState::AwaitExit, CreateEvent::RuntimeExited { success }) => {
            if success {
                (CreateState::ReadingPid, CreateAction::ReadPidFile)
            } else {
                (
                    CreateState::RemovingPid { result: Err(ErrorKind::BackendRejected) },
                    CreateAction::RemovePidFile,
                )
            }
        },
        (CreateState::ReadingPid, CreateEvent::PidRead { pid }) => {
            match pid {
                Some(p) => (
                    CreateState::RemovingPid { result: Ok(p) },
                    CreateAction::RemovePidFile,
                ),
                None => (
                    CreateState::RemovingPid { result: Err(ErrorKind::BackendRejected) },
                    CreateAction::RemovePidFile,
                ),
            }
        },
        (CreateState::RemovingPid { result }, CreateEvent::PidFileRemoved) => (
            CreateState::Done { result },
            CreateAction::Wait,
        ),
        (st2, _) => (st2, CreateAction::Wait),
    }
}

/// Applies one event to a `create` call, exactly as `create_spec_step`
/// says.
pub fn create_step(st: CreateState, ev: CreateEvent) -> (r: (CreateState, CreateAction))
    ensures
        r == create_spec_step(st, ev),
{
    match (st, ev) {
        (CreateState::AwaitExit, CreateEvent::SpawnFailed) => (
            CreateState::Done { result: Err(ErrorKind::BackendRejected) },
            CreateAction::Wait,
        ),
        (CreateState::AwaitExit, CreateEvent::RuntimeExited { success }) => {
            if success {
                (CreateState::ReadingPid, CreateAction::ReadPidFile)
            } else {
                (
                    CreateState::RemovingPid { result: Err(ErrorKind::BackendRejected) },
                    CreateAction::RemovePidFile,
                )
            }
        },
        (CreateState::ReadingPid, CreateEvent::PidRead { pid }) => {
            match pid {
                Some(p) => (
                    CreateState::RemovingPid { result: Ok(p) },
                    CreateAction::RemovePidFile,
                ),
                None => (
                    CreateState::RemovingPid { result: Err(ErrorKind::BackendRejected) },
                    CreateAction::RemovePidFile,
                ),
            }
        },
        (CreateState::RemovingPid { result }, CreateEvent::PidFileRemoved) => (
            CreateState::Done { result },
            CreateAction::Wait,
        ),
        (st2, _) => (st2, CreateAction::Wait),
    }
}

/// `create` never leaves a pid-file behind: once the runtime has exited —
/// successfully or not — the only way to `Done` passes through the state
/// whose entry action removed the pid-file.
pub proof fn lemma_create_removes_pid_file(st: CreateState, ev: CreateEvent)
    ensures
        create_spec_step(st, ev).0 matches CreateState::Done { .. } ==> (st
            matches CreateState::RemovingPid { .. } || st matches CreateState::Done { .. } || (
        st == CreateState::AwaitExit && ev == CreateEvent::SpawnFailed)),
        (create_spec_step(st, ev).0 matches CreateState::RemovingPid { .. } && st
            != create_spec_step(st, ev).0) ==> create_spec_step(st, ev).1
            == CreateAction::RemovePidFile,
{
}

} // verus!
