use vstd::prelude::*;
use vstd::string::StringExecFns;
use vstd::arithmetic::power2::pow2;
use crate::prefix::pow2_u128;

verus! {

/// The character for one lowercase hexadecimal digit.
pub open spec fn hex_digit(n: nat) -> char {
    if n == 0 {
        '0'
    } else if n == 1 {
        '1'
    } else if n == 2 {
        '2'
    } else if n == 3 {
        '3'
    } else if n == 4 {
        '4'
    } else if n == 5 {
        '5'
    } else if n == 6 {
        '6'
    } else if n == 7 {
        '7'
    } else if n == 8 {
        '8'
    } else if n == 9 {
        '9'
    } else if n == 10 {
        'a'
    } else if n == 11 {
        'b'
    } else if n == 12 {
        'c'
    } else if n == 13 {
        'd'
    } else if n == 14 {
        'e'
    } else {
        'f'
    }
}

/// The `k`-th hexadecimal digit of `id`, counted from the least
/// significant.
pub open spec fn nibble(id: u128, k: nat) -> nat {
    ((id as nat) / pow2(4 * k)) % 16
}

/// A workload id as 32 lowercase hex characters, most significant first.
pub open spec fn id_hex(id: u128) -> Seq<char> {
    Seq::new(32, |i: int| hex_digit(nibble(id, (31 - i) as nat)))
}

/// One hexadecimal digit as a string slice.
pub fn hex_str_pub(d: u8) -> (r: &'static str)
    requires
        d < 16,
    ensures
        r@ =~= seq![hex_digit(d as nat)],
{
    proof {
        reveal_strlit("0");
        reveal_strlit("1");
        reveal_strlit("2");
        reveal_strlit("3");
        reveal_strlit("4");
        reveal_strlit("5");
        reveal_strlit("6");
        reveal_strlit("7");
        reveal_strlit("8");
        reveal_strlit("9");
        reveal_strlit("a");
        reveal_strlit("b");
        reveal_strlit("c");
        reveal_strlit("d");
        reveal_strlit("e");
        reveal_strlit("f");
    }
    match d {
        0 => "0",
        1 => "1",
        2 => "2",
        3 => "3",
        4 => "4",
        5 => "5",
        6 => "6",
        7 => "7",
        8 => "8",
        9 => "9",
        10 => "a",
        11 => "b",
        12 => "c",
        13 => "d",
        14 => "e",
        _ => "f",
    }
}

/// Appends the first `count` hex digits of `id` (most significant first).
fn append_id_hex_prefix(out: &mut String, id: u128, count: usize)
    requires
        count <= 32,
    ensures
        final(out)@ == old(out)@ + id_hex(id).take(count as int),
{
    let mut i: usize = 0;
    while i < count
        invariant
            i <= count <= 32,
            out@ == old(out)@ + id_hex(id).take(i as int),
        decreases count - i,
    {
        let k: u8 = (31 - i) as u8;
        let div = pow2_u128(4 * k);
        proof {
            vstd::arithmetic::power2::lemma_pow2_pos((4 * k) as nat);
        }
        let nib: u8 = ((id / div) % 16) as u8;
        proof {
            assert(nib as nat == nibble(id, (31 - i) as nat));
        }
        out.append(hex_str_pub(nib));
        proof {
            assert(id_hex(id)[i as int] == hex_digit(nibble(id, (31 - i) as nat)));
            assert(out@ =~= old(out)@ + id_hex(id).take((i + 1) as int));
        }
        i = i + 1;
    }
}

/// A workload id rendered as its 32-character lowercase hex form.
pub fn format_workload_id(id: u128) -> (r: String)
    ensures
        r@ == id_hex(id),
{
    let mut s = String::new();
    append_id_hex_prefix(&mut s, id, 32);
    proof {
        assert(id_hex(id).take(32) =~= id_hex(id));
        assert(s@ =~= id_hex(id));
    }
    s
}

/// The TAP device name of a workload: `feos-` followed by the first eight
/// hex digits of its id.
pub fn tap_device_name(id: u128) -> (r: String)
    ensures
        r@ == "feos-"@ + id_hex(id).take(8),
{
    proof {
        reveal_strlit("feos-");
    }
    let mut s = String::from_str("feos-");
    append_id_hex_prefix(&mut s, id, 8);
    s
}

/// The hypervisor API socket file name of a VM: `{id}.api`.
pub fn api_socket_name(id: u128) -> (r: String)
    ensures
        r@ == id_hex(id) + ".api"@,
{
    proof {
        reveal_strlit(".api");
    }
    let mut s = format_workload_id(id);
    s.append(".api");
    s
}

/// The serial console socket file name of a VM: `{id}.console`.
pub fn console_socket_name(id: u128) -> (r: String)
    ensures
        r@ == id_hex(id) + ".console"@,
{
    proof {
        reveal_strlit(".console");
    }
    let mut s = format_workload_id(id);
    s.append(".console");
    s
}

/// The host-side vsock proxy socket of a workload's micro-VM:
/// `vsock{tap_name}.sock`.
pub fn vsock_socket_name(id: u128) -> (r: String)
    ensures
        r@ == "vsock"@ + ("feos-"@ + id_hex(id).take(8)) + ".sock"@,
{
    proof {
        reveal_strlit("vsock");
        reveal_strlit(".sock");
    }
    let mut s = String::from_str("vsock");
    let tap = tap_device_name(id);
    s.append(tap.as_str());
    s.append(".sock");
    s
}

/// Relies on uuid::Uuid::new_v4 for a freshly generated random 128-bit
/// workload identifier, taken as its big-endian integer value.
#[verifier::external_body]
pub(crate) fn fresh_workload_id() -> u128 {
    uuid::Uuid::new_v4().as_u128()
}

} // verus!
