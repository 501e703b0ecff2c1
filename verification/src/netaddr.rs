use vstd::prelude::*;
use vstd::string::StringExecFns;
use vstd::arithmetic::power2::{pow2, lemma_pow2_adds, lemma2_to64};
use crate::ids::hex_digit;

verus! {

/// The big-endian integer value of a byte sequence.
pub open spec fn be_u128(s: Seq<u8>) -> nat
    decreases s.len(),
{
    if s.len() == 0 {
        0
    } else {
        be_u128(s.drop_last()) * 256 + (s.last() as nat)
    }
}

/// `be_u128` of up to 16 bytes stays below `2^(8 len)`.
proof fn lemma_be_u128_bound(s: Seq<u8>)
    ensures
        be_u128(s) < pow2(8 * s.len()),
    decreases s.len(),
{
    vstd::arithmetic::power2::lemma_pow2_pos(8 * s.len());
    if s.len() == 0 {
    } else {
        lemma_be_u128_bound(s.drop_last());
        lemma_pow2_adds(8 * (s.len() - 1) as nat, 8);
        lemma2_to64();
        assert(be_u128(s.drop_last()) * 256 + 255 < pow2(8 * (s.len() - 1) as nat) * 256) by (nonlinear_arith)
            requires
                be_u128(s.drop_last()) < pow2(8 * (s.len() - 1) as nat),
        ;
    }
}

/// The value of `n` big-endian bytes fits below `2^(8 n)`.
pub proof fn lemma_be_u128_bound_pub(s: Seq<u8>)
    ensures
        be_u128(s) < pow2(8 * s.len()),
{
    lemma_be_u128_bound(s);
}

/// Reads a big-endian unsigned integer of at most 16 bytes.
pub fn u128_of_be(bytes: &[u8]) -> (r: u128)
    requires
        bytes@.len() <= 16,
    ensures
        r as nat == be_u128(bytes@),
{
    let ghost whole = bytes@;
    let n = bytes.len();
    let mut acc: u128 = 0;
    let mut i: usize = 0;
    while i < n
        invariant
            i <= n == whole.len() <= 16,
            whole == bytes@,
            acc as nat == be_u128(whole.take(i as int)),
        decreases n - i,
    {
        proof {
            lemma_be_u128_bound(whole.take(i as int));
            lemma_pow2_adds(8 * i as nat, 8);
            lemma2_to64();
            lemma_pow2_adds(8 * i as nat, (128 - 8 * i) as nat);
            vstd::arithmetic::power2::lemma_pow2_pos((128 - 8 * i) as nat);
            if 8 * (i as nat) + 8 < 128 {
                vstd::arithmetic::power2::lemma_pow2_strictly_increases(
                    8 * (i as nat) + 8,
                    128,
                );
            }
            assert(pow2(128) == 0x100000000000000000000000000000000) by {
                lemma_pow2_adds(64, 64);
                lemma2_to64();
            }
            assert(be_u128(whole.take(i as int)) * 256 + 255 < pow2(8 * (i as nat) + 8)) by (nonlinear_arith)
                requires
                    be_u128(whole.take(i as int)) < pow2(8 * i as nat),
                    pow2(8 * (i as nat) + 8) == pow2(8 * i as nat) * 256,
            ;
        }
        acc = acc * 256 + (bytes[i] as u128);
        proof {
            assert(whole.take((i + 1) as int).drop_last() =~= whole.take(i as int));
            assert(whole.take((i + 1) as int).last() == whole[i as int]);
        }
        i = i + 1;
    }
    proof {
        assert(whole.take(n as int) =~= whole);
    }
    acc
}

/// The sixteen big-endian bytes of the IPv6 link-local address derived
/// from a MAC address by the modified EUI-64 rule: `fe80::/64`, the first
/// MAC byte with its universal/local bit flipped, `ff:fe` in the middle.
pub open spec fn link_local_bytes(mac: Seq<u8>) -> Seq<u8> {
    seq![
        0xfeu8,
        0x80u8,
        0u8,
        0u8,
        0u8,
        0u8,
        0u8,
        0u8,
        mac[0] ^ 2,
        mac[1],
        mac[2],
        0xffu8,
        0xfeu8,
        mac[3],
        mac[4],
        mac[5],
    ]
}

/// Derives the IPv6 link-local address of a MAC address; exactly the
/// six-byte MAC addresses are accepted.
pub fn mac_to_ipv6_link_local(mac_address: &[u8]) -> (r: Option<u128>)
    ensures
        mac_address@.len() == 6 <==> r is Some,
        mac_address@.len() == 6 ==> r == Some(
            (be_u128(link_local_bytes(mac_address@)) as u128),
        ),
{
    if mac_address.len() == 6 {
        let mut bytes: Vec<u8> = Vec::new();
        bytes.push(0xfe);
        bytes.push(0x80);
        bytes.push(0);
        bytes.push(0);
        bytes.push(0);
        bytes.push(0);
        bytes.push(0);
        bytes.push(0);
        bytes.push(mac_address[0] ^ 2);
        bytes.push(mac_address[1]);
        bytes.push(mac_address[2]);
        bytes.push(0xff);
        bytes.push(0xfe);
        bytes.push(mac_address[3]);
        bytes.push(mac_address[4]);
        bytes.push(mac_address[5]);
        proof {
            assert(bytes@ =~= link_local_bytes(mac_address@));
        }
        let addr = u128_of_be(bytes.as_slice());
        Some(addr)
    } else {
        None
    }
}

/// A byte as two lowercase hex characters.
pub open spec fn hex_pair(b: u8) -> Seq<char> {
    seq![hex_digit((b / 16) as nat), hex_digit((b % 16) as nat)]
}

/// A byte string as colon-separated lowercase hex pairs.
pub open spec fn mac_str(s: Seq<u8>) -> Seq<char>
    decreases s.len(),
{
    if s.len() == 0 {
        Seq::empty()
    } else if s.len() == 1 {
        hex_pair(s[0])
    } else {
        mac_str(s.drop_last()) + seq![':'] + hex_pair(s.last())
    }
}

/// Renders a hardware address as colon-separated hex pairs.
pub fn format_mac(bytes: &Vec<u8>) -> (r: String)
    ensures
        r@ == mac_str(bytes@),
{
    proof {
        reveal_strlit(":");
    }
    let mut s = String::new();
    let n = bytes.len();
    let mut i: usize = 0;
    while i < n
        invariant
            i <= n == bytes.len(),
            s@ == mac_str(bytes@.take(i as int)),
        decreases n - i,
    {
        proof {
            reveal_strlit(":");
        }
        if i > 0 {
            s.append(":");
        }
        s.append(crate::ids::hex_str_pub(bytes[i] / 16));
        s.append(crate::ids::hex_str_pub(bytes[i] % 16));
        proof {
            assert(bytes@.take((i + 1) as int).drop_last() =~= bytes@.take(i as int));
            assert(bytes@.take((i + 1) as int).last() == bytes@[i as int]);
            if i == 0 {
                assert(s@ =~= mac_str(bytes@.take(1)));
            } else {
                assert(s@ =~= mac_str(bytes@.take((i + 1) as int)));
            }
        }
        i = i + 1;
    }
    proof {
        assert(bytes@.take(n as int) =~= bytes@);
    }
    s
}

/// An ASCII hexadecimal digit byte.
pub open spec fn is_hex_byte(b: u8) -> bool {
    (48 <= b <= 57) || (97 <= b <= 102) || (65 <= b <= 70)
}

/// The value of an ASCII hexadecimal digit byte.
pub open spec fn hex_byte_val(b: u8) -> nat {
    if 48 <= b <= 57 {
        (b - 48) as nat
    } else if 97 <= b <= 102 {
        (b - 87) as nat
    } else {
        (b - 55) as nat
    }
}

/// Whether a byte string is a textual MAC address: six hex pairs
/// separated by colons.
pub open spec fn mac_text_wf(s: Seq<u8>) -> bool {
    &&& s.len() == 17
    &&& forall|g: int| 0 <= g < 5 ==> #[trigger] s[3 * g + 2] == 58
    &&& forall|g: int|
        0 <= g < 6 ==> is_hex_byte(#[trigger] s[3 * g]) && is_hex_byte(s[3 * g + 1])
}

/// The `g`-th byte of a textual MAC address.
pub open spec fn mac_text_byte(s: Seq<u8>, g: int) -> u8 {
    (hex_byte_val(s[3 * g]) * 16 + hex_byte_val(s[3 * g + 1])) as u8
}

/// The value of one hex digit byte, or 255 for any other byte.
fn hex_val(b: u8) -> (r: u8)
    ensures
        is_hex_byte(b) ==> r as nat == hex_byte_val(b),
        !is_hex_byte(b) ==> r == 255,
{
    if 48 <= b && b <= 57 {
        b - 48
    } else if 97 <= b && b <= 102 {
        b - 87
    } else if 65 <= b && b <= 70 {
        b - 55
    } else {
        255
    }
}

/// Parses a textual MAC address into its six bytes; exactly the
/// colon-separated six-pair form is accepted.
pub fn parse_mac(text: &[u8]) -> (r: Option<Vec<u8>>)
    ensures
        r is Some <==> mac_text_wf(text@),
        r matches Some(v) ==> v@.len() == 6 && forall|g: int|
            0 <= g < 6 ==> v@[g] == mac_text_byte(text@, g),
{
    if text.len() != 17 {
        return None;
    }
    let mut out: Vec<u8> = Vec::new();
    let mut g: usize = 0;
    while g < 6
        invariant
            g <= 6,
            text@.len() == 17,
            out@.len() == g,
            forall|g2: int| 0 <= g2 < g && g2 < 5 ==> #[trigger] text@[3 * g2 + 2] == 58,
            forall|g2: int|
                0 <= g2 < g ==> is_hex_byte(#[trigger] text@[3 * g2]) && is_hex_byte(
                    text@[3 * g2 + 1],
                ),
            forall|g2: int| 0 <= g2 < g ==> out@[g2] == mac_text_byte(text@, g2),
        decreases 6 - g,
    {
        if g < 5 && text[3 * g + 2] != 58 {
            proof {
                assert(text@[3 * (g as int) + 2] != 58);
            }
            return None;
        }
        let hi = hex_val(text[3 * g]);
        let lo = hex_val(text[3 * g + 1]);
        if hi == 255 || lo == 255 {
            proof {
                if hi == 255 {
                    assert(!is_hex_byte(text@[3 * (g as int)]));
                } else {
                    assert(!is_hex_byte(text@[3 * (g as int) + 1]));
                }
            }
            return None;
        }
        out.push(hi * 16 + lo);
        proof {
            assert(out@[g as int] == mac_text_byte(text@, g as int));
        }
        g = g + 1;
    }
    Some(out)
}

} // verus!
