use vstd::prelude::*;
use vstd::arithmetic::power2::pow2;
use vstd::arithmetic::div_mod::lemma_fundamental_div_mod;
use crate::prefix::pow2_u128;

verus! {

/// The two big-endian bytes of a 16-bit value.
pub open spec fn be16(n: nat) -> Seq<u8> {
    seq![((n / 256) % 256) as u8, (n % 256) as u8]
}

/// The four big-endian bytes of a 32-bit value.
pub open spec fn be32(n: nat) -> Seq<u8> {
    seq![
        ((n / 0x1000000) % 256) as u8,
        ((n / 0x10000) % 256) as u8,
        ((n / 256) % 256) as u8,
        (n % 256) as u8,
    ]
}

/// The sixteen big-endian bytes of a 128-bit value.
pub open spec fn be_bytes16(x: u128) -> Seq<u8> {
    Seq::new(16, |i: int| (((x as nat) / pow2((8 * (15 - i)) as nat)) % 256) as u8)
}

/// Appends the sixteen big-endian bytes of `x`.
pub fn push_u128_be(out: &mut Vec<u8>, x: u128)
    ensures
        final(out)@ == old(out)@ + be_bytes16(x),
{
    let mut i: usize = 0;
    while i < 16
        invariant
            i <= 16,
            out@ == old(out)@ + be_bytes16(x).take(i as int),
        decreases 16 - i,
    {
        let sh: u8 = (8 * (15 - i)) as u8;
        let div = pow2_u128(sh);
        proof {
            vstd::arithmetic::power2::lemma_pow2_pos(sh as nat);
        }
        let b: u8 = ((x / div) % 256) as u8;
        out.push(b);
        proof {
            assert(b == be_bytes16(x)[i as int]);
            assert(out@ =~= old(out)@ + be_bytes16(x).take((i + 1) as int));
        }
        i = i + 1;
    }
    proof {
        assert(be_bytes16(x).take(16) =~= be_bytes16(x));
    }
}

/// Appends a 16-bit value, big endian.
pub fn push_be16(out: &mut Vec<u8>, n: u16)
    ensures
        final(out)@ == old(out)@ + be16(n as nat),
{
    out.push((n / 256) as u8);
    out.push((n % 256) as u8);
    proof {
        assert(final(out)@ =~= old(out)@ + be16(n as nat));
    }
}

/// Appends a 32-bit value, big endian.
pub fn push_be32(out: &mut Vec<u8>, n: u32)
    ensures
        final(out)@ == old(out)@ + be32(n as nat),
{
    out.push((n / 0x1000000) as u8);
    out.push(((n / 0x10000) % 256) as u8);
    out.push(((n / 256) % 256) as u8);
    out.push((n % 256) as u8);
    proof {
        assert((n as nat / 0x1000000) % 256 == n as nat / 0x1000000);
        assert(final(out)@ =~= old(out)@ + be32(n as nat));
    }
}

/// The sum of the big-endian 16-bit words of a byte string; an odd final
/// byte counts as the high half of a word.
pub open spec fn sum16(s: Seq<u8>) -> nat
    decreases s.len(),
{
    if s.len() == 0 {
        0
    } else if s.len() == 1 {
        (s[0] as nat) * 256
    } else {
        (s[0] as nat) * 256 + (s[1] as nat) + sum16(s.skip(2))
    }
}

/// Folds the carries of a ones'-complement sum back in until it fits in
/// sixteen bits.
pub open spec fn fold_carry(n: nat) -> nat
    decreases n,
{
    if n < 0x10000 {
        n
    } else {
        fold_carry(n / 0x10000 + n % 0x10000)
    }
}

/// The folded value is always a 16-bit quantity.
proof fn lemma_fold_carry_bound(n: nat)
    ensures
        fold_carry(n) < 0x10000,
    decreases n,
{
    if n >= 0x10000 {
        lemma_fundamental_div_mod(n as int, 0x10000);
        assert(n / 0x10000 + n % 0x10000 < n) by (nonlinear_arith)
            requires
                n >= 0x10000,
                n as int == 0x10000 * (n as int / 0x10000) + n as int % 0x10000,
                0 <= (n as int) % 0x10000,
                (n as int) % 0x10000 < 0x10000,
        ;
        lemma_fold_carry_bound(n / 0x10000 + n % 0x10000);
    }
}

/// The RFC 1071 internet checksum of a byte string: the ones'-complement
/// of the folded ones'-complement word sum.
pub open spec fn checksum16(s: Seq<u8>) -> nat {
    (0xffff - fold_carry(sum16(s))) as nat
}

/// Computes the internet checksum of `bytes`.
pub fn internet_checksum(bytes: &Vec<u8>) -> (r: u16)
    requires
        bytes@.len() <= 65535,
    ensures
        r as nat == checksum16(bytes@),
{
    let n = bytes.len();
    let mut acc: u64 = 0;
    let mut i: usize = 0;
    proof {
        assert(bytes@.skip(0) =~= bytes@);
    }
    while i + 1 < n
        invariant
            i <= n == bytes@.len() <= 65535,
            i % 2 == 0,
            acc as nat + sum16(bytes@.skip(i as int)) == sum16(bytes@),
            acc as nat <= 0x10000 * (i as nat / 2),
        decreases n - i,
    {
        proof {
            assert(bytes@.skip(i as int).skip(2) =~= bytes@.skip((i + 2) as int));
            assert(bytes@.skip(i as int)[0] == bytes@[i as int]);
            assert(bytes@.skip(i as int)[1] == bytes@[i + 1]);
            assert(0x10000 * ((i as nat + 2) / 2) == 0x10000 * (i as nat / 2) + 0x10000) by {
                lemma_fundamental_div_mod(i as int, 2);
                lemma_fundamental_div_mod(i as int + 2, 2);
                assert((i as int + 2) / 2 == i as int / 2 + 1) by (nonlinear_arith)
                    requires
                        i as int % 2 == 0,
                        i as int == 2 * (i as int / 2),
                        i as int + 2 == 2 * ((i as int + 2) / 2) + (i as int + 2) % 2,
                        (i as int + 2) % 2 == (i as int) % 2,
                ;
            }
            assert((i as int + 2) % 2 == (i as int) % 2) by {
                vstd::arithmetic::div_mod::lemma_mod_add_multiples_vanish(i as int, 2);
            }
        }
        acc = acc + (bytes[i] as u64) * 256 + (bytes[i + 1] as u64);
        i = i + 2;
    }
    if i < n {
        proof {
            assert(bytes@.skip(i as int).len() == 1);
            assert(bytes@.skip(i as int)[0] == bytes@[i as int]);
        }
        acc = acc + (bytes[i] as u64) * 256;
    } else {
        proof {
            assert(bytes@.skip(i as int).len() == 0);
        }
    }
    assert(acc as nat == sum16(bytes@));
    let mut folded: u64 = acc;
    while folded >= 0x10000
        invariant
            fold_carry(folded as nat) == fold_carry(sum16(bytes@)),
        decreases folded,
    {
        proof {
            lemma_fundamental_div_mod(folded as int, 0x10000);
            assert(folded as int / 0x10000 + folded as int % 0x10000 < folded as int) by (nonlinear_arith)
                requires
                    folded >= 0x10000,
                    folded as int == 0x10000 * (folded as int / 0x10000) + (folded as int)
                        % 0x10000,
                    0 <= (folded as int) % 0x10000,
                    (folded as int) % 0x10000 < 0x10000,
            ;
        }
        folded = folded / 0x10000 + folded % 0x10000;
    }
    proof {
        lemma_fold_carry_bound(sum16(bytes@));
    }
    (0xffffu16 - (folded as u16))
}

/// All-routers link-local multicast address `ff02::2`.
pub const ALL_ROUTERS: u128 = 0xff020000000000000000000000000002;

/// All-nodes link-local multicast address `ff02::1`.
pub const ALL_NODES: u128 = 0xff020000000000000000000000000001;

/// An Ethernet header to the broadcast address carrying IPv6.
pub open spec fn eth_header(src_mac: Seq<u8>) -> Seq<u8> {
    seq![0xffu8, 0xffu8, 0xffu8, 0xffu8, 0xffu8, 0xffu8] + src_mac + seq![0x86u8, 0xddu8]
}

/// A fixed IPv6 header carrying ICMPv6 with hop limit 255.
pub open spec fn ipv6_header(payload_len: nat, src: u128, dst: u128) -> Seq<u8> {
    seq![0x60u8, 0u8, 0u8, 0u8] + be16(payload_len) + seq![58u8, 255u8] + be_bytes16(src)
        + be_bytes16(dst)
}

/// The IPv6 pseudo-header the ICMPv6 checksum is computed over.
pub open spec fn pseudo_header(src: u128, dst: u128, icmp_len: nat) -> Seq<u8> {
    be_bytes16(src) + be_bytes16(dst) + be32(icmp_len) + seq![0u8, 0u8, 0u8, 58u8]
}

/// The ICMPv6 checksum of a message whose checksum field is zeroed.
pub open spec fn icmp6_checksum_of(src: u128, dst: u128, icmp0: Seq<u8>) -> nat {
    checksum16(pseudo_header(src, dst, icmp0.len()) + icmp0)
}

/// A router solicitation message with a zeroed checksum field.
pub open spec fn rs_icmp_zero() -> Seq<u8> {
    seq![133u8, 0u8, 0u8, 0u8, 0u8, 0u8, 0u8, 0u8]
}

/// A neighbour solicitation for `target` with a zeroed checksum field.
pub open spec fn ns_icmp_zero(target: u128) -> Seq<u8> {
    seq![135u8, 0u8, 0u8, 0u8, 0u8, 0u8, 0u8, 0u8] + be_bytes16(target)
}

/// A message with the given checksum written into its third and fourth
/// bytes.
pub open spec fn with_checksum(icmp0: Seq<u8>, c: nat) -> Seq<u8> {
    icmp0.update(2, ((c / 256) % 256) as u8).update(3, (c % 256) as u8)
}

/// The complete Ethernet frame of an ICMPv6 message: broadcast Ethernet
/// header, IPv6 header, and the message with its checksum filled in.
pub open spec fn icmp6_frame(src_mac: Seq<u8>, src: u128, dst: u128, icmp0: Seq<u8>) -> Seq<u8> {
    eth_header(src_mac) + ipv6_header(icmp0.len(), src, dst) + with_checksum(
        icmp0,
        icmp6_checksum_of(src, dst, icmp0),
    )
}

/// Appends a copy of `src` to `out`.
pub fn append_bytes(out: &mut Vec<u8>, src: &[u8])
    ensures
        final(out)@ == old(out)@ + src@,
{
    let n = src.len();
    let mut i: usize = 0;
    while i < n
        invariant
            i <= n == src@.len(),
            out@ == old(out)@ + src@.take(i as int),
        decreases n - i,
    {
        out.push(src[i]);
        proof {
            assert(out@ =~= old(out)@ + src@.take((i + 1) as int));
        }
        i = i + 1;
    }
    proof {
        assert(src@.take(n as int) =~= src@);
    }
}

/// Builds the frame of an ICMPv6 message: computes the checksum over the
/// pseudo-header and the zero-checksum message, then lays out Ethernet
/// header, IPv6 header and the message.
fn build_icmp6_frame(src_mac: &[u8], src: u128, dst: u128, icmp0: &Vec<u8>) -> (r: Vec<u8>)
    requires
        src_mac@.len() == 6,
        4 <= icmp0@.len() <= 1000,
        icmp0@[2] == 0,
        icmp0@[3] == 0,
    ensures
        r@ == icmp6_frame(src_mac@, src, dst, icmp0@),
{
    let mut pseudo: Vec<u8> = Vec::new();
    push_u128_be(&mut pseudo, src);
    push_u128_be(&mut pseudo, dst);
    let ilen: u16 = icmp0.len() as u16;
    pseudo.push(0);
    pseudo.push(0);
    pseudo.push((ilen / 256) as u8);
    pseudo.push((ilen % 256) as u8);
    pseudo.push(0);
    pseudo.push(0);
    pseudo.push(0);
    pseudo.push(58);
    append_bytes(&mut pseudo, icmp0.as_slice());
    proof {
        assert(pseudo@ =~= pseudo_header(src, dst, icmp0@.len()) + icmp0@);
    }
    let ck = internet_checksum(&pseudo);
    let mut frame: Vec<u8> = Vec::new();
    frame.push(0xff);
    frame.push(0xff);
    frame.push(0xff);
    frame.push(0xff);
    frame.push(0xff);
    frame.push(0xff);
    append_bytes(&mut frame, src_mac);
    frame.push(0x86);
    frame.push(0xdd);
    frame.push(0x60);
    frame.push(0);
    frame.push(0);
    frame.push(0);
    frame.push((ilen / 256) as u8);
    frame.push((ilen % 256) as u8);
    frame.push(58);
    frame.push(255);
    push_u128_be(&mut frame, src);
    push_u128_be(&mut frame, dst);
    let mut i: usize = 0;
    let ghost mid = frame@;
    proof {
        assert(mid =~= eth_header(src_mac@) + ipv6_header(icmp0@.len(), src, dst));
    }
    while i < icmp0.len()
        invariant
            i <= icmp0@.len(),
            icmp0@.len() >= 4,
            icmp0@[2] == 0,
            icmp0@[3] == 0,
            ck as nat == icmp6_checksum_of(src, dst, icmp0@),
            frame@ == mid + with_checksum(icmp0@, ck as nat).take(i as int),
        decreases icmp0.len() - i,
    {
        let b = if i == 2 {
            (ck / 256) as u8
        } else if i == 3 {
            (ck % 256) as u8
        } else {
            icmp0[i]
        };
        frame.push(b);
        proof {
            assert(b == with_checksum(icmp0@, ck as nat)[i as int]);
            assert(frame@ =~= mid + with_checksum(icmp0@, ck as nat).take((i + 1) as int));
        }
        i = i + 1;
    }
    proof {
        assert(with_checksum(icmp0@, ck as nat).take(icmp0@.len() as int) =~= with_checksum(
            icmp0@,
            ck as nat,
        ));
        assert(frame@ =~= icmp6_frame(src_mac@, src, dst, icmp0@));
    }
    frame
}

/// Builds the broadcast Ethernet frame of an ICMPv6 router solicitation
/// from the unspecified address to all routers.
pub fn build_router_solicitation(src_mac: &[u8]) -> (r: Vec<u8>)
    requires
        src_mac@.len() == 6,
    ensures
        r@ == icmp6_frame(src_mac@, 0, ALL_ROUTERS, rs_icmp_zero()),
{
    let mut icmp: Vec<u8> = Vec::new();
    icmp.push(133);
    icmp.push(0);
    icmp.push(0);
    icmp.push(0);
    icmp.push(0);
    icmp.push(0);
    icmp.push(0);
    icmp.push(0);
    proof {
        assert(icmp@ =~= rs_icmp_zero());
    }
    build_icmp6_frame(src_mac, 0, ALL_ROUTERS, &icmp)
}

/// Builds the broadcast Ethernet frame of an ICMPv6 neighbour solicitation
/// for `target`, sent from the host's address on that link.
pub fn build_neighbour_solicitation(src_mac: &[u8], src: u128, target: u128) -> (r: Vec<u8>)
    requires
        src_mac@.len() == 6,
    ensures
        r@ == icmp6_frame(src_mac@, src, target, ns_icmp_zero(target)),
{
    let mut icmp: Vec<u8> = Vec::new();
    icmp.push(135);
    icmp.push(0);
    icmp.push(0);
    icmp.push(0);
    icmp.push(0);
    icmp.push(0);
    icmp.push(0);
    icmp.push(0);
    push_u128_be(&mut icmp, target);
    proof {
        assert(icmp@ =~= ns_icmp_zero(target));
    }
    build_icmp6_frame(src_mac, src, target, &icmp)
}

/// What an incoming router advertisement tells the uplink client.
#[derive(Debug, Clone, Copy, PartialEq, Eq, Structural)]
pub struct RaInfo {
    pub router: u128,
    pub managed: bool,
    pub other_config: bool,
}

/// Whether a raw Ethernet frame is an ICMPv6 router advertisement: IPv6
/// ethertype, ICMPv6 next header, message type 134, and room for the
/// flags byte.
pub open spec fn ra_frame_wf(s: Seq<u8>) -> bool {
    &&& s.len() >= 60
    &&& s[12] == 0x86
    &&& s[13] == 0xdd
    &&& s[20] == 58
    &&& s[54] == 134
}

/// Parses a received Ethernet frame as a router advertisement, yielding
/// the router's source address and the managed/other-config flags; returns
/// `None` exactly on frames that are not router advertisements.
pub fn parse_router_advert(frame: &[u8]) -> (r: Option<RaInfo>)
    ensures
        r is Some <==> ra_frame_wf(frame@),
        r matches Some(info) ==> {
            &&& info.router as nat == crate::netaddr::be_u128(frame@.subrange(22, 38))
            &&& info.managed == (frame@[59] & 0x80 != 0)
            &&& info.other_config == (frame@[59] & 0x40 != 0)
        },
{
    if frame.len() < 60 {
        return None;
    }
    if !(frame[12] == 0x86 && frame[13] == 0xdd) {
        return None;
    }
    if frame[20] != 58 {
        return None;
    }
    if frame[54] != 134 {
        return None;
    }
    let src_bytes = vstd::slice::slice_subrange(frame, 22, 38);
    let router = crate::netaddr::u128_of_be(src_bytes);
    let flags = frame[59];
    Some(RaInfo { router, managed: flags & 0x80 != 0, other_config: flags & 0x40 != 0 })
}

/// Whether the uplink must run DHCPv6: the advertisement's managed flag
/// asks for it, or the caller forces it.
pub fn dhcp_needed(managed: bool, ignore_ra_flag: bool) -> (r: bool)
    ensures
        r == (managed || ignore_ra_flag),
{
    managed || ignore_ra_flag
}

/// The router lifetime announced in router advertisements, in seconds.
pub const RA_ROUTER_LIFETIME_S: u16 = 1800;

/// The preferred lifetime of the announced prefix, in seconds.
pub const RA_PREFERRED_LIFETIME_S: u32 = 1200;

/// The valid lifetime of the announced prefix, in seconds.
pub const RA_VALID_LIFETIME_S: u32 = 2400;

/// The deadline for answering a router solicitation, in milliseconds.
pub const RS_RESPONSE_DELAY_MS: u64 = 200;

/// The interval between unsolicited router advertisements: at most 300
/// seconds, and no more than a sixth of the router lifetime.
pub fn ra_retransmit_interval_s(router_lifetime_s: u16) -> (r: u16)
    ensures
        r == if router_lifetime_s / 6 < 300 {
            router_lifetime_s / 6
        } else {
            300u16
        },
{
    let sixth = router_lifetime_s / 6;
    if sixth < 300 {
        sixth
    } else {
        300
    }
}

/// A router advertisement with a zeroed checksum: managed and
/// other-config set, the router lifetime, an MTU option, and one prefix
/// information option announcing `prefix/prefix_len` as on-link and
/// autonomous with the fixed preferred and valid lifetimes.
pub open spec fn ra_icmp_zero(mtu: u32, prefix: u128, prefix_len: u8) -> Seq<u8> {
    seq![134u8, 0u8, 0u8, 0u8, 0u8, 0xC0u8] + be16(RA_ROUTER_LIFETIME_S as nat) + be32(0) + be32(0)
        + seq![5u8, 1u8, 0u8, 0u8] + be32(mtu as nat) + seq![3u8, 4u8, prefix_len, 0xC0u8] + be32(
        RA_VALID_LIFETIME_S as nat,
    ) + be32(RA_PREFERRED_LIFETIME_S as nat) + be32(0) + be_bytes16(prefix)
}

/// Builds the broadcast Ethernet frame of an unsolicited router
/// advertisement for one TAP: sent from the host's link-local address to
/// all nodes, announcing the workload's sub-prefix.
pub fn build_router_advertisement(
    src_mac: &[u8],
    src: u128,
    mtu: u32,
    prefix: u128,
    prefix_len: u8,
) -> (r: Vec<u8>)
    requires
        src_mac@.len() == 6,
    ensures
        r@ == icmp6_frame(src_mac@, src, ALL_NODES, ra_icmp_zero(mtu, prefix, prefix_len)),
{
    let mut icmp: Vec<u8> = Vec::new();
    icmp.push(134);
    icmp.push(0);
    icmp.push(0);
    icmp.push(0);
    icmp.push(0);
    icmp.push(0xC0);
    push_be16(&mut icmp, RA_ROUTER_LIFETIME_S);
    push_be32(&mut icmp, 0);
    push_be32(&mut icmp, 0);
    icmp.push(5);
    icmp.push(1);
    icmp.push(0);
    icmp.push(0);
    push_be32(&mut icmp, mtu);
    icmp.push(3);
    icmp.push(4);
    icmp.push(prefix_len);
    icmp.push(0xC0);
    push_be32(&mut icmp, RA_VALID_LIFETIME_S);
    push_be32(&mut icmp, RA_PREFERRED_LIFETIME_S);
    push_be32(&mut icmp, 0);
    push_u128_be(&mut icmp, prefix);
    proof {
        assert(icmp@ =~= ra_icmp_zero(mtu, prefix, prefix_len));
    }
    build_icmp6_frame(src_mac, src, ALL_NODES, &icmp)
}

} // verus!
