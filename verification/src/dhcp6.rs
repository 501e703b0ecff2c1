use vstd::prelude::*;
use crate::icmp6::{be16, be32, be_bytes16, push_be16, push_be32, push_u128_be};
use crate::netaddr::be_u128;

verus! {

/// DHCPv6 message types used by the client exchange.
pub const MSG_SOLICIT: u8 = 1;

pub const MSG_ADVERTISE: u8 = 2;

pub const MSG_REQUEST: u8 = 3;

pub const MSG_REPLY: u8 = 7;

/// The option codes the client reads and writes.
pub const OPT_CLIENT_ID: u16 = 1;

pub const OPT_SERVER_ID: u16 = 2;

pub const OPT_IA_NA: u16 = 3;

pub const OPT_IA_ADDR: u16 = 5;

pub const OPT_ORO: u16 = 6;

pub const OPT_ELAPSED_TIME: u16 = 8;

/// The three big-endian bytes of a 24-bit transaction id.
pub open spec fn be24(n: nat) -> Seq<u8> {
    seq![((n / 0x10000) % 256) as u8, ((n / 256) % 256) as u8, (n % 256) as u8]
}

/// One DHCPv6 option: a 16-bit code, a 16-bit length, and the data.
pub open spec fn opt_bytes(code: nat, data: Seq<u8>) -> Seq<u8> {
    be16(code) + be16(data.len()) + data
}

/// The option-request data: DNS servers, domain search list, SNTP servers
/// and client FQDN.
pub open spec fn oro_data() -> Seq<u8> {
    be16(23) + be16(24) + be16(31) + be16(39)
}

/// The IA_NA data the client sends: IAID 123, T1 3600, T2 7200, and one
/// IA address with preferred lifetime 3000 and valid lifetime 5000.
pub open spec fn iana_data(addr: u128) -> Seq<u8> {
    be32(123) + be32(3600) + be32(7200) + opt_bytes(
        OPT_IA_ADDR as nat,
        be_bytes16(addr) + be32(3000) + be32(5000),
    )
}

/// A SOLICIT message: message type, transaction id, then the client id,
/// an IA_NA asking for any address, the option request, and elapsed time
/// zero.
pub open spec fn solicit_bytes(xid: u32, duid: u128) -> Seq<u8> {
    seq![MSG_SOLICIT] + be24(xid as nat) + opt_bytes(OPT_CLIENT_ID as nat, be_bytes16(duid))
        + opt_bytes(OPT_IA_NA as nat, iana_data(0)) + opt_bytes(OPT_ORO as nat, oro_data())
        + opt_bytes(OPT_ELAPSED_TIME as nat, be16(0))
}

/// A REQUEST message echoing the transaction id, client id and server id,
/// and asking for the offered address.
pub open spec fn request_bytes(xid: u32, duid: u128, server_id: Seq<u8>, addr: u128) -> Seq<u8> {
    seq![MSG_REQUEST] + be24(xid as nat) + opt_bytes(OPT_CLIENT_ID as nat, be_bytes16(duid))
        + opt_bytes(OPT_SERVER_ID as nat, server_id) + opt_bytes(OPT_IA_NA as nat, iana_data(addr))
        + opt_bytes(OPT_ELAPSED_TIME as nat, be16(0))
}

/// Appends one option header and its data.
fn push_opt(out: &mut Vec<u8>, code: u16, data: &Vec<u8>)
    requires
        data@.len() <= 65535,
    ensures
        final(out)@ == old(out)@ + opt_bytes(code as nat, data@),
{
    push_be16(out, code);
    push_be16(out, data.len() as u16);
    crate::icmp6::append_bytes(out, data.as_slice());
    proof {
        assert(final(out)@ =~= old(out)@ + opt_bytes(code as nat, data@));
    }
}

/// The IA_NA option data for one requested address.
fn build_iana(addr: u128) -> (r: Vec<u8>)
    ensures
        r@ == iana_data(addr),
{
    let mut inner: Vec<u8> = Vec::new();
    push_u128_be(&mut inner, addr);
    push_be32(&mut inner, 3000);
    push_be32(&mut inner, 5000);
    let mut data: Vec<u8> = Vec::new();
    push_be32(&mut data, 123);
    push_be32(&mut data, 3600);
    push_be32(&mut data, 7200);
    push_opt(&mut data, OPT_IA_ADDR, &inner);
    proof {
        assert(data@ =~= iana_data(addr));
    }
    data
}

/// Builds the SOLICIT message for a fresh exchange.
pub fn make_solicit(xid: u32, duid: u128) -> (r: Vec<u8>)
    ensures
        r@ == solicit_bytes(xid, duid),
{
    let mut out: Vec<u8> = Vec::new();
    out.push(MSG_SOLICIT);
    out.push(((xid / 0x10000) % 256) as u8);
    out.push(((xid / 256) % 256) as u8);
    out.push((xid % 256) as u8);
    let mut duid_bytes: Vec<u8> = Vec::new();
    push_u128_be(&mut duid_bytes, duid);
    push_opt(&mut out, OPT_CLIENT_ID, &duid_bytes);
    let iana = build_iana(0);
    push_opt(&mut out, OPT_IA_NA, &iana);
    let mut oro: Vec<u8> = Vec::new();
    push_be16(&mut oro, 23);
    push_be16(&mut oro, 24);
    push_be16(&mut oro, 31);
    push_be16(&mut oro, 39);
    proof {
        assert(oro@ =~= oro_data());
    }
    push_opt(&mut out, OPT_ORO, &oro);
    let mut elapsed: Vec<u8> = Vec::new();
    push_be16(&mut elapsed, 0);
    push_opt(&mut out, OPT_ELAPSED_TIME, &elapsed);
    proof {
        assert(out@ =~= solicit_bytes(xid, duid));
    }
    out
}

/// Builds the REQUEST message answering an advertisement.
pub fn make_request(xid: u32, duid: u128, server_id: &Vec<u8>, addr: u128) -> (r: Vec<u8>)
    requires
        server_id@.len() <= 65535,
    ensures
        r@ == request_bytes(xid, duid, server_id@, addr),
{
    let mut out: Vec<u8> = Vec::new();
    out.push(MSG_REQUEST);
    out.push(((xid / 0x10000) % 256) as u8);
    out.push(((xid / 256) % 256) as u8);
    out.push((xid % 256) as u8);
    let mut duid_bytes: Vec<u8> = Vec::new();
    push_u128_be(&mut duid_bytes, duid);
    push_opt(&mut out, OPT_CLIENT_ID, &duid_bytes);
    push_opt(&mut out, OPT_SERVER_ID, server_id);
    let iana = build_iana(addr);
    push_opt(&mut out, OPT_IA_NA, &iana);
    let mut elapsed: Vec<u8> = Vec::new();
    push_be16(&mut elapsed, 0);
    push_opt(&mut out, OPT_ELAPSED_TIME, &elapsed);
    proof {
        assert(out@ =~= request_bytes(xid, duid, server_id@, addr));
    }
    out
}

/// The data of the first option with the given code in a TLV stream, if
/// the stream is well-formed up to that option.
pub open spec fn find_opt(s: Seq<u8>, code: nat) -> Option<Seq<u8>>
    decreases s.len(),
{
    if s.len() < 4 {
        None
    } else {
        let c = (s[0] as nat) * 256 + (s[1] as nat);
        let l = (s[2] as nat) * 256 + (s[3] as nat);
        if s.len() < 4 + l {
            None
        } else if c == code {
            Some(s.subrange(4, 4 + l as int))
        } else {
            find_opt(s.skip(4 + l as int), code)
        }
    }
}

/// Scans a TLV stream for the first option with `code`, returning a copy
/// of its data.
pub fn scan_opt(bytes: &[u8], start: usize, code: u16) -> (r: Option<Vec<u8>>)
    requires
        start <= bytes@.len(),
    ensures
        match r {
            Some(v) => find_opt(bytes@.skip(start as int), code as nat) == Some(v@) && v@.len()
                <= 65535,
            None => find_opt(bytes@.skip(start as int), code as nat) is None,
        },
{
    let n = bytes.len();
    let mut i: usize = start;
    while i < n && n - i >= 4
        invariant
            start <= i <= n == bytes@.len(),
            find_opt(bytes@.skip(start as int), code as nat) == find_opt(
                bytes@.skip(i as int),
                code as nat,
            ),
        decreases n - i,
    {
        let c: u16 = (bytes[i] as u16) * 256 + (bytes[i + 1] as u16);
        let l: usize = (bytes[i + 2] as usize) * 256 + (bytes[i + 3] as usize);
        proof {
            assert(bytes@.skip(i as int)[0] == bytes@[i as int]);
            assert(bytes@.skip(i as int)[1] == bytes@[i as int + 1]);
            assert(bytes@.skip(i as int)[2] == bytes@[i as int + 2]);
            assert(bytes@.skip(i as int)[3] == bytes@[i as int + 3]);
        }
        if n - i < 4 + l {
            proof {
                assert(find_opt(bytes@.skip(i as int), code as nat) is None);
            }
            return None;
        }
        if c == code {
            let data = vstd::slice::slice_subrange(bytes, i + 4, i + 4 + l);
            let mut v: Vec<u8> = Vec::new();
            crate::icmp6::append_bytes(&mut v, data);
            proof {
                assert(v@ =~= bytes@.skip(i as int).subrange(4, 4 + l as int));
            }
            return Some(v);
        }
        proof {
            assert(bytes@.skip(i as int).skip(4 + l as int) =~= bytes@.skip(
                i as int + 4 + l as int,
            ));
        }
        i = i + 4 + l;
    }
    proof {
        assert(bytes@.skip(i as int).len() < 4);
    }
    None
}

/// The fields of a received DHCPv6 message that the client reads.
#[derive(Debug, PartialEq, Eq)]
pub struct Dhcp6Packet {
    pub msg_type: u8,
    pub xid: u32,
    pub server_id: Option<Vec<u8>>,
    pub addr: Option<u128>,
    pub preferred: u32,
    pub valid: u32,
    pub t1: u32,
    pub t2: u32,
}

/// The address and lifetimes carried by an IA address option's data.
pub open spec fn iaaddr_fields(d: Seq<u8>) -> (u128, u32, u32) {
    (
        be_u128(d.subrange(0, 16)) as u128,
        be_u128(d.subrange(16, 20)) as u32,
        be_u128(d.subrange(20, 24)) as u32,
    )
}

/// Parses a received DHCPv6 message: its type and transaction id, the
/// server id, and the first address of the first IA_NA with its
/// lifetimes. Messages shorter than a header are rejected.
pub fn parse_dhcp6(bytes: &[u8]) -> (r: Option<Dhcp6Packet>)
    ensures
        r is Some <==> bytes@.len() >= 4,
        r matches Some(p) ==> {
            &&& p.msg_type == bytes@[0]
            &&& p.xid as nat == be_u128(bytes@.subrange(1, 4))
            &&& match find_opt(bytes@.skip(4), OPT_SERVER_ID as nat) {
                Some(d) => p.server_id matches Some(v) && v@ == d,
                None => p.server_id is None,
            }
            &&& match find_opt(bytes@.skip(4), OPT_IA_NA as nat) {
                Some(iana) => {
                    if iana.len() >= 12 {
                        match find_opt(iana.skip(12), OPT_IA_ADDR as nat) {
                            Some(d) => {
                                if d.len() >= 24 {
                                    &&& p.addr == Some(iaaddr_fields(d).0)
                                    &&& p.preferred == iaaddr_fields(d).1
                                    &&& p.valid == iaaddr_fields(d).2
                                    &&& p.t1 as nat == be_u128(iana.subrange(4, 8))
                                    &&& p.t2 as nat == be_u128(iana.subrange(8, 12))
                                } else {
                                    p.addr is None
                                }
                            },
                            None => p.addr is None,
                        }
                    } else {
                        p.addr is None
                    }
                },
                None => p.addr is None,
            }
        },
{
    if bytes.len() < 4 {
        return None;
    }
    let msg_type = bytes[0];
    let xid_bytes = vstd::slice::slice_subrange(bytes, 1, 4);
    let xid = crate::netaddr::u128_of_be(xid_bytes) as u32;
    proof {
        crate::netaddr::lemma_be_u128_bound_pub(bytes@.subrange(1, 4));
        vstd::arithmetic::power2::lemma2_to64();
    }
    let server_id = scan_opt(bytes, 4, OPT_SERVER_ID);
    let mut addr: Option<u128> = None;
    let mut preferred: u32 = 0;
    let mut valid: u32 = 0;
    let mut t1: u32 = 0;
    let mut t2: u32 = 0;
    let iana = scan_opt(bytes, 4, OPT_IA_NA);
    match iana {
        Some(iana_v) => {
            if iana_v.len() >= 12 {
                let inner = scan_opt(iana_v.as_slice(), 12, OPT_IA_ADDR);
                match inner {
                    Some(d) => {
                        if d.len() >= 24 {
                            let a_bytes = vstd::slice::slice_subrange(d.as_slice(), 0, 16);
                            addr = Some(crate::netaddr::u128_of_be(a_bytes));
                            let p_bytes = vstd::slice::slice_subrange(d.as_slice(), 16, 20);
                            let v_bytes = vstd::slice::slice_subrange(d.as_slice(), 20, 24);
                            proof {
                                crate::netaddr::lemma_be_u128_bound_pub(d@.subrange(16, 20));
                                crate::netaddr::lemma_be_u128_bound_pub(d@.subrange(20, 24));
                                vstd::arithmetic::power2::lemma2_to64();
                            }
                            preferred = crate::netaddr::u128_of_be(p_bytes) as u32;
                            valid = crate::netaddr::u128_of_be(v_bytes) as u32;
                            let t1_bytes = vstd::slice::slice_subrange(iana_v.as_slice(), 4, 8);
                            let t2_bytes = vstd::slice::slice_subrange(iana_v.as_slice(), 8, 12);
                            proof {
                                crate::netaddr::lemma_be_u128_bound_pub(iana_v@.subrange(4, 8));
                                crate::netaddr::lemma_be_u128_bound_pub(iana_v@.subrange(8, 12));
                            }
                            t1 = crate::netaddr::u128_of_be(t1_bytes) as u32;
                            t2 = crate::netaddr::u128_of_be(t2_bytes) as u32;
                        }
                    },
                    None => {},
                }
            }
        },
        None => {},
    }
    Some(Dhcp6Packet { msg_type, xid, server_id, addr, preferred, valid, t1, t2 })
}

/// A bound lease: the assigned address, the server's identifier, and the
/// lifetimes the reply carried.
#[derive(Debug, PartialEq, Eq)]
pub struct Lease {
    pub address: u128,
    pub server_id: Vec<u8>,
    pub t1: u32,
    pub t2: u32,
    pub preferred: u32,
    pub valid: u32,
}

/// How an acquisition attempt ends.
#[derive(Debug, PartialEq, Eq)]
pub enum Dhcp6Outcome {
    /// The router advertisement did not ask for DHCPv6: the router's
    /// address is reported and no UDP exchange is started.
    NoDhcpRequired { router: u128 },
    /// A lease was bound.
    Bound(Lease),
    /// Every retry of some phase timed out.
    LeaseAcquisitionFailed,
}

/// The client's position in the RFC 3315 exchange.
#[derive(Debug, PartialEq, Eq)]
pub enum Dhcp6State {
    /// Waiting for a router advertisement after a router solicitation.
    AwaitRa { retries_left: u8 },
    /// DHCPv6 is required; waiting for a fresh transaction id and client
    /// DUID before the SOLICIT goes out.
    NeedSolicit { router: u128 },
    /// SOLICIT sent; waiting for an ADVERTISE with the same transaction.
    AwaitAdvertise { router: u128, xid: u32, duid: u128, retries_left: u8 },
    /// REQUEST sent; waiting for the REPLY.
    AwaitReply { router: u128, xid: u32, duid: u128, server_id: Vec<u8>, addr: u128, retries_left: u8 },
    /// The exchange is over.
    Done(Dhcp6Outcome),
}

/// What the client hears from the surrounding runtime.
#[derive(Debug)]
pub enum Dhcp6Event {
    /// A router advertisement arrived on the uplink.
    RaSeen(crate::icmp6::RaInfo),
    /// Fresh randomness for the exchange: a 24-bit transaction id and a
    /// 16-byte client DUID.
    FreshIds { xid: u32, duid: u128 },
    /// A DHCPv6 message arrived on the UDP socket.
    Packet(Dhcp6Packet),
    /// The current wait phase passed its deadline.
    Timeout,
}

/// What the surrounding runtime must do next. Only `SendSolicit` opens
/// the UDP socket on port 546; `ConfigureAddress` installs the bound
/// address (as a /128) and the default route via the router.
#[derive(Debug, Clone, Copy, PartialEq, Eq, Structural)]
pub enum Dhcp6Action {
    Wait,
    SendRouterSolicitation,
    DrawFreshIds,
    SendSolicit,
    SendRequest,
    ConfigureAddress { addr: u128, router: u128 },
}

/// The exponential backoff before retry attempts: 250 ms, then 500 ms,
/// then 1000 ms.
pub fn retry_backoff_ms(attempt: u8) -> (r: u64)
    ensures
        attempt == 0 ==> r == 250,
        attempt == 1 ==> r == 500,
        attempt >= 2 ==> r == 1000,
{
    if attempt == 0 {
        250
    } else if attempt == 1 {
        500
    } else {
        1000
    }
}

/// The transition function of the uplink acquisition. Every wait phase
/// retries up to three times; a router advertisement without the managed
/// flag ends the exchange at once (unless the caller ignores the flag),
/// and only a managed advertisement ever leads to `SendSolicit`.
pub open spec fn dhcp6_spec_step(st: Dhcp6State, ignore_ra_flag: bool, ev: Dhcp6Event) -> (
    Dhcp6State,
    Dhcp6Action,
) {
    match (st, ev) {
        (Dhcp6State::AwaitRa { retries_left }, Dhcp6Event::RaSeen(info)) => {
            if info.managed || ignore_ra_flag {
                (Dhcp6State::NeedSolicit { router: info.router }, Dhcp6Action::DrawFreshIds)
            } else {
                (
                    Dhcp6State::Done(Dhcp6Outcome::NoDhcpRequired { router: info.router }),
                    Dhcp6Action::Wait,
                )
            }
        },
        (Dhcp6State::AwaitRa { retries_left }, Dhcp6Event::Timeout) => {
            if retries_left > 0 {
                (
                    Dhcp6State::AwaitRa { retries_left: (retries_left - 1) as u8 },
                    Dhcp6Action::SendRouterSolicitation,
                )
            } else {
                (Dhcp6State::Done(Dhcp6Outcome::LeaseAcquisitionFailed), Dhcp6Action::Wait)
            }
        },
        (Dhcp6State::NeedSolicit { router }, Dhcp6Event::FreshIds { xid, duid }) => {
            (
                Dhcp6State::AwaitAdvertise { router, xid, duid, retries_left: 3 },
                Dhcp6Action::SendSolicit,
            )
        },
        (Dhcp6State::AwaitAdvertise { router, xid, duid, retries_left }, Dhcp6Event::Packet(p)) => {
            if p.msg_type == MSG_ADVERTISE && p.xid == xid && p.server_id is Some
                && p.addr is Some {
                (
                    Dhcp6State::AwaitReply {
                        router,
                        xid,
                        duid,
                        server_id: p.server_id.unwrap(),
                        addr: p.addr.unwrap(),
                        retries_left: 3,
                    },
                    Dhcp6Action::SendRequest,
                )
            } else {
                (Dhcp6State::AwaitAdvertise { router, xid, duid, retries_left }, Dhcp6Action::Wait)
            }
        },
        (Dhcp6State::AwaitAdvertise { router, xid, duid, retries_left }, Dhcp6Event::Timeout) => {
            if retries_left > 0 {
                (
                    Dhcp6State::AwaitAdvertise {
                        router,
                        xid,
                        duid,
                        retries_left: (retries_left - 1) as u8,
                    },
                    Dhcp6Action::SendSolicit,
                )
            } else {
                (Dhcp6State::Done(Dhcp6Outcome::LeaseAcquisitionFailed), Dhcp6Action::Wait)
            }
        },
        (
            Dhcp6State::AwaitReply { router, xid, duid, server_id, addr, retries_left },
            Dhcp6Event::Packet(p),
        ) => {
            if p.msg_type == MSG_REPLY && p.xid == xid {
                match p.addr {
                    Some(a) => (
                        Dhcp6State::Done(
                            Dhcp6Outcome::Bound(
                                Lease {
                                    address: a,
                                    server_id: server_id,
                                    t1: p.t1,
                                    t2: p.t2,
                                    preferred: p.preferred,
                                    valid: p.valid,
                                },
                            ),
                        ),
                        Dhcp6Action::ConfigureAddress { addr: a, router },
                    ),
                    None => (
                        Dhcp6State::Done(Dhcp6Outcome::LeaseAcquisitionFailed),
                        Dhcp6Action::Wait,
                    ),
                }
            } else {
                (
                    Dhcp6State::AwaitReply { router, xid, duid, server_id, addr, retries_left },
                    Dhcp6Action::Wait,
                )
            }
        },
        (
            Dhcp6State::AwaitReply { router, xid, duid, server_id, addr, retries_left },
            Dhcp6Event::Timeout,
        ) => {
            if retries_left > 0 {
                (
                    Dhcp6State::AwaitReply {
                        router,
                        xid,
                        duid,
                        server_id,
                        addr,
                        retries_left: (retries_left - 1) as u8,
                    },
                    Dhcp6Action::SendRequest,
                )
            } else {
                (Dhcp6State::Done(Dhcp6Outcome::LeaseAcquisitionFailed), Dhcp6Action::Wait)
            }
        },
        (st2, _) => (st2, Dhcp6Action::Wait),
    }
}

/// Applies one event to the client state, exactly as `dhcp6_spec_step`
/// says.
pub fn dhcp6_step(st: Dhcp6State, ignore_ra_flag: bool, ev: Dhcp6Event) -> (r: (
    Dhcp6State,
    Dhcp6Action,
))
    ensures
        r == dhcp6_spec_step(st, ignore_ra_flag, ev),
{
    match (st, ev) {
        (Dhcp6State::AwaitRa { retries_left }, Dhcp6Event::RaSeen(info)) => {
            if info.managed || ignore_ra_flag {
                (Dhcp6State::NeedSolicit { router: info.router }, Dhcp6Action::DrawFreshIds)
            } else {
                (
                    Dhcp6State::Done(Dhcp6Outcome::NoDhcpRequired { router: info.router }),
                    Dhcp6Action::Wait,
                )
            }
        },
        (Dhcp6State::AwaitRa { retries_left }, Dhcp6Event::Timeout) => {
            if retries_left > 0 {
                (
                    Dhcp6State::AwaitRa { retries_left: retries_left - 1 },
                    Dhcp6Action::SendRouterSolicitation,
                )
            } else {
                (Dhcp6State::Done(Dhcp6Outcome::LeaseAcquisitionFailed), Dhcp6Action::Wait)
            }
        },
        (Dhcp6State::NeedSolicit { router }, Dhcp6Event::FreshIds { xid, duid }) => {
            (
                Dhcp6State::AwaitAdvertise { router, xid, duid, retries_left: 3 },
                Dhcp6Action::SendSolicit,
            )
        },
        (Dhcp6State::AwaitAdvertise { router, xid, duid, retries_left }, Dhcp6Event::Packet(p)) => {
            if p.msg_type == MSG_ADVERTISE && p.xid == xid && p.server_id.is_some()
                && p.addr.is_some() {
                let server_id = match p.server_id {
                    Some(s) => s,
                    None => Vec::new(),
                };
                let addr = match p.addr {
                    Some(a) => a,
                    None => 0,
                };
                (
                    Dhcp6State::AwaitReply { router, xid, duid, server_id, addr, retries_left: 3 },
                    Dhcp6Action::SendRequest,
                )
            } else {
                (Dhcp6State::AwaitAdvertise { router, xid, duid, retries_left }, Dhcp6Action::Wait)
            }
        },
        (Dhcp6State::AwaitAdvertise { router, xid, duid, retries_left }, Dhcp6Event::Timeout) => {
            if retries_left > 0 {
                (
                    Dhcp6State::AwaitAdvertise { router, xid, duid, retries_left: retries_left - 1 },
                    Dhcp6Action::SendSolicit,
                )
            } else {
                (Dhcp6State::Done(Dhcp6Outcome::LeaseAcquisitionFailed), Dhcp6Action::Wait)
            }
        },
        (
            Dhcp6State::AwaitReply { router, xid, duid, server_id, addr, retries_left },
            Dhcp6Event::Packet(p),
        ) => {
            if p.msg_type == MSG_REPLY && p.xid == xid {
                match p.addr {
                    Some(a) => (
                        Dhcp6State::Done(
                            Dhcp6Outcome::Bound(
                                Lease {
                                    address: a,
                                    server_id: server_id,
                                    t1: p.t1,
                                    t2: p.t2,
                                    preferred: p.preferred,
                                    valid: p.valid,
                                },
                            ),
                        ),
                        Dhcp6Action::ConfigureAddress { addr: a, router },
                    ),
                    None => (
                        Dhcp6State::Done(Dhcp6Outcome::LeaseAcquisitionFailed),
                        Dhcp6Action::Wait,
                    ),
                }
            } else {
                (
                    Dhcp6State::AwaitReply { router, xid, duid, server_id, addr, retries_left },
                    Dhcp6Action::Wait,
                )
            }
        },
        (
            Dhcp6State::AwaitReply { router, xid, duid, server_id, addr, retries_left },
            Dhcp6Event::Timeout,
        ) => {
            if retries_left > 0 {
                (
                    Dhcp6State::AwaitReply {
                        router,
                        xid,
                        duid,
                        server_id,
                        addr,
                        retries_left: retries_left - 1,
                    },
                    Dhcp6Action::SendRequest,
                )
            } else {
                (Dhcp6State::Done(Dhcp6Outcome::LeaseAcquisitionFailed), Dhcp6Action::Wait)
            }
        },
        (st2, _) => (st2, Dhcp6Action::Wait),
    }
}

/// An advertisement with the managed flag clear, when the flag is not
/// ignored, ends the exchange at once with `NoDhcpRequired` carrying the
/// router's address, and asks for no socket work at all.
pub proof fn lemma_unmanaged_ra_skips_dhcp(st: Dhcp6State, info: crate::icmp6::RaInfo)
    requires
        st matches Dhcp6State::AwaitRa { .. },
        !info.managed,
    ensures
        ({
            let (st2, act) = dhcp6_spec_step(st, false, Dhcp6Event::RaSeen(info));
            &&& st2 == Dhcp6State::Done(Dhcp6Outcome::NoDhcpRequired { router: info.router })
            &&& act == Dhcp6Action::Wait
        }),
{
}

/// `SendSolicit` — the only action that opens the UDP socket — arises
/// only out of `NeedSolicit` or as a retry of `AwaitAdvertise`, states
/// that are reached only through a managed (or force-ignored) router
/// advertisement.
pub proof fn lemma_solicit_needs_managed_ra(st: Dhcp6State, ignore_ra_flag: bool, ev: Dhcp6Event)
    requires
        dhcp6_spec_step(st, ignore_ra_flag, ev).1 == Dhcp6Action::SendSolicit,
    ensures
        st matches Dhcp6State::NeedSolicit { .. } || st matches Dhcp6State::AwaitAdvertise { .. },
{
}


/// Relies on rand::random; nothing is assumed of the drawn value.
pub assume_specification<T>[ rand::random::<T> ]() -> (r: T)
    where
        rand::distributions::Standard: rand::distributions::Distribution<T>,
;

/// Draws a random 24-bit transaction id for a fresh exchange.
/// Relies on rand::random for the three raw bytes; nothing is assumed of
/// their values.
pub fn fresh_xid() -> (r: u32)
    ensures
        r < 0x1000000,
{
    let raw: [u8; 3] = rand::random();
    (raw[0] as u32) * 0x10000 + (raw[1] as u32) * 0x100 + (raw[2] as u32)
}

} // verus!
