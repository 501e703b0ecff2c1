use dhcproto::v6;
use dhcproto::{Decodable, Decoder};
use pnet::packet::ethernet::{EtherTypes, EthernetPacket};
use pnet::packet::icmpv6::Icmpv6Packet;
use pnet::packet::ipv6::Ipv6Packet;
use pnet::packet::Packet;

use feos::dhcp6::{
    dhcp6_step, make_request, make_solicit, parse_dhcp6, retry_backoff_ms, Dhcp6Action,
    Dhcp6Event, Dhcp6Outcome, Dhcp6State,
};
use feos::dispatcher::{BootSpec, DiskAttachment};
use feos::errors::ErrorKind;
use feos::icmp6::{
    build_neighbour_solicitation, build_router_advertisement, build_router_solicitation,
    dhcp_needed, internet_checksum, parse_router_advert, ra_retransmit_interval_s, RaInfo,
};
use feos::ids::{api_socket_name, console_socket_name, format_workload_id, tap_device_name, vsock_socket_name};
use feos::netaddr::{format_mac, mac_to_ipv6_link_local, parse_mac, u128_of_be};
use feos::vmm::{init_wait_result, parse_ping_response, vendor_device_line, VmmRegistry};

const MAC: [u8; 6] = [0x52, 0x54, 0x00, 0x12, 0x34, 0x56];

#[test]
fn workload_id_formatting() {
    let id: u128 = 0x123456789abcdef0123456789abcdef0;
    assert_eq!(format_workload_id(id), "123456789abcdef0123456789abcdef0");
    assert_eq!(tap_device_name(id), "feos-12345678");
    assert_eq!(api_socket_name(id), "123456789abcdef0123456789abcdef0.api");
    assert_eq!(console_socket_name(id), "123456789abcdef0123456789abcdef0.console");
    assert_eq!(vsock_socket_name(id), "vsockfeos-12345678.sock");
}

#[test]
fn link_local_derivation() {
    let addr = mac_to_ipv6_link_local(&MAC).unwrap();
    let expected: u128 = 0xfe80_0000_0000_0000_5054_00ff_fe12_3456;
    assert_eq!(addr, expected);
    assert_eq!(mac_to_ipv6_link_local(&[1, 2, 3]), None);
}

#[test]
fn mac_formatting() {
    assert_eq!(format_mac(&vec![0xaa, 0x0b, 0xff]), "aa:0b:ff");
    assert_eq!(format_mac(&vec![]), "");
}

#[test]
fn big_endian_reader() {
    assert_eq!(u128_of_be(&[0x12, 0x34]), 0x1234);
    assert_eq!(u128_of_be(&[]), 0);
}

#[test]
fn solicit_decodes_with_reference_parser() {
    let duid: u128 = 0x1d1e1f202122232425262728292a2b2c;
    let bytes = make_solicit(0x00abcdef, duid);
    let msg = v6::Message::decode(&mut Decoder::new(&bytes)).unwrap();
    assert_eq!(msg.msg_type(), v6::MessageType::Solicit);
    assert_eq!(msg.xid_num(), 0x00abcdef);
    match msg.opts().get(v6::OptionCode::ClientId).unwrap() {
        v6::DhcpOption::ClientId(d) => {
            assert_eq!(d, &duid.to_be_bytes().to_vec());
        }
        other => panic!("unexpected client id option: {:?}", other),
    }
    match msg.opts().get(v6::OptionCode::IANA).unwrap() {
        v6::DhcpOption::IANA(iana) => {
            assert_eq!(iana.id, 123);
            assert_eq!(iana.t1, 3600);
            assert_eq!(iana.t2, 7200);
            match iana.opts.get(v6::OptionCode::IAAddr).unwrap() {
                v6::DhcpOption::IAAddr(a) => {
                    assert_eq!(a.addr.octets(), [0u8; 16]);
                    assert_eq!(a.preferred_life, 3000);
                    assert_eq!(a.valid_life, 5000);
                }
                other => panic!("unexpected inner option: {:?}", other),
            }
        }
        other => panic!("unexpected IA_NA option: {:?}", other),
    }
    assert!(msg.opts().get(v6::OptionCode::ORO).is_some());
    assert!(msg.opts().get(v6::OptionCode::ElapsedTime).is_some());
}

#[test]
fn request_parses_back() {
    let duid: u128 = 0x1d1e1f202122232425262728292a2b2c;
    let server_id = vec![0, 1, 0, 30, 8, 8];
    let addr: u128 = 0x2001_0db8_0000_0000_0000_0000_0000_0099;
    let bytes = make_request(0x00aabbcc, duid, &server_id, addr);
    let pkt = parse_dhcp6(&bytes).unwrap();
    assert_eq!(pkt.msg_type, 3);
    assert_eq!(pkt.xid, 0x00aabbcc);
    assert_eq!(pkt.server_id, Some(server_id));
    assert_eq!(pkt.addr, Some(addr));
    assert_eq!(pkt.preferred, 3000);
    assert_eq!(pkt.valid, 5000);
    assert_eq!(pkt.t1, 3600);
    assert_eq!(pkt.t2, 7200);
}

#[test]
fn unmanaged_ra_skips_dhcp() {
    // M=0 and the flag honoured: the exchange ends before any socket
    // work, reporting the router's address
    let ra = RaInfo { router: 0xfe80_0000_0000_0000_0000_0000_0000_0001, managed: false, other_config: false };
    let (st, act) = dhcp6_step(Dhcp6State::AwaitRa { retries_left: 3 }, false, Dhcp6Event::RaSeen(ra));
    assert_eq!(act, Dhcp6Action::Wait);
    assert_eq!(
        st,
        Dhcp6State::Done(Dhcp6Outcome::NoDhcpRequired { router: ra.router })
    );
    assert!(!dhcp_needed(false, false));
    assert!(dhcp_needed(false, true));
    assert!(dhcp_needed(true, false));
}

#[test]
fn dhcp_exchange_binds_lease() {
    let ra = RaInfo { router: 0xfe80_0000_0000_0000_0000_0000_0000_0001, managed: true, other_config: true };
    let (st, act) = dhcp6_step(Dhcp6State::AwaitRa { retries_left: 3 }, false, Dhcp6Event::RaSeen(ra));
    assert_eq!(act, Dhcp6Action::DrawFreshIds);
    let (st, act) = dhcp6_step(st, false, Dhcp6Event::FreshIds { xid: 0x123456, duid: 77 });
    assert_eq!(act, Dhcp6Action::SendSolicit);

    // an ADVERTISE with the right transaction moves to REQUEST
    let addr: u128 = 0x2001_0db8_0000_0000_0000_0000_0000_0042;
    let server_id = vec![0, 3, 0, 1, 9];
    let advertise = {
        let mut b = make_request(0x123456, 77, &server_id, addr);
        b[0] = 2;
        parse_dhcp6(&b).unwrap()
    };
    let (st, act) = dhcp6_step(st, false, Dhcp6Event::Packet(advertise));
    assert_eq!(act, Dhcp6Action::SendRequest);

    // the REPLY binds the lease and configures the address
    let reply = {
        let mut b = make_request(0x123456, 77, &server_id, addr);
        b[0] = 7;
        parse_dhcp6(&b).unwrap()
    };
    let (st, act) = dhcp6_step(st, false, Dhcp6Event::Packet(reply));
    assert_eq!(act, Dhcp6Action::ConfigureAddress { addr, router: ra.router });
    match st {
        Dhcp6State::Done(Dhcp6Outcome::Bound(lease)) => {
            assert_eq!(lease.address, addr);
            assert_eq!(lease.server_id, server_id);
            assert_eq!(lease.t1, 3600);
            assert_eq!(lease.t2, 7200);
            assert_eq!(lease.preferred, 3000);
            assert_eq!(lease.valid, 5000);
        }
        other => panic!("exchange did not bind: {:?}", other),
    }
}

#[test]
fn dhcp_retries_then_fails() {
    assert_eq!(retry_backoff_ms(0), 250);
    assert_eq!(retry_backoff_ms(1), 500);
    assert_eq!(retry_backoff_ms(2), 1000);
    let mut st = Dhcp6State::AwaitRa { retries_left: 3 };
    for _ in 0..3 {
        let (next, act) = dhcp6_step(st, false, Dhcp6Event::Timeout);
        assert_eq!(act, Dhcp6Action::SendRouterSolicitation);
        st = next;
    }
    let (st, act) = dhcp6_step(st, false, Dhcp6Event::Timeout);
    assert_eq!(st, Dhcp6State::Done(Dhcp6Outcome::LeaseAcquisitionFailed));
    assert_eq!(act, Dhcp6Action::Wait);
}

#[test]
fn neighbour_solicitation_checksum_matches_reference() {
    let src: u128 = 0xfe80_0000_0000_0000_5054_00ff_fe12_3456;
    let target: u128 = 0x2001_0db8_0000_0000_0000_0000_0000_0001;
    let frame = build_neighbour_solicitation(&MAC, src, target);

    let eth = EthernetPacket::new(&frame).unwrap();
    assert_eq!(eth.get_ethertype(), EtherTypes::Ipv6);
    assert_eq!(eth.get_source().octets(), MAC);
    let ip = Ipv6Packet::new(eth.payload()).unwrap();
    assert_eq!(ip.get_version(), 6);
    assert_eq!(ip.get_hop_limit(), 255);
    assert_eq!(u128::from(ip.get_source()), src);
    assert_eq!(u128::from(ip.get_destination()), target);
    let icmp = Icmpv6Packet::new(ip.payload()).unwrap();
    assert_eq!(icmp.get_icmpv6_type().0, 135);
    let reference =
        pnet::packet::icmpv6::checksum(&icmp, &ip.get_source(), &ip.get_destination());
    assert_eq!(icmp.get_checksum(), reference);
}

#[test]
fn router_solicitation_checksum_matches_reference() {
    let frame = build_router_solicitation(&MAC);
    let eth = EthernetPacket::new(&frame).unwrap();
    let ip = Ipv6Packet::new(eth.payload()).unwrap();
    let icmp = Icmpv6Packet::new(ip.payload()).unwrap();
    assert_eq!(icmp.get_icmpv6_type().0, 133);
    let reference =
        pnet::packet::icmpv6::checksum(&icmp, &ip.get_source(), &ip.get_destination());
    assert_eq!(icmp.get_checksum(), reference);
}

#[test]
fn checksum_of_empty_is_all_ones() {
    assert_eq!(internet_checksum(&Vec::new()), 0xffff);
}

#[test]
fn router_advert_parsing() {
    // a minimal RA frame: managed + other-config flags set
    let mut frame = vec![0u8; 64];
    frame[12] = 0x86;
    frame[13] = 0xdd;
    frame[20] = 58;
    frame[22] = 0xfe;
    frame[23] = 0x80;
    frame[37] = 0x01;
    frame[54] = 134;
    frame[59] = 0xC0;
    let info = parse_router_advert(&frame).unwrap();
    assert!(info.managed);
    assert!(info.other_config);
    assert_eq!(info.router, 0xfe80_0000_0000_0000_0000_0000_0000_0001u128);

    // the managed flag clear parses as such
    frame[59] = 0x00;
    let info = parse_router_advert(&frame).unwrap();
    assert!(!info.managed);

    // a non-RA frame is rejected
    frame[54] = 128;
    assert!(parse_router_advert(&frame).is_none());
}

#[test]
fn vmm_registry_lifecycle() {
    let mut reg = VmmRegistry::new();
    let id: u128 = 0x123456789abcdef0123456789abcdef0;
    let plan = reg.init_vmm(id, true).unwrap();
    assert_eq!(plan.api_socket_arg, "123456789abcdef0123456789abcdef0.api");
    assert!(plan.wait_for_socket);
    assert_eq!(plan.poll_attempts, 8);
    assert_eq!(plan.poll_interval_ms, 250);
    assert_eq!(reg.init_vmm(id, false), Err(ErrorKind::AlreadyExists));

    let boot = reg.boot_vm(id).unwrap();
    assert_eq!(boot.method, "PUT");
    assert_eq!(boot.endpoint, "vm.boot");
    assert!(boot.body.is_none());
    let ping = reg.ping_vmm(id).unwrap();
    assert_eq!((ping.method.as_str(), ping.endpoint.as_str()), ("GET", "vmm.ping"));
    assert_eq!(reg.boot_vm(999), Err(ErrorKind::NotFound));

    let plan = reg.delete(id).unwrap();
    assert_eq!(plan.delete_endpoint, "vm.delete");
    assert_eq!(plan.shutdown_vmm_endpoint, "vmm.shutdown");
    assert_eq!(plan.wait_deadline_ms, 5000);
    assert_eq!(
        plan.remove_files,
        vec![
            String::from("123456789abcdef0123456789abcdef0.api"),
            String::from("123456789abcdef0123456789abcdef0.console"),
        ]
    );
    assert_eq!(reg.delete(id), Err(ErrorKind::NotFound));
}

#[test]
fn vm_create_body_is_valid_json() {
    let mut reg = VmmRegistry::new();
    let id: u128 = 0xabcdef;
    reg.init_vmm(id, false).unwrap();
    let boot = BootSpec::Firmware { firmware_path: String::from("/usr/share/ch/hypervisor-fw") };
    let disks = vec![DiskAttachment { path: String::from("/images/rootfs.img"), read_only: false }];
    let req = reg.create_vm(id, 2, 536_870_912, &boot, &disks).unwrap();
    assert_eq!(req.method, "PUT");
    assert_eq!(req.endpoint, "vm.create");
    let body = req.body.unwrap();
    let v: serde_json::Value = serde_json::from_str(&body).unwrap();
    assert_eq!(v["cpus"]["boot_vcpus"], 2);
    assert_eq!(v["cpus"]["max_vcpus"], 2);
    assert_eq!(v["memory"]["size"], 536_870_912u64);
    assert_eq!(v["memory"]["shared"], true);
    assert_eq!(v["payload"]["firmware"], "/usr/share/ch/hypervisor-fw");
    assert_eq!(v["disks"][0]["path"], "/images/rootfs.img");
    assert_eq!(v["disks"][0]["readonly"], false);
    assert_eq!(v["serial"]["mode"], "Socket");
    assert_eq!(
        v["serial"]["socket"],
        "00000000000000000000000000abcdef.console"
    );

    // a path that cannot stand in JSON unescaped is rejected
    let bad = vec![DiskAttachment { path: String::from("/images/\"quoted\""), read_only: true }];
    assert_eq!(reg.create_vm(id, 2, 536_870_912, &boot, &bad), Err(ErrorKind::InvalidArgument));
}

#[test]
fn vfio_bind_line() {
    assert_eq!(vendor_device_line("8086", "10d3"), "8086 10d3");
}

#[test]
fn router_advertisement_announces_prefix() {
    let src: u128 = 0xfe80_0000_0000_0000_5054_00ff_fe12_3456;
    let prefix: u128 = 0x2001_0db8_0000_0000_0001_0000_0000_0000;
    let frame = build_router_advertisement(&MAC, src, 1500, prefix, 80);
    let eth = EthernetPacket::new(&frame).unwrap();
    let ip = Ipv6Packet::new(eth.payload()).unwrap();
    assert_eq!(
        u128::from(ip.get_destination()),
        0xff02_0000_0000_0000_0000_0000_0000_0001u128
    );
    let icmp = Icmpv6Packet::new(ip.payload()).unwrap();
    assert_eq!(icmp.get_icmpv6_type().0, 134);
    let reference =
        pnet::packet::icmpv6::checksum(&icmp, &ip.get_source(), &ip.get_destination());
    assert_eq!(icmp.get_checksum(), reference);
    // managed and other-config flags, router lifetime 1800
    let body = ip.payload();
    assert_eq!(body[5], 0xC0);
    assert_eq!(u16::from_be_bytes([body[6], body[7]]), 1800);
    // the prefix information option carries the sub-prefix
    let pio = &body[24..];
    assert_eq!(pio[0], 3);
    assert_eq!(pio[2], 80);
    assert_eq!(pio[3], 0xC0);
    assert_eq!(u32::from_be_bytes([pio[4], pio[5], pio[6], pio[7]]), 2400);
    assert_eq!(u32::from_be_bytes([pio[8], pio[9], pio[10], pio[11]]), 1200);
    assert_eq!(u128::from_be_bytes(pio[16..32].try_into().unwrap()), prefix);
    // the advertisement parses as managed on the receiving side
    let info = parse_router_advert(&frame).unwrap();
    assert!(info.managed);
    assert_eq!(info.router, src);
}

#[test]
fn ra_interval_bounds() {
    assert_eq!(ra_retransmit_interval_s(1800), 300);
    assert_eq!(ra_retransmit_interval_s(600), 100);
    assert_eq!(ra_retransmit_interval_s(60000), 300);
}

#[test]
fn mac_parsing() {
    assert_eq!(
        parse_mac(b"52:54:00:12:34:56"),
        Some(vec![0x52, 0x54, 0x00, 0x12, 0x34, 0x56])
    );
    assert_eq!(
        parse_mac(b"AA:bb:Cc:dD:0e:F0"),
        Some(vec![0xaa, 0xbb, 0xcc, 0xdd, 0x0e, 0xf0])
    );
    assert_eq!(parse_mac(b"52:54:00:12:34"), None);
    assert_eq!(parse_mac(b"52:54:00:12:34:5g"), None);
    assert_eq!(parse_mac(b"52-54-00-12-34-56"), None);
}

#[test]
fn add_net_and_add_device_bodies() {
    let mut reg = VmmRegistry::new();
    let id: u128 = 7;
    reg.init_vmm(id, false).unwrap();
    let mac = vec![0x52u8, 0x54, 0x00, 0x12, 0x34, 0x56];
    let req = reg.add_net(id, "feos-1234abcd", &mac).unwrap();
    assert_eq!(req.endpoint, "vm.add-net");
    assert_eq!(
        req.body.unwrap(),
        "{\"tap\":\"feos-1234abcd\",\"host_mac\":\"52:54:00:12:34:56\"}"
    );
    let req = reg.add_device(id, "0000:01:00.0").unwrap();
    assert_eq!(req.endpoint, "vm.add-device");
    assert_eq!(
        req.body.unwrap(),
        "{\"path\":\"/sys/bus/pci/devices/0000:01:00.0/\",\"iommu\":false,\"pci_segment\":0}"
    );
    assert_eq!(reg.add_net(9, "feos-x", &mac), Err(ErrorKind::NotFound));
    assert_eq!(
        reg.add_net(id, "feos-x", &vec![1, 2, 3]),
        Err(ErrorKind::InvalidArgument)
    );
}

#[test]
fn sysfs_paths() {
    assert_eq!(
        feos::vmm::pci_vendor_path("0000:01:00.0"),
        "/sys/bus/pci/devices/0000:01:00.0/vendor"
    );
    assert_eq!(
        feos::vmm::pci_device_path("0000:01:00.0"),
        "/sys/bus/pci/devices/0000:01:00.0/device"
    );
}

#[test]
fn create_vm_error_kinds() {
    let mut reg = VmmRegistry::new();
    let boot = BootSpec::Firmware { firmware_path: String::from("/fw") };
    let disks: Vec<DiskAttachment> = Vec::new();
    assert_eq!(reg.create_vm(5, 2, 1 << 30, &boot, &disks), Err(ErrorKind::NotFound));
    reg.init_vmm(5, false).unwrap();
    assert_eq!(reg.create_vm(5, 256, 1 << 30, &boot, &disks), Err(ErrorKind::InvalidArgument));
    assert!(reg.create_vm(5, 255, 1 << 30, &boot, &disks).is_ok());
}

#[test]
fn socket_wait_outcome() {
    assert_eq!(init_wait_result(false, false), Ok(()));
    assert_eq!(init_wait_result(false, true), Ok(()));
    assert_eq!(init_wait_result(true, true), Ok(()));
    assert_eq!(init_wait_result(true, false), Err(ErrorKind::SocketTimeout));
}

#[test]
fn ping_reply_yields_build_string() {
    let ok = b"HTTP/1.1 200 OK\r\nContent-Length: 6\r\n\r\ncloudh";
    assert_eq!(parse_ping_response(ok), Some(b"cloudh".to_vec()));
    // an empty body is no build string
    let empty = b"HTTP/1.1 204 No Content\r\n\r\n";
    assert_eq!(parse_ping_response(empty), None);
    // a failing status is rejected
    let bad = b"HTTP/1.1 500 Internal Server Error\r\n\r\noops";
    assert_eq!(parse_ping_response(bad), None);
    // a truncated reply without a header terminator is rejected
    assert_eq!(parse_ping_response(b"HTTP/1.1 200 OK\r\nContent-"), None);
    assert_eq!(parse_ping_response(b"HTTP"), None);
}
