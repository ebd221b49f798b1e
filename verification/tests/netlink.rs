use bpftop::bpf_attachment::{
    get_prog_attachments, link_attachments, link_type_as_str, match_filter, tc_filters, tc_queries,
    uses_tc, BpfAttachment, Detail, LinkInfo, LinkTypeInfo,
};
use bpftop::netlink::{
    filter_dump_request, interfaces, link_dump_request, Direction, DumpReader, Interface,
    NetlinkError, TcAttributeInfo, TcOptionInfo, DUMP_SEQUENCE, NLM_F_DUMP, NLM_F_REQUEST,
    TCA_BPF_FLAG_ACT_DIRECT, TC_H_CLSACT, TC_H_MIN_EGRESS, TC_H_MIN_INGRESS,
};
use bpftop::pid_iter::ByteOrder;
use netlink_packet_core::{
    DoneMessage, NetlinkHeader, NetlinkMessage, NetlinkPayload, NLM_F_MULTIPART,
};
use netlink_packet_route::link::{LinkAttribute, LinkMessage};
use netlink_packet_route::tc::{
    TcAttribute, TcBpfFlags, TcFilterBpfOption, TcHandle, TcMessage, TcOption,
};
use netlink_packet_route::{AddressFamily, RouteNetlinkMessage};

fn packet(payload: NetlinkPayload<RouteNetlinkMessage>, flags: u16) -> Vec<u8> {
    let mut message = NetlinkMessage::new(NetlinkHeader::default(), payload);
    message.header.flags = flags;
    message.header.sequence_number = 1;
    message.finalize();
    let mut bytes = vec![0; message.buffer_len()];
    message.serialize(&mut bytes[..]);
    bytes
}

fn new_link(index: u32, name: Option<&str>, flags: u16) -> Vec<u8> {
    let mut link = LinkMessage::default();
    link.header.index = index;
    link.attributes.push(LinkAttribute::Mtu(1500));
    if let Some(name) = name {
        link.attributes.push(LinkAttribute::IfName(name.to_string()));
    }
    packet(NetlinkPayload::from(RouteNetlinkMessage::NewLink(link)), flags)
}

fn new_filter(kind: &str, options: Vec<TcOption>, flags: u16) -> Vec<u8> {
    let mut filter = TcMessage::default();
    filter.header.index = 5;
    filter.attributes.push(TcAttribute::Kind(kind.to_string()));
    filter.attributes.push(TcAttribute::Chain(0));
    filter.attributes.push(TcAttribute::Options(options));
    packet(NetlinkPayload::from(RouteNetlinkMessage::NewTrafficFilter(filter)), flags)
}

fn done(flags: u16) -> Vec<u8> {
    packet(NetlinkPayload::Done(DoneMessage::default()), flags)
}

fn noop(flags: u16) -> Vec<u8> {
    packet(NetlinkPayload::Noop, flags)
}

/// The byte order of this machine, in which the kernel writes its headers.
fn native() -> ByteOrder {
    if u32::from_ne_bytes([1, 0, 0, 0]) == 1 {
        ByteOrder::Little
    } else {
        ByteOrder::Big
    }
}

/// The other byte order.
fn foreign() -> ByteOrder {
    match native() {
        ByteOrder::Little => ByteOrder::Big,
        ByteOrder::Big => ByteOrder::Little,
    }
}

fn eth0() -> Interface {
    Interface { index: 5, name: "eth0".to_string() }
}

#[test]
fn test_link_dump_request_is_a_flagged_get_link() {
    let bytes = link_dump_request();
    let message = NetlinkMessage::<RouteNetlinkMessage>::deserialize(&bytes).unwrap();
    assert_eq!(message.header.flags, NLM_F_DUMP | NLM_F_REQUEST);
    assert_eq!(message.header.flags, 0x301);
    assert_eq!(message.header.sequence_number, DUMP_SEQUENCE);
    assert_eq!(message.header.length as usize, bytes.len());
    assert_eq!(
        message.payload,
        NetlinkPayload::InnerMessage(RouteNetlinkMessage::GetLink(LinkMessage::default()))
    );
}

#[test]
fn test_filter_dump_request_names_interface_and_handle() {
    for (direction, minor) in [(Direction::Ingress, TC_H_MIN_INGRESS), (Direction::Egress, TC_H_MIN_EGRESS)] {
        let bytes = filter_dump_request(7, direction);
        let message = NetlinkMessage::<RouteNetlinkMessage>::deserialize(&bytes).unwrap();
        assert_eq!(message.header.flags, NLM_F_DUMP | NLM_F_REQUEST);
        assert_eq!(message.header.sequence_number, 1);
        assert_eq!(message.header.length as usize, bytes.len());
        let NetlinkPayload::InnerMessage(RouteNetlinkMessage::GetTrafficFilter(filter)) = message.payload else {
            panic!("not a request for filters");
        };
        assert_eq!(filter.header.family, AddressFamily::Unspec);
        assert_eq!(filter.header.index, 7);
        assert_eq!(filter.header.parent, TcHandle { major: TC_H_CLSACT, minor });
        assert!(filter.attributes.is_empty());
    }
    assert_eq!(TC_H_MIN_INGRESS, TcHandle::MIN_INGRESS);
    assert_eq!(TC_H_MIN_EGRESS, TcHandle::MIN_EGRESS);
    assert_eq!(TC_H_CLSACT, u16::MAX);
    assert_eq!(TCA_BPF_FLAG_ACT_DIRECT, TcBpfFlags::DirectAction.bits());
}

#[test]
fn test_reader_collects_the_messages_of_a_datagram() {
    let first = new_link(1, Some("lo"), NLM_F_MULTIPART);
    let second = new_link(2, Some("eth0"), NLM_F_MULTIPART);
    let mut datagram = first.clone();
    datagram.extend_from_slice(&second);

    let mut reader = DumpReader::new();
    assert_eq!(reader.absorb(&datagram, native()), Ok(true));
    assert_eq!(reader.messages, vec![first, second]);
    assert!(!reader.done);
}

#[test]
fn test_reader_stops_at_done() {
    let link = new_link(1, Some("lo"), NLM_F_MULTIPART);
    let mut datagram = link.clone();
    datagram.extend_from_slice(&done(NLM_F_MULTIPART));
    datagram.extend_from_slice(&new_link(2, Some("never"), NLM_F_MULTIPART));

    let mut reader = DumpReader::new();
    assert_eq!(reader.absorb(&datagram, native()), Ok(false));
    assert_eq!(reader.messages, vec![link]);
    assert!(reader.done);
}

#[test]
fn test_reader_goes_on_over_several_datagrams() {
    let a = new_link(1, Some("a"), NLM_F_MULTIPART);
    let b = new_link(2, Some("b"), NLM_F_MULTIPART);
    let mut reader = DumpReader::new();
    assert_eq!(reader.absorb(&a, native()), Ok(true));
    assert_eq!(reader.absorb(&b, native()), Ok(true));
    assert_eq!(reader.absorb(&done(NLM_F_MULTIPART), native()), Ok(false));
    assert_eq!(reader.messages, vec![a, b]);
    assert!(reader.done);
}

#[test]
fn test_reader_goes_on_until_done_whatever_the_flags() {
    // A message that is not marked as one part of several does not end the
    // dump: only the message that ends it does.
    let only = new_link(1, Some("a"), 0);
    let mut reader = DumpReader::new();
    assert_eq!(reader.absorb(&only, native()), Ok(true));
    assert_eq!(reader.messages, vec![only.clone()]);
    assert!(!reader.done);

    let mut datagram = new_link(2, Some("b"), NLM_F_MULTIPART);
    datagram.extend_from_slice(&new_link(3, Some("c"), 0));
    assert_eq!(reader.absorb(&datagram, native()), Ok(true));
    assert_eq!(reader.messages.len(), 3);

    assert_eq!(reader.absorb(&done(0), native()), Ok(false));
    assert!(reader.done);
}

#[test]
fn test_reader_passes_over_other_messages() {
    let link = new_link(1, Some("a"), NLM_F_MULTIPART);
    let mut datagram = noop(NLM_F_MULTIPART);
    datagram.extend_from_slice(&link);
    let mut reader = DumpReader::new();
    assert_eq!(reader.absorb(&datagram, native()), Ok(true));
    assert_eq!(reader.messages, vec![link]);
}

#[test]
fn test_reader_of_an_empty_datagram() {
    let mut reader = DumpReader::new();
    assert_eq!(reader.absorb(&[], native()), Ok(true));
    assert!(reader.messages.is_empty());
    assert!(!reader.done);
}

#[test]
fn test_reader_stops_reading_at_a_header_of_length_zero() {
    // A header that gives the length zero ends the reading of its datagram
    // and fails nothing.
    let mut reader = DumpReader::new();
    assert_eq!(reader.absorb(&[0u8; 16], native()), Ok(true));
    assert!(reader.messages.is_empty());

    // What stands before it counts, what stands behind it does not.
    let link = new_link(1, Some("a"), NLM_F_MULTIPART);
    let mut datagram = link.clone();
    datagram.extend_from_slice(&[0u8; 16]);
    datagram.extend_from_slice(&done(NLM_F_MULTIPART));
    assert_eq!(reader.absorb(&datagram, native()), Ok(true));
    assert_eq!(reader.messages, vec![link]);
    assert!(!reader.done);

    // Four bytes are enough to tell.
    assert_eq!(reader.absorb(&[0u8; 4], native()), Ok(true));
    assert_eq!(reader.messages.len(), 1);
}

#[test]
fn test_reader_fails_on_bytes_that_are_no_message() {
    let link = new_link(1, Some("a"), NLM_F_MULTIPART);
    let mut reader = DumpReader::new();
    assert_eq!(reader.absorb(&link, native()), Ok(true));

    // A good message followed by a cut one: nothing of the datagram counts.
    let mut datagram = new_link(2, Some("b"), NLM_F_MULTIPART);
    datagram.extend_from_slice(&[1, 2, 3]);
    assert_eq!(reader.absorb(&datagram, native()), Err(NetlinkError::Decode));
    assert_eq!(reader.messages, vec![link]);
    assert!(!reader.done);

    // A header that gives a length below that of a header is no message.
    let mut short = [0u8; 16];
    short[..4].copy_from_slice(&8u32.to_ne_bytes());
    assert_eq!(reader.absorb(&short, native()), Err(NetlinkError::Decode));
}

#[test]
fn test_reader_reads_the_lengths_in_the_order_given() {
    let first = new_link(1, Some("lo"), NLM_F_MULTIPART);
    let second = new_link(2, Some("eth0"), NLM_F_MULTIPART);
    let mut datagram = first.clone();
    datagram.extend_from_slice(&second);

    // Read the other way round the first length is beyond the datagram:
    // the first message runs to its end.
    let mut reader = DumpReader::new();
    assert_eq!(reader.absorb(&datagram, foreign()), Ok(true));
    assert_eq!(reader.messages, vec![datagram.clone()]);

    let mut reader = DumpReader::new();
    assert_eq!(reader.absorb(&datagram, native()), Ok(true));
    assert_eq!(reader.messages, vec![first, second]);
}

#[test]
fn test_interfaces_of_a_dump() {
    let messages = vec![
        new_link(1, Some("lo"), NLM_F_MULTIPART),
        new_filter("bpf", vec![], NLM_F_MULTIPART),
        new_link(7, None, NLM_F_MULTIPART),
        new_link(u32::MAX, Some("odd"), NLM_F_MULTIPART),
    ];
    assert_eq!(
        interfaces(&messages),
        vec![
            Interface { index: 1, name: "lo".to_string() },
            Interface { index: 7, name: String::new() },
            Interface { index: -1, name: "odd".to_string() },
        ]
    );
    assert!(interfaces(&vec![]).is_empty());
    assert!(interfaces(&vec![vec![1, 2, 3]]).is_empty());
}

#[test]
fn test_tc_filters_of_a_program() {
    let messages = vec![
        // The program's filter, acting directly.
        new_filter(
            "bpf",
            vec![
                TcOption::Bpf(TcFilterBpfOption::ProgName("parse".to_string())),
                TcOption::Bpf(TcFilterBpfOption::Flags(TcBpfFlags::DirectAction)),
                TcOption::Bpf(TcFilterBpfOption::ProgId(39)),
            ],
            NLM_F_MULTIPART,
        ),
        // Another program's filter.
        new_filter("bpf", vec![TcOption::Bpf(TcFilterBpfOption::ProgId(40))], NLM_F_MULTIPART),
        // The program's filter, not acting directly.
        new_filter("bpf", vec![TcOption::Bpf(TcFilterBpfOption::ProgId(39))], NLM_F_MULTIPART),
        // No filter at all.
        new_link(5, Some("eth0"), NLM_F_MULTIPART),
    ];
    assert_eq!(
        tc_filters(39, &eth0(), Direction::Egress, &messages),
        vec![
            BpfAttachment::TcFilter {
                ifindex: 5,
                ifname: "eth0".to_string(),
                direction: Direction::Egress,
                direct_action: true,
            },
            BpfAttachment::TcFilter {
                ifindex: 5,
                ifname: "eth0".to_string(),
                direction: Direction::Egress,
                direct_action: false,
            },
        ]
    );
    assert_eq!(tc_filters(41, &eth0(), Direction::Ingress, &messages), vec![]);
}

#[test]
fn test_match_filter() {
    let kind = |k: &str| TcAttributeInfo::Kind(k.to_string());
    let direct = TcOptionInfo::Flags(TCA_BPF_FLAG_ACT_DIRECT | 4);
    let indirect = TcOptionInfo::Flags(6);

    // Not of the kind bpf.
    let attributes = vec![kind("u32"), TcAttributeInfo::Options(vec![TcOptionInfo::ProgId(1)])];
    assert_eq!(match_filter(&attributes, 1), None);
    // No kind at all.
    let attributes = vec![TcAttributeInfo::Options(vec![TcOptionInfo::ProgId(1)])];
    assert_eq!(match_filter(&attributes, 1), None);
    // No options that name the program.
    let attributes = vec![kind("bpf"), TcAttributeInfo::Options(vec![TcOptionInfo::ProgId(2), direct])];
    assert_eq!(match_filter(&attributes, 1), None);
    // The flags of the options that name the program count.
    let attributes = vec![
        TcAttributeInfo::Options(vec![TcOptionInfo::ProgId(2), direct]),
        TcAttributeInfo::Other,
        TcAttributeInfo::Options(vec![indirect, TcOptionInfo::Other, TcOptionInfo::ProgId(1)]),
        TcAttributeInfo::Options(vec![TcOptionInfo::ProgId(1), direct]),
        kind("bpf"),
    ];
    assert_eq!(match_filter(&attributes, 1), Some(false));
    assert_eq!(match_filter(&attributes, 2), Some(true));
    assert_eq!(match_filter(&vec![], 1), None);
}

#[test]
fn test_tc_queries_ask_both_directions_of_each_interface() {
    let interfaces = vec![
        Interface { index: 1, name: "lo".to_string() },
        Interface { index: 2, name: "eth0".to_string() },
    ];
    let queries = tc_queries(&interfaces);
    assert_eq!(queries.len(), 4);
    let asked: Vec<(i32, &str, Direction)> =
        queries.iter().map(|q| (q.interface.index, q.interface.name.as_str(), q.direction)).collect();
    assert_eq!(
        asked,
        vec![
            (1, "lo", Direction::Ingress),
            (1, "lo", Direction::Egress),
            (2, "eth0", Direction::Ingress),
            (2, "eth0", Direction::Egress),
        ]
    );
    assert_eq!(queries[0].request, filter_dump_request(1, Direction::Ingress));
    assert_eq!(queries[3].request, filter_dump_request(2, Direction::Egress));
    assert!(tc_queries(&vec![]).is_empty());
}

#[test]
fn test_uses_tc() {
    assert!(uses_tc("SchedCls"));
    assert!(uses_tc("SchedAct"));
    assert!(!uses_tc("Xdp"));
    assert!(!uses_tc("schedcls"));
    assert!(!uses_tc(""));
}

fn links() -> Vec<LinkInfo> {
    vec![
        LinkInfo { info: LinkTypeInfo::Iter, id: 10, prog_id: 1 },
        LinkInfo { info: LinkTypeInfo::RawTracepoint { name: "sys_enter".to_string() }, id: 11, prog_id: 2 },
        LinkInfo { info: LinkTypeInfo::Xdp, id: 12, prog_id: 1 },
    ]
}

#[test]
fn test_link_attachments_keep_the_links_of_the_program() {
    assert_eq!(
        link_attachments(1, links()),
        vec![
            BpfAttachment::BpfLink(LinkInfo { info: LinkTypeInfo::Iter, id: 10, prog_id: 1 }),
            BpfAttachment::BpfLink(LinkInfo { info: LinkTypeInfo::Xdp, id: 12, prog_id: 1 }),
        ]
    );
    assert_eq!(link_attachments(3, links()), vec![]);
    assert_eq!(link_attachments(3, vec![]), vec![]);
}

#[test]
fn test_get_prog_attachments() {
    let filter = || BpfAttachment::TcFilter {
        ifindex: 5,
        ifname: "eth0".to_string(),
        direction: Direction::Ingress,
        direct_action: true,
    };
    let found = get_prog_attachments(2, "SchedCls", links(), vec![filter()]);
    assert_eq!(found.len(), 2);
    assert!(matches!(found[0], BpfAttachment::BpfLink(LinkInfo { id: 11, .. })));
    assert_eq!(found[1], filter());

    let found = get_prog_attachments(2, "Kprobe", links(), vec![filter()]);
    assert_eq!(found.len(), 1);
    assert!(matches!(found[0], BpfAttachment::BpfLink(LinkInfo { id: 11, .. })));
}

#[test]
fn test_render_links() {
    let link = |info| BpfAttachment::BpfLink(LinkInfo { info, id: 3, prog_id: 9 });
    assert_eq!(
        link(LinkTypeInfo::RawTracepoint { name: "sched_switch".to_string() }).render(),
        vec![
            Detail::LinkId { id: 3, category: "RawTracepoint" },
            Detail::Hook("sched_switch".to_string()),
        ]
    );
    assert_eq!(
        link(LinkTypeInfo::Tracing { attach_type: "TraceFentry".to_string() }).render(),
        vec![
            Detail::LinkId { id: 3, category: "Tracing" },
            Detail::AttachType("TraceFentry".to_string()),
        ]
    );
    assert_eq!(
        link(LinkTypeInfo::Cgroup { cgroup_id: 77, attach_type: "CgroupInetIngress".to_string() }).render(),
        vec![
            Detail::LinkId { id: 3, category: "Cgroup" },
            Detail::AttachType("CgroupInetIngress".to_string()),
            Detail::CgroupId(77),
        ]
    );
    assert_eq!(
        link(LinkTypeInfo::NetNs { ino: 4026531840, attach_type: "FlowDissector".to_string() }).render(),
        vec![
            Detail::LinkId { id: 3, category: "NetNs" },
            Detail::AttachType("FlowDissector".to_string()),
            Detail::Inode(4026531840),
        ]
    );
    assert_eq!(link(LinkTypeInfo::Iter).render(), vec![Detail::LinkId { id: 3, category: "Iter" }]);
    assert_eq!(link(LinkTypeInfo::Unknown).render(), vec![Detail::LinkId { id: 3, category: "Unknown" }]);
}

#[test]
fn test_render_filter() {
    let filter = BpfAttachment::TcFilter {
        ifindex: 2,
        ifname: "eth0".to_string(),
        direction: Direction::Ingress,
        direct_action: true,
    };
    assert_eq!(
        filter.render(),
        vec![
            Detail::TcFilter,
            Detail::Interface { name: "eth0".to_string(), index: 2 },
            Detail::Direction(Direction::Ingress),
            Detail::DirectAction(true),
        ]
    );
}

#[test]
fn test_link_type_names() {
    assert_eq!(link_type_as_str(&LinkTypeInfo::KprobeMulti), "KprobeMulti");
    assert_eq!(link_type_as_str(&LinkTypeInfo::Tcx), "Tcx");
    assert_eq!(link_type_as_str(&LinkTypeInfo::PerfEvent), "PerfEvent");
    assert_eq!(link_type_as_str(&LinkTypeInfo::Cgroup { cgroup_id: 1, attach_type: String::new() }), "Cgroup");
}
