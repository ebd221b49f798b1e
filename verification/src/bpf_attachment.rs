use crate::helpers::{program_type_as_str, program_type_name, ProgramType};
use crate::netlink::{
    attribute_views, decode_filter, filter_dump_request, filter_of, filter_request_bytes,
    direction_minor, message_views, Direction, Interface, TcAttributeInfo, TcAttributeView,
    TcOptionInfo, DUMP_SEQUENCE, NLM_F_DUMP, NLM_F_REQUEST, TCA_BPF_FLAG_ACT_DIRECT, TC_H_CLSACT,
};
use crate::text::str_eq;
use vstd::prelude::*;

verus! {

/// What is known of a BPF link, by its category.
#[derive(Debug, PartialEq, Eq)]
pub enum LinkTypeInfo {
    /// A link to a raw tracepoint, with the tracepoint's name.
    RawTracepoint { name: String },
    /// A tracing link, with the name of its attach type.
    Tracing { attach_type: String },
    /// A link to a cgroup, with the cgroup's id and the name of the attach
    /// type.
    Cgroup { cgroup_id: u64, attach_type: String },
    /// An iterator link.
    Iter,
    /// A link to a network namespace, with the namespace's inode and the
    /// name of the attach type.
    NetNs { ino: u32, attach_type: String },
    Xdp,
    StructOps,
    Netfilter,
    KprobeMulti,
    UprobeMulti,
    Tcx,
    Netkit,
    SockMap,
    PerfEvent,
    Unknown,
}

/// A BPF link: its id, the program it attaches, and what is known of it.
#[derive(Debug, PartialEq, Eq)]
pub struct LinkInfo {
    pub info: LinkTypeInfo,
    pub id: u32,
    pub prog_id: u32,
}

/// One place where a program is attached.
///
/// How much is known depends on how the program was attached: through a
/// BPF link, or as a traffic-control filter on a `clsact` qdisc.
#[derive(Debug, PartialEq, Eq)]
pub enum BpfAttachment {
    BpfLink(LinkInfo),
    TcFilter { ifindex: i32, ifname: String, direction: Direction, direct_action: bool },
}

/// One line of what is shown of an attachment.
#[derive(Debug, PartialEq, Eq)]
pub enum Detail {
    /// The id of a link and the name of its category.
    LinkId { id: u32, category: &'static str },
    /// The tracepoint that a raw-tracepoint link hooks.
    Hook(String),
    /// The name of a link's attach type.
    AttachType(String),
    /// The id of the cgroup of a cgroup link.
    CgroupId(u64),
    /// The inode of the namespace of a network-namespace link.
    Inode(u32),
    /// The heading of a traffic-control filter.
    TcFilter,
    /// The interface of a traffic-control filter.
    Interface { name: String, index: i32 },
    /// The direction of a traffic-control filter.
    Direction(Direction),
    /// Whether a traffic-control filter acts directly.
    DirectAction(bool),
}

/// The name of a link's category.
pub open spec fn link_type_name(info: LinkTypeInfo) -> Seq<char> {
    match info {
        LinkTypeInfo::RawTracepoint { .. } => "RawTracepoint"@,
        LinkTypeInfo::Tracing { .. } => "Tracing"@,
        LinkTypeInfo::Cgroup { .. } => "Cgroup"@,
        LinkTypeInfo::Iter => "Iter"@,
        LinkTypeInfo::NetNs { .. } => "NetNs"@,
        LinkTypeInfo::Xdp => "Xdp"@,
        LinkTypeInfo::StructOps => "StructOps"@,
        LinkTypeInfo::Netfilter => "Netfilter"@,
        LinkTypeInfo::KprobeMulti => "KprobeMulti"@,
        LinkTypeInfo::UprobeMulti => "UprobeMulti"@,
        LinkTypeInfo::Tcx => "Tcx"@,
        LinkTypeInfo::Netkit => "Netkit"@,
        LinkTypeInfo::SockMap => "SockMap"@,
        LinkTypeInfo::PerfEvent => "PerfEvent"@,
        LinkTypeInfo::Unknown => "Unknown"@,
    }
}

/// The name of a link's category.
pub fn link_type_as_str(info: &LinkTypeInfo) -> (r: &'static str)
    ensures
        r@ == link_type_name(*info),
{
    match info {
        LinkTypeInfo::RawTracepoint { .. } => "RawTracepoint",
        LinkTypeInfo::Tracing { .. } => "Tracing",
        LinkTypeInfo::Cgroup { .. } => "Cgroup",
        LinkTypeInfo::Iter => "Iter",
        LinkTypeInfo::NetNs { .. } => "NetNs",
        LinkTypeInfo::Xdp => "Xdp",
        LinkTypeInfo::StructOps => "StructOps",
        LinkTypeInfo::Netfilter => "Netfilter",
        LinkTypeInfo::KprobeMulti => "KprobeMulti",
        LinkTypeInfo::UprobeMulti => "UprobeMulti",
        LinkTypeInfo::Tcx => "Tcx",
        LinkTypeInfo::Netkit => "Netkit",
        LinkTypeInfo::SockMap => "SockMap",
        LinkTypeInfo::PerfEvent => "PerfEvent",
        LinkTypeInfo::Unknown => "Unknown",
    }
}

/// The lines that tell of a link's category, below the line with its id.
pub open spec fn link_details(info: LinkTypeInfo) -> Seq<Detail> {
    match info {
        LinkTypeInfo::RawTracepoint { name } => seq![Detail::Hook(name)],
        LinkTypeInfo::Tracing { attach_type } => seq![Detail::AttachType(attach_type)],
        LinkTypeInfo::Cgroup { cgroup_id, attach_type } => seq![
            Detail::AttachType(attach_type),
            Detail::CgroupId(cgroup_id),
        ],
        LinkTypeInfo::NetNs { ino, attach_type } => seq![
            Detail::AttachType(attach_type),
            Detail::Inode(ino),
        ],
        _ => Seq::empty(),
    }
}

/// What the first line of a link shows: its id and its category's name.
pub open spec fn is_link_heading(detail: Detail, link: LinkInfo) -> bool {
    match detail {
        Detail::LinkId { id, category } => id == link.id && category@ == link_type_name(link.info),
        _ => false,
    }
}

/// The lines that tell of a traffic-control filter.
pub open spec fn filter_details(
    ifindex: i32,
    ifname: String,
    direction: Direction,
    direct_action: bool,
) -> Seq<Detail> {
    seq![
        Detail::TcFilter,
        Detail::Interface { name: ifname, index: ifindex },
        Detail::Direction(direction),
        Detail::DirectAction(direct_action),
    ]
}

impl BpfAttachment {
    /// The lines that tell of the attachment, from the top: for a link its
    /// id and category, then what is known of that category; for a filter
    /// a heading, the interface, the direction, and whether it acts
    /// directly.
    pub fn render(self) -> (lines: Vec<Detail>)
        ensures
            match self {
                BpfAttachment::BpfLink(link) => {
                    &&& lines@.len() == 1 + link_details(link.info).len()
                    &&& is_link_heading(lines@[0], link)
                    &&& lines@.subrange(1, lines@.len() as int) == link_details(link.info)
                },
                BpfAttachment::TcFilter { ifindex, ifname, direction, direct_action } => lines@
                    == filter_details(ifindex, ifname, direction, direct_action),
            },
    {
        let mut lines: Vec<Detail> = Vec::new();
        match self {
            BpfAttachment::BpfLink(link) => {
                lines.push(Detail::LinkId { id: link.id, category: link_type_as_str(&link.info) });
                match link.info {
                    LinkTypeInfo::RawTracepoint { name } => {
                        lines.push(Detail::Hook(name));
                    },
                    LinkTypeInfo::Tracing { attach_type } => {
                        lines.push(Detail::AttachType(attach_type));
                    },
                    LinkTypeInfo::Cgroup { cgroup_id, attach_type } => {
                        lines.push(Detail::AttachType(attach_type));
                        lines.push(Detail::CgroupId(cgroup_id));
                    },
                    LinkTypeInfo::NetNs { ino, attach_type } => {
                        lines.push(Detail::AttachType(attach_type));
                        lines.push(Detail::Inode(ino));
                    },
                    _ => {},
                }
            },
            BpfAttachment::TcFilter { ifindex, ifname, direction, direct_action } => {
                lines.push(Detail::TcFilter);
                lines.push(Detail::Interface { name: ifname, index: ifindex });
                lines.push(Detail::Direction(direction));
                lines.push(Detail::DirectAction(direct_action));
            },
        }
        lines
    }
}

/// The attachments of a program through BPF links: one for each link
/// that attaches the program, in the order of the links.
pub open spec fn links_of(prog_id: u32, links: Seq<LinkInfo>) -> Seq<BpfAttachment>
    decreases links.len(),
{
    if links.len() == 0 {
        Seq::empty()
    } else {
        let front = links_of(prog_id, links.drop_last());
        if links.last().prog_id == prog_id {
            front.push(BpfAttachment::BpfLink(links.last()))
        } else {
            front
        }
    }
}

/// Picks the links that attach the program.
pub fn link_attachments(prog_id: u32, links: Vec<LinkInfo>) -> (r: Vec<BpfAttachment>)
    ensures
        r@ == links_of(prog_id, links@),
{
    let ghost all = links@;
    let mut links = links;
    let mut kept: Vec<BpfAttachment> = Vec::new();
    // The links are taken from the back, so what is kept is turned round
    // at the end.
    let mut back: Vec<BpfAttachment> = Vec::new();
    while links.len() > 0
        invariant
            links.len() <= all.len(),
            links@ == all.subrange(0, links.len() as int),
            links_of(prog_id, all) == links_of(prog_id, links@) + back@.reverse(),
        decreases links.len(),
    {
        let ghost held = back@;
        let link = links.pop().unwrap();
        if link.prog_id == prog_id {
            back.push(BpfAttachment::BpfLink(link));
            assert(links_of(prog_id, links@).push(BpfAttachment::BpfLink(link)) + held.reverse()
                =~= links_of(prog_id, links@) + back@.reverse());
        }
    }
    while back.len() > 0
        invariant
            links_of(prog_id, all) == kept@ + back@.reverse(),
        decreases back.len(),
    {
        let attachment = back.pop().unwrap();
        kept.push(attachment);
    }
    kept
}

/// Whether programs of this type may hang on an interface as
/// traffic-control filters: the classifiers and the actions do.
pub open spec fn tc_type(prog_type: Seq<char>) -> bool {
    prog_type == program_type_name(ProgramType::SchedCls) || prog_type == program_type_name(
        ProgramType::SchedAct,
    )
}

/// Whether the filters of the interfaces are to be asked for a program of
/// this type.
pub fn uses_tc(prog_type: &str) -> (r: bool)
    ensures
        r == tc_type(prog_type@),
{
    str_eq(prog_type, program_type_as_str(ProgramType::SchedCls)) || str_eq(
        prog_type,
        program_type_as_str(ProgramType::SchedAct),
    )
}

/// Whether the filter is of the kind `bpf`.
pub open spec fn is_bpf(attributes: Seq<TcAttributeView>) -> bool {
    exists|i: int|
        0 <= i < attributes.len() && #[trigger] attributes[i] == TcAttributeView::Kind("bpf"@)
}

/// Whether the options name the program.
pub open spec fn names_program(options: Seq<TcOptionInfo>, prog_id: u32) -> bool {
    options.contains(TcOptionInfo::ProgId(prog_id))
}

/// Whether the attribute holds options that name the program.
pub open spec fn holds_program(attribute: TcAttributeView, prog_id: u32) -> bool {
    match attribute {
        TcAttributeView::Options(options) => names_program(options, prog_id),
        _ => false,
    }
}

/// The first options among the attributes, from `from` on, that name the
/// program.
pub open spec fn program_options(attributes: Seq<TcAttributeView>, prog_id: u32, from: int) -> Option<
    Seq<TcOptionInfo>,
>
    decreases attributes.len() - from,
{
    if from < 0 || from >= attributes.len() {
        None
    } else if holds_program(attributes[from], prog_id) {
        Some(attributes[from]->Options_0)
    } else {
        program_options(attributes, prog_id, from + 1)
    }
}

/// Whether the option is a set of flags with the flag for direct action.
pub open spec fn flags_direct(option: TcOptionInfo) -> bool {
    match option {
        TcOptionInfo::Flags(flags) => flags & TCA_BPF_FLAG_ACT_DIRECT == TCA_BPF_FLAG_ACT_DIRECT,
        _ => false,
    }
}

/// Whether the options say that the filter acts directly.
pub open spec fn direct_action(options: Seq<TcOptionInfo>) -> bool {
    exists|j: int| 0 <= j < options.len() && flags_direct(#[trigger] options[j])
}

/// What a filter with these attributes is to the program: nothing, where
/// it is not of the kind `bpf` or none of its options names the program;
/// else a filter of the program, acting directly or not as the options
/// that name the program say.
pub open spec fn filter_match(attributes: Seq<TcAttributeView>, prog_id: u32) -> Option<bool> {
    if is_bpf(attributes) {
        match program_options(attributes, prog_id, 0) {
            Some(options) => Some(direct_action(options)),
            None => None,
        }
    } else {
        None
    }
}

/// Whether one of the attributes gives the kind `bpf`.
fn has_bpf_kind(attributes: &Vec<TcAttributeInfo>) -> (r: bool)
    ensures
        r == is_bpf(attribute_views(attributes@)),
{
    let mut i: usize = 0;
    while i < attributes.len()
        invariant
            i <= attributes.len(),
            forall|k: int|
                0 <= k < i ==> #[trigger] attribute_views(attributes@)[k] != TcAttributeView::Kind(
                    "bpf"@,
                ),
        decreases attributes.len() - i,
    {
        assert(attribute_views(attributes@)[i as int] == attributes[i as int]@);
        match &attributes[i] {
            TcAttributeInfo::Kind(kind) => {
                if str_eq(kind.as_str(), "bpf") {
                    return true;
                }
            },
            _ => {},
        }
        i += 1;
    }
    false
}

/// Whether one of the options names the program.
fn options_name(options: &Vec<TcOptionInfo>, prog_id: u32) -> (r: bool)
    ensures
        r == names_program(options@, prog_id),
{
    let mut j: usize = 0;
    while j < options.len()
        invariant
            j <= options.len(),
            forall|k: int| 0 <= k < j ==> options@[k] != TcOptionInfo::ProgId(prog_id),
        decreases options.len() - j,
    {
        match options[j] {
            TcOptionInfo::ProgId(id) => {
                if id == prog_id {
                    return true;
                }
            },
            _ => {},
        }
        j += 1;
    }
    false
}

/// Whether one of the options sets the flag for direct action.
fn options_direct(options: &Vec<TcOptionInfo>) -> (r: bool)
    ensures
        r == direct_action(options@),
{
    let mut j: usize = 0;
    while j < options.len()
        invariant
            j <= options.len(),
            forall|k: int| 0 <= k < j ==> !flags_direct(#[trigger] options@[k]),
        decreases options.len() - j,
    {
        match options[j] {
            TcOptionInfo::Flags(flags) => {
                if flags & TCA_BPF_FLAG_ACT_DIRECT == TCA_BPF_FLAG_ACT_DIRECT {
                    return true;
                }
            },
            _ => {},
        }
        j += 1;
    }
    false
}

/// What a filter with these attributes is to the program.
pub fn match_filter(attributes: &Vec<TcAttributeInfo>, prog_id: u32) -> (r: Option<bool>)
    ensures
        r == filter_match(attribute_views(attributes@), prog_id),
{
    if !has_bpf_kind(attributes) {
        return None;
    }
    let ghost all = attribute_views(attributes@);
    let mut i: usize = 0;
    while i < attributes.len()
        invariant
            i <= attributes.len(),
            all == attribute_views(attributes@),
            is_bpf(all),
            program_options(all, prog_id, 0) == program_options(all, prog_id, i as int),
        decreases attributes.len() - i,
    {
        match &attributes[i] {
            TcAttributeInfo::Options(options) => {
                if options_name(options, prog_id) {
                    return Some(options_direct(options));
                }
            },
            _ => {},
        }
        i += 1;
    }
    None
}

/// The filters of a program among the messages of a dump of one interface
/// in one direction, in the order of the messages.
pub open spec fn tc_filters_of(
    prog_id: u32,
    interface: Interface,
    direction: Direction,
    messages: Seq<Seq<u8>>,
) -> Seq<BpfAttachment>
    decreases messages.len(),
{
    if messages.len() == 0 {
        Seq::empty()
    } else {
        let front = tc_filters_of(prog_id, interface, direction, messages.drop_last());
        let found = match filter_of(messages.last()) {
            Some(attributes) => filter_match(attributes, prog_id),
            None => None,
        };
        match found {
            Some(direct_action) => front.push(
                BpfAttachment::TcFilter {
                    ifindex: interface.index,
                    ifname: interface.name,
                    direction,
                    direct_action,
                },
            ),
            None => front,
        }
    }
}

/// Picks the filters of a program out of the messages of a dump of one
/// interface in one direction.
pub fn tc_filters(
    prog_id: u32,
    interface: &Interface,
    direction: Direction,
    messages: &Vec<Vec<u8>>,
) -> (r: Vec<BpfAttachment>)
    ensures
        r@ == tc_filters_of(prog_id, *interface, direction, message_views(messages@)),
{
    let mut found: Vec<BpfAttachment> = Vec::new();
    let mut i: usize = 0;
    let ghost all = message_views(messages@);
    while i < messages.len()
        invariant
            i <= messages.len(),
            all == message_views(messages@),
            found@ == tc_filters_of(prog_id, *interface, direction, all.subrange(0, i as int)),
        decreases messages.len() - i,
    {
        let ghost upto = all.subrange(0, i + 1);
        assert(upto.drop_last() =~= all.subrange(0, i as int));
        let matched = match decode_filter(messages[i].as_slice()) {
            Some(attributes) => match_filter(&attributes, prog_id),
            None => None,
        };
        match matched {
            Some(direct_action) => {
                found.push(
                    BpfAttachment::TcFilter {
                        ifindex: interface.index,
                        ifname: interface.name.clone(),
                        direction,
                        direct_action,
                    },
                );
            },
            None => {},
        }
        i += 1;
    }
    assert(all.subrange(0, messages.len() as int) =~= all);
    found
}

/// One question to the kernel about the filters of an interface.
#[derive(Debug, PartialEq, Eq)]
pub struct TcQuery {
    pub interface: Interface,
    pub direction: Direction,
    /// The bytes of the request to send.
    pub request: Vec<u8>,
}

/// Whether the query asks for the filters of this interface in this
/// direction, with the request that asks for them.
pub open spec fn asks_for(query: TcQuery, interface: Interface, direction: Direction) -> bool {
    &&& query.interface@ == interface@
    &&& query.direction == direction
    &&& query.request@ == filter_request_bytes(
        NLM_F_DUMP | NLM_F_REQUEST,
        DUMP_SEQUENCE,
        interface.index,
        TC_H_CLSACT,
        direction_minor(direction),
    )
}

/// The questions to ask for the filters of a program: for each interface,
/// in order, one for its ingress and then one for its egress.
pub fn tc_queries(interfaces: &Vec<Interface>) -> (queries: Vec<TcQuery>)
    ensures
        queries@.len() == 2 * interfaces@.len(),
        forall|i: int|
            0 <= i < interfaces@.len() ==> asks_for(
                #[trigger] queries@[2 * i],
                interfaces@[i],
                Direction::Ingress,
            ) && asks_for(queries@[2 * i + 1], interfaces@[i], Direction::Egress),
{
    let mut queries: Vec<TcQuery> = Vec::new();
    let mut i: usize = 0;
    while i < interfaces.len()
        invariant
            i <= interfaces.len(),
            queries@.len() == 2 * i,
            forall|k: int|
                0 <= k < i ==> asks_for(
                    #[trigger] queries@[2 * k],
                    interfaces@[k],
                    Direction::Ingress,
                ) && asks_for(queries@[2 * k + 1], interfaces@[k], Direction::Egress),
        decreases interfaces.len() - i,
    {
        let interface = &interfaces[i];
        queries.push(
            TcQuery {
                interface: Interface { index: interface.index, name: interface.name.clone() },
                direction: Direction::Ingress,
                request: filter_dump_request(interface.index, Direction::Ingress),
            },
        );
        queries.push(
            TcQuery {
                interface: Interface { index: interface.index, name: interface.name.clone() },
                direction: Direction::Egress,
                request: filter_dump_request(interface.index, Direction::Egress),
            },
        );
        i += 1;
    }
    queries
}

/// All the attachments of a program: those through links, followed, for a
/// program of a traffic-control type, by its filters.
pub fn get_prog_attachments(
    prog_id: u32,
    prog_type: &str,
    links: Vec<LinkInfo>,
    filters: Vec<BpfAttachment>,
) -> (r: Vec<BpfAttachment>)
    ensures
        r@ == if tc_type(prog_type@) {
            links_of(prog_id, links@) + filters@
        } else {
            links_of(prog_id, links@)
        },
{
    let mut attachments = link_attachments(prog_id, links);
    if uses_tc(prog_type) {
        let mut filters = filters;
        attachments.append(&mut filters);
    }
    attachments
}

} // verus!
