use crate::pid_iter::{read_u32, signed, to_signed, u32_at, ByteOrder};
use netlink_packet_core::{NetlinkHeader, NetlinkMessage, NetlinkPayload};
use netlink_packet_route::link::{LinkAttribute, LinkMessage};
use netlink_packet_route::tc::{TcAttribute, TcFilterBpfOption, TcHandle, TcMessage, TcOption};
use netlink_packet_route::{AddressFamily, RouteNetlinkMessage};
use vstd::prelude::*;
use vstd::slice::{slice_subrange, slice_to_vec};

verus! {

/// The flag of a message that asks for something.
pub const NLM_F_REQUEST: u16 = 1;

/// The flags of a request for every object of a kind.
pub const NLM_F_DUMP: u16 = 0x300;

/// The sequence number that every request carries.
pub const DUMP_SEQUENCE: u32 = 1;

/// The major number of the handles of a `clsact` qdisc.
pub const TC_H_CLSACT: u16 = 0xFFFF;

/// The minor number of the handle under which ingress filters hang.
pub const TC_H_MIN_INGRESS: u16 = 0xFFF2;

/// The minor number of the handle under which egress filters hang.
pub const TC_H_MIN_EGRESS: u16 = 0xFFF3;

/// The flag of a BPF filter that acts directly.
pub const TCA_BPF_FLAG_ACT_DIRECT: u32 = 1;

/// Why an exchange over netlink came to nothing.
#[derive(Clone, Copy, Debug, PartialEq, Eq, Structural)]
pub enum NetlinkError {
    /// What was received is no netlink message.
    Decode,
}

/// What a netlink message is, as far as reading a dump goes.
#[derive(Clone, Copy, Debug, PartialEq, Eq, Structural)]
pub enum FrameKind {
    /// The message that ends a dump.
    Done,
    /// A message of the protocol, one object of the dump.
    Message,
    /// Anything else: an error, a no-op, an overrun.
    Other,
}

/// What this library reads of one netlink message.
pub struct PacketView {
    /// What the message is.
    pub kind: FrameKind,
    /// What the message says of a network interface, where it announces
    /// one.
    pub link: Option<LinkReplyView>,
    /// The attributes of the traffic-control filter that the message
    /// announces, where it announces one.
    pub filter: Option<Seq<TcAttributeView>>,
}

/// What is read of the route-netlink message with which the bytes begin,
/// or `None` where they begin with none.
pub uninterp spec fn packet_of(bytes: Seq<u8>) -> Option<PacketView>;

/// What the netlink message is with which the bytes begin.
pub open spec fn kind_of(bytes: Seq<u8>) -> Option<FrameKind> {
    match packet_of(bytes) {
        Some(packet) => Some(packet.kind),
        None => None,
    }
}

/// What the bytes say of a network interface, where they are a message
/// that announces one.
pub open spec fn link_of(bytes: Seq<u8>) -> Option<LinkReplyView> {
    match packet_of(bytes) {
        Some(packet) => packet.link,
        None => None,
    }
}

/// The attributes of the traffic-control filter that the bytes announce,
/// where they are a message that announces one.
pub open spec fn filter_of(bytes: Seq<u8>) -> Option<Seq<TcAttributeView>> {
    match packet_of(bytes) {
        Some(packet) => packet.filter,
        None => None,
    }
}

/// Calls `NetlinkMessage::<RouteNetlinkMessage>::deserialize`, which reads
/// one route-netlink message from the start of the bytes and fails on
/// bytes that are none. Of what it reads the kind of the payload is handed
/// on. What the call reads is given the name [`packet_of`]; this is the
/// part that tells what the message is.
#[verifier::external_body]
pub(crate) fn decode_kind(bytes: &[u8]) -> (r: Option<FrameKind>)
    ensures
        r == match packet_of(bytes@) {
            Some(packet) => Some(packet.kind),
            None => None,
        },
{
    match NetlinkMessage::<RouteNetlinkMessage>::deserialize(bytes).ok()?.payload {
        NetlinkPayload::Done(_) => Some(FrameKind::Done),
        NetlinkPayload::InnerMessage(_) => Some(FrameKind::Message),
        _ => Some(FrameKind::Other),
    }
}

/// What a message says of a network interface: its index, and for each of
/// its attributes the interface's name where the attribute is one.
#[derive(Debug, PartialEq, Eq)]
pub struct LinkReply {
    pub index: u32,
    pub names: Vec<Option<String>>,
}

/// What a [`LinkReply`] stands for.
pub struct LinkReplyView {
    pub index: u32,
    pub names: Seq<Option<Seq<char>>>,
}

impl View for LinkReply {
    type V = LinkReplyView;

    open spec fn view(&self) -> LinkReplyView {
        LinkReplyView {
            index: self.index,
            names: name_views(self.names@),
        }
    }
}

/// Calls `NetlinkMessage::<RouteNetlinkMessage>::deserialize` and, where
/// the message is a `NewLink`, hands on the interface's index and, for
/// each attribute in order, the name that an `IfName` attribute holds.
/// This is the part of [`packet_of`] that tells of an interface.
#[verifier::external_body]
pub(crate) fn decode_link(bytes: &[u8]) -> (r: Option<LinkReply>)
    ensures
        match r {
            Some(reply) => packet_of(bytes@) is Some && packet_of(bytes@)->0.link == Some(reply@),
            None => packet_of(bytes@) is None || packet_of(bytes@)->0.link is None,
        },
{
    match NetlinkMessage::<RouteNetlinkMessage>::deserialize(bytes).ok()?.payload {
        NetlinkPayload::InnerMessage(RouteNetlinkMessage::NewLink(link)) => Some(LinkReply {
            index: link.header.index,
            names: link.attributes.into_iter().map(|attribute| match attribute {
                LinkAttribute::IfName(name) => Some(name),
                _ => None,
            }).collect(),
        }),
        _ => None,
    }
}

/// One option of a traffic-control filter, as far as this library reads
/// it.
#[derive(Clone, Copy, Debug, PartialEq, Eq, Structural)]
pub enum TcOptionInfo {
    /// The id of the BPF program that the filter runs.
    ProgId(u32),
    /// The flags of a BPF filter.
    Flags(u32),
    /// Any other option.
    Other,
}

/// One attribute of a traffic-control filter, as far as this library
/// reads it.
#[derive(Debug, PartialEq, Eq)]
pub enum TcAttributeInfo {
    /// The kind of the filter.
    Kind(String),
    /// The options of the filter.
    Options(Vec<TcOptionInfo>),
    /// Any other attribute.
    Other,
}

/// What a [`TcAttributeInfo`] stands for.
pub enum TcAttributeView {
    Kind(Seq<char>),
    Options(Seq<TcOptionInfo>),
    Other,
}

impl View for TcAttributeInfo {
    type V = TcAttributeView;

    open spec fn view(&self) -> TcAttributeView {
        match self {
            TcAttributeInfo::Kind(kind) => TcAttributeView::Kind(kind@),
            TcAttributeInfo::Options(options) => TcAttributeView::Options(options@),
            TcAttributeInfo::Other => TcAttributeView::Other,
        }
    }
}

/// The views of a list of attributes, in order.
pub open spec fn attribute_views(attributes: Seq<TcAttributeInfo>) -> Seq<TcAttributeView> {
    attributes.map_values(|a: TcAttributeInfo| a@)
}

/// Calls `NetlinkMessage::<RouteNetlinkMessage>::deserialize` and, where
/// the message is a `NewTrafficFilter`, hands on its attributes in order:
/// the kind, the options (of which a BPF filter's program id and flags
/// are kept as numbers), and a mark for any other. This is the part of
/// [`packet_of`] that tells of a filter.
#[verifier::external_body]
pub(crate) fn decode_filter(bytes: &[u8]) -> (r: Option<Vec<TcAttributeInfo>>)
    ensures
        match r {
            Some(attributes) => packet_of(bytes@) is Some && packet_of(bytes@)->0.filter == Some(
                attribute_views(attributes@),
            ),
            None => packet_of(bytes@) is None || packet_of(bytes@)->0.filter is None,
        },
{
    match NetlinkMessage::<RouteNetlinkMessage>::deserialize(bytes).ok()?.payload {
        NetlinkPayload::InnerMessage(RouteNetlinkMessage::NewTrafficFilter(filter)) => Some(
            filter.attributes.into_iter().map(|attribute| match attribute {
                TcAttribute::Kind(kind) => TcAttributeInfo::Kind(kind),
                TcAttribute::Options(options) => TcAttributeInfo::Options(
                    options.into_iter().map(|option| match option {
                        TcOption::Bpf(TcFilterBpfOption::ProgId(id)) => TcOptionInfo::ProgId(id),
                        TcOption::Bpf(TcFilterBpfOption::Flags(f)) => TcOptionInfo::Flags(f.bits()),
                        _ => TcOptionInfo::Other,
                    }).collect()),
                _ => TcAttributeInfo::Other,
            }).collect()),
        _ => None,
    }
}

/// The bytes of a request under a header with the given flags and
/// sequence number: for every network interface where `filters` is
/// `None`, else for the traffic-control filters of the interface with
/// the index given, under the parent handle with the major and minor
/// number given.
pub uninterp spec fn request_bytes(
    flags: u16,
    sequence_number: u32,
    filters: Option<(i32, u16, u16)>,
) -> Seq<u8>;

/// The bytes of a request for every network interface.
pub open spec fn link_request_bytes(flags: u16, sequence_number: u32) -> Seq<u8> {
    request_bytes(flags, sequence_number, None)
}

/// The bytes of a request for the traffic-control filters of an interface
/// under a parent handle.
pub open spec fn filter_request_bytes(
    flags: u16,
    sequence_number: u32,
    ifindex: i32,
    major: u16,
    minor: u16,
) -> Seq<u8> {
    request_bytes(flags, sequence_number, Some((ifindex, major, minor)))
}

/// Builds a `GetLink` message for no interface in particular, under a
/// header with the given flags and sequence number, and serialises it
/// with `NetlinkMessage::finalize` and `NetlinkMessage::serialize`. The
/// bytes are given the name [`request_bytes`].
#[verifier::external_body]
pub(crate) fn encode_link_request(flags: u16, sequence_number: u32) -> (r: Vec<u8>)
    ensures
        r@ == request_bytes(flags, sequence_number, None),
{
    let payload = NetlinkPayload::from(RouteNetlinkMessage::GetLink(LinkMessage::default()));
    let mut packet = NetlinkMessage::new(NetlinkHeader::default(), payload);
    packet.header.flags = flags;
    packet.header.sequence_number = sequence_number;
    packet.finalize();
    let mut bytes = vec![0; packet.buffer_len()];
    packet.serialize(&mut bytes[..]);
    bytes
}

/// Builds a `GetTrafficFilter` message for the interface and the parent
/// handle given, of no address family in particular, under a header with
/// the given flags and sequence number, and serialises it with
/// `NetlinkMessage::finalize` and `NetlinkMessage::serialize`. The bytes
/// are given the name [`request_bytes`].
#[verifier::external_body]
pub(crate) fn encode_filter_request(
    flags: u16,
    sequence_number: u32,
    ifindex: i32,
    major: u16,
    minor: u16,
) -> (r: Vec<u8>)
    ensures
        r@ == request_bytes(flags, sequence_number, Some((ifindex, major, minor))),
{
    let mut message = TcMessage::default();
    message.header.family = AddressFamily::Unspec;
    message.header.index = ifindex;
    message.header.parent = TcHandle { major, minor };
    let payload = NetlinkPayload::from(RouteNetlinkMessage::GetTrafficFilter(message));
    let mut packet = NetlinkMessage::new(NetlinkHeader::default(), payload);
    packet.header.flags = flags;
    packet.header.sequence_number = sequence_number;
    packet.finalize();
    let mut bytes = vec![0; packet.buffer_len()];
    packet.serialize(&mut bytes[..]);
    bytes
}

/// The request for every network interface: a dump, numbered one.
pub fn link_dump_request() -> (r: Vec<u8>)
    ensures
        r@ == link_request_bytes(NLM_F_DUMP | NLM_F_REQUEST, DUMP_SEQUENCE),
{
    encode_link_request(NLM_F_DUMP | NLM_F_REQUEST, DUMP_SEQUENCE)
}

/// The side of an interface on which a filter sees the traffic.
#[derive(Clone, Copy, Debug, PartialEq, Eq, Structural)]
pub enum Direction {
    Ingress,
    Egress,
}

/// The minor number of the handle under which the filters of a direction
/// hang.
pub open spec fn direction_minor(direction: Direction) -> u16 {
    match direction {
        Direction::Ingress => TC_H_MIN_INGRESS,
        Direction::Egress => TC_H_MIN_EGRESS,
    }
}

/// The request for the filters of an interface in one direction: a dump,
/// numbered one, of what hangs under the `clsact` handle of that direction.
pub fn filter_dump_request(ifindex: i32, direction: Direction) -> (r: Vec<u8>)
    ensures
        r@ == filter_request_bytes(
            NLM_F_DUMP | NLM_F_REQUEST,
            DUMP_SEQUENCE,
            ifindex,
            TC_H_CLSACT,
            direction_minor(direction),
        ),
{
    let minor = match direction {
        Direction::Ingress => TC_H_MIN_INGRESS,
        Direction::Egress => TC_H_MIN_EGRESS,
    };
    encode_filter_request(NLM_F_DUMP | NLM_F_REQUEST, DUMP_SEQUENCE, ifindex, TC_H_CLSACT, minor)
}

/// What reading one datagram of an answer gives.
pub struct Scan {
    /// The messages of the protocol in it, each as its bytes.
    pub messages: Seq<Seq<u8>>,
    /// Whether the message that ends the dump was in it.
    pub done: bool,
    /// Whether it held bytes that are no message.
    pub failed: bool,
}

/// Whether a header stands at `offset` that gives the length zero: the
/// first four bytes of a header are the length of its message.
pub open spec fn zero_header(datagram: Seq<u8>, offset: int, order: ByteOrder) -> bool {
    offset + 4 <= datagram.len() && u32_at(datagram, offset, order) == 0
}

/// Where the message at `offset` ends: as far behind `offset` as its
/// header says, and at the end of the datagram at the latest.
pub open spec fn message_end(datagram: Seq<u8>, offset: int, order: ByteOrder) -> int {
    if offset + 4 > datagram.len() || offset + u32_at(datagram, offset, order) >= datagram.len() {
        datagram.len() as int
    } else {
        offset + u32_at(datagram, offset, order)
    }
}

/// The bytes of the message at `offset`.
pub open spec fn message_at(datagram: Seq<u8>, offset: int, order: ByteOrder) -> Seq<u8> {
    datagram.subrange(offset, message_end(datagram, offset, order))
}

/// Reads the messages of a datagram from `offset` on, one behind the
/// other, each as long as its header says. Reading ends at the end of the
/// datagram, at a header that gives the length zero, and at the message
/// that ends the dump; bytes that are no message fail it.
pub open spec fn scan(datagram: Seq<u8>, offset: int, order: ByteOrder) -> Scan
    decreases datagram.len() - offset,
{
    let kind = kind_of(datagram.subrange(offset, datagram.len() as int));
    if offset < 0 || offset >= datagram.len() || zero_header(datagram, offset, order) {
        Scan { messages: Seq::empty(), done: false, failed: false }
    } else if kind is None {
        Scan { messages: Seq::empty(), done: false, failed: true }
    } else if kind->0 == FrameKind::Done {
        Scan { messages: Seq::empty(), done: true, failed: false }
    } else {
        let rest = scan(datagram, message_end(datagram, offset, order), order);
        if kind->0 == FrameKind::Message {
            Scan {
                messages: seq![message_at(datagram, offset, order)] + rest.messages,
                done: rest.done,
                failed: rest.failed,
            }
        } else {
            rest
        }
    }
}

/// The bytes of each message of a list.
pub open spec fn message_views(messages: Seq<Vec<u8>>) -> Seq<Seq<u8>> {
    messages.map_values(|m: Vec<u8>| m@)
}

/// The reader of the answer to one dump request, which comes in one or
/// more datagrams.
#[derive(Debug, PartialEq, Eq)]
pub struct DumpReader {
    /// The messages of the protocol read so far, each as its bytes.
    pub messages: Vec<Vec<u8>>,
    /// Whether the message that ends the dump has been read.
    pub done: bool,
}

impl DumpReader {
    /// A reader that has read nothing.
    pub fn new() -> (r: DumpReader)
        ensures
            r.messages@.len() == 0,
            !r.done,
    {
        DumpReader { messages: Vec::new(), done: false }
    }

    /// Takes in the next datagram of the answer and says whether another
    /// one is to be received: that is so until the message that ends the
    /// dump has been read. The lengths in the headers are read in the
    /// byte order given, which is that of the machine the kernel runs on.
    /// A datagram with bytes that are no message fails the exchange and
    /// leaves the reader as it was.
    pub fn absorb(&mut self, datagram: &[u8], order: ByteOrder) -> (r: Result<bool, NetlinkError>)
        ensures
            match r {
                Ok(more) => {
                    let read = scan(datagram@, 0, order);
                    &&& !read.failed
                    &&& message_views(final(self).messages@) == message_views(old(self).messages@)
                        + read.messages
                    &&& final(self).done == read.done
                    &&& more == !read.done
                },
                Err(e) => {
                    &&& scan(datagram@, 0, order).failed
                    &&& e == NetlinkError::Decode
                    &&& *final(self) == *old(self)
                },
            },
    {
        let size = datagram.len();
        let mut found: Vec<Vec<u8>> = Vec::new();
        let mut offset: usize = 0;
        let ghost whole = scan(datagram@, 0, order);
        while offset < size
            invariant
                size == datagram.len(),
                offset <= size,
                *self == *old(self),
                whole == scan(datagram@, 0, order),
                whole.failed == scan(datagram@, offset as int, order).failed,
                whole.done == scan(datagram@, offset as int, order).done,
                whole.messages == message_views(found@) + scan(
                    datagram@,
                    offset as int,
                    order,
                ).messages,
            decreases size - offset,
        {
            let mut next = size;
            if size - offset >= 4 {
                let length = read_u32(datagram, offset, order);
                if length == 0 {
                    self.finish(found, false);
                    return Ok(true);
                }
                if (length as usize) < size - offset {
                    next = offset + length as usize;
                }
            }
            let kind = match decode_kind(slice_subrange(datagram, offset, size)) {
                Some(kind) => kind,
                None => {
                    return Err(NetlinkError::Decode);
                },
            };
            let ghost rest = scan(datagram@, next as int, order);
            match kind {
                FrameKind::Done => {
                    self.finish(found, true);
                    return Ok(false);
                },
                FrameKind::Message => {
                    let ghost before = message_views(found@);
                    let message = slice_to_vec(slice_subrange(datagram, offset, next));
                    found.push(message);
                    assert(before + (seq![message@] + rest.messages) =~= before.push(message@)
                        + rest.messages);
                },
                FrameKind::Other => {},
            }
            offset = next;
        }
        self.finish(found, false);
        Ok(true)
    }

    /// Adds what a datagram gave to what the reader holds.
    fn finish(&mut self, found: Vec<Vec<u8>>, done: bool)
        ensures
            message_views(final(self).messages@) == message_views(old(self).messages@)
                + message_views(found@),
            final(self).done == done,
    {
        let mut found = found;
        self.messages.append(&mut found);
        self.done = done;
    }
}

/// A network interface.
#[derive(Debug, PartialEq, Eq)]
pub struct Interface {
    pub index: i32,
    pub name: String,
}

/// What an [`Interface`] stands for.
pub struct InterfaceView {
    pub index: i32,
    pub name: Seq<char>,
}

impl View for Interface {
    type V = InterfaceView;

    open spec fn view(&self) -> InterfaceView {
        InterfaceView { index: self.index, name: self.name@ }
    }
}

/// The views of a list of interfaces, in order.
pub open spec fn interface_views(interfaces: Seq<Interface>) -> Seq<InterfaceView> {
    interfaces.map_values(|i: Interface| i@)
}

/// The first name among what the attributes of an interface gave; the
/// empty name where they gave none.
pub open spec fn first_name(names: Seq<Option<Seq<char>>>) -> Seq<char>
    decreases names.len(),
{
    if names.len() == 0 {
        Seq::empty()
    } else if names[0] is Some {
        names[0]->0
    } else {
        first_name(names.drop_first())
    }
}

/// The interface that a message announces.
pub open spec fn interface_of(reply: LinkReplyView) -> InterfaceView {
    InterfaceView { index: signed(reply.index), name: first_name(reply.names) }
}

/// The interfaces that the messages of a dump announce, in order. A
/// message that announces none is passed over.
pub open spec fn interfaces_of(messages: Seq<Seq<u8>>) -> Seq<InterfaceView>
    decreases messages.len(),
{
    if messages.len() == 0 {
        Seq::empty()
    } else {
        let front = interfaces_of(messages.drop_last());
        match link_of(messages.last()) {
            Some(reply) => front.push(interface_of(reply)),
            None => front,
        }
    }
}

/// What the attributes of an interface gave, each name as its text.
pub open spec fn name_views(names: Seq<Option<String>>) -> Seq<Option<Seq<char>>> {
    names.map_values(
        |name: Option<String>|
            match name {
                Some(text) => Some(text@),
                None => None,
            },
    )
}

/// Takes the first name out of what the attributes of an interface gave.
fn take_first_name(names: &Vec<Option<String>>) -> (r: String)
    ensures
        r@ == first_name(name_views(names@)),
{
    let ghost all = name_views(names@);
    let mut k: usize = 0;
    assert(all.subrange(0, all.len() as int) =~= all);
    while k < names.len()
        invariant
            k <= names.len(),
            all == name_views(names@),
            first_name(all) == first_name(all.subrange(k as int, all.len() as int)),
        decreases names.len() - k,
    {
        let ghost tail = all.subrange(k as int, all.len() as int);
        assert(tail.drop_first() =~= all.subrange(k + 1, all.len() as int));
        match &names[k] {
            Some(text) => {
                return text.clone();
            },
            None => {},
        }
        k += 1;
    }
    String::new()
}

/// The interfaces that the messages of a dump announce.
pub fn interfaces(messages: &Vec<Vec<u8>>) -> (r: Vec<Interface>)
    ensures
        interface_views(r@) == interfaces_of(message_views(messages@)),
{
    let mut found: Vec<Interface> = Vec::new();
    let mut i: usize = 0;
    let ghost all = message_views(messages@);
    while i < messages.len()
        invariant
            i <= messages.len(),
            all == message_views(messages@),
            interface_views(found@) == interfaces_of(all.subrange(0, i as int)),
        decreases messages.len() - i,
    {
        let ghost upto = all.subrange(0, i + 1);
        assert(upto.drop_last() =~= all.subrange(0, i as int));
        match decode_link(messages[i].as_slice()) {
            Some(reply) => {
                let index = to_signed(reply.index);
                let interface = Interface { index, name: take_first_name(&reply.names) };
                found.push(interface);
            },
            None => {},
        }
        i += 1;
    }
    assert(all.subrange(0, messages.len() as int) =~= all);
    found
}

} // verus!
