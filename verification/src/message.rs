//! Gossip messages as plain values.
//!
//! A message arrives as bytes: a two-byte type, then for the two announcements
//! one or four signatures followed by the payload that they sign. The payload
//! is decoded by the `lightning` crate; what the rest of this library reads
//! from it is copied into the types below.
use lightning::ln::msgs::UnsignedChannelAnnouncement;
use lightning::ln::msgs::UnsignedNodeAnnouncement;
use lightning::util::ser::Readable;
use lightning::util::ser::Writeable;
use vstd::prelude::*;
use vstd::slice::slice_subrange;

verus! {

/// Message type of a channel announcement.
pub const CHANNEL_ANNOUNCEMENT: u16 = 256;

/// Message type of a node announcement.
pub const NODE_ANNOUNCEMENT: u16 = 257;

/// Length of the longest message that the transport carries. A longer one is
/// no message.
pub const MAX_MESSAGE_LEN: usize = 65535;

/// Bytes that the signature of a node announcement takes before its payload.
pub const NODE_SIGNATURES_LEN: usize = 64;

/// Bytes that the four signatures of a channel announcement take before its
/// payload.
pub const CHANNEL_SIGNATURES_LEN: usize = 256;

/// A node's identity: its public key in compressed form.
#[derive(Clone, Copy, Debug, PartialEq, Eq, Hash)]
pub struct NodeId {
    pub bytes: [u8; 33],
}

impl View for NodeId {
    type V = Seq<u8>;

    open spec fn view(&self) -> Seq<u8> {
        self.bytes@
    }
}

/// Whether two compressed public keys hold the same bytes.
pub fn same_key(a: &[u8; 33], b: &[u8; 33]) -> (r: bool)
    ensures
        r == (a@ == b@),
{
    let mut i: usize = 0;
    while i < 33
        invariant
            i <= 33,
            forall|k: int| 0 <= k < i ==> a@[k] == b@[k],
        decreases 33 - i,
    {
        if a[i] != b[i] {
            return false;
        }
        i += 1;
    }
    assert(a@ =~= b@);
    true
}

impl NodeId {
    /// The identity with the given compressed public key.
    pub fn new(bytes: [u8; 33]) -> (id: NodeId)
        ensures
            id@ == bytes@,
    {
        NodeId { bytes }
    }

    /// Whether two identities hold the same bytes.
    pub fn same(&self, other: &NodeId) -> (r: bool)
        ensures
            r == (self@ == other@),
    {
        same_key(&self.bytes, &other.bytes)
    }
}

/// What a node says of itself in an announcement.
#[derive(Clone, Debug, PartialEq, Eq)]
pub struct AnnouncementInfo {
    /// The announcement's timestamp: a later announcement replaces an earlier one.
    pub timestamp: u32,
    /// The node's colour.
    pub rgb: [u8; 3],
    /// The node's alias, padded with zero bytes.
    pub alias: [u8; 32],
    /// The feature bits as the announcement encodes them: a two-byte length,
    /// then the flag bytes, the most significant first.
    pub features: Vec<u8>,
    /// The addresses at which the node can be reached, in the order of the
    /// announcement, each as the announcement encodes it: a type byte, then
    /// the address and its port.
    pub addresses: Vec<Vec<u8>>,
}

/// A list of byte strings as a sequence of sequences.
pub open spec fn byte_strings(list: Seq<Vec<u8>>) -> Seq<Seq<u8>> {
    Seq::new(list.len(), |i: int| list[i]@)
}

/// The mathematical value of an [`AnnouncementInfo`].
pub struct AnnouncementView {
    pub timestamp: u32,
    pub rgb: Seq<u8>,
    pub alias: Seq<u8>,
    pub features: Seq<u8>,
    pub addresses: Seq<Seq<u8>>,
}

impl View for AnnouncementInfo {
    type V = AnnouncementView;

    open spec fn view(&self) -> AnnouncementView {
        AnnouncementView {
            timestamp: self.timestamp,
            rgb: self.rgb@,
            alias: self.alias@,
            features: self.features@,
            addresses: byte_strings(self.addresses@),
        }
    }
}

/// The payload of a node announcement.
#[derive(Clone, Debug, PartialEq, Eq)]
pub struct NodeAnnouncement {
    /// The node that announces itself, and whose key signs the announcement.
    pub node_id: NodeId,
    /// What it announces.
    pub info: AnnouncementInfo,
}

/// The mathematical value of a [`NodeAnnouncement`].
pub struct NodeAnnouncementView {
    pub node_id: Seq<u8>,
    pub info: AnnouncementView,
}

impl View for NodeAnnouncement {
    type V = NodeAnnouncementView;

    open spec fn view(&self) -> NodeAnnouncementView {
        NodeAnnouncementView { node_id: self.node_id@, info: self.info@ }
    }
}

/// The payload of a channel announcement.
#[derive(Clone, Debug, PartialEq, Eq)]
pub struct ChannelAnnouncement {
    /// Genesis hash of the chain that holds the channel.
    pub chain_hash: [u8; 32],
    /// The channel's short channel id.
    pub short_channel_id: u64,
    /// One endpoint of the channel.
    pub node_id_1: NodeId,
    /// The other endpoint.
    pub node_id_2: NodeId,
    /// The funding key of the first endpoint, in compressed form.
    pub bitcoin_key_1: [u8; 33],
    /// The funding key of the second endpoint, in compressed form.
    pub bitcoin_key_2: [u8; 33],
}

/// The mathematical value of a [`ChannelAnnouncement`].
pub struct ChannelAnnouncementView {
    pub chain_hash: Seq<u8>,
    pub short_channel_id: u64,
    pub node_id_1: Seq<u8>,
    pub node_id_2: Seq<u8>,
    pub bitcoin_key_1: Seq<u8>,
    pub bitcoin_key_2: Seq<u8>,
}

impl View for ChannelAnnouncement {
    type V = ChannelAnnouncementView;

    open spec fn view(&self) -> ChannelAnnouncementView {
        ChannelAnnouncementView {
            chain_hash: self.chain_hash@,
            short_channel_id: self.short_channel_id,
            node_id_1: self.node_id_1@,
            node_id_2: self.node_id_2@,
            bitcoin_key_1: self.bitcoin_key_1@,
            bitcoin_key_2: self.bitcoin_key_2@,
        }
    }
}

/// What `lightning` decodes from the payload of a node announcement, or `None`
/// where it refuses the payload.
pub uninterp spec fn node_announcement_fields(payload: Seq<u8>) -> Option<NodeAnnouncementView>;

/// What `lightning` decodes from the payload of a channel announcement, or
/// `None` where it refuses the payload.
pub uninterp spec fn channel_announcement_fields(payload: Seq<u8>) -> Option<
    ChannelAnnouncementView,
>;

/// Decodes the payload of a node announcement with
/// `lightning::ln::msgs::UnsignedNodeAnnouncement::read` and copies the node's
/// key (compressed), the timestamp, the colour, the alias, the feature bits
/// and the addresses (these two as `Writeable::encode` writes them) out of the
/// result. Trusted: the result depends on the payload alone; nothing is
/// claimed of which payloads decode, nor of where in the payload a field
/// stands. The payload must not be longer than a message can be: the outside
/// function counts the bytes of the address list in 16 bits.
#[verifier::external_body]
pub(crate) fn decode_node_announcement(payload: &[u8]) -> (decoded: Option<NodeAnnouncement>)
    requires
        payload@.len() <= MAX_MESSAGE_LEN,
    ensures
        decoded matches Some(a) ==> node_announcement_fields(payload@) == Some(a@),
        decoded is None ==> node_announcement_fields(payload@) is None,
{
    let mut input = payload;
    let message = UnsignedNodeAnnouncement::read(&mut input).ok()?;
    let info = AnnouncementInfo {
        timestamp: message.timestamp,
        rgb: message.rgb,
        alias: message.alias,
        features: message.features.encode(),
        addresses: message.addresses.iter().map(|address| address.encode()).collect(),
    };
    Some(NodeAnnouncement { node_id: NodeId { bytes: message.node_id.serialize() }, info })
}

/// Decodes the payload of a channel announcement with
/// `lightning::ln::msgs::UnsignedChannelAnnouncement::read` and copies the chain
/// hash, the short channel id and the four keys (compressed) out of the
/// result. Trusted: the result depends on the payload alone; nothing is
/// claimed of which payloads decode.
#[verifier::external_body]
pub(crate) fn decode_channel_announcement(payload: &[u8]) -> (decoded: Option<ChannelAnnouncement>)
    ensures
        decoded matches Some(c) ==> channel_announcement_fields(payload@) == Some(c@),
        decoded is None ==> channel_announcement_fields(payload@) is None,
{
    let mut input = payload;
    let message = UnsignedChannelAnnouncement::read(&mut input).ok()?;
    Some(
        ChannelAnnouncement {
            chain_hash: bitcoin::hashes::Hash::into_inner(message.chain_hash),
            short_channel_id: message.short_channel_id,
            node_id_1: NodeId { bytes: message.node_id_1.serialize() },
            node_id_2: NodeId { bytes: message.node_id_2.serialize() },
            bitcoin_key_1: message.bitcoin_key_1.serialize(),
            bitcoin_key_2: message.bitcoin_key_2.serialize(),
        },
    )
}

/// What stands behind the first `signatures_len` bytes of `wire`: the payload
/// that the signatures sign. It is `None` where `wire` is too short to hold the
/// signatures.
pub open spec fn signed_payload(wire: Seq<u8>, signatures_len: int) -> Option<Seq<u8>> {
    if wire.len() < signatures_len {
        None
    } else {
        Some(wire.subrange(signatures_len, wire.len() as int))
    }
}

/// Hands out the payload of a signed message, without its signatures.
pub fn payload_of(wire: &[u8], signatures_len: usize) -> (payload: Option<&[u8]>)
    ensures
        payload matches Some(p) ==> signed_payload(wire@, signatures_len as int) == Some(p@),
        payload is None ==> signed_payload(wire@, signatures_len as int) is None,
{
    let len = wire.len();
    if len < signatures_len {
        None
    } else {
        Some(slice_subrange(wire, signatures_len, len))
    }
}

/// The node announcement that `wire` carries behind its signature, if `wire`
/// is no longer than a message can be and its payload decodes.
pub open spec fn node_announcement_in(wire: Seq<u8>) -> Option<NodeAnnouncementView> {
    if wire.len() > MAX_MESSAGE_LEN {
        None
    } else {
        match signed_payload(wire, NODE_SIGNATURES_LEN as int) {
            Some(payload) => node_announcement_fields(payload),
            None => None,
        }
    }
}

/// The channel announcement that `wire` carries behind its four signatures, if
/// `wire` is no longer than a message can be and its payload decodes.
pub open spec fn channel_announcement_in(wire: Seq<u8>) -> Option<ChannelAnnouncementView> {
    if wire.len() > MAX_MESSAGE_LEN {
        None
    } else {
        match signed_payload(wire, CHANNEL_SIGNATURES_LEN as int) {
            Some(payload) => channel_announcement_fields(payload),
            None => None,
        }
    }
}

/// Reads the node announcement out of a signed message. The signature is not
/// checked here. What is longer than a message can be is not read.
pub fn read_node_announcement(wire: &[u8]) -> (decoded: Option<NodeAnnouncement>)
    ensures
        decoded matches Some(a) ==> node_announcement_in(wire@) == Some(a@),
        decoded is None ==> node_announcement_in(wire@) is None,
{
    if wire.len() > MAX_MESSAGE_LEN {
        return None;
    }
    match payload_of(wire, NODE_SIGNATURES_LEN) {
        Some(payload) => decode_node_announcement(payload),
        None => None,
    }
}

/// Reads the channel announcement out of a signed message. The signatures are
/// not checked here. What is longer than a message can be is not read.
pub fn read_channel_announcement(wire: &[u8]) -> (decoded: Option<ChannelAnnouncement>)
    ensures
        decoded matches Some(c) ==> channel_announcement_in(wire@) == Some(c@),
        decoded is None ==> channel_announcement_in(wire@) is None,
{
    if wire.len() > MAX_MESSAGE_LEN {
        return None;
    }
    match payload_of(wire, CHANNEL_SIGNATURES_LEN) {
        Some(payload) => decode_channel_announcement(payload),
        None => None,
    }
}

/// The kinds of message that the gossip graph distinguishes.
#[derive(Clone, Copy, Debug, PartialEq, Eq, Structural)]
pub enum MessageKind {
    /// A node announcement.
    NodeAnnouncement,
    /// A channel announcement.
    ChannelAnnouncement,
    /// Any other message, with its type.
    Other(u16),
}

/// The type that a frame starts with: its first two bytes, the more
/// significant first. A frame of fewer than two bytes has none.
pub open spec fn frame_type(frame: Seq<u8>) -> Option<u16> {
    if frame.len() < 2 {
        None
    } else {
        Some((frame[0] as int * 256 + frame[1] as int) as u16)
    }
}

/// The kind of message with the given type.
pub open spec fn kind_of_type(message_type: u16) -> MessageKind {
    if message_type == NODE_ANNOUNCEMENT {
        MessageKind::NodeAnnouncement
    } else if message_type == CHANNEL_ANNOUNCEMENT {
        MessageKind::ChannelAnnouncement
    } else {
        MessageKind::Other(message_type)
    }
}

/// The kind of message that a frame holds, or `None` where the frame is too
/// short to hold a type.
pub open spec fn frame_kind(frame: Seq<u8>) -> Option<MessageKind> {
    match frame_type(frame) {
        Some(message_type) => Some(kind_of_type(message_type)),
        None => None,
    }
}

/// Reads a frame's message type.
pub fn read_frame_type(frame: &[u8]) -> (message_type: Option<u16>)
    ensures
        message_type == frame_type(frame@),
{
    if frame.len() < 2 {
        None
    } else {
        let high: u16 = frame[0] as u16;
        let low: u16 = frame[1] as u16;
        Some(high * 256 + low)
    }
}

/// Tells the two announcements from every other message.
pub fn classify(frame: &[u8]) -> (kind: Option<MessageKind>)
    ensures
        kind == frame_kind(frame@),
{
    match read_frame_type(frame) {
        None => None,
        Some(message_type) => {
            if message_type == NODE_ANNOUNCEMENT {
                Some(MessageKind::NodeAnnouncement)
            } else if message_type == CHANNEL_ANNOUNCEMENT {
                Some(MessageKind::ChannelAnnouncement)
            } else {
                Some(MessageKind::Other(message_type))
            }
        },
    }
}

/// The body of a frame: what follows its two-byte type.
pub open spec fn frame_body(frame: Seq<u8>) -> Seq<u8> {
    frame.subrange(2, frame.len() as int)
}

/// Splits a frame into the kind of its message and the message itself. A
/// frame too short to hold a type has neither.
pub fn split_frame(frame: &[u8]) -> (parts: Option<(MessageKind, &[u8])>)
    ensures
        parts matches Some(p) ==> frame_kind(frame@) == Some(p.0) && p.1@ == frame_body(frame@),
        parts is None ==> frame_kind(frame@) is None,
{
    match classify(frame) {
        Some(kind) => Some((kind, slice_subrange(frame, 2, frame.len()))),
        None => None,
    }
}

} // verus!
