//! The topology store: the `lightning` crate's `NetworkGraph`, kept behind a
//! small set of operations whose effect on its contents is stated here and
//! believed, not proved.
//!
//! The store is owned by one value and changed only through `&mut`, so what
//! it holds is a function of the calls made on it. Nothing here removes a
//! node or a channel, and no chain source is consulted: the graph's lists of
//! removed entries stay empty and no channel carries a capacity.
//!
//! The two operations that change the store are declared not to unwind. The
//! code behind them panics only where a lock is poisoned, which takes an
//! earlier panic, or where the system clock stands before 1970.
use crate::message::AnnouncementInfo;
use crate::message::AnnouncementView;
use crate::message::channel_announcement_fields;
use crate::message::ChannelAnnouncementView;
use crate::message::MAX_MESSAGE_LEN;
use crate::message::node_announcement_fields;
use crate::message::NodeAnnouncementView;
use crate::message::NodeId;
use lightning::chain::Access;
use lightning::ln::msgs::UnsignedChannelAnnouncement;
use lightning::ln::msgs::UnsignedNodeAnnouncement;
use lightning::routing::gossip::NetworkGraph;
use lightning::util::logger::Logger;
use lightning::util::logger::Record;
use lightning::util::ser::Readable;
use lightning::util::ser::Writeable;
use std::sync::Arc;
use vstd::prelude::*;

verus! {

/// What the graph knows of one node.
#[derive(Clone, Debug, PartialEq, Eq)]
pub struct NodeInfo {
    /// The node's latest announcement, if one has been accepted.
    pub announcement: Option<AnnouncementInfo>,
    /// The short channel ids of the node's channels, oldest first.
    pub channels: Vec<u64>,
}

/// The mathematical value of a [`NodeInfo`].
pub struct NodeView {
    pub announcement: Option<AnnouncementView>,
    pub channels: Seq<u64>,
}

impl View for NodeInfo {
    type V = NodeView;

    open spec fn view(&self) -> NodeView {
        NodeView {
            announcement: match self.announcement {
                Some(info) => Some(info@),
                None => None,
            },
            channels: self.channels@,
        }
    }
}

/// A log record of the `lightning` crate. Only named, never read.
#[verifier::external_type_specification]
#[verifier::external_body]
pub struct ExRecord<'a>(Record<'a>);

/// The logger that the store hands to the graph: it discards every record.
pub struct Silent;

impl Logger for Silent {
    fn log(&self, _record: &Record) {
    }
}

/// The `lightning` crate's `NetworkGraph`. Its fields are hidden from the
/// verifier; `store_nodes` and `store_channels` stand for what it holds.
#[verifier::external_body]
pub struct Store {
    graph: NetworkGraph<Arc<Silent>>,
}

/// The nodes that the store holds, by the bytes of their identity.
pub uninterp spec fn store_nodes(store: Store) -> Map<Seq<u8>, NodeView>;

/// The short channel ids of the channels that the store holds.
pub uninterp spec fn store_channels(store: Store) -> Set<u64>;

/// The nodes of a graph that knows no node.
pub open spec fn no_nodes() -> Map<Seq<u8>, NodeView> {
    Map::empty()
}

/// The channels of a graph that knows no channel.
pub open spec fn no_channels() -> Set<u64> {
    Set::empty()
}

/// Whether a graph with these nodes takes the announcement: the node is known,
/// and what is stored of it is older than the announcement.
pub open spec fn takes_node_announcement(
    nodes: Map<Seq<u8>, NodeView>,
    a: NodeAnnouncementView,
) -> bool {
    &&& nodes.contains_key(a.node_id)
    &&& match nodes[a.node_id].announcement {
        Some(stored) => stored.timestamp < a.info.timestamp,
        None => true,
    }
}

/// The nodes after the announcement has replaced what was stored of its node.
pub open spec fn with_node_announcement(
    nodes: Map<Seq<u8>, NodeView>,
    a: NodeAnnouncementView,
) -> Map<Seq<u8>, NodeView> {
    nodes.insert(
        a.node_id,
        NodeView { announcement: Some(a.info), channels: nodes[a.node_id].channels },
    )
}

/// Whether a graph with these channels takes the announcement: its two
/// endpoints differ, its two funding keys differ, and the channel is new.
pub open spec fn takes_channel_announcement(
    channels: Set<u64>,
    c: ChannelAnnouncementView,
) -> bool {
    &&& c.node_id_1 != c.node_id_2
    &&& c.bitcoin_key_1 != c.bitcoin_key_2
    &&& !channels.contains(c.short_channel_id)
}

/// The nodes after `scid` has been added to the channels of node `id`, which is
/// created without an announcement if it was not known.
pub open spec fn with_channel_at(
    nodes: Map<Seq<u8>, NodeView>,
    id: Seq<u8>,
    scid: u64,
) -> Map<Seq<u8>, NodeView> {
    if nodes.contains_key(id) {
        nodes.insert(
            id,
            NodeView {
                announcement: nodes[id].announcement,
                channels: nodes[id].channels.push(scid),
            },
        )
    } else {
        nodes.insert(id, NodeView { announcement: None, channels: seq![scid] })
    }
}

/// The nodes after the announced channel has been added to both its endpoints.
pub open spec fn with_channel_announcement(
    nodes: Map<Seq<u8>, NodeView>,
    c: ChannelAnnouncementView,
) -> Map<Seq<u8>, NodeView> {
    with_channel_at(
        with_channel_at(nodes, c.node_id_1, c.short_channel_id),
        c.node_id_2,
        c.short_channel_id,
    )
}

/// Calls `NetworkGraph::new` with the given genesis hash and a logger that
/// discards. Trusted: the new graph holds no node and no channel.
#[verifier::external_body]
pub(crate) fn store_new(chain_hash: &[u8; 32]) -> (store: Store)
    ensures
        store_nodes(store) == no_nodes(),
        store_channels(store) == no_channels(),
{
    Store { graph: NetworkGraph::new(bitcoin::hashes::Hash::from_inner(*chain_hash), Arc::new(Silent)) }
}

/// Calls `ReadOnlyNetworkGraph::node` on a read-only view of the graph and
/// copies out the node's channel list and, where it has one, its announcement's
/// timestamp, colour, alias, feature bits and addresses (these two as
/// `Writeable::encode` writes them). Trusted: the result is the store's entry
/// for `id`, or `None` where it has none.
#[verifier::external_body]
pub(crate) fn store_node(store: &Store, id: &NodeId) -> (found: Option<NodeInfo>)
    ensures
        found matches Some(node) ==> store_nodes(*store).contains_key(id@) && store_nodes(
            *store,
        )[id@] == node@,
        found is None ==> !store_nodes(*store).contains_key(id@),
{
    let mut key = &id.bytes[..];
    let key = lightning::routing::gossip::NodeId::read(&mut key).ok()?;
    let graph = store.graph.read_only();
    let node = graph.node(&key)?;
    let announcement = node.announcement_info.as_ref().map(
        |a| AnnouncementInfo {
            timestamp: a.last_update,
            rgb: a.rgb,
            alias: a.alias.0,
            features: a.features.encode(),
            addresses: a.addresses.iter().map(|address| address.encode()).collect(),
        },
    );
    Some(NodeInfo { announcement, channels: node.channels.clone() })
}

/// Calls `ReadOnlyNetworkGraph::channel` on a read-only view of the graph.
/// Trusted: the answer says whether the store holds a channel with this id.
#[verifier::external_body]
pub(crate) fn store_has_channel(store: &Store, short_channel_id: u64) -> (known: bool)
    ensures
        known == store_channels(*store).contains(short_channel_id),
{
    store.graph.read_only().channel(short_channel_id).is_some()
}

/// Decodes `payload` with `UnsignedNodeAnnouncement::read` and hands the result
/// to `NetworkGraph::update_node_from_unsigned_announcement`, which checks no
/// signature. Trusted, as that function's source shows: the graph takes the
/// announcement exactly where the payload decodes, the node is known and what
/// is stored of it carries a smaller timestamp; it then replaces the node's
/// announcement and keeps its channels; otherwise nothing changes. The
/// channels are never touched. It is also trusted not to unwind. The payload
/// must not be longer than a message can be: the decoding counts the bytes of
/// the address list in 16 bits.
#[verifier::external_body]
pub(crate) fn store_update_node(store: &mut Store, payload: &[u8]) -> (taken: bool)
    requires
        payload@.len() <= MAX_MESSAGE_LEN,
    ensures
        store_channels(*final(store)) == store_channels(*old(store)),
        taken == match node_announcement_fields(payload@) {
            Some(a) => takes_node_announcement(store_nodes(*old(store)), a),
            None => false,
        },
        store_nodes(*final(store)) == match node_announcement_fields(payload@) {
            Some(a) => if takes_node_announcement(store_nodes(*old(store)), a) {
                with_node_announcement(store_nodes(*old(store)), a)
            } else {
                store_nodes(*old(store))
            },
            None => store_nodes(*old(store)),
        },
    no_unwind
{
    let mut input = payload;
    match UnsignedNodeAnnouncement::read(&mut input) {
        Ok(message) => store.graph.update_node_from_unsigned_announcement(&message).is_ok(),
        Err(_) => false,
    }
}

/// Decodes `payload` with `UnsignedChannelAnnouncement::read` and hands the
/// result to `NetworkGraph::update_channel_from_unsigned_announcement`, with no
/// chain source and so without a look at the chain; no signature is checked.
/// Trusted, as that function's source shows for a graph from which nothing was
/// removed: the graph takes the announcement exactly where the payload decodes,
/// the two endpoints differ, the two funding keys differ and the short channel
/// id is new; it then records the channel and appends its id to the channels of
/// both endpoints, creating an endpoint that was not known; otherwise nothing
/// changes. It is also trusted not to unwind.
#[verifier::external_body]
pub(crate) fn store_update_channel(store: &mut Store, payload: &[u8]) -> (taken: bool)
    ensures
        taken == match channel_announcement_fields(payload@) {
            Some(c) => takes_channel_announcement(store_channels(*old(store)), c),
            None => false,
        },
        store_channels(*final(store)) == match channel_announcement_fields(payload@) {
            Some(c) => if takes_channel_announcement(store_channels(*old(store)), c) {
                store_channels(*old(store)).insert(c.short_channel_id)
            } else {
                store_channels(*old(store))
            },
            None => store_channels(*old(store)),
        },
        store_nodes(*final(store)) == match channel_announcement_fields(payload@) {
            Some(c) => if takes_channel_announcement(store_channels(*old(store)), c) {
                with_channel_announcement(store_nodes(*old(store)), c)
            } else {
                store_nodes(*old(store))
            },
            None => store_nodes(*old(store)),
        },
    no_unwind
{
    let mut input = payload;
    match UnsignedChannelAnnouncement::read(&mut input) {
        Ok(message) => store.graph.update_channel_from_unsigned_announcement(
            &message,
            &None::<Arc<dyn Access>>,
        ).is_ok(),
        Err(_) => false,
    }
}

} // verus!
