//! What holds of the gossip graph whatever it is fed, stated over the
//! functions that say what the graph does with an announcement.
use crate::graph::channel_announcement_outcome;
use crate::graph::channel_announcement_signed;
use crate::graph::channels_after_channel_announcement;
use crate::graph::entry;
use crate::graph::node_announcement_outcome;
use crate::graph::node_announcement_signed;
use crate::graph::nodes_after_channel_announcement;
use crate::graph::nodes_after_node_announcement;
use crate::graph::with_announcement;
use crate::message::channel_announcement_in;
use crate::message::node_announcement_in;
use crate::store::no_nodes;
use crate::store::NodeView;
use crate::store::with_channel_announcement;
use crate::verdict::DropReason;
use crate::verdict::Outcome;
use vstd::prelude::*;

verus! {

/// A graph that knows no node has no entry, whatever identity is asked for.
pub proof fn lemma_empty_graph_knows_no_node(id: Seq<u8>)
    ensures
        entry(no_nodes(), id) is None,
{
}

/// A node announcement whose signature does not hold is dropped, and the nodes
/// stay as they were.
pub proof fn lemma_forged_node_announcement_is_dropped(nodes: Map<Seq<u8>, NodeView>, wire: Seq<u8>)
    requires
        !node_announcement_signed(wire),
    ensures
        node_announcement_outcome(nodes, wire) is Dropped,
        nodes_after_node_announcement(nodes, wire) == nodes,
{
}

/// A channel announcement of which a signature does not hold is dropped, and
/// the nodes and channels stay as they were.
pub proof fn lemma_forged_channel_announcement_is_dropped(
    chain: Seq<u8>,
    nodes: Map<Seq<u8>, NodeView>,
    channels: Set<u64>,
    wire: Seq<u8>,
)
    requires
        !channel_announcement_signed(wire),
    ensures
        channel_announcement_outcome(chain, channels, wire) is Dropped,
        nodes_after_channel_announcement(chain, nodes, channels, wire) == nodes,
        channels_after_channel_announcement(chain, channels, wire) == channels,
{
}

/// Among the signed announcements of one node the one with the latest
/// timestamp wins. Let nothing as new as `first` be known of the node. Then
/// `first` becomes what is known of it; `second`, which is newer, replaces it
/// with all that it announces: timestamp, colour, alias, features and
/// addresses; and `late`, which is older than `first`, is dropped as stale
/// afterwards and changes nothing.
pub proof fn lemma_newest_announcement_wins(
    nodes: Map<Seq<u8>, NodeView>,
    first: Seq<u8>,
    second: Seq<u8>,
    late: Seq<u8>,
)
    requires
        node_announcement_signed(first),
        node_announcement_signed(second),
        node_announcement_signed(late),
        node_announcement_in(second).unwrap().node_id == node_announcement_in(
            first,
        ).unwrap().node_id,
        node_announcement_in(late).unwrap().node_id == node_announcement_in(first).unwrap().node_id,
        node_announcement_in(first).unwrap().info.timestamp < node_announcement_in(
            second,
        ).unwrap().info.timestamp,
        node_announcement_in(late).unwrap().info.timestamp < node_announcement_in(
            first,
        ).unwrap().info.timestamp,
        entry(nodes, node_announcement_in(first).unwrap().node_id) matches Some(node)
            ==> (node.announcement matches Some(stored) ==> stored.timestamp
            < node_announcement_in(first).unwrap().info.timestamp),
    ensures
        ({
            let id = node_announcement_in(first).unwrap().node_id;
            let after_first = nodes_after_node_announcement(nodes, first);
            let after_second = nodes_after_node_announcement(after_first, second);
            &&& node_announcement_outcome(nodes, first) == Outcome::Applied
            &&& after_first.contains_key(id)
            &&& after_first[id].announcement == Some(node_announcement_in(first).unwrap().info)
            &&& node_announcement_outcome(after_first, second) == Outcome::Applied
            &&& after_second.contains_key(id)
            &&& after_second[id].announcement == Some(node_announcement_in(second).unwrap().info)
            &&& after_second[id].announcement.unwrap().addresses == node_announcement_in(
                second,
            ).unwrap().info.addresses
            &&& after_second[id].channels == after_first[id].channels
            &&& nodes.contains_key(id) ==> after_second[id].channels == nodes[id].channels
            &&& node_announcement_outcome(after_second, late) == Outcome::Dropped(DropReason::Stale)
            &&& nodes_after_node_announcement(after_second, late) == after_second
        }),
{
}

/// An announcement that carries the timestamp of the one that is known is
/// dropped as stale, like an older one.
pub proof fn lemma_same_timestamp_is_stale(nodes: Map<Seq<u8>, NodeView>, wire: Seq<u8>)
    requires
        node_announcement_signed(wire),
        nodes.contains_key(node_announcement_in(wire).unwrap().node_id),
        nodes[node_announcement_in(wire).unwrap().node_id].announcement matches Some(stored)
            && stored.timestamp >= node_announcement_in(wire).unwrap().info.timestamp,
    ensures
        node_announcement_outcome(nodes, wire) == Outcome::Dropped(DropReason::Stale),
        nodes_after_node_announcement(nodes, wire) == nodes,
{
}

/// A node announcement changes nothing but the entry of its node.
pub proof fn lemma_node_announcement_is_local(
    nodes: Map<Seq<u8>, NodeView>,
    wire: Seq<u8>,
    other: Seq<u8>,
)
    requires
        node_announcement_in(wire) matches Some(a) ==> a.node_id != other,
    ensures
        entry(nodes_after_node_announcement(nodes, wire), other) == entry(nodes, other),
{
}

/// Once a channel announcement is applied, both its endpoints are known, the
/// channel is the last in the list of each, what they had announced of
/// themselves is kept, and the channel is known. A second announcement of that
/// channel is dropped.
pub proof fn lemma_applied_channel_is_listed(
    chain: Seq<u8>,
    nodes: Map<Seq<u8>, NodeView>,
    channels: Set<u64>,
    wire: Seq<u8>,
)
    requires
        channel_announcement_outcome(chain, channels, wire) == Outcome::Applied,
    ensures
        ({
            let c = channel_announcement_in(wire).unwrap();
            let after = nodes_after_channel_announcement(chain, nodes, channels, wire);
            let known = channels_after_channel_announcement(chain, channels, wire);
            &&& after.contains_key(c.node_id_1)
            &&& after.contains_key(c.node_id_2)
            &&& after[c.node_id_1].channels.last() == c.short_channel_id
            &&& after[c.node_id_2].channels.last() == c.short_channel_id
            &&& nodes.contains_key(c.node_id_1) ==> after[c.node_id_1].announcement
                == nodes[c.node_id_1].announcement
            &&& nodes.contains_key(c.node_id_2) ==> after[c.node_id_2].announcement
                == nodes[c.node_id_2].announcement
            &&& known.contains(c.short_channel_id)
            &&& channel_announcement_outcome(chain, known, wire) is Dropped
        }),
{
}

/// A node's announcement and its first channel may come in either order: what
/// is known of the node in the end is the same.
pub proof fn lemma_order_does_not_matter(
    chain: Seq<u8>,
    nodes: Map<Seq<u8>, NodeView>,
    channels: Set<u64>,
    node_wire: Seq<u8>,
    channel_wire: Seq<u8>,
)
    requires
        node_announcement_outcome(nodes, node_wire) == Outcome::Applied,
        channel_announcement_outcome(chain, channels, channel_wire) == Outcome::Applied,
    ensures
        ({
            let node_first = nodes_after_channel_announcement(
                chain,
                nodes_after_node_announcement(nodes, node_wire),
                channels,
                channel_wire,
            );
            let channel_first = nodes_after_node_announcement(
                nodes_after_channel_announcement(chain, nodes, channels, channel_wire),
                node_wire,
            );
            &&& node_announcement_outcome(
                nodes_after_channel_announcement(chain, nodes, channels, channel_wire),
                node_wire,
            ) == Outcome::Applied
            &&& node_first =~= channel_first
        }),
{
    let a = node_announcement_in(node_wire).unwrap();
    let c = channel_announcement_in(channel_wire).unwrap();
    let scid = c.short_channel_id;
    let with_node = with_announcement(nodes, a);
    let with_channel = with_channel_announcement(nodes, c);
    assert(Seq::<u64>::empty().push(scid) =~= seq![scid]);
    assert(with_channel_announcement(with_node, c) =~= with_announcement(with_channel, a));
}

} // verus!
