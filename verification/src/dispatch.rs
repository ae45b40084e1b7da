//! The dispatcher: it takes the frames that the transport has decrypted, one at
//! a time and in the order of their arrival, hands the two announcements to the
//! gossip graph and passes over every other message.
use crate::graph::channel_announcement_outcome;
use crate::graph::channels_after_channel_announcement;
use crate::graph::Graph;
use crate::graph::node_announcement_outcome;
use crate::graph::nodes_after_channel_announcement;
use crate::graph::nodes_after_node_announcement;
use crate::message::frame_body;
use crate::message::frame_kind;
use crate::message::MessageKind;
use crate::message::split_frame;
use crate::store::NodeView;
use crate::verdict::DropReason;
use crate::verdict::Outcome;
use vstd::prelude::*;

verus! {

/// What the dispatcher did with a frame.
#[derive(Clone, Copy, Debug, PartialEq, Eq, Structural)]
pub enum Routed {
    /// The frame held an announcement, and the graph took it.
    Applied,
    /// The frame held an announcement that the graph dropped, or was too short
    /// to hold a message type.
    Dropped(DropReason),
    /// The frame held a message of another type, which was passed over.
    Ignored(u16),
    /// The dispatcher is closed and did not look at the frame.
    Closed,
}

/// A counter one step on; it stays at its largest value once there.
pub open spec fn bumped(count: u64) -> u64 {
    if count < u64::MAX {
        (count + 1) as u64
    } else {
        count
    }
}

/// What an open dispatcher for `chain` does with `frame`, given what its graph
/// holds.
pub open spec fn routing(
    chain: Seq<u8>,
    nodes: Map<Seq<u8>, NodeView>,
    channels: Set<u64>,
    frame: Seq<u8>,
) -> Routed {
    match frame_kind(frame) {
        None => Routed::Dropped(DropReason::Malformed),
        Some(MessageKind::Other(message_type)) => Routed::Ignored(message_type),
        Some(MessageKind::NodeAnnouncement) => match node_announcement_outcome(
            nodes,
            frame_body(frame),
        ) {
            Outcome::Applied => Routed::Applied,
            Outcome::Dropped(reason) => Routed::Dropped(reason),
        },
        Some(MessageKind::ChannelAnnouncement) => match channel_announcement_outcome(
            chain,
            channels,
            frame_body(frame),
        ) {
            Outcome::Applied => Routed::Applied,
            Outcome::Dropped(reason) => Routed::Dropped(reason),
        },
    }
}

/// The nodes of the graph after an open dispatcher has dealt with `frame`.
pub open spec fn nodes_after_frame(
    chain: Seq<u8>,
    nodes: Map<Seq<u8>, NodeView>,
    channels: Set<u64>,
    frame: Seq<u8>,
) -> Map<Seq<u8>, NodeView> {
    match frame_kind(frame) {
        Some(MessageKind::NodeAnnouncement) => nodes_after_node_announcement(
            nodes,
            frame_body(frame),
        ),
        Some(MessageKind::ChannelAnnouncement) => nodes_after_channel_announcement(
            chain,
            nodes,
            channels,
            frame_body(frame),
        ),
        _ => nodes,
    }
}

/// The channels of the graph after an open dispatcher has dealt with `frame`.
pub open spec fn channels_after_frame(chain: Seq<u8>, channels: Set<u64>, frame: Seq<u8>) -> Set<
    u64,
> {
    match frame_kind(frame) {
        Some(MessageKind::ChannelAnnouncement) => channels_after_channel_announcement(
            chain,
            channels,
            frame_body(frame),
        ),
        _ => channels,
    }
}

/// Only a frame that is applied changes the graph: after one that is dropped
/// or passed over, the nodes and channels are as they were.
pub proof fn lemma_only_applied_frames_change_the_graph(
    chain: Seq<u8>,
    nodes: Map<Seq<u8>, NodeView>,
    channels: Set<u64>,
    frame: Seq<u8>,
)
    requires
        routing(chain, nodes, channels, frame) != Routed::Applied,
    ensures
        nodes_after_frame(chain, nodes, channels, frame) == nodes,
        channels_after_frame(chain, channels, frame) == channels,
{
}

/// The dispatcher of one connection, with the graph that it feeds.
pub struct Dispatcher {
    graph: Graph,
    open: bool,
    applied: u64,
    dropped: u64,
    ignored: u64,
    last_activity: u64,
}

impl Dispatcher {
    /// The graph that the dispatcher feeds.
    pub closed spec fn graph_of(&self) -> Graph {
        self.graph
    }

    /// Whether the connection is open.
    pub closed spec fn open(&self) -> bool {
        self.open
    }

    /// The number of announcements that the graph took.
    pub closed spec fn applied(&self) -> u64 {
        self.applied
    }

    /// The number of frames that were dropped.
    pub closed spec fn dropped(&self) -> u64 {
        self.dropped
    }

    /// The number of messages of other types that were passed over.
    pub closed spec fn ignored(&self) -> u64 {
        self.ignored
    }

    /// The time of the last frame.
    pub closed spec fn last_activity(&self) -> u64 {
        self.last_activity
    }

    /// The invariant: that of the graph.
    pub open spec fn wf(&self) -> bool {
        self.graph_of().wf()
    }

    /// An open dispatcher at time `now`, with an empty graph for the chain with
    /// the given genesis hash.
    pub fn new(chain_hash: [u8; 32], now: u64) -> (dispatcher: Dispatcher)
        ensures
            dispatcher.wf(),
            dispatcher.open(),
            dispatcher.graph_of().chain() == chain_hash@,
            dispatcher.graph_of().nodes() == crate::store::no_nodes(),
            dispatcher.graph_of().channels() == crate::store::no_channels(),
            dispatcher.applied() == 0,
            dispatcher.dropped() == 0,
            dispatcher.ignored() == 0,
            dispatcher.last_activity() == now,
    {
        Dispatcher {
            graph: Graph::new(chain_hash),
            open: true,
            applied: 0,
            dropped: 0,
            ignored: 0,
            last_activity: now,
        }
    }

    /// The graph, for queries.
    pub fn graph(&self) -> (graph: &Graph)
        ensures
            *graph == self.graph_of(),
    {
        &self.graph
    }

    /// Whether the connection is open.
    pub fn is_open(&self) -> (open: bool)
        ensures
            open == self.open(),
    {
        self.open
    }

    /// The number of announcements that the graph took.
    pub fn applied_count(&self) -> (count: u64)
        ensures
            count == self.applied(),
    {
        self.applied
    }

    /// The number of frames that were dropped.
    pub fn dropped_count(&self) -> (count: u64)
        ensures
            count == self.dropped(),
    {
        self.dropped
    }

    /// The number of messages of other types that were passed over.
    pub fn ignored_count(&self) -> (count: u64)
        ensures
            count == self.ignored(),
    {
        self.ignored
    }

    /// The time of the last frame.
    pub fn last_activity_time(&self) -> (time: u64)
        ensures
            time == self.last_activity(),
    {
        self.last_activity
    }

    /// Closes the dispatcher: from now on it looks at no frame. The graph and
    /// the counters stay as they are.
    pub fn close(&mut self)
        ensures
            !final(self).open(),
            final(self).graph_of() == old(self).graph_of(),
            final(self).applied() == old(self).applied(),
            final(self).dropped() == old(self).dropped(),
            final(self).ignored() == old(self).ignored(),
            final(self).last_activity() == old(self).last_activity(),
    {
        self.open = false;
    }

    /// Deals with one decrypted frame that arrived at time `now`: a two-byte
    /// message type, then the message. A closed dispatcher does nothing. An
    /// open one notes the time, hands a node or channel announcement to the
    /// graph, passes over a message of any other type, and counts what it did.
    /// No frame closes the dispatcher.
    pub fn handle_frame(&mut self, frame: &[u8], now: u64) -> (routed: Routed)
        ensures
            final(self).wf(),
            final(self).open() == old(self).open(),
            final(self).graph_of().chain() == old(self).graph_of().chain(),
            !old(self).open() ==> routed == Routed::Closed && *final(self) == *old(self),
            old(self).open() ==> {
                let chain = old(self).graph_of().chain();
                let nodes = old(self).graph_of().nodes();
                let channels = old(self).graph_of().channels();
                &&& routed == routing(chain, nodes, channels, frame@)
                &&& final(self).graph_of().nodes() == nodes_after_frame(
                    chain,
                    nodes,
                    channels,
                    frame@,
                )
                &&& final(self).graph_of().channels() == channels_after_frame(
                    chain,
                    channels,
                    frame@,
                )
                &&& final(self).last_activity() == now
                &&& final(self).applied() == if routed == Routed::Applied {
                    bumped(old(self).applied())
                } else {
                    old(self).applied()
                }
                &&& final(self).dropped() == if routed is Dropped {
                    bumped(old(self).dropped())
                } else {
                    old(self).dropped()
                }
                &&& final(self).ignored() == if routed is Ignored {
                    bumped(old(self).ignored())
                } else {
                    old(self).ignored()
                }
            },
    {
        proof {
            use_type_invariant(&self.graph);
        }
        if !self.open {
            return Routed::Closed;
        }
        self.last_activity = now;
        let routed = match split_frame(frame) {
            None => Routed::Dropped(DropReason::Malformed),
            Some((MessageKind::Other(message_type), _)) => Routed::Ignored(message_type),
            Some((MessageKind::NodeAnnouncement, body)) => {
                match self.graph.apply_node_announcement(body) {
                    Outcome::Applied => Routed::Applied,
                    Outcome::Dropped(reason) => Routed::Dropped(reason),
                }
            },
            Some((MessageKind::ChannelAnnouncement, body)) => {
                match self.graph.apply_channel_announcement(body) {
                    Outcome::Applied => Routed::Applied,
                    Outcome::Dropped(reason) => Routed::Dropped(reason),
                }
            },
        };
        match routed {
            Routed::Applied => {
                self.applied = bump(self.applied);
            },
            Routed::Dropped(_) => {
                self.dropped = bump(self.dropped);
            },
            Routed::Ignored(_) => {
                self.ignored = bump(self.ignored);
            },
            Routed::Closed => {},
        }
        routed
    }
}

fn bump(count: u64) -> (next: u64)
    ensures
        next == bumped(count),
{
    if count < u64::MAX {
        count + 1
    } else {
        count
    }
}

} // verus!
