//! The decisions on gossip: what becomes of an announcement, given the results
//! of the checks made on it.
use crate::message::ChannelAnnouncement;
use crate::message::ChannelAnnouncementView;
use crate::message::NodeAnnouncement;
use crate::message::NodeAnnouncementView;
use crate::message::same_key;
use crate::store::NodeInfo;
use crate::store::NodeView;
use vstd::prelude::*;

verus! {

/// Why an announcement was dropped.
#[derive(Clone, Copy, Debug, PartialEq, Eq, Structural)]
pub enum DropReason {
    /// The message is too short for its signatures, or its payload does not
    /// decode.
    Malformed,
    /// The channel is announced for another chain than the graph's.
    WrongChain,
    /// A signature does not sign the payload under the key it stands for.
    BadSignature,
    /// The two ends of the channel are the same node, or use the same funding
    /// key.
    SelfChannel,
    /// The graph already holds a channel with this short channel id.
    DuplicateChannel,
    /// The graph holds an announcement of the node that is as new or newer.
    Stale,
}

/// What became of an announcement.
#[derive(Clone, Copy, Debug, PartialEq, Eq, Structural)]
pub enum Outcome {
    /// The graph took it.
    Applied,
    /// The graph is as it was.
    Dropped(DropReason),
}

/// The view of an optional node announcement.
pub open spec fn announcement_view(decoded: Option<NodeAnnouncement>) -> Option<
    NodeAnnouncementView,
> {
    match decoded {
        Some(a) => Some(a@),
        None => None,
    }
}

/// The view of an optional channel announcement.
pub open spec fn channel_view(decoded: Option<ChannelAnnouncement>) -> Option<
    ChannelAnnouncementView,
> {
    match decoded {
        Some(c) => Some(c@),
        None => None,
    }
}

/// The view of an optional node entry.
pub open spec fn node_view(found: Option<NodeInfo>) -> Option<NodeView> {
    match found {
        Some(node) => Some(node@),
        None => None,
    }
}

/// What the graph does with a node announcement, given what decoding gave,
/// whether the signature holds, and what the graph knows of the node: the
/// first check that fails names the reason. A node that is not known, or has
/// not announced itself, has nothing that could be newer.
pub open spec fn node_verdict(
    decoded: Option<NodeAnnouncementView>,
    signed: bool,
    stored: Option<NodeView>,
) -> Outcome {
    match decoded {
        None => Outcome::Dropped(DropReason::Malformed),
        Some(a) => if !signed {
            Outcome::Dropped(DropReason::BadSignature)
        } else {
            match stored {
                None => Outcome::Applied,
                Some(node) => match node.announcement {
                    Some(last) => if last.timestamp >= a.info.timestamp {
                        Outcome::Dropped(DropReason::Stale)
                    } else {
                        Outcome::Applied
                    },
                    None => Outcome::Applied,
                },
            }
        },
    }
}

/// What the graph does with a channel announcement, given its chain, what
/// decoding gave, whether all four signatures hold, and whether the channel is
/// already known: the first check that fails names the reason.
pub open spec fn channel_verdict(
    chain: Seq<u8>,
    decoded: Option<ChannelAnnouncementView>,
    signed: bool,
    known: bool,
) -> Outcome {
    match decoded {
        None => Outcome::Dropped(DropReason::Malformed),
        Some(c) => if c.chain_hash != chain {
            Outcome::Dropped(DropReason::WrongChain)
        } else if !signed {
            Outcome::Dropped(DropReason::BadSignature)
        } else if c.node_id_1 == c.node_id_2 || c.bitcoin_key_1 == c.bitcoin_key_2 {
            Outcome::Dropped(DropReason::SelfChannel)
        } else if known {
            Outcome::Dropped(DropReason::DuplicateChannel)
        } else {
            Outcome::Applied
        },
    }
}

/// Decides on a node announcement from the results of the checks made on it.
pub fn judge_node_announcement(
    decoded: &Option<NodeAnnouncement>,
    signed: bool,
    stored: &Option<NodeInfo>,
) -> (verdict: Outcome)
    ensures
        verdict == node_verdict(announcement_view(*decoded), signed, node_view(*stored)),
{
    match decoded {
        None => Outcome::Dropped(DropReason::Malformed),
        Some(a) => {
            if !signed {
                return Outcome::Dropped(DropReason::BadSignature);
            }
            match stored {
                None => Outcome::Applied,
                Some(node) => match &node.announcement {
                    Some(last) => {
                        if last.timestamp >= a.info.timestamp {
                            Outcome::Dropped(DropReason::Stale)
                        } else {
                            Outcome::Applied
                        }
                    },
                    None => Outcome::Applied,
                },
            }
        },
    }
}

fn same_hash(a: &[u8; 32], b: &[u8; 32]) -> (r: bool)
    ensures
        r == (a@ == b@),
{
    let mut i: usize = 0;
    while i < 32
        invariant
            i <= 32,
            forall|k: int| 0 <= k < i ==> a@[k] == b@[k],
        decreases 32 - i,
    {
        if a[i] != b[i] {
            return false;
        }
        i += 1;
    }
    assert(a@ =~= b@);
    true
}

/// Decides on a channel announcement from the results of the checks made on
/// it.
pub fn judge_channel_announcement(
    chain_hash: &[u8; 32],
    decoded: &Option<ChannelAnnouncement>,
    signed: bool,
    known: bool,
) -> (verdict: Outcome)
    ensures
        verdict == channel_verdict(chain_hash@, channel_view(*decoded), signed, known),
{
    match decoded {
        None => Outcome::Dropped(DropReason::Malformed),
        Some(c) => {
            if !same_hash(&c.chain_hash, chain_hash) {
                Outcome::Dropped(DropReason::WrongChain)
            } else if !signed {
                Outcome::Dropped(DropReason::BadSignature)
            } else if c.node_id_1.same(&c.node_id_2) || same_key(
                &c.bitcoin_key_1,
                &c.bitcoin_key_2,
            ) {
                Outcome::Dropped(DropReason::SelfChannel)
            } else if known {
                Outcome::Dropped(DropReason::DuplicateChannel)
            } else {
                Outcome::Applied
            }
        },
    }
}

} // verus!
