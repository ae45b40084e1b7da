//! The gossip graph: which nodes are known, what each has announced of itself,
//! and which channels each takes part in.
//!
//! Announcements arrive as signed messages. A message is decoded, held against
//! the graph's chain, checked for its signatures and for what the graph already
//! knows, and only then stored. A message that fails a check is dropped: the
//! graph stays as it was and the caller learns the reason.
//!
//! What is known is kept in the store. The store takes the announcement of a
//! node only after a channel has made the node known; the graph keeps an
//! earlier announcement aside and hands it to the store with the node's first
//! channel. To the caller such a node is known from its announcement on, with
//! no channels.
use crate::crypto::signed_at;
use crate::crypto::verify_signature_at;
use crate::message::AnnouncementInfo;
use crate::message::AnnouncementView;
use crate::message::byte_strings;
use crate::message::channel_announcement_in;
use crate::message::CHANNEL_SIGNATURES_LEN;
use crate::message::ChannelAnnouncementView;
use crate::message::node_announcement_in;
use crate::message::NODE_SIGNATURES_LEN;
use crate::message::NodeAnnouncementView;
use crate::message::NodeId;
use crate::message::payload_of;
use crate::message::read_channel_announcement;
use crate::message::read_node_announcement;
use crate::message::signed_payload;
use crate::store::no_channels;
use crate::store::no_nodes;
use crate::store::NodeInfo;
use crate::store::NodeView;
use crate::store::Store;
use crate::store::store_channels;
use crate::store::store_has_channel;
use crate::store::store_new;
use crate::store::store_node;
use crate::store::store_nodes;
use crate::store::store_update_channel;
use crate::store::store_update_node;
use crate::store::with_channel_announcement;
use crate::store::with_channel_at;
use crate::store::with_node_announcement;
use crate::verdict::channel_verdict;
use crate::verdict::judge_channel_announcement;
use crate::verdict::judge_node_announcement;
use crate::verdict::node_verdict;
use crate::verdict::node_view;
use crate::verdict::Outcome;
use crate::waiting::find;
use crate::waiting::keep;
use crate::waiting::lemma_empty;
use crate::waiting::lemma_place;
use crate::waiting::lemma_shapes;
use crate::waiting::sound;
use crate::waiting::take;
use crate::waiting::Waiting;
use crate::waiting::waiting_map;
use vstd::prelude::*;
use vstd::slice::slice_to_vec;

verus! {

/// Whether the signature at the head of `wire` signs the payload behind it
/// under the key of the node that the payload announces.
pub open spec fn node_announcement_signed(wire: Seq<u8>) -> bool {
    match node_announcement_in(wire) {
        Some(a) => signed_at(
            wire,
            0,
            a.node_id,
            signed_payload(wire, NODE_SIGNATURES_LEN as int).unwrap(),
        ),
        None => false,
    }
}

/// Whether the four signatures at the head of `wire` sign the payload behind
/// them: the first two under the keys of the two endpoints, the last two under
/// their funding keys.
pub open spec fn channel_announcement_signed(wire: Seq<u8>) -> bool {
    match channel_announcement_in(wire) {
        Some(c) => {
            let payload = signed_payload(wire, CHANNEL_SIGNATURES_LEN as int).unwrap();
            &&& signed_at(wire, 0, c.node_id_1, payload)
            &&& signed_at(wire, 64, c.node_id_2, payload)
            &&& signed_at(wire, 128, c.bitcoin_key_1, payload)
            &&& signed_at(wire, 192, c.bitcoin_key_2, payload)
        },
        None => false,
    }
}

/// The entry of node `id`, if there is one.
pub open spec fn entry(nodes: Map<Seq<u8>, NodeView>, id: Seq<u8>) -> Option<NodeView> {
    if nodes.contains_key(id) {
        Some(nodes[id])
    } else {
        None
    }
}

/// What a graph with these nodes does with the signed node announcement
/// `wire`.
pub open spec fn node_announcement_outcome(nodes: Map<Seq<u8>, NodeView>, wire: Seq<u8>) -> Outcome {
    node_verdict(
        node_announcement_in(wire),
        node_announcement_signed(wire),
        match node_announcement_in(wire) {
            Some(a) => entry(nodes, a.node_id),
            None => None,
        },
    )
}

/// The nodes after the announcement has become what is known of its node: a
/// node that was known keeps its channels, one that was not has none.
pub open spec fn with_announcement(
    nodes: Map<Seq<u8>, NodeView>,
    a: NodeAnnouncementView,
) -> Map<Seq<u8>, NodeView> {
    nodes.insert(
        a.node_id,
        NodeView {
            announcement: Some(a.info),
            channels: if nodes.contains_key(a.node_id) {
                nodes[a.node_id].channels
            } else {
                Seq::empty()
            },
        },
    )
}

/// The nodes after the graph has dealt with the signed node announcement
/// `wire`.
pub open spec fn nodes_after_node_announcement(
    nodes: Map<Seq<u8>, NodeView>,
    wire: Seq<u8>,
) -> Map<Seq<u8>, NodeView> {
    if node_announcement_outcome(nodes, wire) == Outcome::Applied {
        with_announcement(nodes, node_announcement_in(wire).unwrap())
    } else {
        nodes
    }
}

/// What a graph for `chain` with these channels does with the signed channel
/// announcement `wire`.
pub open spec fn channel_announcement_outcome(
    chain: Seq<u8>,
    channels: Set<u64>,
    wire: Seq<u8>,
) -> Outcome {
    channel_verdict(
        chain,
        channel_announcement_in(wire),
        channel_announcement_signed(wire),
        match channel_announcement_in(wire) {
            Some(c) => channels.contains(c.short_channel_id),
            None => false,
        },
    )
}

/// The nodes after the graph has dealt with the signed channel announcement
/// `wire`.
pub open spec fn nodes_after_channel_announcement(
    chain: Seq<u8>,
    nodes: Map<Seq<u8>, NodeView>,
    channels: Set<u64>,
    wire: Seq<u8>,
) -> Map<Seq<u8>, NodeView> {
    if channel_announcement_outcome(chain, channels, wire) == Outcome::Applied {
        with_channel_announcement(nodes, channel_announcement_in(wire).unwrap())
    } else {
        nodes
    }
}

/// The channels after the graph has dealt with the signed channel announcement
/// `wire`.
pub open spec fn channels_after_channel_announcement(
    chain: Seq<u8>,
    channels: Set<u64>,
    wire: Seq<u8>,
) -> Set<u64> {
    if channel_announcement_outcome(chain, channels, wire) == Outcome::Applied {
        channels.insert(channel_announcement_in(wire).unwrap().short_channel_id)
    } else {
        channels
    }
}

/// What holds of the contents of every graph: a node is known by the 33 bytes
/// of its key, an alias has 32 bytes and a colour three, no channel stands
/// twice in a node's list, and every channel in a list is a known channel.
pub open spec fn consistent(nodes: Map<Seq<u8>, NodeView>, channels: Set<u64>) -> bool {
    forall|id: Seq<u8>| #[trigger]
        nodes.contains_key(id) ==> {
            &&& id.len() == 33
            &&& nodes[id].channels.no_duplicates()
            &&& forall|i: int|
                0 <= i < nodes[id].channels.len() ==> channels.contains(
                    #[trigger] nodes[id].channels[i],
                )
            &&& nodes[id].announcement matches Some(info) ==> info.alias.len() == 32
                && info.rgb.len() == 3
        }
}

/// Adding a new channel to one node keeps the contents consistent.
proof fn lemma_with_channel_at_consistent(
    nodes: Map<Seq<u8>, NodeView>,
    channels: Set<u64>,
    id: Seq<u8>,
    scid: u64,
)
    requires
        consistent(nodes, channels),
        id.len() == 33,
        nodes.contains_key(id) ==> !nodes[id].channels.contains(scid),
    ensures
        consistent(with_channel_at(nodes, id, scid), channels.insert(scid)),
        forall|other: Seq<u8>|
            other != id ==> (#[trigger] with_channel_at(nodes, id, scid).contains_key(other)
                <==> nodes.contains_key(other)),
        forall|other: Seq<u8>|
            other != id && nodes.contains_key(other) ==> #[trigger] with_channel_at(
                nodes,
                id,
                scid,
            )[other] == nodes[other],
{
    let after = with_channel_at(nodes, id, scid);
    assert forall|k: Seq<u8>| #[trigger] after.contains_key(k) implies {
        &&& k.len() == 33
        &&& after[k].channels.no_duplicates()
        &&& forall|i: int|
            0 <= i < after[k].channels.len() ==> channels.insert(scid).contains(
                #[trigger] after[k].channels[i],
            )
        &&& after[k].announcement matches Some(info) ==> info.alias.len() == 32 && info.rgb.len()
            == 3
    } by {
        if k == id {
            if nodes.contains_key(id) {
                let before = nodes[id].channels;
                assert(after[k].channels == before.push(scid));
                assert forall|i: int, j: int|
                    0 <= i < before.push(scid).len() && 0 <= j < before.push(scid).len() && i
                        != j implies before.push(scid)[i] != before.push(scid)[j] by {
                    if i < before.len() && j < before.len() {
                    } else if i < before.len() {
                        assert(before.contains(before[i]));
                    } else {
                        assert(before.contains(before[j]));
                    }
                }
            } else {
                assert(after[k].channels == seq![scid]);
            }
        } else {
            assert(nodes.contains_key(k));
            assert(after[k] == nodes[k]);
        }
    }
}

/// What the graph knows, given what the store holds and which announcements
/// wait: the store's entries, and for each node that waits an entry with its
/// announcement and no channel.
pub open spec fn merged(
    stored: Map<Seq<u8>, NodeView>,
    waiting: Map<Seq<u8>, AnnouncementView>,
) -> Map<Seq<u8>, NodeView> {
    Map::new(
        |id: Seq<u8>| stored.contains_key(id) || waiting.contains_key(id),
        |id: Seq<u8>|
            if stored.contains_key(id) {
                stored[id]
            } else {
                NodeView { announcement: Some(waiting[id]), channels: Seq::empty() }
            },
    )
}

/// Whether no node that waits is in the store.
pub open spec fn apart(
    stored: Map<Seq<u8>, NodeView>,
    waiting: Map<Seq<u8>, AnnouncementView>,
) -> bool {
    forall|id: Seq<u8>| #[trigger] waiting.contains_key(id) ==> !stored.contains_key(id)
}

/// Whether what waits has the shape of an announcement.
pub open spec fn shaped(waiting: Map<Seq<u8>, AnnouncementView>) -> bool {
    forall|id: Seq<u8>| #[trigger]
        waiting.contains_key(id) ==> id.len() == 33 && waiting[id].alias.len() == 32
            && waiting[id].rgb.len() == 3
}

/// What is known is consistent where the store is and what waits is shaped.
proof fn lemma_merged_consistent(
    stored: Map<Seq<u8>, NodeView>,
    channels: Set<u64>,
    waiting: Map<Seq<u8>, AnnouncementView>,
)
    requires
        consistent(stored, channels),
        shaped(waiting),
    ensures
        consistent(merged(stored, waiting), channels),
{
    let all = merged(stored, waiting);
    assert forall|id: Seq<u8>| #[trigger] all.contains_key(id) implies {
        &&& id.len() == 33
        &&& all[id].channels.no_duplicates()
        &&& forall|i: int|
            0 <= i < all[id].channels.len() ==> channels.contains(#[trigger] all[id].channels[i])
        &&& all[id].announcement matches Some(info) ==> info.alias.len() == 32 && info.rgb.len()
            == 3
    } by {
        if stored.contains_key(id) {
        } else {
            assert(waiting.contains_key(id));
        }
    }
}

/// Storing an accepted announcement keeps the store consistent.
proof fn lemma_with_node_announcement_consistent(
    stored: Map<Seq<u8>, NodeView>,
    channels: Set<u64>,
    a: NodeAnnouncementView,
)
    requires
        consistent(stored, channels),
        stored.contains_key(a.node_id),
        a.info.alias.len() == 32,
        a.info.rgb.len() == 3,
    ensures
        consistent(with_node_announcement(stored, a), channels),
{
    let after = with_node_announcement(stored, a);
    assert forall|id: Seq<u8>| #[trigger] after.contains_key(id) implies {
        &&& id.len() == 33
        &&& after[id].channels.no_duplicates()
        &&& forall|i: int|
            0 <= i < after[id].channels.len() ==> channels.contains(
                #[trigger] after[id].channels[i],
            )
        &&& after[id].announcement matches Some(info) ==> info.alias.len() == 32
            && info.rgb.len() == 3
    } by {
        assert(stored.contains_key(id));
    }
}

/// Adding a channel to both its endpoints keeps the store consistent.
proof fn lemma_with_channel_consistent(
    stored: Map<Seq<u8>, NodeView>,
    channels: Set<u64>,
    c: ChannelAnnouncementView,
)
    requires
        consistent(stored, channels),
        !channels.contains(c.short_channel_id),
        c.node_id_1.len() == 33,
        c.node_id_2.len() == 33,
        c.node_id_1 != c.node_id_2,
    ensures
        consistent(with_channel_announcement(stored, c), channels.insert(c.short_channel_id)),
{
    let scid = c.short_channel_id;
    assert forall|id: Seq<u8>| stored.contains_key(id) implies !stored[id].channels.contains(
        scid,
    ) by {
        if stored[id].channels.contains(scid) {
            let i = choose|i: int|
                0 <= i < stored[id].channels.len() && stored[id].channels[i] == scid;
            assert(channels.contains(stored[id].channels[i]));
        }
    }
    lemma_with_channel_at_consistent(stored, channels, c.node_id_1, scid);
    let middle = with_channel_at(stored, c.node_id_1, scid);
    assert(middle.contains_key(c.node_id_2) ==> stored.contains_key(c.node_id_2)
        && middle[c.node_id_2] == stored[c.node_id_2]);
    lemma_with_channel_at_consistent(middle, channels.insert(scid), c.node_id_2, scid);
    assert(channels.insert(scid).insert(scid) == channels.insert(scid));
}

/// The store after an announcement that waited for node `id` has been handed
/// to it.
pub open spec fn handed_over(
    stored: Map<Seq<u8>, NodeView>,
    waiting: Map<Seq<u8>, AnnouncementView>,
    id: Seq<u8>,
) -> Map<Seq<u8>, NodeView> {
    if waiting.contains_key(id) {
        stored.insert(
            id,
            NodeView { announcement: Some(waiting[id]), channels: stored[id].channels },
        )
    } else {
        stored
    }
}

/// Adding a channel to the store and handing over what waited for its
/// endpoints is adding the channel to what is known.
proof fn lemma_channel_settles(
    stored: Map<Seq<u8>, NodeView>,
    waiting: Map<Seq<u8>, AnnouncementView>,
    c: ChannelAnnouncementView,
)
    requires
        apart(stored, waiting),
        c.node_id_1 != c.node_id_2,
    ensures
        ({
            let added = with_channel_announcement(stored, c);
            let first = handed_over(added, waiting, c.node_id_1);
            let second = handed_over(first, waiting, c.node_id_2);
            let left = waiting.remove(c.node_id_1).remove(c.node_id_2);
            &&& apart(second, left)
            &&& merged(second, left) =~= with_channel_announcement(merged(stored, waiting), c)
        }),
{
    let scid = c.short_channel_id;
    assert(Seq::<u64>::empty().push(scid) =~= seq![scid]);
}

/// Copies a list of byte strings.
fn copy_byte_strings(list: &Vec<Vec<u8>>) -> (copy: Vec<Vec<u8>>)
    ensures
        byte_strings(copy@) == byte_strings(list@),
{
    let mut copy: Vec<Vec<u8>> = Vec::new();
    let mut i: usize = 0;
    while i < list.len()
        invariant
            i <= list.len(),
            copy@.len() == i,
            forall|k: int| 0 <= k < i ==> (#[trigger] copy@[k])@ == list@[k]@,
        decreases list.len() - i,
    {
        copy.push(slice_to_vec(list[i].as_slice()));
        i += 1;
    }
    assert(byte_strings(copy@) =~= byte_strings(list@));
    copy
}

/// Copies an announcement.
fn copy_info(info: &AnnouncementInfo) -> (copy: AnnouncementInfo)
    ensures
        copy@ == info@,
{
    AnnouncementInfo {
        timestamp: info.timestamp,
        rgb: info.rgb,
        alias: info.alias,
        features: slice_to_vec(info.features.as_slice()),
        addresses: copy_byte_strings(&info.addresses),
    }
}

/// The gossip graph of one chain.
pub struct Graph {
    chain_hash: [u8; 32],
    store: Store,
    waiting: Vec<Waiting>,
}

impl Graph {
    /// The known nodes, by the bytes of their identity.
    pub closed spec fn nodes(&self) -> Map<Seq<u8>, NodeView> {
        merged(store_nodes(self.store), waiting_map(self.waiting@))
    }

    /// The short channel ids of the known channels.
    pub closed spec fn channels(&self) -> Set<u64> {
        store_channels(self.store)
    }

    /// The genesis hash of the chain that the graph is for.
    pub closed spec fn chain(&self) -> Seq<u8> {
        self.chain_hash@
    }

    /// How the store and the waiting announcements stand to each other: the
    /// store is consistent, each waiting entry is what its payload decodes to,
    /// no node waits twice, and no node that waits is in the store.
    pub closed spec fn settled(&self) -> bool {
        &&& consistent(store_nodes(self.store), store_channels(self.store))
        &&& sound(self.waiting@)
        &&& apart(store_nodes(self.store), waiting_map(self.waiting@))
    }

    /// The invariant of the graph, which every graph meets: what it knows is
    /// consistent.
    #[verifier::type_invariant]
    pub open spec fn wf(&self) -> bool {
        &&& consistent(self.nodes(), self.channels())
        &&& self.settled()
    }

    /// A graph for the chain with the given genesis hash, which knows no node
    /// and no channel.
    pub fn new(chain_hash: [u8; 32]) -> (graph: Graph)
        ensures
            graph.wf(),
            graph.chain() == chain_hash@,
            graph.nodes() == no_nodes(),
            graph.channels() == no_channels(),
    {
        let store = store_new(&chain_hash);
        let waiting: Vec<Waiting> = Vec::new();
        proof {
            lemma_empty(waiting@);
            assert(merged(store_nodes(store), waiting_map(waiting@)) =~= no_nodes());
        }
        Graph { chain_hash, store, waiting }
    }

    /// The genesis hash of the graph's chain.
    pub fn chain_hash(&self) -> (hash: [u8; 32])
        ensures
            hash@ == self.chain(),
    {
        self.chain_hash
    }

    /// What the graph knows of the node `id`: a copy of its entry, or `None`
    /// where the node is not known.
    pub fn query_node(&self, id: &NodeId) -> (found: Option<NodeInfo>)
        ensures
            node_view(found) == entry(self.nodes(), id@),
    {
        proof {
            use_type_invariant(self);
        }
        match store_node(&self.store, id) {
            Some(node) => Some(node),
            None => match find(&self.waiting, id) {
                Some(i) => {
                    proof {
                        lemma_place(self.waiting@, id@, i as int);
                    }
                    let channels: Vec<u64> = Vec::new();
                    assert(channels@ =~= Seq::<u64>::empty());
                    Some(
                        NodeInfo {
                            announcement: Some(copy_info(&self.waiting[i].announcement.info)),
                            channels,
                        },
                    )
                },
                None => None,
            },
        }
    }

    /// Whether the graph knows a channel with this short channel id.
    pub fn has_channel(&self, short_channel_id: u64) -> (known: bool)
        ensures
            known == self.channels().contains(short_channel_id),
    {
        store_has_channel(&self.store, short_channel_id)
    }

    /// Deals with a signed node announcement: the signature, then the payload.
    /// The announcement becomes what is known of its node where the payload
    /// decodes, the signature holds under the announced node's key, and
    /// nothing as new is known of the node. Otherwise it is dropped and the
    /// graph stays as it was.
    pub fn apply_node_announcement(&mut self, wire: &[u8]) -> (outcome: Outcome)
        ensures
            final(self).wf(),
            final(self).chain() == old(self).chain(),
            final(self).channels() == old(self).channels(),
            outcome == node_announcement_outcome(old(self).nodes(), wire@),
            final(self).nodes() == nodes_after_node_announcement(old(self).nodes(), wire@),
    {
        proof {
            use_type_invariant(&*self);
        }
        let decoded = read_node_announcement(wire);
        let payload = payload_of(wire, NODE_SIGNATURES_LEN);
        let (signed, known) = match (&decoded, payload) {
            (Some(a), Some(p)) => (
                verify_signature_at(wire, 0, &a.node_id.bytes, p),
                self.query_node(&a.node_id),
            ),
            _ => (false, None),
        };
        let verdict = judge_node_announcement(&decoded, signed, &known);
        match (verdict, decoded, payload) {
            (Outcome::Applied, Some(a), Some(p)) => {
                let ghost stored = store_nodes(self.store);
                let ghost aside = waiting_map(self.waiting@);
                proof {
                    lemma_shapes(self.waiting@);
                    if stored.contains_key(a@.node_id) {
                        lemma_with_node_announcement_consistent(
                            stored,
                            store_channels(self.store),
                            a@,
                        );
                        lemma_merged_consistent(
                            with_node_announcement(stored, a@),
                            store_channels(self.store),
                            aside,
                        );
                        assert(merged(with_node_announcement(stored, a@), aside)
                            =~= with_announcement(merged(stored, aside), a@));
                    }
                }
                let taken = store_update_node(&mut self.store, p);
                if !taken {
                    let mut waiting: Vec<Waiting> = Vec::new();
                    proof {
                        lemma_empty(waiting@);
                        lemma_merged_consistent(
                            stored,
                            store_channels(self.store),
                            waiting_map(waiting@),
                        );
                    }
                    core::mem::swap(&mut self.waiting, &mut waiting);
                    keep(&mut waiting, Waiting { announcement: a, payload: slice_to_vec(p) });
                    proof {
                        lemma_shapes(waiting@);
                        lemma_merged_consistent(
                            stored,
                            store_channels(self.store),
                            waiting_map(waiting@),
                        );
                        assert(merged(stored, waiting_map(waiting@)) =~= with_announcement(
                            merged(stored, aside),
                            a@,
                        ));
                    }
                    self.waiting = waiting;
                }
            },
            _ => {},
        }
        verdict
    }

    /// Deals with a signed channel announcement: four signatures, then the
    /// payload. The channel is added to both its endpoints where the payload
    /// decodes, it names the graph's chain, all four signatures hold, the two
    /// endpoints and the two funding keys differ, and the channel is new.
    /// Otherwise it is dropped and the graph stays as it was.
    pub fn apply_channel_announcement(&mut self, wire: &[u8]) -> (outcome: Outcome)
        ensures
            final(self).wf(),
            final(self).chain() == old(self).chain(),
            outcome == channel_announcement_outcome(
                old(self).chain(),
                old(self).channels(),
                wire@,
            ),
            final(self).nodes() == nodes_after_channel_announcement(
                old(self).chain(),
                old(self).nodes(),
                old(self).channels(),
                wire@,
            ),
            final(self).channels() == channels_after_channel_announcement(
                old(self).chain(),
                old(self).channels(),
                wire@,
            ),
    {
        proof {
            use_type_invariant(&*self);
        }
        let decoded = read_channel_announcement(wire);
        let payload = payload_of(wire, CHANNEL_SIGNATURES_LEN);
        let (signed, known) = match (&decoded, payload) {
            (Some(c), Some(p)) => (
                verify_signature_at(wire, 0, &c.node_id_1.bytes, p) && verify_signature_at(
                    wire,
                    64,
                    &c.node_id_2.bytes,
                    p,
                ) && verify_signature_at(wire, 128, &c.bitcoin_key_1, p)
                    && verify_signature_at(wire, 192, &c.bitcoin_key_2, p),
                store_has_channel(&self.store, c.short_channel_id),
            ),
            _ => (false, false),
        };
        let verdict = judge_channel_announcement(&self.chain_hash, &decoded, signed, known);
        match (verdict, &decoded, payload) {
            (Outcome::Applied, Some(c), Some(p)) => {
                let ghost stored = store_nodes(self.store);
                let ghost channels = store_channels(self.store);
                let ghost aside = waiting_map(self.waiting@);
                let ghost added = with_channel_announcement(stored, c@);
                let ghost first = handed_over(added, aside, c@.node_id_1);
                let ghost second = handed_over(first, aside, c@.node_id_2);
                let ghost known_after = channels.insert(c.short_channel_id);
                let mut waiting: Vec<Waiting> = Vec::new();
                proof {
                    lemma_shapes(self.waiting@);
                    lemma_empty(waiting@);
                    lemma_merged_consistent(stored, channels, waiting_map(waiting@));
                    lemma_with_channel_consistent(stored, channels, c@);
                    lemma_merged_consistent(added, known_after, waiting_map(waiting@));
                    if aside.contains_key(c@.node_id_1) {
                        lemma_with_node_announcement_consistent(
                            added,
                            known_after,
                            NodeAnnouncementView { node_id: c@.node_id_1, info: aside[c@.node_id_1] },
                        );
                    }
                    lemma_merged_consistent(first, known_after, waiting_map(waiting@));
                    if aside.contains_key(c@.node_id_2) {
                        lemma_with_node_announcement_consistent(
                            first,
                            known_after,
                            NodeAnnouncementView { node_id: c@.node_id_2, info: aside[c@.node_id_2] },
                        );
                    }
                    lemma_merged_consistent(second, known_after, waiting_map(waiting@));
                    lemma_channel_settles(stored, aside, c@);
                }
                core::mem::swap(&mut self.waiting, &mut waiting);
                let taken = store_update_channel(&mut self.store, p);
                assert(taken);
                match take(&mut waiting, &c.node_id_1) {
                    Some(entry) => {
                        let taken = store_update_node(&mut self.store, entry.payload.as_slice());
                        assert(taken);
                    },
                    None => {},
                }
                assert(store_nodes(self.store) == first);
                match take(&mut waiting, &c.node_id_2) {
                    Some(entry) => {
                        let taken = store_update_node(&mut self.store, entry.payload.as_slice());
                        assert(taken);
                    },
                    None => {},
                }
                assert(store_nodes(self.store) == second);
                proof {
                    lemma_shapes(waiting@);
                    lemma_merged_consistent(second, known_after, waiting_map(waiting@));
                }
                self.waiting = waiting;
            },
            _ => {},
        }
        verdict
    }
}

} // verus!
