//! Announcements of nodes that no channel has made known yet.
//!
//! The store takes a node's announcement only once a channel has made the node
//! known. Until then the graph keeps the newest announcement of the node here,
//! together with the payload it was decoded from, and hands that payload to
//! the store when the node's first channel arrives.
use crate::message::AnnouncementView;
use crate::message::MAX_MESSAGE_LEN;
use crate::message::node_announcement_fields;
use crate::message::NodeAnnouncement;
use crate::message::NodeId;
use vstd::prelude::*;

verus! {

/// A node announcement that waits for its node's first channel.
pub struct Waiting {
    /// What the payload decodes to.
    pub announcement: NodeAnnouncement,
    /// The payload as it arrived.
    pub payload: Vec<u8>,
}

/// Whether the entry at `i` is that of node `id`.
pub open spec fn waits_at(list: Seq<Waiting>, id: Seq<u8>, i: int) -> bool {
    0 <= i < list.len() && list[i].announcement.node_id@ == id
}

/// Whether an announcement of node `id` waits.
pub open spec fn waits(list: Seq<Waiting>, id: Seq<u8>) -> bool {
    exists|i: int| waits_at(list, id, i)
}

/// Where the announcement of node `id` waits.
pub open spec fn place(list: Seq<Waiting>, id: Seq<u8>) -> int {
    choose|i: int| waits_at(list, id, i)
}

/// The waiting announcements, by the node they are of.
pub open spec fn waiting_map(list: Seq<Waiting>) -> Map<Seq<u8>, AnnouncementView> {
    Map::new(
        |id: Seq<u8>| waits(list, id),
        |id: Seq<u8>| list[place(list, id)].announcement.info@,
    )
}

/// Whether an entry is what its payload decodes to, the payload being no
/// longer than a message can be.
pub open spec fn faithful(entry: Waiting) -> bool {
    &&& entry.payload@.len() <= MAX_MESSAGE_LEN
    &&& node_announcement_fields(entry.payload@) == Some(entry.announcement@)
}

/// The invariant of the list: each entry is faithful, and no node has two
/// entries.
pub open spec fn sound(list: Seq<Waiting>) -> bool {
    &&& forall|i: int| 0 <= i < list.len() ==> faithful(#[trigger] list[i])
    &&& forall|i: int, j: int|
        0 <= i < j < list.len() ==> (#[trigger] list[i]).announcement.node_id@ != (
        #[trigger] list[j]).announcement.node_id@
}

/// In a sound list the entry of a node is found where it stands.
pub proof fn lemma_place(list: Seq<Waiting>, id: Seq<u8>, i: int)
    requires
        sound(list),
        waits_at(list, id, i),
    ensures
        waits(list, id),
        place(list, id) == i,
        waiting_map(list).contains_key(id),
        waiting_map(list)[id] == list[i].announcement.info@,
{
    let p = place(list, id);
    assert(waits_at(list, id, p));
    if p < i {
        assert(list[p].announcement.node_id@ != list[i].announcement.node_id@);
    } else if i < p {
        assert(list[i].announcement.node_id@ != list[p].announcement.node_id@);
    }
}

/// What waits has the shape of an announcement: a key of 33 bytes, an alias of
/// 32 and a colour of three.
pub proof fn lemma_shapes(list: Seq<Waiting>)
    ensures
        forall|id: Seq<u8>| #[trigger]
            waiting_map(list).contains_key(id) ==> id.len() == 33 && waiting_map(
                list,
            )[id].alias.len() == 32 && waiting_map(list)[id].rgb.len() == 3,
{
    assert forall|id: Seq<u8>| #[trigger] waiting_map(list).contains_key(id) implies id.len() == 33
        && waiting_map(list)[id].alias.len() == 32 && waiting_map(list)[id].rgb.len() == 3 by {
        let p = place(list, id);
        assert(waits_at(list, id, p));
        assert(list[p].announcement.node_id.bytes@.len() == 33);
        assert(list[p].announcement.info.alias@.len() == 32);
        assert(list[p].announcement.info.rgb@.len() == 3);
    }
}

/// An empty list holds nothing.
pub proof fn lemma_empty(list: Seq<Waiting>)
    requires
        list.len() == 0,
    ensures
        sound(list),
        waiting_map(list) =~= Map::<Seq<u8>, AnnouncementView>::empty(),
{
    assert forall|id: Seq<u8>| !waits(list, id) by {
        if waits(list, id) {
            let i = choose|i: int| waits_at(list, id, i);
            assert(waits_at(list, id, i));
        }
    }
}

/// Adding the entry of a node that has none adds it to the map.
pub proof fn lemma_push(list: Seq<Waiting>, entry: Waiting)
    requires
        sound(list),
        !waits(list, entry.announcement.node_id@),
        faithful(entry),
    ensures
        sound(list.push(entry)),
        waiting_map(list.push(entry)) =~= waiting_map(list).insert(
            entry.announcement.node_id@,
            entry.announcement.info@,
        ),
{
    let after = list.push(entry);
    let id = entry.announcement.node_id@;
    assert forall|i: int, j: int| 0 <= i < j < after.len() implies (
    #[trigger] after[i]).announcement.node_id@ != (#[trigger] after[j]).announcement.node_id@ by {
        if j == list.len() {
            assert(!waits_at(list, id, i));
        }
    }
    assert(waits_at(after, id, list.len() as int));
    lemma_place(after, id, list.len() as int);
    assert forall|other: Seq<u8>| other != id implies (waits(after, other) <==> waits(list, other))
        && (waits(list, other) ==> after[place(after, other)].announcement.info@
        == list[place(list, other)].announcement.info@) by {
        if waits(list, other) {
            let p = place(list, other);
            assert(waits_at(list, other, p));
            assert(waits_at(after, other, p));
            lemma_place(after, other, p);
        }
        if waits(after, other) {
            let p = place(after, other);
            assert(waits_at(after, other, p));
            assert(waits_at(list, other, p));
        }
    }
}

/// Replacing the entry of a node replaces it in the map.
pub proof fn lemma_update(list: Seq<Waiting>, i: int, entry: Waiting)
    requires
        sound(list),
        waits_at(list, entry.announcement.node_id@, i),
        faithful(entry),
    ensures
        sound(list.update(i, entry)),
        waiting_map(list.update(i, entry)) =~= waiting_map(list).insert(
            entry.announcement.node_id@,
            entry.announcement.info@,
        ),
{
    let after = list.update(i, entry);
    let id = entry.announcement.node_id@;
    assert forall|a: int, b: int| 0 <= a < b < after.len() implies (
    #[trigger] after[a]).announcement.node_id@ != (#[trigger] after[b]).announcement.node_id@ by {
        assert(list[a].announcement.node_id@ != list[b].announcement.node_id@);
    }
    assert(waits_at(after, id, i));
    lemma_place(after, id, i);
    assert forall|other: Seq<u8>| other != id implies (waits(after, other) <==> waits(list, other))
        && (waits(list, other) ==> after[place(after, other)].announcement.info@
        == list[place(list, other)].announcement.info@) by {
        if waits(list, other) {
            let p = place(list, other);
            assert(waits_at(list, other, p));
            assert(waits_at(after, other, p));
            lemma_place(after, other, p);
        }
        if waits(after, other) {
            let p = place(after, other);
            assert(waits_at(after, other, p));
            assert(waits_at(list, other, p));
        }
    }
}

/// Taking an entry out takes its node out of the map.
pub proof fn lemma_remove(list: Seq<Waiting>, i: int)
    requires
        sound(list),
        0 <= i < list.len(),
    ensures
        sound(list.remove(i)),
        waiting_map(list.remove(i)) =~= waiting_map(list).remove(list[i].announcement.node_id@),
{
    let after = list.remove(i);
    let id = list[i].announcement.node_id@;
    assert forall|a: int| 0 <= a < after.len() implies after[a] == list[if a < i {
        a
    } else {
        a + 1
    }] by {}
    assert forall|a: int, b: int| 0 <= a < b < after.len() implies (
    #[trigger] after[a]).announcement.node_id@ != (#[trigger] after[b]).announcement.node_id@ by {
        let before_a = if a < i {
            a
        } else {
            a + 1
        };
        let before_b = if b < i {
            b
        } else {
            b + 1
        };
        assert(list[before_a].announcement.node_id@ != list[before_b].announcement.node_id@);
    }
    assert forall|a: int| 0 <= a < after.len() implies faithful(#[trigger] after[a]) by {
        let before_a = if a < i {
            a
        } else {
            a + 1
        };
        assert(after[a] == list[before_a]);
    }
    assert(!waits(after, id)) by {
        if waits(after, id) {
            let p = place(after, id);
            assert(waits_at(after, id, p));
            let before_p = if p < i {
                p
            } else {
                p + 1
            };
            assert(after[p] == list[before_p]);
            if before_p < i {
                assert(list[before_p].announcement.node_id@ != list[i].announcement.node_id@);
            } else {
                assert(list[i].announcement.node_id@ != list[before_p].announcement.node_id@);
            }
        }
    }
    assert forall|other: Seq<u8>| other != id implies (waits(after, other) <==> waits(list, other))
        && (waits(list, other) ==> after[place(after, other)].announcement.info@
        == list[place(list, other)].announcement.info@) by {
        if waits(list, other) {
            let p = place(list, other);
            assert(waits_at(list, other, p));
            let q = if p < i {
                p
            } else {
                p - 1
            };
            assert(after[q] == list[p]);
            assert(waits_at(after, other, q));
            lemma_place(after, other, q);
        }
        if waits(after, other) {
            let p = place(after, other);
            assert(waits_at(after, other, p));
            let before_p = if p < i {
                p
            } else {
                p + 1
            };
            assert(after[p] == list[before_p]);
            assert(waits_at(list, other, before_p));
        }
    }
}

/// Finds the entry of node `id`.
pub fn find(list: &Vec<Waiting>, id: &NodeId) -> (found: Option<usize>)
    ensures
        found matches Some(i) ==> waits_at(list@, id@, i as int),
        found is None ==> !waits(list@, id@),
{
    let mut i: usize = 0;
    while i < list.len()
        invariant
            i <= list.len(),
            forall|k: int| 0 <= k < i ==> !waits_at(list@, id@, k),
        decreases list.len() - i,
    {
        if list[i].announcement.node_id.same(id) {
            return Some(i);
        }
        i += 1;
    }
    assert(!waits(list@, id@)) by {
        if waits(list@, id@) {
            let k = choose|k: int| waits_at(list@, id@, k);
            assert(waits_at(list@, id@, k));
        }
    }
    None
}

/// Keeps `entry` as the announcement of its node, in place of the one that
/// waited for that node, if one did.
pub fn keep(list: &mut Vec<Waiting>, entry: Waiting)
    requires
        sound(old(list)@),
        faithful(entry),
    ensures
        sound(final(list)@),
        waiting_map(final(list)@) == waiting_map(old(list)@).insert(
            entry.announcement.node_id@,
            entry.announcement.info@,
        ),
{
    match find(list, &entry.announcement.node_id) {
        Some(i) => {
            proof {
                lemma_update(list@, i as int, entry);
            }
            list.set(i, entry);
        },
        None => {
            proof {
                lemma_push(list@, entry);
            }
            list.push(entry);
        },
    }
}

/// Takes the announcement of node `id` out of the list, if one waits.
pub fn take(list: &mut Vec<Waiting>, id: &NodeId) -> (taken: Option<Waiting>)
    requires
        sound(old(list)@),
    ensures
        sound(final(list)@),
        waiting_map(final(list)@) == waiting_map(old(list)@).remove(id@),
        taken matches Some(entry) ==> waiting_map(old(list)@).contains_key(id@)
            && entry.announcement.node_id@ == id@ && waiting_map(old(list)@)[id@]
            == entry.announcement.info@ && faithful(entry),
        taken is None ==> !waiting_map(old(list)@).contains_key(id@),
{
    match find(list, id) {
        Some(i) => {
            proof {
                lemma_place(list@, id@, i as int);
                lemma_remove(list@, i as int);
            }
            Some(list.remove(i))
        },
        None => {
            assert(waiting_map(list@).remove(id@) =~= waiting_map(list@));
            None
        },
    }
}

} // verus!
