//! The vehicle's stored mission, and the mission-sync protocol driver.
//!
//! Mission-item replies arrive asynchronously and are merged into one
//! collection keyed by sequence number: a later item with the same number
//! replaces the earlier one, and the collection stays sorted by sequence
//! number after every insertion.  The driver is two-phase: first the item
//! count is requested; once the count reply arrives, one request per
//! sequence number still outstanding is issued.  Completion is implicit
//! in the reported progress; items that never arrive are never retried.

use vstd::prelude::*;

use crate::msg::DEFAULT_TARGET_COMPONENT;
use crate::msg::DEFAULT_TARGET_SYSTEM;
use crate::msg::MissionItem;
use crate::msg::RequestMessage;

verus! {

/// The mission collection is strictly sorted by sequence number; in
/// particular no two entries share a number.
pub open spec fn mission_sorted(s: Seq<MissionItem>) -> bool {
    forall|i: int, j: int| 0 <= i < j < s.len() ==> (#[trigger] s[i]).seq < (#[trigger] s[j]).seq
}

/// Everything known about the vehicle's stored mission.
pub struct MissionDetails {
    /// The items received so far, sorted by sequence number.
    pub mission_messages: Vec<MissionItem>,
    /// When this enumeration cycle was started; `None` until the Mission
    /// screen first asks, and again after an operator reset.
    pub last_mission_request: Option<u64>,
    /// The item count announced by the vehicle; `None` until its reply
    /// arrives.
    pub mission_items_to_load_num: Option<u16>,
}

impl MissionDetails {
    /// The item collection is sorted and never holds more entries than
    /// sequence numbers exist.
    pub open spec fn wf(self) -> bool {
        mission_sorted(self.mission_messages@)
    }

    /// An empty mission model: nothing received, nothing requested.
    pub fn new() -> (details: MissionDetails)
        ensures
            details.wf(),
            details.mission_messages@.len() == 0,
            details.last_mission_request is None,
            details.mission_items_to_load_num is None,
    {
        MissionDetails {
            mission_messages: Vec::new(),
            last_mission_request: None,
            mission_items_to_load_num: None,
        }
    }

    /// The progress pair shown on the Mission screen: how many items have
    /// arrived, out of how many the vehicle announced (`None` while the
    /// count is unknown).
    pub fn progress(&self) -> (r: (usize, Option<u16>))
        ensures
            r.0 == self.mission_messages@.len(),
            r.1 == self.mission_items_to_load_num,
    {
        (self.mission_messages.len(), self.mission_items_to_load_num)
    }
}

/// How the mission collection changes when one item reply is merged in:
/// the result is still sorted, holds the new item, keeps exactly the old
/// items whose sequence number differs, and has grown by at most one.
/// Together with strict sortedness this pins the resulting sequence
/// completely.
pub open spec fn mission_upserted(before: Seq<MissionItem>, after: Seq<MissionItem>, item: MissionItem) -> bool {
    &&& mission_sorted(after)
    &&& forall|q: MissionItem| #[trigger]
        after.contains(q) <==> (q == item || (before.contains(q) && q.seq != item.seq))
    &&& before.len() <= after.len() <= before.len() + 1
}

/// Merge one mission-item reply into the collection: an entry with the
/// same sequence number is replaced, any other number is inserted at its
/// sorted position.  The collection never shrinks and stays strictly
/// sorted by sequence number.
pub fn upsert_mission_item(items: &mut Vec<MissionItem>, item: MissionItem)
    requires
        mission_sorted(old(items)@),
    ensures
        mission_upserted(old(items)@, final(items)@, item),
{
    let ghost orig: Seq<MissionItem> = items@;
    let mut i: usize = 0;
    // Find the first position whose sequence number is not below the new
    // item's.
    loop
        invariant
            items@ == orig,
            mission_sorted(orig),
            i <= orig.len(),
            forall|j: int| 0 <= j < i ==> (#[trigger] orig[j]).seq < item.seq,
        ensures
            i <= orig.len(),
            forall|j: int| 0 <= j < i ==> (#[trigger] orig[j]).seq < item.seq,
            i < orig.len() ==> orig[i as int].seq >= item.seq,
        decreases orig.len() - i,
    {
        if i >= items.len() {
            break;
        }
        if items[i].seq >= item.seq {
            break;
        }
        i += 1;
    }
    if i < items.len() {
        if items[i].seq == item.seq {
            // Same sequence number: replace the entry in place.
            items.remove(i);
            items.insert(i, item);
            proof {
                lemma_mission_replace(orig, items@, item, i as int);
            }
            return;
        }
    }
    items.insert(i, item);
    proof {
        lemma_mission_insert(orig, items@, item, i as int);
    }
}

/// Replacing the one entry that shares the new item's sequence number
/// keeps the collection sorted and swaps exactly that entry.
proof fn lemma_mission_replace(orig: Seq<MissionItem>, now: Seq<MissionItem>, item: MissionItem, i: int)
    requires
        mission_sorted(orig),
        0 <= i < orig.len(),
        orig[i].seq == item.seq,
        now == orig.remove(i).insert(i, item),
    ensures
        mission_sorted(now),
        forall|q: MissionItem| #[trigger]
            now.contains(q) <==> (q == item || (orig.contains(q) && q.seq != item.seq)),
        now.len() == orig.len(),
{
    assert(now =~= orig.update(i, item));
    assert forall|x: int, y: int| 0 <= x < y < now.len() implies (#[trigger] now[x]).seq
        < (#[trigger] now[y]).seq by {
        assert(orig[x].seq < orig[y].seq);
    }
    assert forall|q: MissionItem|
        #![trigger now.contains(q)]
        now.contains(q) <==> (q == item || (orig.contains(q) && q.seq != item.seq)) by {
        if now.contains(q) {
            let idx = choose|idx: int| 0 <= idx < now.len() && now[idx] == q;
            if idx != i {
                assert(orig[idx] == q);
                assert(orig.contains(q));
                if idx < i {
                    assert(orig[idx].seq < orig[i].seq);
                } else {
                    assert(orig[i].seq < orig[idx].seq);
                }
            }
        }
        if q == item {
            assert(now[i] == q);
            assert(now.contains(q));
        }
        if orig.contains(q) && q.seq != item.seq {
            let idx = choose|idx: int| 0 <= idx < orig.len() && orig[idx] == q;
            assert(idx != i);
            assert(now[idx] == q);
            assert(now.contains(q));
        }
    }
}

/// Inserting a fresh sequence number at its sorted position keeps the
/// collection sorted and adds exactly that entry.
proof fn lemma_mission_insert(orig: Seq<MissionItem>, now: Seq<MissionItem>, item: MissionItem, i: int)
    requires
        mission_sorted(orig),
        0 <= i <= orig.len(),
        forall|j: int| 0 <= j < i ==> (#[trigger] orig[j]).seq < item.seq,
        i < orig.len() ==> item.seq < orig[i].seq,
        now == orig.insert(i, item),
    ensures
        mission_sorted(now),
        forall|q: MissionItem| #[trigger]
            now.contains(q) <==> (q == item || (orig.contains(q) && q.seq != item.seq)),
        now.len() == orig.len() + 1,
{
    assert forall|x: int, y: int| 0 <= x < y < now.len() implies (#[trigger] now[x]).seq
        < (#[trigger] now[y]).seq by {
        if x < i && y > i {
            assert(now[x] == orig[x]);
            assert(now[y] == orig[y - 1]);
        }
    }
    assert forall|q: MissionItem|
        #![trigger now.contains(q)]
        now.contains(q) <==> (q == item || (orig.contains(q) && q.seq != item.seq)) by {
        if now.contains(q) {
            let idx = choose|idx: int| 0 <= idx < now.len() && now[idx] == q;
            if idx < i {
                assert(orig[idx] == q);
                assert(orig.contains(q));
            } else if idx > i {
                assert(orig[idx - 1] == q);
                assert(orig.contains(q));
            }
        }
        if q == item {
            assert(now[i] == q);
            assert(now.contains(q));
        }
        if orig.contains(q) && q.seq != item.seq {
            let idx = choose|idx: int| 0 <= idx < orig.len() && orig[idx] == q;
            if idx < i {
                assert(now[idx] == q);
            } else {
                assert(now[idx + 1] == q);
            }
            assert(now.contains(q));
        }
    }
}

/// Law: strict sorting leaves no freedom of arrangement — two collections
/// sorted by sequence number that hold the same items are the same
/// sequence.  So [`upsert_mission_item`]'s contract, which fixes the
/// resulting items and demands sorting, determines the resulting sequence
/// completely.
pub proof fn lemma_mission_sorted_unique(a: Seq<MissionItem>, b: Seq<MissionItem>)
    requires
        mission_sorted(a),
        mission_sorted(b),
        forall|q: MissionItem|
            #![trigger a.contains(q)]
            #![trigger b.contains(q)]
            a.contains(q) <==> b.contains(q),
    ensures
        a == b,
    decreases a.len(),
{
    if a.len() == 0 {
        if b.len() > 0 {
            assert(b.contains(b[0]));
        }
        assert(a =~= b);
    } else {
        assert(a.contains(a[0]));
        assert(b.len() > 0);
        // The heads are equal: each collection holds the other's head, and
        // an item sitting past the head would have a larger number.
        let ia = choose|ia: int| 0 <= ia < a.len() && a[ia] == b[0];
        let ib = choose|ib: int| 0 <= ib < b.len() && b[ib] == a[0];
        assert(a.contains(b[0]));
        assert(b.contains(a[0]));
        if ia > 0 {
            assert(a[0].seq < b[0].seq);
        }
        if ib > 0 {
            assert(b[0].seq < a[0].seq);
        }
        assert(a[0] == b[0]);
        // The tails hold the same items: the head's number is strictly the
        // smallest, so the head occurs nowhere else.
        assert forall|q: MissionItem| #[trigger]
            a.drop_first().contains(q) <==> #[trigger] b.drop_first().contains(q) by {
            lemma_mission_head_membership(a, q);
            lemma_mission_head_membership(b, q);
        }
        assert(mission_sorted(a.drop_first())) by {
            assert forall|x: int, y: int|
                0 <= x < y < a.drop_first().len() implies (#[trigger] a.drop_first()[x]).seq
                < (#[trigger] a.drop_first()[y]).seq by {
                assert(a[x + 1].seq < a[y + 1].seq);
            }
        }
        assert(mission_sorted(b.drop_first())) by {
            assert forall|x: int, y: int|
                0 <= x < y < b.drop_first().len() implies (#[trigger] b.drop_first()[x]).seq
                < (#[trigger] b.drop_first()[y]).seq by {
                assert(b[x + 1].seq < b[y + 1].seq);
            }
        }
        lemma_mission_sorted_unique(a.drop_first(), b.drop_first());
        assert forall|k: int| 0 <= k < a.len() implies a[k] == b[k] by {
            if k > 0 {
                assert(a.drop_first()[k - 1] == b.drop_first()[k - 1]);
            }
        }
        assert(a =~= b);
    }
}

/// In a sorted collection the head occurs only at the front, so the tail
/// holds exactly the other items.
proof fn lemma_mission_head_membership(a: Seq<MissionItem>, q: MissionItem)
    requires
        mission_sorted(a),
        a.len() > 0,
    ensures
        a.drop_first().contains(q) <==> (a.contains(q) && q != a[0]),
{
    if a.drop_first().contains(q) {
        let idx = choose|idx: int| 0 <= idx < a.drop_first().len() && a.drop_first()[idx] == q;
        assert(a[idx + 1] == q);
        assert(a.contains(q));
        assert(a[0].seq < a[idx + 1].seq);
    }
    if a.contains(q) && q != a[0] {
        let idx = choose|idx: int| 0 <= idx < a.len() && a[idx] == q;
        assert(idx != 0);
        assert(a.drop_first()[idx - 1] == q);
        assert(a.drop_first().contains(q));
    }
}

/// First phase of the mission sync: the one request that asks the vehicle
/// how many mission items it stores.  The count reply lands through the
/// normal telemetry path and triggers the second phase.
pub fn request_mission_count() -> (request: RequestMessage)
    ensures
        request == (RequestMessage::MissionRequestList {
            target_system: DEFAULT_TARGET_SYSTEM,
            target_component: DEFAULT_TARGET_COMPONENT,
        }),
{
    RequestMessage::MissionRequestList {
        target_system: DEFAULT_TARGET_SYSTEM,
        target_component: DEFAULT_TARGET_COMPONENT,
    }
}

/// The item requests owed after a count reply: one request per sequence
/// number, owed only while fewer items than announced have arrived; with
/// no count known, nothing is owed.
pub open spec fn spec_mission_requests(expected: Option<u16>, have: nat) -> Seq<RequestMessage> {
    match expected {
        Some(count) => if have >= count {
            Seq::empty()
        } else {
            Seq::new(
                count as nat,
                |k: int|
                    RequestMessage::MissionRequestInt {
                        target_system: DEFAULT_TARGET_SYSTEM,
                        target_component: DEFAULT_TARGET_COMPONENT,
                        seq: k as u16,
                    },
            )
        },
        None => Seq::empty(),
    }
}

/// Second phase of the mission sync: once a count is known and not every
/// item has arrived yet, ask for every sequence number `0..count` in one
/// burst; the vehicle paces itself.  Item replies land through the normal
/// telemetry path.
pub fn synchronise_mission_items(details: &MissionDetails) -> (requests: Vec<RequestMessage>)
    ensures
        requests@ == spec_mission_requests(
            details.mission_items_to_load_num,
            details.mission_messages@.len(),
        ),
{
    let mut requests: Vec<RequestMessage> = Vec::new();
    if let Some(count) = details.mission_items_to_load_num {
        if details.mission_messages.len() < count as usize {
            let mut k: u16 = 0;
            while k < count
                invariant
                    k <= count,
                    requests@ =~= Seq::new(
                        k as nat,
                        |j: int|
                            RequestMessage::MissionRequestInt {
                                target_system: DEFAULT_TARGET_SYSTEM,
                                target_component: DEFAULT_TARGET_COMPONENT,
                                seq: j as u16,
                            },
                    ),
                decreases count - k,
            {
                requests.push(
                    RequestMessage::MissionRequestInt {
                        target_system: DEFAULT_TARGET_SYSTEM,
                        target_component: DEFAULT_TARGET_COMPONENT,
                        seq: k,
                    },
                );
                k += 1;
            }
        }
    }
    requests
}

} // verus!
