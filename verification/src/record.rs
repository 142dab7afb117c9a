//! Records of optional fields, and how they are written.
//!
//! A record has a fixed schema: a list of keys, each with a value that is set
//! or not. It is written as an object that holds, in the order of the schema,
//! one member for each field that is set. A field that is not set leaves no
//! trace: no key, no `null`.

use vstd::prelude::*;
use vstd::string::StringExecFns;
use crate::json::{json_view, members_view, Json, JsonView};

verus! {

/// The members that `slots` are written as: for each slot with a value, in
/// order, its key and that value.
pub open spec fn present(slots: Seq<(Seq<char>, Option<JsonView>)>) -> Seq<(Seq<char>, JsonView)>
    decreases slots.len(),
{
    if slots.len() == 0 {
        Seq::empty()
    } else {
        let rest = present(slots.drop_last());
        match slots.last().1 {
            Some(v) => rest.push((slots.last().0, v)),
            None => rest,
        }
    }
}

/// The object that a record with these slots is written as.
pub open spec fn record(slots: Seq<(Seq<char>, Option<JsonView>)>) -> JsonView {
    JsonView::Object(present(slots))
}

/// No two slots have the same key.
pub open spec fn distinct_keys(slots: Seq<(Seq<char>, Option<JsonView>)>) -> bool {
    forall|i: int, j: int| 0 <= i < j < slots.len() ==> (#[trigger] slots[i]).0 != (#[trigger] slots[j]).0
}

/// The place of the first member with this key, or the count of members if
/// there is none.
pub open spec fn position(members: Seq<(Seq<char>, JsonView)>, key: Seq<char>) -> int
    decreases members.len(),
{
    if members.len() == 0 {
        0
    } else if members[0].0 == key {
        0
    } else {
        1 + position(members.drop_first(), key)
    }
}

/// Some member has this key.
pub open spec fn has_key(members: Seq<(Seq<char>, JsonView)>, key: Seq<char>) -> bool {
    exists|i: int| 0 <= i < members.len() && (#[trigger] members[i]).0 == key
}

/// The value of the first member with this key.
pub open spec fn value_of(members: Seq<(Seq<char>, JsonView)>, key: Seq<char>) -> Option<JsonView> {
    if position(members, key) < members.len() {
        Some(members[position(members, key)].1)
    } else {
        None
    }
}

impl JsonView {
    /// The value under `key`, where this is an object that has the key.
    pub open spec fn get(self, key: Seq<char>) -> Option<JsonView> {
        match self {
            JsonView::Object(members) => value_of(members, key),
            _ => None,
        }
    }

    /// This is an object with a member under `key`.
    pub open spec fn has(self, key: Seq<char>) -> bool {
        match self {
            JsonView::Object(members) => has_key(members, key),
            _ => false,
        }
    }
}

/// The view of an optional value.
pub open spec fn optional_view(value: Option<Json>) -> Option<JsonView> {
    match value {
        Some(j) => Some(json_view(j)),
        None => None,
    }
}

/// `position` is the least index of a member with the key, and the count of
/// members exactly when no member has it.
pub proof fn lemma_position(members: Seq<(Seq<char>, JsonView)>, key: Seq<char>)
    ensures
        0 <= position(members, key) <= members.len(),
        position(members, key) < members.len() ==> members[position(members, key)].0 == key,
        forall|i: int| 0 <= i < position(members, key) ==> (#[trigger] members[i]).0 != key,
        has_key(members, key) <==> position(members, key) < members.len(),
    decreases members.len(),
{
    if members.len() > 0 && members[0].0 != key {
        let rest = members.drop_first();
        lemma_position(rest, key);
        assert forall|i: int| 0 <= i < position(members, key) implies (#[trigger] members[i]).0
            != key by {
            if i > 0 {
                assert(members[i] == rest[i - 1]);
            }
        }
        if position(members, key) < members.len() {
            assert(members[position(members, key)] == rest[position(rest, key)]);
        }
        if has_key(members, key) {
            let i = choose|i: int| 0 <= i < members.len() && (#[trigger] members[i]).0 == key;
            assert(rest[i - 1] == members[i]);
        }
    }
}

/// Every member of `present(slots)` comes from a slot that is set, and the
/// members keep the order of their slots: `origin` maps each member's place
/// to its slot's, strictly rising.
pub open spec fn origin(slots: Seq<(Seq<char>, Option<JsonView>)>, m: int) -> int
    decreases slots.len(),
{
    if slots.len() == 0 {
        0
    } else if slots.last().1 is Some && m == present(slots.drop_last()).len() {
        slots.len() - 1
    } else {
        origin(slots.drop_last(), m)
    }
}

/// The members of a written record are its set slots, in the order of the
/// schema.
pub proof fn lemma_present_origin(slots: Seq<(Seq<char>, Option<JsonView>)>)
    ensures
        present(slots).len() <= slots.len(),
        forall|m: int|
            0 <= m < present(slots).len() ==> {
                &&& 0 <= #[trigger] origin(slots, m) < slots.len()
                &&& slots[origin(slots, m)].0 == present(slots)[m].0
                &&& slots[origin(slots, m)].1 == Some(present(slots)[m].1)
            },
        forall|m: int, n: int|
            0 <= m < n < present(slots).len() ==> #[trigger] origin(slots, m) < #[trigger] origin(
                slots,
                n,
            ),
        forall|i: int|
            0 <= i < slots.len() && (#[trigger] slots[i]).1 is Some ==> exists|m: int|
                0 <= m < present(slots).len() && origin(slots, m) == i,
    decreases slots.len(),
{
    if slots.len() > 0 {
        let front = slots.drop_last();
        lemma_present_origin(front);
        let added = slots.last().1 is Some;
        assert forall|m: int| 0 <= m < present(slots).len() implies {
            &&& 0 <= #[trigger] origin(slots, m) < slots.len()
            &&& slots[origin(slots, m)].0 == present(slots)[m].0
            &&& slots[origin(slots, m)].1 == Some(present(slots)[m].1)
            &&& m < present(front).len() ==> origin(slots, m) == origin(front, m)
            &&& m == present(front).len() ==> origin(slots, m) == slots.len() - 1
        } by {
            if m < present(front).len() {
                assert(front[origin(front, m)] == slots[origin(front, m)]);
                assert(present(slots)[m] == present(front)[m]);
            }
        }
        assert forall|m: int, n: int| 0 <= m < n < present(slots).len() implies #[trigger] origin(
            slots,
            m,
        ) < #[trigger] origin(slots, n) by {
            assert(0 <= origin(front, m) < front.len());
            if n < present(front).len() {
                assert(origin(front, m) < origin(front, n));
            }
        }
        assert forall|i: int| 0 <= i < slots.len() && (#[trigger] slots[i]).1 is Some implies exists|
            m: int,
        | 0 <= m < present(slots).len() && origin(slots, m) == i by {
            if i < front.len() {
                assert(front[i] == slots[i]);
                let m = choose|m: int| 0 <= m < present(front).len() && origin(front, m) == i;
                assert(origin(slots, m) == i);
            } else {
                assert(origin(slots, present(front).len() as int) == i);
            }
        }
    }
}

/// With distinct keys, the object that a record is written as holds under
/// each key of the schema exactly what the slot holds: the value where the
/// field is set, and no member where it is not.
pub proof fn lemma_record_get(slots: Seq<(Seq<char>, Option<JsonView>)>, i: int)
    requires
        distinct_keys(slots),
        0 <= i < slots.len(),
    ensures
        record(slots).get(slots[i].0) == slots[i].1,
        record(slots).has(slots[i].0) <==> slots[i].1 is Some,
{
    let members = present(slots);
    let key = slots[i].0;
    lemma_present_origin(slots);
    lemma_position(members, key);
    let p = position(members, key);
    if p < members.len() {
        assert(slots[origin(slots, p)].0 == key);
        assert(origin(slots, p) == i);
    } else if slots[i].1 is Some {
        let m = choose|m: int| 0 <= m < members.len() && origin(slots, m) == i;
        assert(members[m].0 == key);
    }
}

/// A key that no slot of the schema has is not in the written record.
pub proof fn lemma_record_foreign_key(slots: Seq<(Seq<char>, Option<JsonView>)>, key: Seq<char>)
    requires
        forall|i: int| 0 <= i < slots.len() ==> (#[trigger] slots[i]).0 != key,
    ensures
        !record(slots).has(key),
        record(slots).get(key) is None,
{
    let members = present(slots);
    lemma_present_origin(slots);
    lemma_position(members, key);
    if has_key(members, key) {
        let m = choose|m: int| 0 <= m < members.len() && (#[trigger] members[m]).0 == key;
        assert(slots[origin(slots, m)].0 == key);
    }
}

/// Of two fields that are both set, the one that the schema lists first is
/// written first.
pub proof fn lemma_record_order(slots: Seq<(Seq<char>, Option<JsonView>)>, i: int, j: int)
    requires
        distinct_keys(slots),
        0 <= i < j < slots.len(),
        slots[i].1 is Some,
        slots[j].1 is Some,
    ensures
        position(present(slots), slots[i].0) < position(present(slots), slots[j].0) < present(
            slots,
        ).len(),
{
    let members = present(slots);
    lemma_present_origin(slots);
    lemma_position(members, slots[i].0);
    lemma_position(members, slots[j].0);
    lemma_record_get(slots, i);
    lemma_record_get(slots, j);
    let p = position(members, slots[i].0);
    let q = position(members, slots[j].0);
    assert(slots[origin(slots, p)].0 == slots[i].0);
    assert(slots[origin(slots, q)].0 == slots[j].0);
    assert(origin(slots, p) == i);
    assert(origin(slots, q) == j);
    if q <= p {
        if q < p {
            assert(origin(slots, q) < origin(slots, p));
        }
    }
}

/// Slots that are not set, at the end of a schema, add nothing to what is
/// written.
pub proof fn lemma_present_unset(slots: Seq<(Seq<char>, Option<JsonView>)>, k: int)
    requires
        0 <= k <= slots.len(),
        forall|i: int| k <= i < slots.len() ==> (#[trigger] slots[i]).1 is None,
    ensures
        present(slots) == present(slots.take(k)),
    decreases slots.len(),
{
    if k < slots.len() {
        let front = slots.drop_last();
        assert(slots.last().1 is None);
        assert(front.take(k) == slots.take(k));
        lemma_present_unset(front, k);
    } else {
        assert(slots.take(k) == slots);
    }
}

/// Collects the members of a record while it is written.
pub struct RecordWriter {
    members: Vec<(String, Json)>,
    slots: Ghost<Seq<(Seq<char>, Option<JsonView>)>>,
}

impl RecordWriter {
    #[verifier::type_invariant]
    spec fn consistent(self) -> bool {
        members_view(self.members@) == present(self.slots@)
    }

    /// The slots that were put so far, in order.
    pub closed spec fn slots(self) -> Seq<(Seq<char>, Option<JsonView>)> {
        self.slots@
    }

    /// A writer with no slot yet.
    pub fn new() -> (w: RecordWriter)
        ensures
            w.slots() == Seq::<(Seq<char>, Option<JsonView>)>::empty(),
    {
        let members: Vec<(String, Json)> = Vec::new();
        assert(members_view(members@) == present(Seq::empty()));
        RecordWriter { members, slots: Ghost(Seq::empty()) }
    }

    /// Puts the next slot of the schema: a member where `value` is set,
    /// nothing where it is not.
    pub fn put(self, key: &str, value: Option<Json>) -> (w: RecordWriter)
        ensures
            w.slots() == self.slots().push((key@, optional_view(value))),
    {
        proof {
            use_type_invariant(&self);
        }
        let ghost slot = (key@, optional_view(value));
        let ghost before = self.slots@;
        let ghost after = before.push(slot);
        let mut members = self.members;
        let ghost old_members = members@;
        assert(after.drop_last() == before);
        match value {
            Some(j) => {
                members.push((String::from_str(key), j));
                assert(members_view(members@) == members_view(old_members).push((key@, j@)));
            },
            None => {},
        }
        RecordWriter { members, slots: Ghost(after) }
    }

    /// The object that holds the members collected.
    pub fn finish(self) -> (j: Json)
        ensures
            j@ == record(self.slots()),
    {
        proof {
            use_type_invariant(&self);
        }
        Json::Object(self.members)
    }
}

} // verus!
