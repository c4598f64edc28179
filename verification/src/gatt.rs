//! Characteristics of a connected peripheral and the rules that pick one.

use vstd::prelude::*;

use crate::uuid_text::{hyphenated, print_uuid};

verus! {

/// What a characteristic lets a client do.
#[derive(Clone, Copy, Debug, PartialEq, Eq, Hash, Structural)]
pub struct Capabilities {
    pub read: bool,
    pub write: bool,
    pub write_without_response: bool,
    pub notify: bool,
    pub indicate: bool,
}

/// A discovered characteristic: the value of its UUID and its capabilities.
#[derive(Clone, Copy, Debug, PartialEq, Eq, Hash, Structural)]
pub struct Characteristic {
    pub uuid: u128,
    pub capabilities: Capabilities,
}

impl View for Characteristic {
    type V = Characteristic;

    open spec fn view(&self) -> Characteristic {
        *self
    }
}

/// The direction of a transfer.
#[derive(Clone, Copy, Debug, PartialEq, Eq, Hash, Structural)]
pub enum Access {
    Read,
    Write,
}

impl Characteristic {
    /// A write may target this characteristic: it takes writes with or
    /// without a response.
    pub open spec fn accepts_writes(self) -> bool {
        self.capabilities.write || self.capabilities.write_without_response
    }

    /// A read may target this characteristic: it can be read or it notifies.
    pub open spec fn offers_reads(self) -> bool {
        self.capabilities.read || self.capabilities.notify
    }

    /// The characteristic serves transfers in the direction `access`.
    pub open spec fn serves(self, access: Access) -> bool {
        match access {
            Access::Read => self.offers_reads(),
            Access::Write => self.accepts_writes(),
        }
    }

    /// Decides [`Characteristic::serves`].
    pub fn can_serve(&self, access: Access) -> (yes: bool)
        ensures
            yes == self.serves(access),
    {
        match access {
            Access::Read => self.capabilities.read || self.capabilities.notify,
            Access::Write => self.capabilities.write || self.capabilities.write_without_response,
        }
    }
}

/// The index of the first element of `items` that `wanted` holds of.
pub open spec fn first_where<T>(items: Seq<T>, wanted: spec_fn(T) -> bool) -> Option<int>
    decreases items.len(),
{
    if items.len() == 0 {
        None
    } else if wanted(items[0]) {
        Some(0)
    } else {
        match first_where(items.drop_first(), wanted) {
            Some(i) => Some(i + 1),
            None => None,
        }
    }
}

/// `first_where` finds an index exactly when some element is wanted, and the
/// index it finds is the least one: the element there is wanted and no
/// element before it is.
pub proof fn lemma_first_where<T>(items: Seq<T>, wanted: spec_fn(T) -> bool)
    ensures
        first_where(items, wanted) matches Some(i) ==> 0 <= i < items.len() && wanted(items[i])
            && forall|j: int| 0 <= j < i ==> !wanted(#[trigger] items[j]),
        first_where(items, wanted) is None ==> forall|j: int|
            0 <= j < items.len() ==> !wanted(#[trigger] items[j]),
    decreases items.len(),
{
    if items.len() > 0 && !wanted(items[0]) {
        let rest = items.drop_first();
        lemma_first_where(rest, wanted);
        match first_where(rest, wanted) {
            Some(i) => {
                assert forall|j: int| 0 <= j < i + 1 implies !wanted(#[trigger] items[j]) by {
                    if j > 0 {
                        assert(items[j] == rest[j - 1]);
                    }
                }
            },
            None => {
                assert forall|j: int| 0 <= j < items.len() implies !wanted(
                    #[trigger] items[j],
                ) by {
                    if j > 0 {
                        assert(items[j] == rest[j - 1]);
                    }
                }
            },
        }
    }
}

/// An index whose element is wanted, with none wanted before it, is the one
/// that `first_where` finds.
pub proof fn lemma_first_where_found<T>(items: Seq<T>, wanted: spec_fn(T) -> bool, i: int)
    requires
        0 <= i < items.len(),
        wanted(items[i]),
        forall|j: int| 0 <= j < i ==> !wanted(#[trigger] items[j]),
    ensures
        first_where(items, wanted) == Some(i),
{
    lemma_first_where(items, wanted);
}

/// Where no element is wanted, `first_where` finds nothing.
pub proof fn lemma_first_where_absent<T>(items: Seq<T>, wanted: spec_fn(T) -> bool)
    requires
        forall|j: int| 0 <= j < items.len() ==> !wanted(#[trigger] items[j]),
    ensures
        first_where(items, wanted) is None,
{
    lemma_first_where(items, wanted);
}

/// The characteristic of `items` at the index that `found` names.
pub open spec fn picked(items: Seq<Characteristic>, found: Option<int>) -> Option<Characteristic> {
    match found {
        Some(i) => Some(items[i]),
        None => None,
    }
}

/// The first characteristic, in stored order, whose UUID has the value `uuid`.
pub open spec fn first_with_uuid(items: Seq<Characteristic>, uuid: u128) -> Option<
    Characteristic,
> {
    picked(items, first_where(items, |c: Characteristic| c.uuid == uuid))
}

/// The first characteristic, in stored order, that serves `access`.
pub open spec fn first_serving(items: Seq<Characteristic>, access: Access) -> Option<
    Characteristic,
> {
    picked(items, first_where(items, |c: Characteristic| c.serves(access)))
}

/// Finds the first characteristic with the given UUID.
pub fn find_by_uuid(items: &Vec<Characteristic>, uuid: u128) -> (found: Option<Characteristic>)
    ensures
        found == first_with_uuid(items@, uuid),
{
    let ghost wanted = |c: Characteristic| c.uuid == uuid;
    let mut i: usize = 0;
    while i < items.len()
        invariant
            i <= items.len(),
            wanted == (|c: Characteristic| c.uuid == uuid),
            forall|j: int| 0 <= j < i ==> !wanted(#[trigger] items@[j]),
        decreases items.len() - i,
    {
        if items[i].uuid == uuid {
            proof {
                lemma_first_where_found(items@, wanted, i as int);
            }
            return Some(items[i]);
        }
        i += 1;
    }
    proof {
        lemma_first_where_absent(items@, wanted);
    }
    None
}

/// Finds the first characteristic that serves `access`.
pub fn find_serving(items: &Vec<Characteristic>, access: Access) -> (found: Option<
    Characteristic,
>)
    ensures
        found == first_serving(items@, access),
{
    let ghost wanted = |c: Characteristic| c.serves(access);
    let mut i: usize = 0;
    while i < items.len()
        invariant
            i <= items.len(),
            wanted == (|c: Characteristic| c.serves(access)),
            forall|j: int| 0 <= j < i ==> !wanted(#[trigger] items@[j]),
        decreases items.len() - i,
    {
        if items[i].can_serve(access) {
            proof {
                lemma_first_where_found(items@, wanted, i as int);
            }
            return Some(items[i]);
        }
        i += 1;
    }
    proof {
        lemma_first_where_absent(items@, wanted);
    }
    None
}

/// Some characteristic of `items` has the UUID `uuid`.
pub open spec fn has_uuid(items: Seq<Characteristic>, uuid: u128) -> bool {
    exists|i: int| 0 <= i < items.len() && (#[trigger] items[i]).uuid == uuid
}

/// No two characteristics of `items` share a UUID.
pub open spec fn uuids_distinct(items: Seq<Characteristic>) -> bool {
    forall|i: int, j: int|
        0 <= i < j < items.len() ==> (#[trigger] items[i]).uuid != (#[trigger] items[j]).uuid
}

/// `items` without the characteristics whose UUID an earlier one already
/// carries, in the order of `items`.
pub open spec fn distinct_by_uuid(items: Seq<Characteristic>) -> Seq<Characteristic>
    decreases items.len(),
{
    if items.len() == 0 {
        Seq::empty()
    } else {
        let kept = distinct_by_uuid(items.drop_last());
        if has_uuid(kept, items.last().uuid) {
            kept
        } else {
            kept.push(items.last())
        }
    }
}

/// What `distinct_by_uuid` keeps: no UUID twice, every UUID of the input
/// once, and no more entries than the input has.
pub proof fn lemma_distinct_by_uuid(items: Seq<Characteristic>)
    ensures
        uuids_distinct(distinct_by_uuid(items)),
        forall|uuid: u128| has_uuid(distinct_by_uuid(items), uuid) <==> has_uuid(items, uuid),
        distinct_by_uuid(items).len() <= items.len(),
        distinct_by_uuid(items).len() == 0 <==> items.len() == 0,
    decreases items.len(),
{
    if items.len() > 0 {
        let front = items.drop_last();
        let kept = distinct_by_uuid(front);
        let last = items.last();
        let out = distinct_by_uuid(items);
        lemma_distinct_by_uuid(front);
        assert forall|uuid: u128| has_uuid(out, uuid) <==> has_uuid(items, uuid) by {
            if has_uuid(out, uuid) {
                let i = choose|i: int| 0 <= i < out.len() && (#[trigger] out[i]).uuid == uuid;
                if i < kept.len() {
                    assert(kept[i].uuid == uuid);
                    assert(has_uuid(front, uuid));
                    let k = choose|k: int|
                        0 <= k < front.len() && (#[trigger] front[k]).uuid == uuid;
                    assert(items[k].uuid == uuid);
                } else {
                    assert(items[items.len() - 1].uuid == uuid);
                }
            }
            if has_uuid(items, uuid) {
                let k = choose|k: int| 0 <= k < items.len() && (#[trigger] items[k]).uuid == uuid;
                if k < front.len() {
                    assert(front[k].uuid == uuid);
                    assert(has_uuid(front, uuid));
                    assert(has_uuid(kept, uuid));
                    let i = choose|i: int|
                        0 <= i < kept.len() && (#[trigger] kept[i]).uuid == uuid;
                    assert(out[i].uuid == uuid);
                } else if has_uuid(kept, last.uuid) {
                } else {
                    assert(out[kept.len() as int].uuid == uuid);
                }
            }
        }
        if front.len() > 0 {
            assert(kept.len() > 0);
        }
    }
}

/// Each characteristic that `distinct_by_uuid` keeps is the first of the
/// input with its UUID.
pub proof fn lemma_distinct_keeps_first(items: Seq<Characteristic>, uuid: u128)
    ensures
        first_with_uuid(distinct_by_uuid(items), uuid) == first_with_uuid(items, uuid),
    decreases items.len(),
{
    let wanted = |c: Characteristic| c.uuid == uuid;
    let out = distinct_by_uuid(items);
    lemma_first_where(items, wanted);
    lemma_first_where(out, wanted);
    if items.len() > 0 {
        let front = items.drop_last();
        let kept = distinct_by_uuid(front);
        let last = items.last();
        lemma_distinct_keeps_first(front, uuid);
        lemma_distinct_by_uuid(front);
        lemma_first_where(front, wanted);
        lemma_first_where(kept, wanted);
        match first_where(front, wanted) {
            Some(k) => {
                // The first match lies in the front, and stays the first of the whole.
                assert(wanted(items[k]));
                assert forall|j: int| 0 <= j < k implies !wanted(#[trigger] items[j]) by {
                    assert(items[j] == front[j]);
                }
                lemma_first_where_found(items, wanted, k);
                let i = first_where(kept, wanted).unwrap();
                assert(wanted(out[i]));
                assert forall|j: int| 0 <= j < i implies !wanted(#[trigger] out[j]) by {
                    assert(out[j] == kept[j]);
                }
                lemma_first_where_found(out, wanted, i);
            },
            None => {
                assert(first_where(kept, wanted) is None);
                if last.uuid == uuid {
                    assert(!has_uuid(kept, uuid)) by {
                        if has_uuid(kept, uuid) {
                            let i = choose|i: int|
                                0 <= i < kept.len() && (#[trigger] kept[i]).uuid == uuid;
                            assert(wanted(kept[i]));
                        }
                    }
                    let n = items.len() - 1;
                    assert forall|j: int| 0 <= j < n implies !wanted(#[trigger] items[j]) by {
                        assert(items[j] == front[j]);
                    }
                    lemma_first_where_found(items, wanted, n);
                    let m = kept.len() as int;
                    assert(out[m] == last);
                    assert forall|j: int| 0 <= j < m implies !wanted(#[trigger] out[j]) by {
                        assert(out[j] == kept[j]);
                    }
                    lemma_first_where_found(out, wanted, m);
                } else {
                    assert forall|j: int| 0 <= j < items.len() implies !wanted(
                        #[trigger] items[j],
                    ) by {
                        if j < front.len() {
                            assert(items[j] == front[j]);
                        }
                    }
                    lemma_first_where_absent(items, wanted);
                    assert forall|j: int| 0 <= j < out.len() implies !wanted(
                        #[trigger] out[j],
                    ) by {
                        if j < kept.len() {
                            assert(out[j] == kept[j]);
                        }
                    }
                    lemma_first_where_absent(out, wanted);
                }
            },
        }
    }
}

/// A list with no UUID twice is left as it is.
pub proof fn lemma_distinct_is_idempotent(items: Seq<Characteristic>)
    requires
        uuids_distinct(items),
    ensures
        distinct_by_uuid(items) == items,
    decreases items.len(),
{
    if items.len() > 0 {
        let front = items.drop_last();
        lemma_distinct_is_idempotent(front);
        if has_uuid(front, items.last().uuid) {
            let i = choose|i: int|
                0 <= i < front.len() && (#[trigger] front[i]).uuid == items.last().uuid;
            assert(items[i].uuid == items[items.len() - 1].uuid);
        }
        assert(front.push(items.last()) =~= items);
    } else {
        assert(items =~= Seq::empty());
    }
}

/// Decides [`has_uuid`].
pub fn contains_uuid(items: &Vec<Characteristic>, uuid: u128) -> (yes: bool)
    ensures
        yes == has_uuid(items@, uuid),
{
    let mut i: usize = 0;
    while i < items.len()
        invariant
            i <= items.len(),
            forall|j: int| 0 <= j < i ==> (#[trigger] items@[j]).uuid != uuid,
        decreases items.len() - i,
    {
        if items[i].uuid == uuid {
            return true;
        }
        i += 1;
    }
    false
}

/// Drops every characteristic whose UUID an earlier one already carries.
pub fn dedupe_by_uuid(found: &Vec<Characteristic>) -> (kept: Vec<Characteristic>)
    ensures
        kept@ == distinct_by_uuid(found@),
        uuids_distinct(kept@),
{
    let mut kept: Vec<Characteristic> = Vec::new();
    let mut i: usize = 0;
    assert(found@.take(0) =~= Seq::empty());
    while i < found.len()
        invariant
            i <= found.len(),
            kept@ == distinct_by_uuid(found@.take(i as int)),
        decreases found.len() - i,
    {
        let candidate = found[i];
        assert(found@.take(i + 1).drop_last() =~= found@.take(i as int));
        if !contains_uuid(&kept, candidate.uuid) {
            kept.push(candidate);
        }
        i += 1;
    }
    assert(found@.take(i as int) =~= found@);
    proof {
        lemma_distinct_by_uuid(found@);
    }
    kept
}

/// `parts` laid end to end with `separator` between neighbours.
pub open spec fn joined(parts: Seq<Seq<char>>, separator: Seq<char>) -> Seq<char>
    decreases parts.len(),
{
    if parts.len() == 0 {
        Seq::empty()
    } else if parts.len() == 1 {
        parts[0]
    } else {
        joined(parts.drop_last(), separator) + separator + parts.last()
    }
}

/// Joins string slices with a separator.
pub fn join(parts: &Vec<&'static str>, separator: &str) -> (text: String)
    ensures
        text@ == joined(parts.deep_view(), separator@),
{
    let mut text = String::new();
    let mut i: usize = 0;
    let ghost all = parts.deep_view();
    assert(all.take(0) =~= Seq::empty());
    while i < parts.len()
        invariant
            i <= parts.len(),
            all == parts.deep_view(),
            all.len() == parts.len(),
            text@ == joined(all.take(i as int), separator@),
        decreases parts.len() - i,
    {
        assert(all.take(i + 1).drop_last() =~= all.take(i as int));
        assert(all.take(i + 1).last() == parts@[i as int]@);
        if i > 0 {
            text.append(separator);
        } else {
            assert(text@ + parts@[0]@ =~= parts@[0]@);
        }
        text.append(parts[i]);
        i += 1;
    }
    assert(all.take(i as int) =~= all);
    text
}

/// The names of the capabilities shown in a listing, in listing order.
/// Writing without a response has no name of its own there.
pub open spec fn capability_names(capabilities: Capabilities) -> Seq<Seq<char>> {
    (if capabilities.read {
        seq!["READ"@]
    } else {
        Seq::empty()
    }) + (if capabilities.write {
        seq!["WRITE"@]
    } else {
        Seq::empty()
    }) + (if capabilities.notify {
        seq!["NOTIFY"@]
    } else {
        Seq::empty()
    }) + (if capabilities.indicate {
        seq!["INDICATE"@]
    } else {
        Seq::empty()
    })
}

/// The listing line of one characteristic: its UUID in hyphenated form,
/// then the names of its capabilities, separated by a comma and a space.
pub open spec fn characteristic_line(characteristic: Characteristic) -> Seq<char> {
    "UUID: "@ + hyphenated(characteristic.uuid) + " | Properties: "@ + joined(
        capability_names(characteristic.capabilities),
        ", "@,
    )
}

/// The listing of a whole list, one line per characteristic, in stored order.
pub open spec fn characteristic_lines(items: Seq<Characteristic>) -> Seq<Seq<char>> {
    Seq::new(items.len(), |i: int| characteristic_line(items[i]))
}

/// Formats the listing line of one characteristic.
pub fn describe(characteristic: &Characteristic) -> (line: String)
    ensures
        line@ == characteristic_line(*characteristic),
{
    let mut names: Vec<&'static str> = Vec::new();
    if characteristic.capabilities.read {
        names.push("READ");
    }
    if characteristic.capabilities.write {
        names.push("WRITE");
    }
    if characteristic.capabilities.notify {
        names.push("NOTIFY");
    }
    if characteristic.capabilities.indicate {
        names.push("INDICATE");
    }
    assert(names.deep_view() =~= capability_names(characteristic.capabilities));
    let mut line = "UUID: ".to_owned();
    let uuid = print_uuid(characteristic.uuid);
    line.append(uuid.as_str());
    line.append(" | Properties: ");
    let names_text = join(&names, ", ");
    line.append(names_text.as_str());
    line
}

/// Formats the listing of a whole list.
pub fn describe_all(items: &Vec<Characteristic>) -> (lines: Vec<String>)
    ensures
        lines.deep_view() == characteristic_lines(items@),
{
    let mut lines: Vec<String> = Vec::new();
    let mut i: usize = 0;
    while i < items.len()
        invariant
            i <= items.len(),
            lines.len() == i,
            forall|j: int| 0 <= j < i ==> (#[trigger] lines@[j])@ == characteristic_line(items@[j]),
        decreases items.len() - i,
    {
        let line = describe(&items[i]);
        lines.push(line);
        i += 1;
    }
    assert(lines.deep_view() =~= characteristic_lines(items@));
    lines
}

} // verus!
