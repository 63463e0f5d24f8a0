//! Display ordering and coverage invariants for stable segment identities.
use vstd::prelude::*;
use crate::error::CoreError;
use crate::ids::{DocumentId, RevisionId, SegmentId, SegmentOrderId};
use crate::segment::Segment;
use crate::strings::chars_of;

verus! {

/// A sortable position; keys compare as strings.
#[derive(Clone, Debug, PartialEq, Eq, PartialOrd, Ord)]
pub struct PositionKey(pub String);

#[derive(Clone, Debug, PartialEq, Eq)]
pub struct OrderedSegmentRef {
    pub segment_id: SegmentId,
    pub position_key: PositionKey,
}

/// A document's display order: entries sorted by strictly increasing keys.
#[derive(Clone, Debug, PartialEq, Eq)]
pub struct SegmentOrder {
    pub segment_order_id: SegmentOrderId,
    pub document_id: DocumentId,
    pub entries: Vec<OrderedSegmentRef>,
    pub updated_revision_id: RevisionId,
}

/// Lexicographic order of character sequences, a proper prefix first; for
/// strings this is the byte order `String` compares by.
pub open spec fn key_lt(a: Seq<char>, b: Seq<char>) -> bool
    decreases a.len(),
{
    if a.len() == 0 {
        b.len() > 0
    } else if b.len() == 0 {
        false
    } else if a[0] != b[0] {
        a[0] < b[0]
    } else {
        key_lt(a.drop_first(), b.drop_first())
    }
}

pub(crate) fn key_less(a: &Vec<char>, b: &Vec<char>) -> (r: bool)
    ensures r == key_lt(a@, b@),
{
    let mut i: usize = 0;
    assert(a@.skip(0) == a@);
    assert(b@.skip(0) == b@);
    while i < a.len() && i < b.len() && a[i] == b[i]
        invariant
            0 <= i <= a@.len(),
            i <= b@.len(),
            key_lt(a@, b@) == key_lt(a@.skip(i as int), b@.skip(i as int)),
        decreases a@.len() - i,
    {
        assert(a@.skip(i as int).drop_first() == a@.skip(i as int + 1));
        assert(b@.skip(i as int).drop_first() == b@.skip(i as int + 1));
        i += 1;
    }
    if i == a.len() {
        i < b.len()
    } else if i == b.len() {
        false
    } else {
        a[i] < b[i]
    }
}

/// No sequence comes before itself.
pub proof fn lemma_key_lt_irreflexive(a: Seq<char>)
    ensures
        !key_lt(a, a),
    decreases a.len(),
{
    if a.len() > 0 {
        lemma_key_lt_irreflexive(a.drop_first());
    }
}

/// The order is transitive.
pub proof fn lemma_key_lt_transitive(a: Seq<char>, b: Seq<char>, c: Seq<char>)
    requires
        key_lt(a, b),
        key_lt(b, c),
    ensures
        key_lt(a, c),
    decreases a.len(),
{
    if a.len() > 0 && b.len() > 0 && c.len() > 0 && a[0] == b[0] && b[0] == c[0] {
        lemma_key_lt_transitive(a.drop_first(), b.drop_first(), c.drop_first());
    }
}

/// Of two different sequences, one comes first.
pub proof fn lemma_key_lt_total(a: Seq<char>, b: Seq<char>)
    requires
        a != b,
    ensures
        key_lt(a, b) || key_lt(b, a),
    decreases a.len(),
{
    if a.len() > 0 && b.len() > 0 && a[0] == b[0] {
        if a.drop_first() == b.drop_first() {
            assert(a =~= seq![a[0]] + a.drop_first());
            assert(b =~= seq![b[0]] + b.drop_first());
        }
        lemma_key_lt_total(a.drop_first(), b.drop_first());
    } else if a.len() == 0 && b.len() == 0 {
        assert(a =~= b);
    }
}

/// The zero-padded decimal digits of `n` in a field of `width`.
pub open spec fn padded_decimal(n: nat, width: nat) -> Seq<char>
    decreases width,
{
    if width == 0 {
        seq![]
    } else {
        padded_decimal(n / 10, (width - 1) as nat).push(((n % 10) + 48) as char)
    }
}

/// The position key of the `i`-th entry of an initial order: `i` as 20 zero-padded digits.
pub open spec fn initial_key(i: nat) -> Seq<char> {
    padded_decimal(i, 20)
}

fn padded_decimal_exec(n: u64, width: u64) -> (r: Vec<char>)
    ensures r@ == padded_decimal(n as nat, width as nat),
    decreases width,
{
    if width == 0 {
        Vec::new()
    } else {
        let mut r = padded_decimal_exec(n / 10, width - 1);
        let d = (n % 10) as u8;
        r.push((d + 48) as char);
        r
    }
}

pub open spec fn entry_ids(es: Seq<OrderedSegmentRef>) -> Seq<SegmentId> {
    es.map_values(|e: OrderedSegmentRef| e.segment_id)
}

pub open spec fn segment_ids(segs: Seq<Segment>) -> Seq<SegmentId> {
    segs.map_values(|s: Segment| s.segment_id)
}

impl SegmentOrder {
    /// The order in which `segments` are given, keyed `00000000000000000000`, `00000000000000000001`, ...
    pub fn initial(document_id: DocumentId, segments: &[Segment], revision: RevisionId) -> (r: Self)
        ensures
            r.document_id == document_id,
            r.updated_revision_id == revision,
            r.entries@.len() == segments@.len(),
            forall|i: int| 0 <= i < segments@.len() ==> (#[trigger] r.entries@[i]).segment_id
                == segments@[i].segment_id && r.entries@[i].position_key.0@ == initial_key(i as nat),
    {
        let mut entries: Vec<OrderedSegmentRef> = Vec::new();
        let mut i: usize = 0;
        while i < segments.len()
            invariant
                0 <= i <= segments@.len(),
                entries@.len() == i,
                forall|j: int| 0 <= j < i ==> (#[trigger] entries@[j]).segment_id
                    == segments@[j].segment_id && entries@[j].position_key.0@ == initial_key(j as nat),
            decreases segments@.len() - i,
        {
            let digits = padded_decimal_exec(i as u64, 20);
            let key = crate::strings::string_of(digits.as_slice());
            entries.push(OrderedSegmentRef { segment_id: segments[i].segment_id, position_key: PositionKey(key) });
            i += 1;
        }
        SegmentOrder { segment_order_id: SegmentOrderId::new(), document_id, entries, updated_revision_id: revision }
    }
}

/// An order covers exactly the given segments of its document, each once,
/// with strictly increasing keys.
pub open spec fn order_valid_shape(order: SegmentOrder, segments: Seq<Segment>) -> bool {
    &&& order.entries@.len() == segments.len()
    &&& forall|i: int| 0 <= i < order.entries@.len() - 1 ==> key_lt(
        (#[trigger] order.entries@[i]).position_key.0@,
        order.entries@[i + 1].position_key.0@,
    )
    &&& segment_ids(segments).no_duplicates()
    &&& entry_ids(order.entries@).to_set() == segment_ids(segments).to_set()
}

/// What validation answers: `InvalidSegmentOrder` for a wrong shape, then
/// `WrongDocument` when a segment belongs to another document.
pub open spec fn spec_validate_segment_order(order: SegmentOrder, segments: Seq<Segment>) -> Result<(), CoreError> {
    if !order_valid_shape(order, segments) {
        Err(CoreError::InvalidSegmentOrder)
    } else if exists|i: int| 0 <= i < segments.len() && (#[trigger] segments[i]).document_id != order.document_id {
        Err(CoreError::WrongDocument)
    } else {
        Ok(())
    }
}

pub(crate) fn contains_segment(ids: &Vec<SegmentId>, id: SegmentId) -> (r: bool)
    ensures r == ids@.contains(id),
{
    let mut i: usize = 0;
    while i < ids.len()
        invariant
            0 <= i <= ids@.len(),
            forall|j: int| 0 <= j < i ==> ids@[j] != id,
        decreases ids@.len() - i,
    {
        if ids[i] == id {
            assert(ids@[i as int] == id);
            return true;
        }
        i += 1;
    }
    false
}

/// Validates that an order covers exactly its document's segments, in strictly increasing key order.
#[verifier::loop_isolation(false)]
pub fn validate_segment_order(order: &SegmentOrder, segments: &[Segment]) -> (r: Result<(), CoreError>)
    ensures
        r == spec_validate_segment_order(*order, segments@),
{
    let n = order.entries.len();
    if n != segments.len() {
        return Err(CoreError::InvalidSegmentOrder);
    }
    let mut i: usize = 0;
    while n > 0 && i < n - 1
        invariant
            0 <= i <= n,
            n == order.entries@.len(),
            forall|j: int| 0 <= j < i ==> key_lt(
                (#[trigger] order.entries@[j]).position_key.0@,
                order.entries@[j + 1].position_key.0@,
            ),
        decreases n - i,
    {
        let a = chars_of(order.entries[i].position_key.0.as_str());
        let b = chars_of(order.entries[i + 1].position_key.0.as_str());
        if !key_less(&a, &b) {
            return Err(CoreError::InvalidSegmentOrder);
        }
        i += 1;
    }
    let mut expected: Vec<SegmentId> = Vec::new();
    let mut k: usize = 0;
    while k < segments.len()
        invariant
            0 <= k <= segments@.len(),
            expected@ == segment_ids(segments@).take(k as int),
            expected@.no_duplicates(),
        decreases segments@.len() - k,
    {
        let id = segments[k].segment_id;
        if contains_segment(&expected, id) {
            proof {
                let m = choose|m: int| 0 <= m < expected@.len() && expected@[m] == id;
                assert(segment_ids(segments@)[m] == id);
                assert(segment_ids(segments@)[k as int] == id);
            }
            return Err(CoreError::InvalidSegmentOrder);
        }
        expected.push(id);
        assert(segment_ids(segments@).take(k as int + 1) == segment_ids(segments@).take(k as int).push(id));
        k += 1;
    }
    assert(segment_ids(segments@).take(segments@.len() as int) == segment_ids(segments@));
    let mut actual: Vec<SegmentId> = Vec::new();
    let mut e: usize = 0;
    while e < n
        invariant
            0 <= e <= n,
            actual@ == entry_ids(order.entries@).take(e as int),
        decreases n - e,
    {
        actual.push(order.entries[e].segment_id);
        assert(entry_ids(order.entries@).take(e as int + 1) == entry_ids(order.entries@).take(e as int).push(order.entries@[e as int].segment_id));
        e += 1;
    }
    assert(entry_ids(order.entries@).take(n as int) == entry_ids(order.entries@));
    let mut a: usize = 0;
    while a < actual.len()
        invariant
            0 <= a <= actual@.len(),
            forall|j: int| 0 <= j < a ==> expected@.contains(#[trigger] actual@[j]),
        decreases actual@.len() - a,
    {
        if !contains_segment(&expected, actual[a]) {
            proof {
                let x = actual@[a as int];
                assert(entry_ids(order.entries@).to_set().contains(x));
                assert(!segment_ids(segments@).to_set().contains(x));
            }
            return Err(CoreError::InvalidSegmentOrder);
        }
        a += 1;
    }
    let mut b: usize = 0;
    while b < expected.len()
        invariant
            0 <= b <= expected@.len(),
            forall|j: int| 0 <= j < b ==> actual@.contains(#[trigger] expected@[j]),
        decreases expected@.len() - b,
    {
        if !contains_segment(&actual, expected[b]) {
            proof {
                let x = expected@[b as int];
                assert(segment_ids(segments@).to_set().contains(x));
                assert(!entry_ids(order.entries@).to_set().contains(x));
            }
            return Err(CoreError::InvalidSegmentOrder);
        }
        b += 1;
    }
    assert(entry_ids(order.entries@).to_set() =~= segment_ids(segments@).to_set()) by {
        assert forall|x: SegmentId| entry_ids(order.entries@).to_set().contains(x) implies segment_ids(segments@).to_set().contains(x) by {
            let j = choose|j: int| 0 <= j < actual@.len() && actual@[j] == x;
            assert(expected@.contains(actual@[j]));
        }
        assert forall|x: SegmentId| segment_ids(segments@).to_set().contains(x) implies entry_ids(order.entries@).to_set().contains(x) by {
            let j = choose|j: int| 0 <= j < expected@.len() && expected@[j] == x;
            assert(actual@.contains(expected@[j]));
        }
    }
    let mut d: usize = 0;
    while d < segments.len()
        invariant
            0 <= d <= segments@.len(),
            forall|j: int| 0 <= j < d ==> (#[trigger] segments@[j]).document_id == order.document_id,
        decreases segments@.len() - d,
    {
        if segments[d].document_id != order.document_id {
            return Err(CoreError::WrongDocument);
        }
        d += 1;
    }
    Ok(())
}


proof fn lemma_key_lt_push(x: Seq<char>, y: Seq<char>, c: char, d: char)
    requires
        x.len() == y.len(),
        key_lt(x, y),
    ensures
        key_lt(x.push(c), y.push(d)),
    decreases x.len(),
{
    if x[0] == y[0] {
        assert(x.push(c).drop_first() == x.drop_first().push(c));
        assert(y.push(d).drop_first() == y.drop_first().push(d));
        lemma_key_lt_push(x.drop_first(), y.drop_first(), c, d);
    }
}

proof fn lemma_key_lt_last(x: Seq<char>, c: char, d: char)
    requires
        c < d,
    ensures
        key_lt(x.push(c), x.push(d)),
    decreases x.len(),
{
    if x.len() > 0 {
        assert(x.push(c).drop_first() == x.drop_first().push(c));
        assert(x.push(d).drop_first() == x.drop_first().push(d));
        lemma_key_lt_last(x.drop_first(), c, d);
    }
}

pub open spec fn pow10(w: nat) -> nat
    decreases w,
{
    if w == 0 { 1 } else { 10 * pow10((w - 1) as nat) }
}

proof fn lemma_padded_len(n: nat, w: nat)
    ensures padded_decimal(n, w).len() == w,
    decreases w,
{
    if w > 0 {
        lemma_padded_len(n / 10, (w - 1) as nat);
    }
}

proof fn lemma_padded_monotone(a: nat, b: nat, w: nat)
    requires
        a < b < pow10(w),
    ensures
        key_lt(padded_decimal(a, w), padded_decimal(b, w)),
    decreases w,
{
    let w1 = (w - 1) as nat;
    lemma_padded_len(a / 10, w1);
    lemma_padded_len(b / 10, w1);
    if a / 10 < b / 10 {
        lemma_padded_monotone(a / 10, b / 10, w1);
        lemma_key_lt_push(padded_decimal(a / 10, w1), padded_decimal(b / 10, w1),
            ((a % 10) + 48) as char, ((b % 10) + 48) as char);
    } else {
        assert(a / 10 == b / 10);
        assert(a % 10 < b % 10);
        lemma_key_lt_last(padded_decimal(a / 10, w1), ((a % 10) + 48) as char, ((b % 10) + 48) as char);
    }
}

/// An initial order is valid for the segments it was made from, when those
/// segments have distinct identities and all belong to the order's document.
pub proof fn initial_order_validates(order: SegmentOrder, segments: Seq<Segment>)
    requires
        order.entries@.len() == segments.len(),
        forall|i: int| 0 <= i < segments.len() ==> (#[trigger] order.entries@[i]).segment_id
            == segments[i].segment_id && order.entries@[i].position_key.0@ == initial_key(i as nat),
        segment_ids(segments).no_duplicates(),
        forall|i: int| 0 <= i < segments.len() ==> (#[trigger] segments[i]).document_id == order.document_id,
        segments.len() <= usize::MAX,
    ensures
        spec_validate_segment_order(order, segments) == Ok::<(), CoreError>(()),
{
    assert(pow10(20) == 100000000000000000000nat) by {
        reveal_with_fuel(pow10, 21);
    }
    assert forall|i: int| 0 <= i < order.entries@.len() - 1 implies key_lt(
        (#[trigger] order.entries@[i]).position_key.0@,
        order.entries@[i + 1].position_key.0@,
    ) by {
        lemma_padded_monotone(i as nat, (i + 1) as nat, 20);
    }
    assert(entry_ids(order.entries@) =~= segment_ids(segments));
}


proof fn lemma_sorted_from_neighbours(es: Seq<OrderedSegmentRef>, i: int, j: int)
    requires
        0 <= i < j < es.len(),
        forall|k: int| 0 <= k < es.len() - 1 ==> key_lt(
            (#[trigger] es[k]).position_key.0@,
            es[k + 1].position_key.0@,
        ),
    ensures
        key_lt(es[i].position_key.0@, es[j].position_key.0@),
    decreases j - i,
{
    if j > i + 1 {
        lemma_sorted_from_neighbours(es, i, j - 1);
        lemma_key_lt_transitive(es[i].position_key.0@, es[j - 1].position_key.0@, es[j].position_key.0@);
    }
}

/// An order that validates against its segments lists every key before each
/// later one, has one entry per segment, names each of the segments exactly
/// once and nothing else, and all the segments belong to its document. An
/// order with two neighbouring keys out of order, or with a different number
/// of entries than segments, is refused as invalid.
pub proof fn validated_orders_are_sorted_and_cover(order: SegmentOrder, segments: Seq<Segment>)
    ensures
        spec_validate_segment_order(order, segments) is Ok ==> {
            &&& order.entries@.len() == segments.len()
            &&& forall|i: int, j: int| 0 <= i < j < order.entries@.len() ==> key_lt(
                (#[trigger] order.entries@[i]).position_key.0@,
                (#[trigger] order.entries@[j]).position_key.0@,
            )
            &&& entry_ids(order.entries@).no_duplicates()
            &&& forall|i: int| 0 <= i < order.entries@.len()
                ==> segment_ids(segments).contains((#[trigger] order.entries@[i]).segment_id)
            &&& forall|k: int| 0 <= k < segments.len()
                ==> entry_ids(order.entries@).contains((#[trigger] segments[k]).segment_id)
            &&& forall|k: int| 0 <= k < segments.len() ==> (#[trigger] segments[k]).document_id == order.document_id
        },
        (exists|i: int| 0 <= i < order.entries@.len() - 1 && !key_lt(
            (#[trigger] order.entries@[i]).position_key.0@,
            order.entries@[i + 1].position_key.0@,
        )) ==> spec_validate_segment_order(order, segments) == Err::<(), CoreError>(CoreError::InvalidSegmentOrder),
        order.entries@.len() != segments.len() ==> spec_validate_segment_order(order, segments)
            == Err::<(), CoreError>(CoreError::InvalidSegmentOrder),
        ({
            &&& order.entries@.len() == segments.len()
            &&& forall|i: int| 0 <= i < order.entries@.len() - 1 ==> key_lt(
                (#[trigger] order.entries@[i]).position_key.0@,
                order.entries@[i + 1].position_key.0@,
            )
            &&& segment_ids(segments).no_duplicates()
            &&& forall|i: int| 0 <= i < order.entries@.len()
                ==> segment_ids(segments).contains((#[trigger] order.entries@[i]).segment_id)
            &&& forall|k: int| 0 <= k < segments.len()
                ==> entry_ids(order.entries@).contains((#[trigger] segments[k]).segment_id)
            &&& forall|k: int| 0 <= k < segments.len() ==> (#[trigger] segments[k]).document_id == order.document_id
        }) ==> spec_validate_segment_order(order, segments) == Ok::<(), CoreError>(()),
{
    let ids0 = entry_ids(order.entries@);
    let want0 = segment_ids(segments);
    if order.entries@.len() == segments.len()
        && (forall|i: int| 0 <= i < order.entries@.len() ==> want0.contains((#[trigger] order.entries@[i]).segment_id))
        && (forall|k: int| 0 <= k < segments.len() ==> ids0.contains((#[trigger] segments[k]).segment_id)) {
        assert forall|x: SegmentId| ids0.to_set().contains(x) <==> want0.to_set().contains(x) by {
            if ids0.contains(x) {
                let i = choose|i: int| 0 <= i < ids0.len() && ids0[i] == x;
                assert(order.entries@[i].segment_id == x);
            }
            if want0.contains(x) {
                let k = choose|k: int| 0 <= k < want0.len() && want0[k] == x;
                assert(segments[k].segment_id == x);
            }
        }
        assert(ids0.to_set() =~= want0.to_set());
    }
    if spec_validate_segment_order(order, segments) is Ok {
        let es = order.entries@;
        assert forall|i: int, j: int| 0 <= i < j < es.len() implies key_lt(
            (#[trigger] es[i]).position_key.0@,
            (#[trigger] es[j]).position_key.0@,
        ) by {
            lemma_sorted_from_neighbours(es, i, j);
        }
        let ids = entry_ids(es);
        let want = segment_ids(segments);
        want.unique_seq_to_set();
        assert(ids.len() == want.len());
        assert(ids.to_set() == want.to_set());
        assert(ids.to_set().len() == ids.len());
        ids.lemma_no_dup_set_cardinality();
        assert(ids.no_duplicates());
        assert forall|i: int| 0 <= i < es.len() implies want.contains((#[trigger] es[i]).segment_id) by {
            assert(ids[i] == es[i].segment_id);
            assert(ids.to_set().contains(ids[i]));
        }
        assert forall|k: int| 0 <= k < segments.len() implies ids.contains((#[trigger] segments[k]).segment_id) by {
            assert(want[k] == segments[k].segment_id);
            assert(want.to_set().contains(want[k]));
        }
        assert forall|k: int| 0 <= k < segments.len() implies (#[trigger] segments[k]).document_id == order.document_id by {
            if segments[k].document_id != order.document_id {
                assert(exists|i: int| 0 <= i < segments.len() && (#[trigger] segments[i]).document_id != order.document_id);
            }
        }
    }
}

} // verus!
