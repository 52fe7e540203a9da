use vstd::prelude::*;
use std::cmp::Ordering;
use crate::dataset::DatasetData;
use crate::entries::{list_value, wires};
use crate::objects::datasets::XYPoint;
use crate::order::{
    lemma_scalar_order_antisymmetric, lemma_scalar_order_reflexive, order_scalars, scalar_order,
};
use crate::scalar::{ordering_of, NumberOrDateString, NumberString};
use crate::value::{JsValue, JsView};
use crate::wire::Serialize;

verus! {

/// The point of an `x`, a `y` and a description that may be missing.
pub open spec fn point_of(t: (NumberOrDateString, NumberString, Option<JsValue>)) -> XYPoint {
    XYPoint {
        x: t.0,
        y: t.1,
        description: match t.2 {
            Some(d) => d,
            None => JsValue::Null,
        },
    }
}

/// The points of a list of such triples, in their order.
pub open spec fn points_of(items: Seq<(NumberOrDateString, NumberString, Option<JsValue>)>) -> Seq<
    XYPoint,
> {
    Seq::new(items.len(), |i: int| point_of(items[i]))
}

/// Whether `a` stands before `b` by its `x`.
#[verifier::opaque]
pub open spec fn before(a: XYPoint, b: XYPoint) -> bool {
    scalar_order(a.x@, b.x@) < 0
}

/// Whether two points have an `x` that orders as equal.
#[verifier::opaque]
pub open spec fn same_x(a: XYPoint, b: XYPoint) -> bool {
    scalar_order(a.x@, b.x@) == 0
}

/// Whether each point stands before the next.
pub open spec fn ascending(s: Seq<XYPoint>) -> bool {
    forall|i: int| 0 <= i < s.len() - 1 ==> before(#[trigger] s[i], s[i + 1])
}

/// Whether `out` is what sorting `input` by `x` leaves: its points
/// ascend, each of them is a point of `input`, and every point of `input`
/// has a point in it with an equal `x`.
pub open spec fn sorted_selection(input: Seq<XYPoint>, out: Seq<XYPoint>) -> bool {
    &&& ascending(out)
    &&& forall|j: int| 0 <= j < out.len() ==> input.contains(#[trigger] out[j])
    &&& forall|i: int| 0 <= i < input.len() ==> covered(#[trigger] input[i], out)
}

/// Whether `out` holds a point with an `x` equal to that of `p`.
pub open spec fn covered(p: XYPoint, out: Seq<XYPoint>) -> bool {
    exists|j: int| 0 <= j < out.len() && same_x(p, #[trigger] out[j])
}

impl From<(NumberOrDateString, NumberString, Option<JsValue>)> for XYPoint {
    fn from(t: (NumberOrDateString, NumberString, Option<JsValue>)) -> (r: Self) {
        XYPoint {
            x: t.0,
            y: t.1,
            description: match t.2 {
                Some(d) => d,
                None => JsValue::Null,
            },
        }
    }
}

impl vstd::std_specs::convert::FromSpecImpl<(NumberOrDateString, NumberString, Option<JsValue>)> for XYPoint {
    open spec fn obeys_from_spec() -> bool {
        true
    }

    open spec fn from_spec(t: (NumberOrDateString, NumberString, Option<JsValue>)) -> Self {
        point_of(t)
    }
}

impl XYPoint {
    /// Orders two points by their `x`.
    pub fn cmp(&self, other: &Self) -> (r: Ordering)
        ensures
            r == ordering_of(scalar_order(self.x@, other.x@)),
    {
        self.x.cmp(&other.x)
    }
}

impl PartialOrd for XYPoint {
    fn partial_cmp(&self, other: &Self) -> (r: Option<Ordering>) {
        Some(self.cmp(other))
    }
}

impl vstd::std_specs::cmp::PartialOrdSpecImpl for XYPoint {
    open spec fn obeys_partial_cmp_spec() -> bool {
        true
    }

    open spec fn partial_cmp_spec(&self, other: &Self) -> Option<Ordering> {
        Some(ordering_of(scalar_order(self.x@, other.x@)))
    }
}

/// A point that has an equal in the list can be dropped.
proof fn lemma_drop_keeps_selection(seen: Seq<XYPoint>, out: Seq<XYPoint>, i: int, p: XYPoint)
    requires
        sorted_selection(seen, out),
        0 <= i < out.len(),
        same_x(p, out[i]),
    ensures
        sorted_selection(seen.push(p), out),
{
    let input = seen.push(p);
    assert forall|j: int| 0 <= j < out.len() implies input.contains(#[trigger] out[j]) by {
        let k = choose|k: int| 0 <= k < seen.len() && seen[k] == out[j];
        assert(input[k] == out[j]);
    }
    assert forall|k: int| 0 <= k < input.len() implies covered(#[trigger] input[k], out) by {
        if k < seen.len() {
            assert(input[k] == seen[k]);
            assert(covered(seen[k], out));
        } else {
            assert(input[k] == p);
            assert(same_x(p, out[i]));
        }
    }
}

/// A point that goes in behind those that it stands after, and before
/// one that it stands before, leaves the list ascending.
proof fn lemma_insert_keeps_ascending(old_out: Seq<XYPoint>, i: int, p: XYPoint)
    requires
        ascending(old_out),
        0 <= i <= old_out.len(),
        i > 0 ==> before(old_out[i - 1], p),
        i < old_out.len() ==> before(p, old_out[i]),
    ensures
        ascending(old_out.insert(i, p)),
{
    let out = old_out.insert(i, p);
    assert forall|j: int| 0 <= j < out.len() - 1 implies before(#[trigger] out[j], out[j + 1]) by {
        if j + 1 < i {
            assert(out[j] == old_out[j]);
            assert(out[j + 1] == old_out[j + 1]);
            assert(before(old_out[j], old_out[j + 1]));
        } else if j + 1 == i {
            assert(out[j] == old_out[j]);
            assert(out[j + 1] == p);
        } else if j == i {
            assert(out[j] == p);
            assert(out[j + 1] == old_out[i]);
        } else {
            assert(out[j] == old_out[j - 1]);
            assert(out[j + 1] == old_out[j]);
            assert(before(old_out[j - 1], old_out[j - 1 + 1]));
        }
    }
}

/// A point that goes into the list is accounted for, and so is all that
/// was before.
proof fn lemma_insert_keeps_selection(seen: Seq<XYPoint>, old_out: Seq<XYPoint>, i: int, p: XYPoint)
    requires
        sorted_selection(seen, old_out),
        0 <= i <= old_out.len(),
        i > 0 ==> before(old_out[i - 1], p),
        i < old_out.len() ==> before(p, old_out[i]),
    ensures
        sorted_selection(seen.push(p), old_out.insert(i, p)),
{
    let input = seen.push(p);
    let out = old_out.insert(i, p);
    lemma_insert_keeps_ascending(old_out, i, p);
    assert forall|j: int| 0 <= j < out.len() implies input.contains(#[trigger] out[j]) by {
        if j == i {
            assert(input[seen.len() as int] == p);
        } else {
            let m = if j < i {
                j
            } else {
                j - 1
            };
            assert(out[j] == old_out[m]);
            let k = choose|k: int| 0 <= k < seen.len() && seen[k] == old_out[m];
            assert(input[k] == out[j]);
        }
    }
    assert forall|k: int| 0 <= k < input.len() implies covered(#[trigger] input[k], out) by {
        if k < seen.len() {
            assert(input[k] == seen[k]);
            assert(covered(seen[k], old_out));
            let j = choose|j: int| 0 <= j < old_out.len() && same_x(seen[k], #[trigger] old_out[j]);
            let m = if j < i {
                j
            } else {
                j + 1
            };
            assert(out[m] == old_out[j]);
            assert(same_x(input[k], out[m]));
        } else {
            assert(input[k] == p);
            assert(same_x(p, p)) by {
                reveal(same_x);
                lemma_scalar_order_reflexive(p.x@);
            }
            assert(out[i] == p);
            assert(same_x(p, out[i]));
        }
    }
}

/// Puts `p` into a list of ascending points, before the first point that
/// it stands before. A point with an `x` equal to one that the list holds
/// is dropped.
fn insert_point(sorted: &mut Vec<XYPoint>, p: XYPoint, Ghost(seen): Ghost<Seq<XYPoint>>)
    requires
        sorted_selection(seen, old(sorted)@),
    ensures
        sorted_selection(seen.push(p), final(sorted)@),
{
    let mut i: usize = 0;
    let mut dropped = false;
    while i < sorted.len()
        invariant_except_break
            !dropped,
            i > 0 ==> before(sorted@[i - 1], p),
        invariant
            i <= sorted@.len(),
            sorted@ == old(sorted)@,
        ensures
            dropped ==> i < sorted@.len() && same_x(p, sorted@[i as int]),
            !dropped ==> (i > 0 ==> before(sorted@[i - 1], p)),
            !dropped && i < sorted@.len() ==> before(p, sorted@[i as int]),
        decreases sorted.len() - i,
    {
        let c = order_scalars(p.x.0.as_str(), sorted[i].x.0.as_str());
        proof {
            reveal(before);
            reveal(same_x);
        }
        if c == 0 {
            dropped = true;
            break ;
        }
        if c < 0 {
            break ;
        }
        proof {
            lemma_scalar_order_antisymmetric(p.x@, sorted@[i as int].x@);
        }
        i += 1;
    }
    if dropped {
        proof {
            lemma_drop_keeps_selection(seen, sorted@, i as int, p);
        }
    } else {
        proof {
            lemma_insert_keeps_selection(seen, sorted@, i as int, p);
        }
        sorted.insert(i, p);
    }
}

fn to_points(items: Vec<(NumberOrDateString, NumberString, Option<JsValue>)>) -> (r: Vec<XYPoint>)
    ensures
        r@ == points_of(items@),
{
    let mut rest = items;
    let mut out: Vec<XYPoint> = Vec::new();
    let n = rest.len();
    let mut i: usize = 0;
    while i < n
        invariant
            i <= n,
            n == items@.len(),
            rest@.len() == n - i,
            out@.len() == i,
            forall|j: int| 0 <= j < n - i ==> #[trigger] rest@[j] == items@[i + j],
            forall|j: int| 0 <= j < i ==> #[trigger] out@[j] == point_of(items@[j]),
        decreases n - i,
    {
        let t = rest.remove(0);
        out.push(
            XYPoint {
                x: t.0,
                y: t.1,
                description: match t.2 {
                    Some(d) => d,
                    None => JsValue::Null,
                },
            },
        );
        i += 1;
    }
    assert(out@ =~= points_of(items@));
    out
}

/// Lists of points that become the data of a dataset.
pub trait DatasetDataExt: Sized {
    /// The points, in the order in which they are given.
    spec fn points(&self) -> Seq<XYPoint>;

    /// The data of the points in the order in which they are given.
    fn presorted_to_dataset_data(self) -> (r: DatasetData)
        ensures
            r.0@ == JsView::Array(wires(self.points())),
    ;

    /// The data of the points in the order of their `x`, with one point
    /// for each `x`.
    fn unsorted_to_dataset_data(self) -> (r: DatasetData)
        ensures
            exists|sorted: Seq<XYPoint>| #[trigger]
                sorted_selection(self.points(), sorted) && r.0@ == JsView::Array(wires(sorted)),
    ;
}

/// The data of points in the order in which they are given.
pub fn presorted(items: Vec<(NumberOrDateString, NumberString, Option<JsValue>)>) -> (r: DatasetData)
    ensures
        r.0@ == JsView::Array(wires(points_of(items@))),
{
    let points = to_points(items);
    DatasetData(list_value(&points))
}

/// The data of points in the order of their `x`, with one point for each
/// `x`: of points whose `x` orders as equal the first stays.
pub fn sorted(items: Vec<(NumberOrDateString, NumberString, Option<JsValue>)>) -> (r: DatasetData)
    ensures
        exists|sorted: Seq<XYPoint>| #[trigger]
            sorted_selection(points_of(items@), sorted) && r.0@ == JsView::Array(wires(sorted)),
{
    let mut rest = to_points(items);
    let ghost all = rest@;
    let mut out: Vec<XYPoint> = Vec::new();
    let n = rest.len();
    let mut i: usize = 0;
    assert(all.take(0) =~= Seq::<XYPoint>::empty());
    while i < n
        invariant
            i <= n,
            n == all.len(),
            rest@.len() == n - i,
            forall|j: int| 0 <= j < n - i ==> #[trigger] rest@[j] == all[i + j],
            sorted_selection(all.take(i as int), out@),
        decreases n - i,
    {
        let p = rest.remove(0);
        proof {
            assert(all.take(i as int).push(p) =~= all.take(i + 1));
        }
        insert_point(&mut out, p, Ghost(all.take(i as int)));
        i += 1;
    }
    assert(all.take(n as int) =~= all);
    let r = DatasetData(list_value(&out));
    assert(sorted_selection(points_of(items@), out@) && r.0@ == JsView::Array(wires(out@)));
    r
}

impl DatasetDataExt for Vec<(NumberOrDateString, NumberString, Option<JsValue>)> {
    open spec fn points(&self) -> Seq<XYPoint> {
        points_of(self@)
    }

    fn presorted_to_dataset_data(self) -> (r: DatasetData)
        ensures
            r.0@ == JsView::Array(wires(self.points())),
    {
        presorted(self)
    }

    fn unsorted_to_dataset_data(self) -> (r: DatasetData)
        ensures
            exists|sorted: Seq<XYPoint>| #[trigger]
                sorted_selection(self.points(), sorted) && r.0@ == JsView::Array(wires(sorted)),
    {
        let ghost input = self@;
        let r = sorted(self);
        proof {
            let w = choose|w: Seq<XYPoint>| #[trigger]
                sorted_selection(points_of(input), w) && r.0@ == JsView::Array(wires(w));
            assert(sorted_selection(self.points(), w) && r.0@ == JsView::Array(wires(w)));
        }
        r
    }
}

/// Turns pairs of an `x` and a `y` into points without a description.
pub fn into_data_iter<X: Into<NumberOrDateString>, Y: Into<NumberString>>(items: Vec<(X, Y)>) -> (r:
    Vec<(NumberOrDateString, NumberString, Option<JsValue>)>)
    ensures
        r@.len() == items@.len(),
        forall|i: int|
            0 <= i < items@.len() ==> {
                &&& call_ensures(<X as Into<NumberOrDateString>>::into, (items@[i].0,), (#[trigger] r@[i]).0)
                &&& call_ensures(<Y as Into<NumberString>>::into, (items@[i].1,), r@[i].1)
                &&& r@[i].2 is None
            },
{
    let mut rest = items;
    let mut out: Vec<(NumberOrDateString, NumberString, Option<JsValue>)> = Vec::new();
    let n = rest.len();
    let mut i: usize = 0;
    while i < n
        invariant
            i <= n,
            n == items@.len(),
            rest@.len() == n - i,
            out@.len() == i,
            forall|j: int| 0 <= j < n - i ==> #[trigger] rest@[j] == items@[i + j],
            forall|j: int|
                0 <= j < i ==> {
                    &&& call_ensures(
                        <X as Into<NumberOrDateString>>::into,
                        (items@[j].0,),
                        (#[trigger] out@[j]).0,
                    )
                    &&& call_ensures(<Y as Into<NumberString>>::into, (items@[j].1,), out@[j].1)
                    &&& out@[j].2 is None
                },
        decreases n - i,
    {
        let t = rest.remove(0);
        out.push((t.0.into(), t.1.into(), None));
        i += 1;
    }
    out
}

/// Turns triples of an `x`, a `y` and a description into points whose
/// description is the wire form of the given one.
pub fn into_data_iter_with_description<
    X: Into<NumberOrDateString>,
    Y: Into<NumberString>,
    D: Serialize,
>(items: Vec<(X, Y, D)>) -> (r: Vec<(NumberOrDateString, NumberString, Option<JsValue>)>)
    ensures
        r@.len() == items@.len(),
        forall|i: int|
            0 <= i < items@.len() ==> {
                &&& call_ensures(<X as Into<NumberOrDateString>>::into, (items@[i].0,), (#[trigger] r@[i]).0)
                &&& call_ensures(<Y as Into<NumberString>>::into, (items@[i].1,), r@[i].1)
                &&& r@[i].2 matches Some(d)
                &&& d@ == items@[i].2.wire()
            },
{
    let mut rest = items;
    let mut out: Vec<(NumberOrDateString, NumberString, Option<JsValue>)> = Vec::new();
    let n = rest.len();
    let mut i: usize = 0;
    while i < n
        invariant
            i <= n,
            n == items@.len(),
            rest@.len() == n - i,
            out@.len() == i,
            forall|j: int| 0 <= j < n - i ==> #[trigger] rest@[j] == items@[i + j],
            forall|j: int|
                0 <= j < i ==> {
                    &&& call_ensures(
                        <X as Into<NumberOrDateString>>::into,
                        (items@[j].0,),
                        (#[trigger] out@[j]).0,
                    )
                    &&& call_ensures(<Y as Into<NumberString>>::into, (items@[j].1,), out@[j].1)
                    &&& out@[j].2 matches Some(d)
                    &&& d@ == items@[j].2.wire()
                },
        decreases n - i,
    {
        let t = rest.remove(0);
        let description = t.2.serialize();
        out.push((t.0.into(), t.1.into(), Some(description)));
        i += 1;
    }
    out
}

} // verus!
