use vstd::prelude::*;
use crate::named::{table_wires, Named};
use crate::text::owned;
use crate::value::{items_view, lemma_array_view, lemma_object_view, members_view, JsValue, JsView};
use crate::wire::{ChartJsRsObject, Serialize};

verus! {

/// The wire forms of a list of values.
pub open spec fn wires<T: Serialize>(items: Seq<T>) -> Seq<JsView> {
    Seq::new(items.len(), |i: int| items[i].wire())
}

/// The member that a field gives that is always written.
pub open spec fn always_entry<T: Serialize>(key: Seq<char>, x: T) -> Seq<(Seq<char>, JsView)> {
    seq![(key, x.wire())]
}

/// The member that a field gives that is left out while it is empty.
pub open spec fn scalar_entry<T: Serialize + ChartJsRsObject>(key: Seq<char>, x: T) -> Seq<
    (Seq<char>, JsView),
> {
    if x.empty() {
        Seq::empty()
    } else {
        seq![(key, x.wire())]
    }
}

/// The member that a field gives that is left out while it is not set.
pub open spec fn option_entry<T: Serialize>(key: Seq<char>, x: Option<T>) -> Seq<
    (Seq<char>, JsView),
> {
    match x {
        None => Seq::empty(),
        Some(v) => seq![(key, v.wire())],
    }
}

/// The member that a list gives: a list of wire forms, left out while the
/// list holds nothing.
pub open spec fn list_entry<T: Serialize>(key: Seq<char>, items: Seq<T>) -> Seq<
    (Seq<char>, JsView),
> {
    if items.len() == 0 {
        Seq::empty()
    } else {
        seq![(key, JsView::Array(wires(items)))]
    }
}

/// The member that a table of named values gives: an object with one
/// member for each, left out while the table is not set.
pub open spec fn table_entry<T: Serialize>(key: Seq<char>, x: Option<Named<T>>) -> Seq<
    (Seq<char>, JsView),
> {
    match x {
        None => Seq::empty(),
        Some(table) => seq![(key, JsView::Object(table_wires(table@)))],
    }
}

/// The wire form of a list of values.
pub fn list_value<T: Serialize>(items: &Vec<T>) -> (r: JsValue)
    ensures
        r@ == JsView::Array(wires(items@)),
{
    let mut out: Vec<JsValue> = Vec::new();
    let mut i: usize = 0;
    while i < items.len()
        invariant
            i <= items.len(),
            out@.len() == i,
            forall|j: int| 0 <= j < i ==> (#[trigger] out@[j])@ == items@[j].wire(),
        decreases items.len() - i,
    {
        out.push(items[i].serialize());
        i += 1;
    }
    proof {
        lemma_array_view(out);
        assert(items_view(out@) =~= wires(items@));
    }
    JsValue::Array(out)
}

/// Writes a field that is always written.
pub fn put_always<T: Serialize>(members: &mut Vec<(String, JsValue)>, key: &str, x: &T)
    ensures
        members_view(final(members)@) == members_view(old(members)@) + always_entry(key@, *x),
{
    members.push((owned(key), x.serialize()));
    assert(members_view(members@) =~= members_view(old(members)@) + always_entry(key@, *x));
}

/// Writes a field unless it is empty.
pub fn put_scalar<T: Serialize + ChartJsRsObject>(
    members: &mut Vec<(String, JsValue)>,
    key: &str,
    x: &T,
)
    ensures
        members_view(final(members)@) == members_view(old(members)@) + scalar_entry(key@, *x),
{
    if !x.is_empty() {
        members.push((owned(key), x.serialize()));
    }
    assert(members_view(members@) =~= members_view(old(members)@) + scalar_entry(key@, *x));
}

/// Writes a field where it is set.
pub fn put_option<T: Serialize>(members: &mut Vec<(String, JsValue)>, key: &str, x: &Option<T>)
    ensures
        members_view(final(members)@) == members_view(old(members)@) + option_entry(key@, *x),
{
    match x {
        Some(v) => {
            members.push((owned(key), v.serialize()));
        },
        None => {},
    }
    assert(members_view(members@) =~= members_view(old(members)@) + option_entry(key@, *x));
}

/// Writes a list unless it holds nothing.
pub fn put_list<T: Serialize>(members: &mut Vec<(String, JsValue)>, key: &str, items: &Vec<T>)
    ensures
        members_view(final(members)@) == members_view(old(members)@) + list_entry(key@, items@),
{
    if items.len() > 0 {
        members.push((owned(key), list_value(items)));
    }
    assert(members_view(members@) =~= members_view(old(members)@) + list_entry(key@, items@));
}

/// Writes a table of named values where it is set.
pub fn put_table<T: Serialize>(members: &mut Vec<(String, JsValue)>, key: &str, x: &Option<Named<T>>)
    ensures
        members_view(final(members)@) == members_view(old(members)@) + table_entry(key@, *x),
{
    match x {
        Some(table) => {
            members.push((owned(key), table.to_value()));
        },
        None => {},
    }
    assert(members_view(members@) =~= members_view(old(members)@) + table_entry(key@, *x));
}

/// The object that holds the members that were written.
pub fn finish(members: Vec<(String, JsValue)>) -> (r: JsValue)
    ensures
        r@ == JsView::Object(members_view(members@)),
{
    proof {
        lemma_object_view(members);
    }
    JsValue::Object(members)
}

/// The values of a list, each turned into a `U`.
pub fn convert_all<T: Into<U>, U>(items: Vec<T>) -> (r: Vec<U>)
    ensures
        r@.len() == items@.len(),
        forall|i: int|
            0 <= i < items@.len() ==> call_ensures(
                <T as Into<U>>::into,
                (items@[i],),
                #[trigger] r@[i],
            ),
{
    let mut rest = items;
    let mut out: Vec<U> = Vec::new();
    let n = rest.len();
    let mut i: usize = 0;
    while i < n
        invariant
            i <= n,
            n == items@.len(),
            rest@.len() == n - i,
            out@.len() == i,
            forall|j: int| 0 <= j < n - i ==> #[trigger] rest@[j] == items@[i + j],
            forall|j: int|
                0 <= j < i ==> call_ensures(<T as Into<U>>::into, (items@[j],), #[trigger] out@[j]),
        decreases n - i,
    {
        let x = rest.remove(0);
        out.push(x.into());
        i += 1;
    }
    out
}

impl<T: Serialize> Serialize for Vec<T> {
    open spec fn wire(&self) -> JsView {
        JsView::Array(wires(self@))
    }

    fn serialize(&self) -> (r: JsValue)
        ensures
            r@ == self.wire(),
    {
        list_value(self)
    }
}

impl Serialize for u32 {
    open spec fn wire(&self) -> JsView {
        JsView::Int(*self as int)
    }

    fn serialize(&self) -> (r: JsValue)
        ensures
            r@ == self.wire(),
    {
        JsValue::Int(*self as i64)
    }
}

impl Serialize for JsValue {
    open spec fn wire(&self) -> JsView {
        self@
    }

    fn serialize(&self) -> (r: JsValue)
        ensures
            r@ == self.wire(),
    {
        self.clone()
    }
}

} // verus!
