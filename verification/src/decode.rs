use vstd::prelude::*;
use crate::named::{collected, Named};
use crate::value::{field, items_view, lemma_array_view, lemma_object_view, members_view, JsValue, JsView};
use crate::wire::{DecodeError, Deserialize};

verus! {

/// Whether a member is missing, or there and holding nothing.
pub open spec fn absent(v: Option<JsView>) -> bool {
    v is None || v == Some(JsView::Undefined)
}

/// Whether a member is missing or holds null.
pub open spec fn unset(v: Option<JsView>) -> bool {
    absent(v) || v == Some(JsView::Null)
}

/// Whether the member under `key` can be read as a field that has a
/// default: it is missing, or reads as a `T`.
pub open spec fn defaulted_readable<T: Deserialize>(v: JsView, key: Seq<char>) -> bool {
    absent(field(v, key)) || T::readable(field(v, key)->Some_0)
}

/// Whether `x` is what a field that has a default is read as: the default
/// where the member is missing, what the member reads as otherwise.
pub open spec fn defaulted_reads<T: Deserialize + Default>(x: T, v: JsView, key: Seq<char>) -> bool {
    if absent(field(v, key)) {
        call_ensures(T::default, (), x)
    } else {
        x.reads(field(v, key)->Some_0)
    }
}

/// Whether the member under `key` can be read as a field that must be
/// there.
pub open spec fn required_readable<T: Deserialize>(v: JsView, key: Seq<char>) -> bool {
    !absent(field(v, key)) && T::readable(field(v, key)->Some_0)
}

/// Whether `x` is what a field that must be there is read as.
pub open spec fn required_reads<T: Deserialize>(x: T, v: JsView, key: Seq<char>) -> bool {
    x.reads(field(v, key)->Some_0)
}

/// Whether the member under `key` can be read as a field that may be
/// unset: it is missing or null, or reads as a `T`.
pub open spec fn optional_readable<T: Deserialize>(v: JsView, key: Seq<char>) -> bool {
    unset(field(v, key)) || T::readable(field(v, key)->Some_0)
}

/// Whether `x` is what a field that may be unset is read as.
pub open spec fn optional_reads<T: Deserialize>(x: Option<T>, v: JsView, key: Seq<char>) -> bool {
    if unset(field(v, key)) {
        x is None
    } else {
        x matches Some(t) && t.reads(field(v, key)->Some_0)
    }
}

/// Whether `x` is what a field that is never read is left as: its
/// default.
pub open spec fn skipped_reads<T: Default>(x: T) -> bool {
    call_ensures(T::default, (), x)
}

/// Reads a field that has a default.
pub fn read_defaulted<T: Deserialize + Default>(v: &JsValue, key: &str) -> (r: Result<T, DecodeError>)
    ensures
        match r {
            Ok(x) => defaulted_readable::<T>(v@, key@) && defaulted_reads(x, v@, key@),
            Err(_) => !defaulted_readable::<T>(v@, key@),
        },
{
    match v.get(key) {
        None => Ok(T::default()),
        Some(JsValue::Undefined) => Ok(T::default()),
        Some(a) => T::deserialize(a),
    }
}

/// Reads a field that must be there.
pub fn read_required<T: Deserialize>(v: &JsValue, key: &str) -> (r: Result<T, DecodeError>)
    ensures
        match r {
            Ok(x) => required_readable::<T>(v@, key@) && required_reads(x, v@, key@),
            Err(_) => !required_readable::<T>(v@, key@),
        },
{
    match v.get(key) {
        None => Err(DecodeError::Shape),
        Some(JsValue::Undefined) => Err(DecodeError::Shape),
        Some(a) => T::deserialize(a),
    }
}

/// Reads a field that may be unset.
pub fn read_optional<T: Deserialize>(v: &JsValue, key: &str) -> (r: Result<Option<T>, DecodeError>)
    ensures
        match r {
            Ok(x) => optional_readable::<T>(v@, key@) && optional_reads(x, v@, key@),
            Err(_) => !optional_readable::<T>(v@, key@),
        },
{
    match v.get(key) {
        None => Ok(None),
        Some(JsValue::Undefined) => Ok(None),
        Some(JsValue::Null) => Ok(None),
        Some(a) => match T::deserialize(a) {
            Ok(x) => Ok(Some(x)),
            Err(e) => Err(e),
        },
    }
}

/// The value of a field that is never read.
pub fn read_skipped<T: Default>() -> (r: T)
    ensures
        skipped_reads(r),
{
    T::default()
}

/// Whether every item of a list reads as a `T`.
pub open spec fn items_readable<T: Deserialize>(items: Seq<JsView>) -> bool {
    forall|i: int| 0 <= i < items.len() ==> T::readable(#[trigger] items[i])
}

/// Whether the values are what the items of a list read as, one for one.
pub open spec fn items_read<T: Deserialize>(xs: Seq<T>, items: Seq<JsView>) -> bool {
    xs.len() == items.len() && forall|i: int| 0 <= i < items.len() ==> (#[trigger] xs[i]).reads(items[i])
}

/// Reads a list, item by item.
pub fn read_list<T: Deserialize>(v: &JsValue) -> (r: Result<Vec<T>, DecodeError>)
    ensures
        match r {
            Ok(xs) => v@ matches JsView::Array(items) && items_readable::<T>(items) && items_read(
                xs@,
                items,
            ),
            Err(_) => !(v@ matches JsView::Array(items) && items_readable::<T>(items)),
        },
{
    match v {
        JsValue::Array(items) => {
            proof {
                lemma_array_view(*items);
            }
            let mut out: Vec<T> = Vec::new();
            let mut i: usize = 0;
            while i < items.len()
                invariant
                    i <= items.len(),
                    out@.len() == i,
                    v@ == JsView::Array(items_view(items@)),
                    forall|j: int| 0 <= j < i ==> T::readable(#[trigger] items_view(items@)[j]),
                    forall|j: int| 0 <= j < i ==> (#[trigger] out@[j]).reads(items_view(items@)[j]),
                decreases items.len() - i,
            {
                match T::deserialize(&items[i]) {
                    Ok(x) => {
                        out.push(x);
                    },
                    Err(e) => {
                        assert(!T::readable(items_view(items@)[i as int]));
                        return Err(e);
                    },
                }
                i += 1;
            }
            Ok(out)
        },
        _ => Err(DecodeError::Shape),
    }
}

impl<T: Deserialize> Deserialize for Vec<T> {
    open spec fn readable(v: JsView) -> bool {
        v matches JsView::Array(items) && items_readable::<T>(items)
    }

    open spec fn reads(&self, v: JsView) -> bool {
        v matches JsView::Array(items) && items_read(self@, items)
    }

    fn deserialize(v: &JsValue) -> (r: Result<Self, DecodeError>)
        ensures
            match r {
                Ok(x) => Self::readable(v@) && x.reads(v@),
                Err(_) => !Self::readable(v@),
            },
    {
        read_list(v)
    }
}

/// Whether the value of every member of an object reads as a `T`.
pub open spec fn members_readable<T: Deserialize>(members: Seq<(Seq<char>, JsView)>) -> bool {
    forall|i: int| 0 <= i < members.len() ==> T::readable((#[trigger] members[i]).1)
}

/// Whether the named values are what the members of an object read as,
/// one for one.
pub open spec fn members_read<T: Deserialize>(
    xs: Seq<(String, T)>,
    members: Seq<(Seq<char>, JsView)>,
) -> bool {
    xs.len() == members.len() && forall|i: int|
        0 <= i < members.len() ==> (#[trigger] xs[i]).0@ == members[i].0 && xs[i].1.reads(
            members[i].1,
        )
}

/// Reads the members of an object as named values.
pub fn read_members<T: Deserialize>(v: &JsValue) -> (r: Result<Vec<(String, T)>, DecodeError>)
    ensures
        match r {
            Ok(xs) => v@ matches JsView::Object(members) && members_readable::<T>(members)
                && members_read(xs@, members),
            Err(_) => !(v@ matches JsView::Object(members) && members_readable::<T>(members)),
        },
{
    match v {
        JsValue::Object(members) => {
            proof {
                lemma_object_view(*members);
            }
            let mut out: Vec<(String, T)> = Vec::new();
            let mut i: usize = 0;
            while i < members.len()
                invariant
                    i <= members.len(),
                    out@.len() == i,
                    v@ == JsView::Object(members_view(members@)),
                    forall|j: int| 0 <= j < i ==> T::readable((#[trigger] members_view(members@)[j]).1),
                    forall|j: int|
                        0 <= j < i ==> (#[trigger] out@[j]).0@ == members_view(members@)[j].0
                            && out@[j].1.reads(members_view(members@)[j].1),
                decreases members.len() - i,
            {
                match T::deserialize(&members[i].1) {
                    Ok(x) => {
                        out.push((members[i].0.clone(), x));
                    },
                    Err(e) => {
                        assert(!T::readable(members_view(members@)[i as int].1));
                        return Err(e);
                    },
                }
                i += 1;
            }
            Ok(out)
        },
        _ => Err(DecodeError::Shape),
    }
}

impl<T: Deserialize> Deserialize for Named<T> {
    open spec fn readable(v: JsView) -> bool {
        v matches JsView::Object(members) && members_readable::<T>(members)
    }

    /// The table holds what the members read as; of two members with the
    /// same key the later one stays.
    open spec fn reads(&self, v: JsView) -> bool {
        v matches JsView::Object(members) && exists|xs: Seq<(String, T)>| #[trigger]
            members_read(xs, members) && self@ == collected(xs)
    }

    fn deserialize(v: &JsValue) -> (r: Result<Self, DecodeError>)
        ensures
            match r {
                Ok(x) => Self::readable(v@) && x.reads(v@),
                Err(_) => !Self::readable(v@),
            },
    {
        match read_members::<T>(v) {
            Ok(xs) => {
                let ghost items = xs@;
                let table = Named::from_vec(xs);
                assert(members_read(items, v@->Object_0) && table@ == collected(items));
                Ok(table)
            },
            Err(e) => Err(e),
        }
    }
}

impl Deserialize for u32 {
    open spec fn readable(v: JsView) -> bool {
        v matches JsView::Int(i) && 0 <= i <= u32::MAX
    }

    open spec fn reads(&self, v: JsView) -> bool {
        v == JsView::Int(*self as int)
    }

    fn deserialize(v: &JsValue) -> (r: Result<Self, DecodeError>)
        ensures
            match r {
                Ok(x) => Self::readable(v@) && x.reads(v@),
                Err(_) => !Self::readable(v@),
            },
    {
        match v {
            JsValue::Int(i) => if 0 <= *i && *i <= u32::MAX as i64 {
                Ok(*i as u32)
            } else {
                Err(DecodeError::Shape)
            },
            _ => Err(DecodeError::Shape),
        }
    }
}

impl Deserialize for JsValue {
    /// Any value reads as itself.
    open spec fn readable(v: JsView) -> bool {
        true
    }

    open spec fn reads(&self, v: JsView) -> bool {
        self@ == v
    }

    fn deserialize(v: &JsValue) -> (r: Result<Self, DecodeError>)
        ensures
            match r {
                Ok(x) => Self::readable(v@) && x.reads(v@),
                Err(_) => !Self::readable(v@),
            },
    {
        Ok(v.clone())
    }
}

impl Default for JsValue {
    fn default() -> (r: Self)
        ensures
            r == JsValue::Null,
    {
        JsValue::Null
    }
}

} // verus!
