use vstd::prelude::*;
use crate::text::str_eq;
use crate::value::{lemma_object_view, members_view, JsValue, JsView};
use crate::wire::Serialize;

verus! {

/// Whether no two entries of a list have the same key.
pub open spec fn distinct_keys<T>(s: Seq<(Seq<char>, T)>) -> bool {
    forall|i: int, j: int| 0 <= i < j < s.len() ==> (#[trigger] s[i]).0 != (#[trigger] s[j]).0
}

/// The place of the entry with the key `key`.
pub open spec fn key_index<T>(s: Seq<(Seq<char>, T)>, key: Seq<char>) -> Option<int>
    decreases s.len(),
{
    if s.len() == 0 {
        None
    } else if s.last().0 == key {
        Some(s.len() - 1)
    } else {
        key_index(s.drop_last(), key)
    }
}

/// The list with `value` under `key`: in the place of the entry that had
/// the key, or at the end where none had it.
pub open spec fn inserted<T>(s: Seq<(Seq<char>, T)>, key: Seq<char>, value: T) -> Seq<
    (Seq<char>, T),
> {
    match key_index(s, key) {
        Some(i) => s.update(i, (key, value)),
        None => s.push((key, value)),
    }
}

/// The list that putting the items in, one after another, leaves: of two
/// items with the same key the later one stays, in the place of the
/// earlier.
pub open spec fn collected<T>(items: Seq<(String, T)>) -> Seq<(Seq<char>, T)>
    decreases items.len(),
{
    if items.len() == 0 {
        Seq::empty()
    } else {
        inserted(collected(items.drop_last()), items.last().0@, items.last().1)
    }
}

/// The wire forms of the values of a table, each under its key.
pub open spec fn table_wires<T: Serialize>(s: Seq<(Seq<char>, T)>) -> Seq<(Seq<char>, JsView)> {
    Seq::new(s.len(), |i: int| (s[i].0, s[i].1.wire()))
}

/// The place of a key is that of an entry with the key, and a key without
/// a place is the key of no entry.
pub proof fn lemma_key_index<T>(s: Seq<(Seq<char>, T)>, key: Seq<char>)
    ensures
        match key_index(s, key) {
            Some(i) => 0 <= i < s.len() && s[i].0 == key,
            None => forall|j: int| 0 <= j < s.len() ==> (#[trigger] s[j]).0 != key,
        },
    decreases s.len(),
{
    if s.len() > 0 && s.last().0 != key {
        lemma_key_index(s.drop_last(), key);
        assert forall|j: int| 0 <= j < s.len() && key_index(s, key) is None implies (
        #[trigger] s[j]).0 != key by {
            if j < s.len() - 1 {
                assert(s.drop_last()[j] == s[j]);
            }
        }
    }
}

/// Putting a value under a key keeps the keys distinct.
pub proof fn lemma_inserted_distinct<T>(s: Seq<(Seq<char>, T)>, key: Seq<char>, value: T)
    requires
        distinct_keys(s),
    ensures
        distinct_keys(inserted(s, key, value)),
{
    lemma_key_index(s, key);
    let r = inserted(s, key, value);
    assert forall|i: int, j: int| 0 <= i < j < r.len() implies (#[trigger] r[i]).0 != (
    #[trigger] r[j]).0 by {
        match key_index(s, key) {
            Some(k) => {
                assert(r[i].0 == s[i].0);
                assert(r[j].0 == s[j].0);
            },
            None => {
                if j < s.len() {
                    assert(r[i] == s[i] && r[j] == s[j]);
                } else {
                    assert(r[i] == s[i]);
                }
            },
        }
    }
}

/// A table of values, each under a key of its own. The entries stand in
/// the order in which their keys first came, so the wire form of a table
/// is a function of the table alone, and two tables are equal where they
/// hold the same entries in the same order.
#[derive(Debug, PartialEq, Eq)]
pub struct Named<T> {
    entries: Vec<(String, T)>,
}

impl<T> View for Named<T> {
    type V = Seq<(Seq<char>, T)>;

    closed spec fn view(&self) -> Seq<(Seq<char>, T)> {
        Seq::new(self.entries@.len(), |i: int| (self.entries@[i].0@, self.entries@[i].1))
    }
}

impl<T> Named<T> {
    #[verifier::type_invariant]
    spec fn well_formed(&self) -> bool {
        distinct_keys(self@)
    }

    /// The table that holds nothing.
    pub fn new() -> (r: Self)
        ensures
            r@ == Seq::<(Seq<char>, T)>::empty(),
    {
        let r = Named { entries: Vec::new() };
        assert(r@ =~= Seq::<(Seq<char>, T)>::empty());
        r
    }

    /// How many values the table holds.
    pub fn len(&self) -> (r: usize)
        ensures
            r == self@.len(),
            distinct_keys(self@),
    {
        proof {
            use_type_invariant(self);
        }
        self.entries.len()
    }

    fn position(&self, key: &str) -> (r: Option<usize>)
        ensures
            match r {
                Some(i) => key_index(self@, key@) == Some(i as int) && i < self.entries@.len(),
                None => key_index(self@, key@) is None,
            },
    {
        let mut i: usize = self.entries.len();
        assert(self@.take(i as int) =~= self@);
        while i > 0
            invariant
                i <= self.entries@.len(),
                self@.len() == self.entries@.len(),
                key_index(self@, key@) == key_index(self@.take(i as int), key@),
            decreases i,
        {
            proof {
                assert(self@.take(i as int).drop_last() =~= self@.take(i - 1));
                assert(self@.take(i as int).last() == self@[i - 1]);
            }
            i -= 1;
            if str_eq(self.entries[i].0.as_str(), key) {
                return Some(i);
            }
        }
        None
    }

    /// The value under `key`.
    pub fn get(&self, key: &str) -> (r: Option<&T>)
        ensures
            match r {
                Some(x) => key_index(self@, key@) matches Some(i) && self@[i].1 == *x,
                None => key_index(self@, key@) is None,
            },
    {
        proof {
            lemma_key_index(self@, key@);
        }
        match self.position(key) {
            Some(i) => Some(&self.entries[i].1),
            None => None,
        }
    }

    /// Puts `value` under `key`, in place of what stood under it.
    pub fn insert(&mut self, key: String, value: T)
        ensures
            final(self)@ == inserted(old(self)@, key@, value),
    {
        proof {
            use_type_invariant(&*self);
            lemma_inserted_distinct(self@, key@, value);
            lemma_key_index(self@, key@);
        }
        let place = self.position(key.as_str());
        let mut entries: Vec<(String, T)> = Vec::new();
        std::mem::swap(&mut self.entries, &mut entries);
        match place {
            Some(i) => {
                entries.set(i, (key, value));
            },
            None => {
                entries.push((key, value));
            },
        }
        assert(Seq::new(entries@.len(), |i: int| (entries@[i].0@, entries@[i].1)) =~= inserted(
            old(self)@,
            key@,
            value,
        ));
        self.entries = entries;
    }

    /// The table of the given values. Of two values under the same key the
    /// later one stays.
    pub fn from_vec(items: Vec<(String, T)>) -> (r: Self)
        ensures
            r@ == collected(items@),
    {
        let mut rest = items;
        let mut out = Named::new();
        let n = rest.len();
        let mut i: usize = 0;
        assert(items@.take(0) =~= Seq::<(String, T)>::empty());
        while i < n
            invariant
                i <= n,
                n == items@.len(),
                rest@.len() == n - i,
                forall|j: int| 0 <= j < n - i ==> #[trigger] rest@[j] == items@[i + j],
                out@ == collected(items@.take(i as int)),
            decreases n - i,
        {
            let item = rest.remove(0);
            proof {
                assert(items@.take(i + 1).drop_last() =~= items@.take(i as int));
                assert(items@.take(i + 1).last() == item);
            }
            out.insert(item.0, item.1);
            i += 1;
        }
        assert(items@.take(n as int) =~= items@);
        out
    }
}

impl<T: Serialize> Named<T> {
    /// Writes the table to the wire: an object with one member for each
    /// value.
    pub fn to_value(&self) -> (r: JsValue)
        ensures
            r@ == JsView::Object(table_wires(self@)),
    {
        let mut out: Vec<(String, JsValue)> = Vec::new();
        let mut i: usize = 0;
        while i < self.entries.len()
            invariant
                i <= self.entries@.len(),
                self@.len() == self.entries@.len(),
                out@.len() == i,
                forall|j: int|
                    0 <= j < i ==> (#[trigger] out@[j]).0@ == self@[j].0 && out@[j].1@
                        == self@[j].1.wire(),
            decreases self.entries.len() - i,
        {
            out.push((self.entries[i].0.clone(), self.entries[i].1.serialize()));
            i += 1;
        }
        proof {
            lemma_object_view(out);
            assert(members_view(out@) =~= table_wires(self@));
        }
        JsValue::Object(out)
    }
}

impl<T: Clone> Clone for Named<T> {
    fn clone(&self) -> (r: Self)
        ensures
            r@.len() == self@.len(),
            forall|i: int| 0 <= i < self@.len() ==> (#[trigger] r@[i]).0 == self@[i].0,
    {
        proof {
            use_type_invariant(self);
        }
        let mut entries: Vec<(String, T)> = Vec::new();
        let mut i: usize = 0;
        while i < self.entries.len()
            invariant
                i <= self.entries@.len(),
                entries@.len() == i,
                forall|j: int| 0 <= j < i ==> (#[trigger] entries@[j]).0@ == self.entries@[j].0@,
            decreases self.entries.len() - i,
        {
            entries.push((self.entries[i].0.clone(), self.entries[i].1.clone()));
            i += 1;
        }
        proof {
            let copy = Seq::new(entries@.len(), |i: int| (entries@[i].0@, entries@[i].1));
            assert forall|a: int, b: int| 0 <= a < b < copy.len() implies (#[trigger] copy[a]).0 != (
            #[trigger] copy[b]).0 by {
                assert(copy[a].0 == self@[a].0);
                assert(copy[b].0 == self@[b].0);
            }
        }
        Named { entries }
    }
}

impl<T: Serialize> Serialize for Named<T> {
    open spec fn wire(&self) -> JsView {
        JsView::Object(table_wires(self@))
    }

    fn serialize(&self) -> (r: JsValue)
        ensures
            r@ == self.wire(),
    {
        self.to_value()
    }
}

} // verus!
