use vstd::prelude::*;
use crate::text::str_eq;
use crate::value::JsValue;

verus! {

/// The callback that stands under `id`: the one that was registered last
/// under it.
pub open spec fn registered<F>(entries: Seq<(Seq<char>, F)>, id: Seq<char>) -> Option<F>
    decreases entries.len(),
{
    if entries.len() == 0 {
        None
    } else if entries.last().0 == id {
        Some(entries.last().1)
    } else {
        registered(entries.drop_last(), id)
    }
}

/// No callback stands under the identifier.
#[derive(Debug, Clone, PartialEq, Eq)]
pub struct MissingCallback {
    pub id: String,
}

/// The native callbacks of a session, each under the identifier that it got
/// when it was registered. Nothing is ever taken out.
pub struct CallbackRegistry<F> {
    entries: Vec<(String, F)>,
}

/// Calls `uuid::Uuid::new_v4` and `to_string` on what it gives. The
/// identifier is drawn at random; the contract states its length alone,
/// which is that of the hyphenated form that `Uuid` displays as.
#[verifier::external_body]
pub(crate) fn fresh_id() -> (r: String)
    ensures
        r@.len() == 36,
{
    uuid::Uuid::new_v4().to_string()
}

impl<F> View for CallbackRegistry<F> {
    type V = Seq<(Seq<char>, F)>;

    closed spec fn view(&self) -> Seq<(Seq<char>, F)> {
        Seq::new(self.entries@.len(), |i: int| (self.entries@[i].0@, self.entries@[i].1))
    }
}

impl<F> CallbackRegistry<F> {
    /// The registry that holds nothing.
    pub fn new() -> (r: Self)
        ensures
            r@ == Seq::<(Seq<char>, F)>::empty(),
    {
        let r = CallbackRegistry { entries: Vec::new() };
        assert(r@ =~= Seq::<(Seq<char>, F)>::empty());
        r
    }

    /// Puts `closure` under `id`. What stood under `id` before is no longer
    /// found.
    pub fn register_as(&mut self, id: String, closure: F)
        ensures
            final(self)@ == old(self)@.push((id@, closure)),
    {
        self.entries.push((id, closure));
        assert(self@ =~= old(self)@.push((id@, closure)));
    }

    /// Puts `closure` under a fresh identifier and returns the identifier.
    pub fn register(&mut self, closure: F) -> (id: String)
        ensures
            id@.len() == 36,
            final(self)@ == old(self)@.push((id@, closure)),
            registered(final(self)@, id@) == Some(closure),
    {
        let id = fresh_id();
        self.register_as(id.clone(), closure);
        id
    }

    /// The callback that stands under `id`.
    pub fn get(&self, id: &str) -> (r: Option<&F>)
        ensures
            match r {
                Some(f) => registered(self@, id@) == Some(*f),
                None => registered(self@, id@) is None,
            },
    {
        let mut i: usize = self.entries.len();
        assert(self@.take(i as int) =~= self@);
        while i > 0
            invariant
                i <= self.entries@.len(),
                self@.len() == self.entries@.len(),
                registered(self@, id@) == registered(self@.take(i as int), id@),
            decreases i,
        {
            proof {
                assert(self@.take(i as int).drop_last() =~= self@.take(i - 1));
                assert(self@.take(i as int).last() == self@[i - 1]);
            }
            i -= 1;
            if str_eq(self.entries[i].0.as_str(), id) {
                return Some(&self.entries[i].1);
            }
        }
        None
    }
}

impl<F: Fn(Vec<JsValue>) -> JsValue> CallbackRegistry<F> {
    /// Calls the callback that stands under `id` with `args` and returns
    /// what it gives. An identifier under which nothing stands is an
    /// error.
    pub fn invoke(&self, id: &str, args: Vec<JsValue>) -> (r: Result<JsValue, MissingCallback>)
        requires
            registered(self@, id@) matches Some(f) ==> f.requires((args,)),
        ensures
            match registered(self@, id@) {
                Some(f) => r matches Ok(x) && f.ensures((args,), x),
                None => r matches Err(e) && e.id@ == id@,
            },
    {
        match self.get(id) {
            Some(f) => Ok(f(args)),
            None => Err(MissingCallback { id: crate::text::owned(id) }),
        }
    }
}

/// What is registered is found under its identifier, whatever was
/// registered before.
pub proof fn lemma_register_then_find<F>(entries: Seq<(Seq<char>, F)>, id: Seq<char>, closure: F)
    ensures
        registered(entries.push((id, closure)), id) == Some(closure),
{
}

/// Registering under one identifier changes nothing under another.
pub proof fn lemma_register_keeps_others<F>(
    entries: Seq<(Seq<char>, F)>,
    id: Seq<char>,
    closure: F,
    other: Seq<char>,
)
    requires
        other != id,
    ensures
        registered(entries.push((id, closure)), other) == registered(entries, other),
{
    assert(entries.push((id, closure)).drop_last() =~= entries);
}

} // verus!
