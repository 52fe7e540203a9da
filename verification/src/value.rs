use vstd::prelude::*;
use vstd::string::StrSliceExecFns;

verus! {

/// The mathematical model of a [`JsValue`]: the same tree, with texts as
/// sequences of characters and integers unbounded.
#[verifier::ext_equal]
pub enum JsView {
    Undefined,
    Null,
    Bool(bool),
    Int(int),
    Number(Seq<char>),
    Str(Seq<char>),
    Array(Seq<JsView>),
    Object(Seq<(Seq<char>, JsView)>),
    Function(Seq<char>, Seq<char>),
    Handle(nat),
}

/// A structured value as it crosses the boundary between the main context,
/// a worker and the rendering engine.
#[derive(Debug, PartialEq, Eq)]
pub enum JsValue {
    /// The field is there and holds nothing.
    Undefined,
    Null,
    Bool(bool),
    Int(i64),
    /// A number that is no `i64`, kept as the literal that denotes it.
    Number(String),
    Str(String),
    Array(Vec<JsValue>),
    /// The members of an object, in the order in which they were set.
    Object(Vec<(String, JsValue)>),
    /// A live callable: its parameter list and its body.
    Function(String, String),
    /// A resource that is moved, never copied, when it crosses a channel.
    Handle(u64),
}

/// The model of a value.
pub open spec fn value_view(v: JsValue) -> JsView
    decreases v,
{
    match v {
        JsValue::Undefined => JsView::Undefined,
        JsValue::Null => JsView::Null,
        JsValue::Bool(b) => JsView::Bool(b),
        JsValue::Int(i) => JsView::Int(i as int),
        JsValue::Number(s) => JsView::Number(s@),
        JsValue::Str(s) => JsView::Str(s@),
        JsValue::Array(items) => JsView::Array(
            Seq::new(
                items@.len(),
                |i: int|
                    if 0 <= i < items@.len() {
                        value_view(items@[i])
                    } else {
                        JsView::Undefined
                    },
            ),
        ),
        JsValue::Object(members) => JsView::Object(
            Seq::new(
                members@.len(),
                |i: int|
                    if 0 <= i < members@.len() {
                        (members@[i].0@, value_view(members@[i].1))
                    } else {
                        (Seq::empty(), JsView::Undefined)
                    },
            ),
        ),
        JsValue::Function(params, body) => JsView::Function(params@, body@),
        JsValue::Handle(h) => JsView::Handle(h as nat),
    }
}

impl View for JsValue {
    type V = JsView;

    open spec fn view(&self) -> JsView {
        value_view(*self)
    }
}

/// The models of a list of values.
pub open spec fn items_view(items: Seq<JsValue>) -> Seq<JsView> {
    Seq::new(items.len(), |i: int| items[i]@)
}

/// The models of the members of an object.
pub open spec fn members_view(members: Seq<(String, JsValue)>) -> Seq<(Seq<char>, JsView)> {
    Seq::new(members.len(), |i: int| (members[i].0@, members[i].1@))
}

/// The first member of an object that has the key `key`.
pub open spec fn member(members: Seq<(Seq<char>, JsView)>, key: Seq<char>) -> Option<JsView>
    decreases members.len(),
{
    if members.len() == 0 {
        None
    } else if members[0].0 == key {
        Some(members[0].1)
    } else {
        member(members.drop_first(), key)
    }
}

/// The place of the first member of an object that has the key `key`.
pub open spec fn member_index(members: Seq<(Seq<char>, JsView)>, key: Seq<char>) -> Option<int>
    decreases members.len(),
{
    if members.len() == 0 {
        None
    } else if members[0].0 == key {
        Some(0)
    } else {
        match member_index(members.drop_first(), key) {
            Some(i) => Some(i + 1),
            None => None,
        }
    }
}

/// The member of the object `v` under `key`; none where `v` is no object.
pub open spec fn field(v: JsView, key: Seq<char>) -> Option<JsView> {
    match v {
        JsView::Object(members) => member(members, key),
        _ => None,
    }
}

/// The object `v` with `value` in place of its first member under `key`;
/// `v` itself where it is no object or has no such member.
pub open spec fn with_field(v: JsView, key: Seq<char>, value: JsView) -> JsView {
    match v {
        JsView::Object(members) => match member_index(members, key) {
            Some(i) => JsView::Object(members.update(i, (key, value))),
            None => v,
        },
        _ => v,
    }
}

pub proof fn lemma_array_view(items: Vec<JsValue>)
    ensures
        JsValue::Array(items)@ == JsView::Array(items_view(items@)),
{
    assert(JsValue::Array(items)@->Array_0 =~= items_view(items@));
}

pub proof fn lemma_object_view(members: Vec<(String, JsValue)>)
    ensures
        JsValue::Object(members)@ == JsView::Object(members_view(members@)),
{
    assert(JsValue::Object(members)@->Object_0 =~= members_view(members@));
}

/// The place of a member is that of the member.
pub proof fn lemma_member_index(members: Seq<(Seq<char>, JsView)>, key: Seq<char>)
    ensures
        match member_index(members, key) {
            Some(i) => 0 <= i < members.len() && members[i].0 == key && member(members, key) == Some(
                members[i].1,
            ),
            None => member(members, key) is None,
        },
    decreases members.len(),
{
    if members.len() > 0 && members[0].0 != key {
        lemma_member_index(members.drop_first(), key);
    }
}

impl JsValue {
    /// The place of the first member under `key`, where `members` has one.
    pub fn position(members: &Vec<(String, JsValue)>, key: &str) -> (r: Option<usize>)
        ensures
            match r {
                Some(i) => member_index(members_view(members@), key@) == Some(i as int) && i
                    < members@.len(),
                None => member_index(members_view(members@), key@) is None,
            },
    {
        let ghost mv = members_view(members@);
        let mut i: usize = 0;
        assert(mv.skip(0) =~= mv);
        while i < members.len()
            invariant
                i <= members.len(),
                mv == members_view(members@),
                match member_index(mv.skip(i as int), key@) {
                    Some(k) => member_index(mv, key@) == Some(k + i),
                    None => member_index(mv, key@) is None,
                },
            decreases members.len() - i,
        {
            proof {
                assert(mv.skip(i as int).drop_first() =~= mv.skip(i + 1));
                assert(mv.skip(i as int)[0] == mv[i as int]);
            }
            if crate::text::str_eq(members[i].0.as_str(), key) {
                return Some(i);
            }
            i += 1;
        }
        None
    }

    /// The member of an object under `key`. A value that is no object has
    /// no members.
    pub fn get(&self, key: &str) -> (r: Option<&JsValue>)
        ensures
            match r {
                Some(x) => field(self@, key@) == Some(x@),
                None => field(self@, key@) is None,
            },
    {
        match self {
            JsValue::Object(members) => {
                proof {
                    lemma_object_view(*members);
                    lemma_member_index(members_view(members@), key@);
                }
                match JsValue::position(members, key) {
                    Some(i) => Some(&members[i].1),
                    None => None,
                }
            },
            _ => None,
        }
    }

    /// The object with `value` in place of its first member under `key`. A
    /// value that is no object, or has no such member, stays as it is.
    pub fn set(self, key: &str, value: JsValue) -> (r: JsValue)
        ensures
            r@ == with_field(self@, key@, value@),
    {
        match self {
            JsValue::Object(members) => {
                proof {
                    lemma_object_view(members);
                    lemma_member_index(members_view(members@), key@);
                }
                match JsValue::position(&members, key) {
                    Some(i) => {
                        let mut members = members;
                        let ghost before = members@;
                        members.set(i, (crate::text::owned(key), value));
                        proof {
                            lemma_object_view(members);
                            assert(members_view(members@) =~= members_view(before).update(
                                i as int,
                                (key@, value@),
                            ));
                        }
                        JsValue::Object(members)
                    },
                    None => JsValue::Object(members),
                }
            },
            other => other,
        }
    }
}

/// The member of `v` under `key` as the rendering engine's language gives
/// it: `Undefined` for a member that an object lacks, and nothing at all
/// for a value that is no object.
pub open spec fn js_member(v: JsView, key: Seq<char>) -> Option<JsView> {
    match v {
        JsView::Object(_) => match field(v, key) {
            Some(x) => Some(x),
            None => Some(JsView::Undefined),
        },
        _ => None,
    }
}

/// Where the first `.` of a path stands at or behind `from`; the length of
/// the path where there is none.
pub open spec fn first_dot(path: Seq<char>, from: int) -> int
    decreases path.len() - from,
{
    if from < 0 || from >= path.len() {
        path.len() as int
    } else if path[from] == '.' {
        from
    } else {
        first_dot(path, from + 1)
    }
}

/// The value that a path of keys with `.` between them leads to: each key
/// names a member of what the keys before it led to. A key that an object
/// lacks leads to `Undefined`, and nothing leads on from a value that is
/// no object.
pub open spec fn path_value(v: JsView, path: Seq<char>) -> Option<JsView>
    decreases path.len(),
{
    let dot = first_dot(path, 0);
    match js_member(v, path.subrange(0, dot)) {
        None => None,
        Some(k) => if 0 <= dot < path.len() {
            path_value(k, path.subrange(dot + 1, path.len() as int))
        } else {
            Some(k)
        },
    }
}

proof fn lemma_first_dot_bounds(path: Seq<char>, from: int)
    requires
        0 <= from <= path.len(),
    ensures
        from <= first_dot(path, from) <= path.len(),
        first_dot(path, from) < path.len() ==> path[first_dot(path, from)] == '.',
        forall|i: int| from <= i < first_dot(path, from) ==> #[trigger] path[i] != '.',
    decreases path.len() - from,
{
    if from < path.len() && path[from] != '.' {
        lemma_first_dot_bounds(path, from + 1);
    }
}

/// The first `.` of the rest of a path stands where it stands in the
/// path.
proof fn lemma_first_dot_of_rest(path: Seq<char>, start: int, from: int)
    requires
        0 <= start <= from <= path.len(),
    ensures
        first_dot(path.subrange(start, path.len() as int), from - start) == first_dot(path, from)
            - start,
    decreases path.len() - from,
{
    let rest = path.subrange(start, path.len() as int);
    if from < path.len() {
        assert(rest[from - start] == path[from]);
        if path[from] != '.' {
            lemma_first_dot_of_rest(path, start, from + 1);
        }
    }
}

/// The value that a path of keys with `.` between them leads to, where it
/// leads to one that is there and holds something.
pub fn object_values_at<'a>(j: &'a JsValue, item: &str) -> (r: Option<&'a JsValue>)
    ensures
        match r {
            Some(x) => path_value(j@, item@) == Some(x@) && x@ != JsView::Undefined,
            None => path_value(j@, item@) is None || path_value(j@, item@) == Some(
                JsView::Undefined,
            ),
        },
{
    let n = item.unicode_len();
    let mut cur: &JsValue = j;
    let mut start: usize = 0;
    assert(item@.subrange(0, n as int) =~= item@);
    loop
        invariant
            n == item@.len(),
            start <= n,
            path_value(j@, item@) == path_value(cur@, item@.subrange(start as int, n as int)),
        decreases n - start,
    {
        let ghost rest = item@.subrange(start as int, n as int);
        let mut dot: usize = start;
        while dot < n && item.get_char(dot) != '.'
            invariant
                n == item@.len(),
                start <= dot <= n,
                forall|i: int| start <= i < dot ==> #[trigger] item@[i] != '.',
            decreases n - dot,
        {
            dot += 1;
        }
        proof {
            lemma_first_dot_bounds(item@, start as int);
            lemma_first_dot_of_rest(item@, start as int, start as int);
            assert(first_dot(item@, start as int) == dot);
            assert(rest.subrange(0, dot - start) =~= item@.subrange(start as int, dot as int));
            if dot < n {
                assert(rest.subrange(dot - start + 1, rest.len() as int) =~= item@.subrange(
                    dot + 1,
                    n as int,
                ));
            }
        }
        let key = item.substring_char(start, dot);
        match cur {
            JsValue::Object(_) => match cur.get(key) {
                Some(x) => {
                    if dot < n {
                        cur = x;
                        start = dot + 1;
                    } else {
                        return match x {
                            JsValue::Undefined => None,
                            _ => Some(x),
                        };
                    }
                },
                None => {
                    proof {
                        if dot < n {
                            assert(path_value(
                                JsView::Undefined,
                                item@.subrange(dot + 1, n as int),
                            ) is None);
                        }
                    }
                    return None;
                },
            },
            _ => {
                return None;
            },
        }
    }
}

/// A member that is set stays where it was.
pub proof fn lemma_member_index_update(
    members: Seq<(Seq<char>, JsView)>,
    key: Seq<char>,
    value: JsView,
)
    ensures
        member_index(members, key) matches Some(i) ==> member_index(
            members.update(i, (key, value)),
            key,
        ) == Some(i),
    decreases members.len(),
{
    if members.len() > 0 && members[0].0 != key {
        lemma_member_index_update(members.drop_first(), key, value);
        lemma_member_index(members.drop_first(), key);
        match member_index(members.drop_first(), key) {
            Some(j) => {
                assert(members.update(j + 1, (key, value)).drop_first() =~= members.drop_first().update(
                    j,
                    (key, value),
                ));
            },
            None => {},
        }
    }
}

/// A member that is set is found with its new value.
pub proof fn lemma_field_of_with_field(v: JsView, key: Seq<char>, x: JsView)
    requires
        field(v, key) is Some,
    ensures
        field(with_field(v, key, x), key) == Some(x),
{
    match v {
        JsView::Object(members) => {
            lemma_member_index(members, key);
            lemma_member_index_update(members, key, x);
            let i = member_index(members, key)->Some_0;
            lemma_member_index(members.update(i, (key, x)), key);
        },
        _ => {},
    }
}

/// Setting a member twice is setting it to the second value.
pub proof fn lemma_with_field_twice(v: JsView, key: Seq<char>, x: JsView, y: JsView)
    ensures
        with_field(with_field(v, key, x), key, y) == with_field(v, key, y),
{
    match v {
        JsView::Object(members) => {
            lemma_member_index_update(members, key, x);
            lemma_member_index(members, key);
            match member_index(members, key) {
                Some(i) => {
                    assert(members.update(i, (key, x)).update(i, (key, y)) =~= members.update(
                        i,
                        (key, y),
                    ));
                },
                None => {},
            }
        },
        _ => {},
    }
}

/// Setting a member to what it holds changes nothing.
pub proof fn lemma_with_field_same(v: JsView, key: Seq<char>)
    ensures
        field(v, key) matches Some(x) ==> with_field(v, key, x) == v,
{
    match v {
        JsView::Object(members) => {
            lemma_member_index(members, key);
            match member_index(members, key) {
                Some(i) => {
                    assert(members.update(i, (key, members[i].1)) =~= members);
                },
                None => {},
            }
        },
        _ => {},
    }
}

impl JsValue {
    /// Takes the first member under `key` out of an object and leaves
    /// `Undefined` in its place. A value that is no object, or has no such
    /// member, stays as it is and gives nothing.
    pub fn take(self, key: &str) -> (r: (JsValue, Option<JsValue>))
        ensures
            match r.1 {
                Some(x) => field(self@, key@) == Some(x@) && r.0@ == with_field(
                    self@,
                    key@,
                    JsView::Undefined,
                ),
                None => field(self@, key@) is None && r.0@ == self@,
            },
    {
        match self {
            JsValue::Object(members) => {
                proof {
                    lemma_object_view(members);
                    lemma_member_index(members_view(members@), key@);
                }
                match JsValue::position(&members, key) {
                    Some(i) => {
                        let mut members = members;
                        let ghost before = members@;
                        let old_member = members.remove(i);
                        members.insert(i, (old_member.0, JsValue::Undefined));
                        proof {
                            lemma_object_view(members);
                            assert(members_view(members@) =~= members_view(before).update(
                                i as int,
                                (key@, JsView::Undefined),
                            ));
                        }
                        (JsValue::Object(members), Some(old_member.1))
                    },
                    None => (JsValue::Object(members), None),
                }
            },
            other => (other, None),
        }
    }
}

impl JsValue {
    /// A copy of the whole tree.
    fn duplicate(&self) -> (r: JsValue)
        ensures
            r@ == self@,
        decreases self,
    {
        match self {
            JsValue::Undefined => JsValue::Undefined,
            JsValue::Null => JsValue::Null,
            JsValue::Bool(b) => JsValue::Bool(*b),
            JsValue::Int(i) => JsValue::Int(*i),
            JsValue::Number(s) => JsValue::Number(s.clone()),
            JsValue::Str(s) => JsValue::Str(s.clone()),
            JsValue::Array(items) => {
                let mut out: Vec<JsValue> = Vec::new();
                let mut i: usize = 0;
                while i < items.len()
                    invariant
                        i <= items.len(),
                        out@.len() == i,
                        self is Array,
                        self->Array_0 == *items,
                        forall|j: int| 0 <= j < i ==> (#[trigger] out@[j])@ == items@[j]@,
                    decreases items.len() - i,
                {
                    assert(decreases_to!(*self => self->Array_0));
                    assert(decreases_to!(*items => items[i as int]));
                    out.push(items[i].duplicate());
                    i += 1;
                }
                proof {
                    lemma_array_view(out);
                    lemma_array_view(*items);
                    assert(items_view(out@) =~= items_view(items@));
                }
                JsValue::Array(out)
            },
            JsValue::Object(members) => {
                let mut out: Vec<(String, JsValue)> = Vec::new();
                let mut i: usize = 0;
                while i < members.len()
                    invariant
                        i <= members.len(),
                        out@.len() == i,
                        self is Object,
                        self->Object_0 == *members,
                        forall|j: int|
                            0 <= j < i ==> (#[trigger] out@[j]).0@ == members@[j].0@ && out@[j].1@
                                == members@[j].1@,
                    decreases members.len() - i,
                {
                    assert(decreases_to!(*self => self->Object_0));
                    assert(decreases_to!(*members => members[i as int]));
                    assert(decreases_to!(members[i as int] => members[i as int].1));
                    let copy = members[i].1.duplicate();
                    out.push((members[i].0.clone(), copy));
                    i += 1;
                }
                proof {
                    lemma_object_view(out);
                    lemma_object_view(*members);
                    assert(members_view(out@) =~= members_view(members@));
                }
                JsValue::Object(out)
            },
            JsValue::Function(params, body) => JsValue::Function(params.clone(), body.clone()),
            JsValue::Handle(h) => JsValue::Handle(*h),
        }
    }
}

impl Clone for JsValue {
    fn clone(&self) -> (r: Self)
        ensures
            r@ == self@,
    {
        self.duplicate()
    }
}

} // verus!
