use vstd::prelude::*;
use vstd::string::{StrSliceExecFns, StringExecFns};
use crate::literal::{
    ascii_at, decimal_float_parts, fraction_end, has_point, is_decimal_float, unsigned_part, whole_end,
};
use crate::value::{
    items_view, lemma_array_view, lemma_object_view, members_view, JsValue, JsView,
};

verus! {

/// `serde_json::Value`, which the conversions below hand to and take from
/// `serde_json`. Nothing is said of what it holds.
#[verifier::external_type_specification]
#[verifier::external_body]
pub struct ExJson(serde_json::Value);

/// The JSON text that `serde_json` writes for a value.
pub uninterp spec fn json_text(v: JsView) -> Seq<char>;

/// The value that `serde_json` reads from a JSON text, or the message with
/// which it refuses the text.
pub uninterp spec fn json_value(text: Seq<char>) -> Result<JsView, Seq<char>>;

/// Where the run of zeros that starts at `from` ends, if one digit at
/// least is to be left before `end`.
pub open spec fn zero_run(s: Seq<char>, from: int, end: int) -> int
    decreases end - from,
{
    if 0 <= from && from + 1 < end <= s.len() && s[from] == '0' {
        zero_run(s, from + 1, end)
    } else {
        from
    }
}

/// The literal that JSON has for a decimal floating-point number: a `-`
/// where the number has one; the digits before the point without zeros
/// that lead them, or `0` where there are none; the point with the digits
/// behind it, or with `0` where there are none; and the exponent as it
/// stands. A text that is no such number has none.
pub open spec fn json_literal(s: Seq<char>) -> Option<Seq<char>> {
    let body = unsigned_part(s);
    if !is_decimal_float(body) {
        None
    } else {
        let minus = if s[0] == '-' {
            seq!['-']
        } else {
            Seq::empty()
        };
        let whole = if whole_end(body) == 0 {
            seq!['0']
        } else {
            body.subrange(zero_run(body, 0, whole_end(body)), whole_end(body))
        };
        let fraction = if !has_point(body) {
            Seq::empty()
        } else if fraction_end(body) == whole_end(body) + 1 {
            seq!['.', '0']
        } else {
            body.subrange(whole_end(body), fraction_end(body))
        };
        let exponent = body.subrange(fraction_end(body), body.len() as int);
        Some(minus + whole + fraction + exponent)
    }
}

/// The literal that JSON has for a decimal floating-point number.
pub fn to_json_literal(s: &str) -> (r: Option<String>)
    ensures
        match r {
            Some(t) => json_literal(s@) == Some(t@),
            None => json_literal(s@) is None,
        },
{
    let (start, int_end, frac_end) = match decimal_float_parts(s) {
        Some(parts) => parts,
        None => {
            return None;
        },
    };
    let n = s.unicode_len();
    let ghost body = unsigned_part(s@);
    proof {
        reveal_strlit("-");
        reveal_strlit("0");
        reveal_strlit(".0");
        assert("-"@ =~= seq!['-']);
        assert("0"@ =~= seq!['0']);
        assert(".0"@ =~= seq!['.', '0']);
    }
    let mut out = String::new();
    if start == 1 && ascii_at(s, 0) == 45 {
        out.append("-");
    }
    assert(out@ =~= if s@[0] == '-' {
        seq!['-']
    } else {
        Seq::<char>::empty()
    });
    let ghost minus = out@;
    if int_end == start {
        out.append("0");
    } else {
        let mut k: usize = start;
        while k + 1 < int_end && ascii_at(s, k) == 48
            invariant
                s.is_ascii(),
                start <= k < int_end <= s@.len(),
                body == s@.subrange(start as int, s@.len() as int),
                zero_run(body, 0, int_end - start) == zero_run(body, k - start, int_end - start),
            decreases int_end - k,
        {
            assert(body[k - start] == s@[k as int]);
            k += 1;
        }
        proof {
            assert(body[k - start] == s@[k as int]);
            assert(zero_run(body, k - start, int_end - start) == k - start);
            assert(body.subrange(k - start, int_end - start) =~= s@.subrange(k as int, int_end as int));
        }
        out.append(s.substring_ascii(k, int_end));
    }
    let ghost before_fraction = out@;
    if int_end < frac_end || (int_end < n && ascii_at(s, int_end) == 46) {
        assert(body[int_end - start] == s@[int_end as int]);
        if frac_end == int_end + 1 {
            out.append(".0");
        } else {
            proof {
                assert(body.subrange(int_end - start, frac_end - start) =~= s@.subrange(
                    int_end as int,
                    frac_end as int,
                ));
            }
            out.append(s.substring_ascii(int_end, frac_end));
        }
    }
    proof {
        assert(body.subrange(frac_end - start, body.len() as int) =~= s@.subrange(
            frac_end as int,
            n as int,
        ));
    }
    out.append(s.substring_ascii(frac_end, n));
    assert(json_literal(s@)->Some_0 =~= out@);
    Some(out)
}

/// Whether a value holds nothing that JSON has no form for: no
/// `Undefined`, no function and no handle, at any depth.
pub open spec fn is_plain(v: JsView) -> bool
    decreases v,
{
    match v {
        JsView::Undefined => false,
        JsView::Function(_, _) => false,
        JsView::Handle(_) => false,
        JsView::Array(items) => forall|i: int| 0 <= i < items.len() ==> is_plain(#[trigger] items[i]),
        JsView::Object(members) => forall|i: int|
            0 <= i < members.len() ==> is_plain((#[trigger] members[i]).1),
        _ => true,
    }
}

/// The value as JSON can hold it, at any depth: null in place of
/// `Undefined`, of a function and of a handle, and each number that is no
/// `i64` as the literal that JSON has for it, or null where JSON has
/// none.
pub open spec fn json_form(v: JsView) -> JsView
    decreases v,
{
    match v {
        JsView::Undefined => JsView::Null,
        JsView::Function(_, _) => JsView::Null,
        JsView::Handle(_) => JsView::Null,
        JsView::Number(t) => match json_literal(t) {
            Some(u) => JsView::Number(u),
            None => JsView::Null,
        },
        JsView::Array(items) => JsView::Array(
            Seq::new(
                items.len(),
                |i: int|
                    if 0 <= i < items.len() {
                        json_form(items[i])
                    } else {
                        JsView::Null
                    },
            ),
        ),
        JsView::Object(members) => JsView::Object(
            Seq::new(
                members.len(),
                |i: int|
                    if 0 <= i < members.len() {
                        (members[i].0, json_form(members[i].1))
                    } else {
                        (Seq::empty(), JsView::Null)
                    },
            ),
        ),
        _ => v,
    }
}

/// Turns a value that JSON has a form for into a `serde_json::Value`,
/// variant by variant. A number literal goes through
/// `serde_json::from_str`; one that it refuses, as too large for it,
/// becomes null.
#[verifier::external_body]
fn to_json(v: &JsValue) -> serde_json::Value
    requires
        is_plain(v@),
{
    match v {
        JsValue::Bool(b) => serde_json::Value::Bool(*b),
        JsValue::Int(i) => serde_json::Value::Number((*i).into()),
        JsValue::Number(t) => serde_json::from_str(t).map_or(
            serde_json::Value::Null,
            serde_json::Value::Number,
        ),
        JsValue::Str(s) => serde_json::Value::String(s.clone()),
        JsValue::Array(items) => serde_json::Value::Array(items.iter().map(to_json).collect()),
        JsValue::Object(m) => serde_json::Value::Object(
            m.iter().map(|(k, x)| (k.clone(), to_json(x))).collect(),
        ),
        _ => serde_json::Value::Null,
    }
}

/// Turns a `serde_json::Value` into a value, variant by variant. A number
/// that `as_i64` gives as an integer is one; any other is kept as the
/// literal that `serde_json` writes for it.
#[verifier::external_body]
fn from_json(j: serde_json::Value) -> JsValue {
    match j {
        serde_json::Value::Null => JsValue::Null,
        serde_json::Value::Bool(b) => JsValue::Bool(b),
        serde_json::Value::Number(n) => n.as_i64().map_or(JsValue::Number(n.to_string()), JsValue::Int),
        serde_json::Value::String(s) => JsValue::Str(s),
        serde_json::Value::Array(items) => JsValue::Array(items.into_iter().map(from_json).collect()),
        serde_json::Value::Object(m) => JsValue::Object(
            m.into_iter().map(|(k, x)| (k, from_json(x))).collect(),
        ),
    }
}

/// Calls `to_string` on the `serde_json::Value` that stands for `v`. The
/// contract names the text.
#[verifier::external_body]
fn render(v: &JsValue) -> (r: String)
    requires
        is_plain(v@),
    ensures
        r@ == json_text(v@),
{
    to_json(v).to_string()
}

/// Calls `serde_json::from_str` for a `serde_json::Value`. The contract
/// names what is read, and the message where the text is refused.
#[verifier::external_body]
fn parse(text: &str) -> (r: Result<JsValue, String>)
    ensures
        match r {
            Ok(v) => json_value(text@) == Ok::<JsView, Seq<char>>(v@),
            Err(e) => json_value(text@) == Err::<JsView, Seq<char>>(e@),
        },
{
    match serde_json::from_str::<serde_json::Value>(text) {
        Ok(j) => Ok(from_json(j)),
        Err(e) => Err(e.to_string()),
    }
}

impl JsValue {
    /// The value as JSON can hold it.
    pub fn json_form(&self) -> (r: JsValue)
        ensures
            r@ == json_form(self@),
            is_plain(r@),
        decreases self,
    {
        match self {
            JsValue::Undefined => JsValue::Null,
            JsValue::Function(_, _) => JsValue::Null,
            JsValue::Handle(_) => JsValue::Null,
            JsValue::Null => JsValue::Null,
            JsValue::Bool(b) => JsValue::Bool(*b),
            JsValue::Int(i) => JsValue::Int(*i),
            JsValue::Number(t) => match to_json_literal(t.as_str()) {
                Some(u) => JsValue::Number(u),
                None => JsValue::Null,
            },
            JsValue::Str(s) => JsValue::Str(s.clone()),
            JsValue::Array(items) => {
                proof {
                    lemma_array_view(*items);
                }
                let mut out: Vec<JsValue> = Vec::new();
                let mut i: usize = 0;
                while i < items.len()
                    invariant
                        i <= items.len(),
                        out@.len() == i,
                        self is Array,
                        self->Array_0 == *items,
                        forall|j: int|
                            0 <= j < i ==> (#[trigger] out@[j])@ == json_form(items@[j]@) && is_plain(
                                out@[j]@,
                            ),
                    decreases items.len() - i,
                {
                    assert(decreases_to!(*self => self->Array_0));
                    assert(decreases_to!(*items => items[i as int]));
                    out.push(items[i].json_form());
                    i += 1;
                }
                proof {
                    lemma_array_view(out);
                    assert(items_view(out@) =~= json_form(self@)->Array_0);
                    assert forall|j: int| 0 <= j < items_view(out@).len() implies is_plain(
                        #[trigger] items_view(out@)[j],
                    ) by {
                        assert(is_plain(out@[j]@));
                    }
                }
                JsValue::Array(out)
            },
            JsValue::Object(members) => {
                proof {
                    lemma_object_view(*members);
                }
                let mut out: Vec<(String, JsValue)> = Vec::new();
                let mut i: usize = 0;
                while i < members.len()
                    invariant
                        i <= members.len(),
                        out@.len() == i,
                        self is Object,
                        self->Object_0 == *members,
                        forall|j: int|
                            0 <= j < i ==> (#[trigger] out@[j]).0@ == members@[j].0@ && out@[j].1@
                                == json_form(members@[j].1@) && is_plain(out@[j].1@),
                    decreases members.len() - i,
                {
                    assert(decreases_to!(*self => self->Object_0));
                    assert(decreases_to!(*members => members[i as int]));
                    assert(decreases_to!(members[i as int] => members[i as int].1));
                    let plain = members[i].1.json_form();
                    out.push((members[i].0.clone(), plain));
                    i += 1;
                }
                proof {
                    lemma_object_view(out);
                    assert(members_view(out@) =~= json_form(self@)->Object_0);
                    assert forall|j: int| 0 <= j < members_view(out@).len() implies is_plain(
                        (#[trigger] members_view(out@)[j]).1,
                    ) by {
                        assert(is_plain(out@[j].1@));
                    }
                }
                JsValue::Object(out)
            },
        }
    }

    /// The JSON text of the value, with null for all that JSON has no form
    /// for.
    pub fn to_json(&self) -> (r: String)
        ensures
            r@ == json_text(json_form(self@)),
    {
        let plain = self.json_form();
        render(&plain)
    }

    /// The value that a JSON text holds.
    pub fn from_json(text: &str) -> (r: Result<JsValue, String>)
        ensures
            match r {
                Ok(v) => json_value(text@) == Ok::<JsView, Seq<char>>(v@),
                Err(e) => json_value(text@) == Err::<JsView, Seq<char>>(e@),
            },
    {
        parse(text)
    }
}

/// Reads the JSON text that the rendering engine wrote for one of its
/// objects.
pub fn uncircle_chartjs_value_to_serde_json_value(js_string: &str) -> (r: Result<JsValue, String>)
    ensures
        match r {
            Ok(v) => json_value(js_string@) == Ok::<JsView, Seq<char>>(v@),
            Err(e) => json_value(js_string@) == Err::<JsView, Seq<char>>(e@),
        },
{
    JsValue::from_json(js_string)
}

} // verus!
