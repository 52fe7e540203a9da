use vstd::prelude::*;
use vstd::string::StringExecFns;
use vstd::string::StrSliceExecFns;
use crate::registry::CallbackRegistry;
use crate::scalar::{Any, BoolString, NumberString};
use crate::text::{clone_option, clone_strings, join, joined, owned, texts};
use crate::value::{
    field, items_view, lemma_array_view, lemma_object_view, member, members_view, JsValue, JsView,
};
use crate::wire::{ChartJsRsObject, DecodeError, Deserialize, Serialize};

verus! {

/// The model of a callback descriptor.
pub struct FnView {
    /// The names of the parameters.
    pub args: Seq<Seq<char>>,
    /// The statements of the body.
    pub body: Seq<char>,
    /// The expression that the function returns.
    pub return_value: Seq<char>,
    /// The identifier of a native callback, where the function stands for
    /// one.
    pub closure_id: Option<Seq<char>>,
}

/// A function as data: `N` named parameters and either a body with a return
/// expression, or the identifier of a native callback that is to be called
/// with the same `N` arguments.
#[derive(Debug, PartialEq, Eq, PartialOrd, Ord)]
pub struct FnWithArgs<const N: usize> {
    pub(crate) args: Vec<String>,
    pub(crate) body: String,
    pub(crate) return_value: String,
    pub(crate) closure_id: Option<String>,
}

/// A live function: the parameter list and the body that make it.
#[derive(Clone, Debug, PartialEq, Eq)]
pub struct Function {
    pub args: String,
    pub body: String,
}

/// The letter at place `k` of the alphabet.
pub open spec fn letter(k: int) -> char {
    seq![
        'a', 'b', 'c', 'd', 'e', 'f', 'g', 'h', 'i', 'j', 'k', 'l', 'm', 'n', 'o', 'p', 'q', 'r', 's',
        't', 'u', 'v', 'w', 'x', 'y', 'z',
    ][k]
}

/// The name that a parameter has where none was given: `a` to `z`, then
/// `aa` to `zz`, then `aaa`, and so on: the letter of the place, once more
/// for each time that the alphabet was gone through.
pub open spec fn default_arg(i: int) -> Seq<char> {
    Seq::new((i / 26 + 1) as nat, |k: int| letter(i % 26))
}

/// The parameter names after `given` was applied: each given name, and the
/// default name in place of an empty one.
pub open spec fn named_args(given: Seq<Seq<char>>) -> Seq<Seq<char>> {
    Seq::new(
        given.len(),
        |i: int|
            if given[i].len() == 0 {
                default_arg(i)
            } else {
                given[i]
            },
    )
}

/// The descriptor that `new` makes for `n` parameters.
pub open spec fn fresh(n: nat) -> FnView {
    FnView {
        args: Seq::new(n, |i: int| default_arg(i)),
        body: Seq::empty(),
        return_value: Seq::empty(),
        closure_id: None,
    }
}

/// The descriptor with `text` added to its body on a line of its own.
pub open spec fn with_body(d: FnView, text: Seq<char>) -> FnView {
    FnView { body: d.body + "\n"@ + text, ..d }
}

/// The descriptor with its return expression set. An empty body gets a
/// line break first, so that the descriptor no longer counts as empty.
pub open spec fn with_return_value(d: FnView, text: Seq<char>) -> FnView {
    let base = if d.body.len() == 0 {
        with_body(d, Seq::empty())
    } else {
        d
    };
    FnView { return_value: text, ..base }
}

/// The descriptor that calls the function `name` of the `callbacks`
/// namespace with its own parameters and returns what that gives.
pub open spec fn with_rust_fn(d: FnView, name: Seq<char>) -> FnView {
    let call = FnView {
        body: d.body + "\nconst _out_ = window.callbacks."@ + name + "("@ + joined(
            d.args,
            ", "@,
        ) + ");"@,
        ..d
    };
    with_return_value(call, "_out_"@)
}

/// Whether a descriptor counts as empty: it names no native callback and
/// its body is empty.
pub open spec fn is_empty_fn(d: FnView) -> bool {
    d.closure_id is None && d.body.len() == 0
}

/// The parameter list and the body of the function that a descriptor
/// stands for.
pub open spec fn built(d: FnView) -> (Seq<char>, Seq<char>) {
    let params = joined(d.args, ", "@);
    match d.closure_id {
        Some(id) => (params, "{ return window['"@ + id + "']("@ + params + ") }"@),
        None => (params, "{"@ + d.body + "\nreturn "@ + d.return_value + "}"@),
    }
}

pub open spec fn strs(items: Seq<Seq<char>>) -> Seq<JsView> {
    Seq::new(items.len(), |i: int| JsView::Str(items[i]))
}

/// The wire form of a descriptor: an object with the members `args`,
/// `body`, `return_value` and `closure_id`, in this order.
pub open spec fn fn_wire(d: FnView) -> JsView {
    JsView::Object(
        seq![
            ("args"@, JsView::Array(strs(d.args))),
            ("body"@, JsView::Str(d.body)),
            ("return_value"@, JsView::Str(d.return_value)),
            (
                "closure_id"@,
                match d.closure_id {
                    Some(id) => JsView::Str(id),
                    None => JsView::Null,
                },
            ),
        ],
    )
}

pub open spec fn all_str(items: Seq<JsView>) -> bool {
    forall|i: int| 0 <= i < items.len() ==> #[trigger] items[i] is Str
}

pub open spec fn str_texts(items: Seq<JsView>) -> Seq<Seq<char>> {
    Seq::new(items.len(), |i: int| items[i]->Str_0)
}

/// Whether a wire value has the shape of a descriptor: an object whose
/// `args` is a list of texts, whose `body` and `return_value` are texts, and
/// whose `closure_id`, where it is there, is a text or null.
pub open spec fn is_descriptor(v: JsView) -> bool {
    &&& v is Object
    &&& member(v->Object_0, "args"@) matches Some(JsView::Array(items)) && all_str(items)
    &&& member(v->Object_0, "body"@) matches Some(JsView::Str(_))
    &&& member(v->Object_0, "return_value"@) matches Some(JsView::Str(_))
    &&& match member(v->Object_0, "closure_id"@) {
        None => true,
        Some(JsView::Null) => true,
        Some(JsView::Str(_)) => true,
        _ => false,
    }
}

/// The descriptor that a wire value of that shape holds.
pub open spec fn descriptor_of(v: JsView) -> FnView {
    FnView {
        args: str_texts(member(v->Object_0, "args"@)->Some_0->Array_0),
        body: member(v->Object_0, "body"@)->Some_0->Str_0,
        return_value: member(v->Object_0, "return_value"@)->Some_0->Str_0,
        closure_id: match member(v->Object_0, "closure_id"@) {
            Some(JsView::Str(id)) => Some(id),
            _ => None,
        },
    }
}

/// What a wire value is read as where a descriptor of `n` parameters is
/// asked for.
pub open spec fn read_fn(v: JsView, n: usize) -> Result<FnView, DecodeError> {
    if !is_descriptor(v) {
        Err(DecodeError::Shape)
    } else if descriptor_of(v).args.len() != n {
        Err(DecodeError::Arity { found: descriptor_of(v).args.len() as usize, needed: n })
    } else {
        Ok(descriptor_of(v))
    }
}

fn letter_str(k: usize) -> (r: &'static str)
    requires
        k < 26,
    ensures
        r@ == seq![letter(k as int)],
{
    proof {
        reveal_strlit("a");
        reveal_strlit("b");
        reveal_strlit("c");
        reveal_strlit("d");
        reveal_strlit("e");
        reveal_strlit("f");
        reveal_strlit("g");
        reveal_strlit("h");
        reveal_strlit("i");
        reveal_strlit("j");
        reveal_strlit("k");
        reveal_strlit("l");
        reveal_strlit("m");
        reveal_strlit("n");
        reveal_strlit("o");
        reveal_strlit("p");
        reveal_strlit("q");
        reveal_strlit("r");
        reveal_strlit("s");
        reveal_strlit("t");
        reveal_strlit("u");
        reveal_strlit("v");
        reveal_strlit("w");
        reveal_strlit("x");
        reveal_strlit("y");
        reveal_strlit("z");
    }
    let r = match k {
        0 => "a",
        1 => "b",
        2 => "c",
        3 => "d",
        4 => "e",
        5 => "f",
        6 => "g",
        7 => "h",
        8 => "i",
        9 => "j",
        10 => "k",
        11 => "l",
        12 => "m",
        13 => "n",
        14 => "o",
        15 => "p",
        16 => "q",
        17 => "r",
        18 => "s",
        19 => "t",
        20 => "u",
        21 => "v",
        22 => "w",
        23 => "x",
        24 => "y",
        _ => "z",
    };
    assert(r@ =~= seq![letter(k as int)]);
    r
}

/// The default name of the parameter at `idx`.
fn alphabet(idx: usize) -> (r: String)
    ensures
        r@ == default_arg(idx as int),
{
    let one = letter_str(idx % 26);
    let times = idx / 26 + 1;
    let mut out = String::new();
    let mut k: usize = 0;
    while k < times
        invariant
            k <= times,
            times == idx / 26 + 1,
            one@ == seq![letter((idx % 26) as int)],
            out@ == Seq::new(k as nat, |j: int| letter((idx % 26) as int)),
        decreases times - k,
    {
        out.append(one);
        k += 1;
        assert(out@ =~= Seq::new(k as nat, |j: int| letter((idx % 26) as int)));
    }
    assert(out@ =~= default_arg(idx as int));
    out
}

impl<const N: usize> View for FnWithArgs<N> {
    type V = FnView;

    closed spec fn view(&self) -> FnView {
        FnView {
            args: texts(self.args@),
            body: self.body@,
            return_value: self.return_value@,
            closure_id: match self.closure_id {
                Some(id) => Some(id@),
                None => None,
            },
        }
    }
}

impl<const N: usize> FnWithArgs<N> {
    #[verifier::type_invariant]
    spec fn well_formed(&self) -> bool {
        self.args@.len() == N
    }

    /// Whether the descriptor counts as empty.
    pub open spec fn empty(&self) -> bool {
        is_empty_fn(self@)
    }

    /// Whether the descriptor counts as empty: it names no native callback
    /// and its body is empty.
    pub fn is_empty(&self) -> (r: bool)
        ensures
            r == self.empty(),
            self@.args.len() == N,
    {
        proof {
            use_type_invariant(self);
        }
        match self.closure_id {
            Some(_) => false,
            None => self.body.as_str().is_empty(),
        }
    }

    /// The descriptor with the default parameter names, an empty body, no
    /// return expression and no native callback.
    pub fn new() -> (r: Self)
        ensures
            r@ == fresh(N as nat),
            r.empty(),
    {
        let mut args: Vec<String> = Vec::new();
        let mut i: usize = 0;
        while i < N
            invariant
                i <= N,
                args@.len() == i,
                forall|j: int| 0 <= j < i ==> (#[trigger] args@[j])@ == default_arg(j),
            decreases N - i,
        {
            args.push(alphabet(i));
            i += 1;
        }
        let r = FnWithArgs::<N> { args, body: String::new(), return_value: String::new(), closure_id: None };
        assert(r@.args =~= fresh(N as nat).args);
        r
    }

    /// Names the parameters. An empty name gives way to the default name of
    /// its place.
    pub fn args(self, args: [&str; N]) -> (r: Self)
        ensures
            r@ == (FnView { args: named_args(Seq::new(N as nat, |i: int| args@[i]@)), ..self@ }),
    {
        let mut names: Vec<String> = Vec::new();
        let mut i: usize = 0;
        while i < N
            invariant
                i <= N,
                args@.len() == N,
                names@.len() == i,
                forall|j: int|
                    0 <= j < i ==> (#[trigger] names@[j])@ == if args@[j]@.len() == 0 {
                        default_arg(j)
                    } else {
                        args@[j]@
                    },
            decreases N - i,
        {
            let arg: &str = args[i];
            if arg.is_empty() {
                names.push(alphabet(i));
            } else {
                names.push(owned(arg));
            }
            i += 1;
        }
        let r = FnWithArgs::<N> {
            args: names,
            body: self.body,
            return_value: self.return_value,
            closure_id: self.closure_id,
        };
        assert(r@.args =~= named_args(Seq::new(N as nat, |i: int| args@[i]@)));
        r
    }

    /// Adds `body` to the statements of the function, on a line of its own.
    pub fn js_body(self, body: &str) -> (r: Self)
        ensures
            r@ == with_body(self@, body@),
            !r.empty(),
    {
        proof {
            use_type_invariant(&self);
            reveal_strlit("\n");
        }
        let mut text = self.body;
        text.append("\n");
        text.append(body);
        FnWithArgs::<N> {
            args: self.args,
            body: text,
            return_value: self.return_value,
            closure_id: self.closure_id,
        }
    }

    /// Sets the expression that the function returns.
    pub fn js_return_value(self, return_value: &str) -> (r: Self)
        ensures
            r@ == with_return_value(self@, return_value@),
            !r.empty(),
    {
        proof {
            use_type_invariant(&self);
        }
        let s = if self.body.as_str().is_empty() {
            self.js_body("")
        } else {
            self
        };
        proof {
            use_type_invariant(&s);
            reveal_strlit("");
            assert(""@ =~= Seq::<char>::empty());
        }
        FnWithArgs::<N> {
            args: s.args,
            body: s.body,
            return_value: owned(return_value),
            closure_id: s.closure_id,
        }
    }

    /// Makes the descriptor call the function `fn_name` of the `callbacks`
    /// namespace with its own parameters, and return what that gives.
    fn run_named_fn(self, fn_name: &str) -> (r: Self)
        ensures
            r@ == with_rust_fn(self@, fn_name@),
            !r.empty(),
    {
        proof {
            use_type_invariant(&self);
        }
        let params = join(&self.args, ", ");
        let mut text = self.body;
        text.append("\nconst _out_ = window.callbacks.");
        text.append(fn_name);
        text.append("(");
        text.append(params.as_str());
        text.append(");");
        let call = FnWithArgs::<N> {
            args: self.args,
            body: text,
            return_value: self.return_value,
            closure_id: self.closure_id,
        };
        call.js_return_value("_out_")
    }

    /// The identifier of the native callback that the descriptor stands
    /// for, where it stands for one.
    pub fn closure_id(&self) -> (r: Option<String>)
        ensures
            match r {
                Some(id) => self@.closure_id == Some(id@),
                None => self@.closure_id is None,
            },
    {
        clone_option(&self.closure_id)
    }

    /// Makes the descriptor stand for the native callback that is
    /// registered under `id`.
    pub fn with_closure_id(self, id: String) -> (r: Self)
        ensures
            r@ == (FnView { closure_id: Some(id@), ..self@ }),
            !r.empty(),
    {
        proof {
            use_type_invariant(&self);
        }
        FnWithArgs::<N> {
            args: self.args,
            body: self.body,
            return_value: self.return_value,
            closure_id: Some(id),
        }
    }

    /// The function that the descriptor stands for. With a native callback
    /// it looks the callback up by its identifier and hands it its own
    /// arguments; otherwise it runs the body and returns the return
    /// expression.
    pub fn build(self) -> (r: Function)
        ensures
            (r.args@, r.body@) == built(self@),
    {
        let params = join(&self.args, ", ");
        match self.closure_id {
            Some(id) => {
                let mut body = String::from_str("{ return window['");
                body.append(id.as_str());
                body.append("'](");
                body.append(params.as_str());
                body.append(") }");
                Function { args: params, body }
            },
            None => {
                let mut body = String::from_str("{");
                body.append(self.body.as_str());
                body.append("\nreturn ");
                body.append(self.return_value.as_str());
                body.append("}");
                Function { args: params, body }
            },
        }
    }
}

impl<const N: usize> Clone for FnWithArgs<N> {
    fn clone(&self) -> (r: Self)
        ensures
            r@ == self@,
    {
        proof {
            use_type_invariant(self);
        }
        FnWithArgs::<N> {
            args: clone_strings(&self.args),
            body: self.body.clone(),
            return_value: self.return_value.clone(),
            closure_id: clone_option(&self.closure_id),
        }
    }
}

impl<const N: usize> Default for FnWithArgs<N> {
    /// The descriptor that `new` makes.
    fn default() -> (r: Self)
        ensures
            r@ == fresh(N as nat),
    {
        FnWithArgs::new()
    }
}

impl<const N: usize> FnWithArgs<N> {
    /// Writes the descriptor to the wire.
    pub fn to_value(&self) -> (r: JsValue)
        ensures
            r@ == fn_wire(self@),
    {
        let mut names: Vec<JsValue> = Vec::new();
        let mut i: usize = 0;
        while i < self.args.len()
            invariant
                i <= self.args.len(),
                names@.len() == i,
                forall|j: int| 0 <= j < i ==> (#[trigger] names@[j])@ == JsView::Str(self.args@[j]@),
            decreases self.args.len() - i,
        {
            names.push(JsValue::Str(self.args[i].clone()));
            i += 1;
        }
        let id = match &self.closure_id {
            Some(id) => JsValue::Str(id.clone()),
            None => JsValue::Null,
        };
        let mut members: Vec<(String, JsValue)> = Vec::new();
        proof {
            lemma_array_view(names);
            assert(items_view(names@) =~= strs(self@.args));
        }
        members.push((owned("args"), JsValue::Array(names)));
        members.push((owned("body"), JsValue::Str(self.body.clone())));
        members.push((owned("return_value"), JsValue::Str(self.return_value.clone())));
        members.push((owned("closure_id"), id));
        proof {
            lemma_object_view(members);
            assert(members_view(members@) =~= fn_wire(self@)->Object_0);
        }
        JsValue::Object(members)
    }

    /// Reads a descriptor of `N` parameters off the wire. A value of
    /// another shape is refused, and so is a descriptor that names another
    /// number of parameters.
    pub fn from_value(v: &JsValue) -> (r: Result<Self, DecodeError>)
        ensures
            match r {
                Ok(x) => read_fn(v@, N) == Ok::<FnView, DecodeError>(x@),
                Err(e) => read_fn(v@, N) == Err::<FnView, DecodeError>(e),
            },
    {
        let names = match v.get("args") {
            Some(JsValue::Array(items)) => {
                proof {
                    lemma_array_view(*items);
                }
                let mut names: Vec<String> = Vec::new();
                let mut i: usize = 0;
                while i < items.len()
                    invariant
                        i <= items.len(),
                        names@.len() == i,
                        field(v@, "args"@) == Some(JsView::Array(items_view(items@))),
                        forall|j: int| 0 <= j < i ==> (#[trigger] items@[j])@ == JsView::Str(names@[j]@),
                    decreases items.len() - i,
                {
                    match &items[i] {
                        JsValue::Str(s) => {
                            names.push(s.clone());
                        },
                        _ => {
                            assert(!(items_view(items@)[i as int] is Str));
                            return Err(DecodeError::Shape);
                        },
                    }
                    i += 1;
                }
                proof {
                    assert forall|j: int| 0 <= j < items@.len() implies #[trigger] items_view(
                        items@,
                    )[j] is Str by {
                        assert(items@[j]@ == JsView::Str(names@[j]@));
                    }
                    assert(str_texts(items_view(items@)) =~= texts(names@));
                }
                names
            },
            _ => {
                return Err(DecodeError::Shape);
            },
        };
        let body = match v.get("body") {
            Some(JsValue::Str(s)) => s.clone(),
            _ => {
                return Err(DecodeError::Shape);
            },
        };
        let return_value = match v.get("return_value") {
            Some(JsValue::Str(s)) => s.clone(),
            _ => {
                return Err(DecodeError::Shape);
            },
        };
        let closure_id = match v.get("closure_id") {
            None => None,
            Some(JsValue::Null) => None,
            Some(JsValue::Str(s)) => Some(s.clone()),
            _ => {
                return Err(DecodeError::Shape);
            },
        };
        if names.len() != N {
            return Err(DecodeError::Arity { found: names.len(), needed: N });
        }
        Ok(FnWithArgs::<N> { args: names, body, return_value, closure_id })
    }
}

impl<const N: usize> Serialize for FnWithArgs<N> {
    open spec fn wire(&self) -> JsView {
        fn_wire(self@)
    }

    fn serialize(&self) -> (r: JsValue)
        ensures
            r@ == self.wire(),
    {
        self.to_value()
    }
}

impl<const N: usize> Deserialize for FnWithArgs<N> {
    open spec fn readable(v: JsView) -> bool {
        read_fn(v, N) is Ok
    }

    open spec fn reads(&self, v: JsView) -> bool {
        read_fn(v, N) == Ok::<FnView, DecodeError>(self@)
    }

    /// Reads a descriptor of `N` parameters. A value of another shape is
    /// refused for its shape, and a descriptor that names another number of
    /// parameters for its arity.
    fn deserialize(v: &JsValue) -> (r: Result<Self, DecodeError>)
        ensures
            match r {
                Ok(x) => Self::readable(v@) && x.reads(v@),
                Err(e) => !Self::readable(v@) && read_fn(v@, N) == Err::<FnView, DecodeError>(e),
            },
    {
        FnWithArgs::<N>::from_value(v)
    }
}

/// Reading the wire form of a descriptor of `n` parameters, where `n` are
/// asked for, gives the descriptor back.
pub proof fn lemma_round_trip(d: FnView, n: usize)
    requires
        d.args.len() == n,
    ensures
        read_fn(fn_wire(d), n) == Ok::<FnView, DecodeError>(d),
{
    lemma_wire_members(d);
    assert(descriptor_of(fn_wire(d)).args =~= d.args);
}

/// Reading the wire form of a descriptor where another number of
/// parameters is asked for than it names fails, and the error tells both
/// numbers.
pub proof fn lemma_arity_mismatch(d: FnView, n: usize)
    requires
        d.args.len() != n,
    ensures
        read_fn(fn_wire(d), n) == Err::<FnView, DecodeError>(
            DecodeError::Arity { found: d.args.len() as usize, needed: n },
        ),
{
    lemma_wire_members(d);
    assert(descriptor_of(fn_wire(d)).args =~= d.args);
}

/// The four members of the wire form of a descriptor are found under
/// their keys.
proof fn lemma_wire_members(d: FnView)
    ensures
        is_descriptor(fn_wire(d)),
        member(fn_wire(d)->Object_0, "args"@) == Some(JsView::Array(strs(d.args))),
        member(fn_wire(d)->Object_0, "body"@) == Some(JsView::Str(d.body)),
        member(fn_wire(d)->Object_0, "return_value"@) == Some(JsView::Str(d.return_value)),
        member(fn_wire(d)->Object_0, "closure_id"@) == Some(
            match d.closure_id {
                Some(id) => JsView::Str(id),
                None => JsView::Null,
            },
        ),
{
    reveal_strlit("args");
    reveal_strlit("body");
    reveal_strlit("return_value");
    reveal_strlit("closure_id");
    let m = fn_wire(d)->Object_0;
    let m1 = m.drop_first();
    let m2 = m1.drop_first();
    let m3 = m2.drop_first();
    assert(m[0].0 == "args"@);
    assert(m1[0].0 == "body"@);
    assert(m2[0].0 == "return_value"@);
    assert(m3[0].0 == "closure_id"@);
    assert("args"@.len() == 4 && "body"@.len() == 4 && "return_value"@.len() == 12 && "closure_id"@.len() == 10);
    assert("args"@[0] != "body"@[0]);
    assert(member(m, "args"@) == Some(m[0].1));
    assert(member(m1, "body"@) == Some(m1[0].1));
    assert(member(m, "body"@) == member(m1, "body"@));
    assert(member(m2, "return_value"@) == Some(m2[0].1));
    assert(member(m1, "return_value"@) == member(m2, "return_value"@));
    assert(member(m, "return_value"@) == member(m1, "return_value"@));
    assert(member(m3, "closure_id"@) == Some(m3[0].1));
    assert(member(m2, "closure_id"@) == member(m3, "closure_id"@));
    assert(member(m1, "closure_id"@) == member(m2, "closure_id"@));
    assert(member(m, "closure_id"@) == member(m1, "closure_id"@));
    assert forall|i: int| 0 <= i < strs(d.args).len() implies #[trigger] strs(d.args)[i] is Str by {}
}

impl<const N: usize> ChartJsRsObject for FnWithArgs<N> {
    open spec fn empty(&self) -> bool {
        is_empty_fn(self@)
    }

    fn is_empty(&self) -> (r: bool)
        ensures
            r == self.empty(),
    {
        match self.closure_id {
            Some(_) => false,
            None => self.body.as_str().is_empty(),
        }
    }
}

/// Where the last segment of a path starts: behind the last `::` that a
/// scan from the left finds from `from` on, or at `start` where it finds
/// none.
pub open spec fn last_segment_start(s: Seq<char>, from: int, start: int) -> int
    decreases s.len() - from,
{
    if from < 0 || from + 2 > s.len() {
        start
    } else if s[from] == ':' && s[from + 1] == ':' {
        last_segment_start(s, from + 2, from + 2)
    } else {
        last_segment_start(s, from + 1, start)
    }
}

/// What stands behind the last `::` of a path; the path itself where it
/// holds none.
pub open spec fn last_segment_of(s: Seq<char>) -> Seq<char> {
    s.subrange(last_segment_start(s, 0, 0), s.len() as int)
}

proof fn lemma_last_segment_start_bounds(s: Seq<char>, from: int, start: int)
    requires
        0 <= start <= from <= s.len(),
    ensures
        start <= last_segment_start(s, from, start) <= s.len(),
    decreases s.len() - from,
{
    if from + 2 <= s.len() {
        if s[from] == ':' && s[from + 1] == ':' {
            lemma_last_segment_start_bounds(s, from + 2, from + 2);
        } else {
            lemma_last_segment_start_bounds(s, from + 1, start);
        }
    }
}

/// What stands behind the last `::` of a path.
pub fn last_segment(path: &str) -> (r: String)
    ensures
        r@ == last_segment_of(path@),
{
    let n = path.unicode_len();
    let mut from: usize = 0;
    let mut start: usize = 0;
    while from < n && n - from >= 2
        invariant
            n == path@.len(),
            start <= from <= n,
            last_segment_start(path@, 0, 0) == last_segment_start(path@, from as int, start as int),
        decreases n - from,
    {
        if path.get_char(from) == ':' && path.get_char(from + 1) == ':' {
            from = from + 2;
            start = from;
        } else {
            from = from + 1;
        }
    }
    owned(path.substring_char(start, n))
}

impl FnWithArgs<1> {
    /// Makes the descriptor call the native function `_func`, of one parameter,
    /// in the `callbacks` namespace: under the last segment of `path`, the
    /// path of its type.
    pub fn run_rust_fn<A, B, FN: Fn(A) -> B>(self, _func: &FN, path: &str) -> (r: Self)
        ensures
            r@ == with_rust_fn(self@, last_segment_of(path@)),
            !r.empty(),
    {
        let name = last_segment(path);
        self.run_named_fn(name.as_str())
    }
}

impl FnWithArgs<2> {
    /// Makes the descriptor call the native function `_func`, of two parameters,
    /// in the `callbacks` namespace: under the last segment of `path`, the
    /// path of its type.
    pub fn run_rust_fn<A, B, C, FN: Fn(A, B) -> C>(self, _func: &FN, path: &str) -> (r: Self)
        ensures
            r@ == with_rust_fn(self@, last_segment_of(path@)),
            !r.empty(),
    {
        let name = last_segment(path);
        self.run_named_fn(name.as_str())
    }
}

impl FnWithArgs<3> {
    /// Makes the descriptor call the native function `_func`, of three parameters,
    /// in the `callbacks` namespace: under the last segment of `path`, the
    /// path of its type.
    pub fn run_rust_fn<A, B, C, D, FN: Fn(A, B, C) -> D>(self, _func: &FN, path: &str) -> (r: Self)
        ensures
            r@ == with_rust_fn(self@, last_segment_of(path@)),
            !r.empty(),
    {
        let name = last_segment(path);
        self.run_named_fn(name.as_str())
    }
}

impl FnWithArgs<4> {
    /// Makes the descriptor call the native function `_func`, of four parameters,
    /// in the `callbacks` namespace: under the last segment of `path`, the
    /// path of its type.
    pub fn run_rust_fn<A, B, C, D, E, FN: Fn(A, B, C, D) -> E>(self, _func: &FN, path: &str) -> (r: Self)
        ensures
            r@ == with_rust_fn(self@, last_segment_of(path@)),
            !r.empty(),
    {
        let name = last_segment(path);
        self.run_named_fn(name.as_str())
    }
}

impl FnWithArgs<5> {
    /// Makes the descriptor call the native function `_func`, of five parameters,
    /// in the `callbacks` namespace: under the last segment of `path`, the
    /// path of its type.
    pub fn run_rust_fn<A, B, C, D, E, F, FN: Fn(A, B, C, D, E) -> F>(self, _func: &FN, path: &str) -> (r: Self)
        ensures
            r@ == with_rust_fn(self@, last_segment_of(path@)),
            !r.empty(),
    {
        let name = last_segment(path);
        self.run_named_fn(name.as_str())
    }
}

impl FnWithArgs<6> {
    /// Makes the descriptor call the native function `_func`, of six parameters,
    /// in the `callbacks` namespace: under the last segment of `path`, the
    /// path of its type.
    pub fn run_rust_fn<A, B, C, D, E, F, G, FN: Fn(A, B, C, D, E, F) -> G>(
        self,
        _func: &FN,
        path: &str,
    ) -> (r: Self)
        ensures
            r@ == with_rust_fn(self@, last_segment_of(path@)),
            !r.empty(),
    {
        let name = last_segment(path);
        self.run_named_fn(name.as_str())
    }
}

impl FnWithArgs<7> {
    /// Makes the descriptor call the native function `_func`, of seven parameters,
    /// in the `callbacks` namespace: under the last segment of `path`, the
    /// path of its type.
    pub fn run_rust_fn<A, B, C, D, E, F, G, H, FN: Fn(A, B, C, D, E, F, G) -> H>(
        self,
        _func: &FN,
        path: &str,
    ) -> (r: Self)
        ensures
            r@ == with_rust_fn(self@, last_segment_of(path@)),
            !r.empty(),
    {
        let name = last_segment(path);
        self.run_named_fn(name.as_str())
    }
}

/// A configuration field that holds either a plain value or a callback
/// descriptor of `N` parameters.
#[derive(Debug, Clone, PartialEq, Eq, PartialOrd, Ord)]
pub enum FnWithArgsOrT<const N: usize, T> {
    T(T),
    FnWithArgs(FnWithArgs<N>),
}

impl<const N: usize, T: ChartJsRsObject> FnWithArgsOrT<N, T> {
    pub open spec fn empty(&self) -> bool {
        match self {
            FnWithArgsOrT::T(a) => a.empty(),
            FnWithArgsOrT::FnWithArgs(f) => is_empty_fn(f@),
        }
    }

    /// Whether the variant that the field holds is empty.
    pub fn is_empty(&self) -> (r: bool)
        ensures
            r == self.empty(),
    {
        match self {
            FnWithArgsOrT::T(a) => a.is_empty(),
            FnWithArgsOrT::FnWithArgs(fnwa) => fnwa.is_empty(),
        }
    }
}

impl<const N: usize, T: ChartJsRsObject> ChartJsRsObject for FnWithArgsOrT<N, T> {
    open spec fn empty(&self) -> bool {
        match self {
            FnWithArgsOrT::T(a) => a.empty(),
            FnWithArgsOrT::FnWithArgs(f) => is_empty_fn(f@),
        }
    }

    fn is_empty(&self) -> (r: bool)
        ensures
            r == self.empty(),
    {
        match self {
            FnWithArgsOrT::T(a) => a.is_empty(),
            FnWithArgsOrT::FnWithArgs(fnwa) => fnwa.is_empty(),
        }
    }
}

impl<const N: usize, T: Default> Default for FnWithArgsOrT<N, T> {
    /// The plain value that `T` has by default; never a callback.
    fn default() -> (r: Self)
        ensures
            r matches FnWithArgsOrT::T(t) && call_ensures(T::default, (), t),
    {
        FnWithArgsOrT::T(T::default())
    }
}

impl<const N: usize, T: Serialize> Serialize for FnWithArgsOrT<N, T> {
    open spec fn wire(&self) -> JsView {
        match self {
            FnWithArgsOrT::T(t) => t.wire(),
            FnWithArgsOrT::FnWithArgs(f) => fn_wire(f@),
        }
    }

    fn serialize(&self) -> (r: JsValue)
        ensures
            r@ == self.wire(),
    {
        match self {
            FnWithArgsOrT::T(t) => t.serialize(),
            FnWithArgsOrT::FnWithArgs(f) => f.serialize(),
        }
    }
}

impl<const N: usize, T: Deserialize> Deserialize for FnWithArgsOrT<N, T> {
    /// A plain value or a callback of `N` parameters is looked for, in
    /// this order.
    open spec fn readable(v: JsView) -> bool {
        T::readable(v) || read_fn(v, N) is Ok
    }

    open spec fn reads(&self, v: JsView) -> bool {
        match self {
            FnWithArgsOrT::T(t) => T::readable(v) && t.reads(v),
            FnWithArgsOrT::FnWithArgs(f) => !T::readable(v) && read_fn(v, N) == Ok::<
                FnView,
                DecodeError,
            >(f@),
        }
    }

    fn deserialize(v: &JsValue) -> (r: Result<Self, DecodeError>)
        ensures
            match r {
                Ok(x) => Self::readable(v@) && x.reads(v@),
                Err(e) => !Self::readable(v@) && e == DecodeError::Shape,
            },
    {
        match T::deserialize(v) {
            Ok(t) => Ok(FnWithArgsOrT::T(t)),
            Err(_) => match FnWithArgs::<N>::from_value(v) {
                Ok(f) => Ok(FnWithArgsOrT::FnWithArgs(f)),
                Err(_) => Err(DecodeError::Shape),
            },
        }
    }
}

impl<const N: usize, T> From<FnWithArgs<N>> for FnWithArgsOrT<N, T> {
    fn from(value: FnWithArgs<N>) -> (r: Self) {
        FnWithArgsOrT::FnWithArgs(value)
    }
}

impl<const N: usize, T> vstd::std_specs::convert::FromSpecImpl<FnWithArgs<N>> for FnWithArgsOrT<N, T> {
    open spec fn obeys_from_spec() -> bool {
        true
    }

    open spec fn from_spec(value: FnWithArgs<N>) -> Self {
        FnWithArgsOrT::FnWithArgs(value)
    }
}

impl<const N: usize, T: Into<String>> From<T> for FnWithArgsOrT<N, String> {
    /// The plain text that `s` turns into.
    fn from(s: T) -> (r: Self)
        ensures
            r matches FnWithArgsOrT::T(t) && call_ensures(<T as Into<String>>::into, (s,), t),
    {
        FnWithArgsOrT::T(s.into())
    }
}

impl<const N: usize, T: Into<String>> vstd::std_specs::convert::FromSpecImpl<T> for FnWithArgsOrT<N, String> {
    open spec fn obeys_from_spec() -> bool {
        false
    }

    open spec fn from_spec(s: T) -> Self {
        arbitrary()
    }
}

impl<const N: usize, T: Into<NumberString>> From<T> for FnWithArgsOrT<N, NumberString> {
    /// The plain number that `ns` turns into.
    fn from(ns: T) -> (r: Self)
        ensures
            r matches FnWithArgsOrT::T(t) && call_ensures(<T as Into<NumberString>>::into, (ns,), t),
    {
        FnWithArgsOrT::T(ns.into())
    }
}

impl<const N: usize, T: Into<NumberString>> vstd::std_specs::convert::FromSpecImpl<T> for FnWithArgsOrT<N, NumberString> {
    open spec fn obeys_from_spec() -> bool {
        false
    }

    open spec fn from_spec(ns: T) -> Self {
        arbitrary()
    }
}

impl<const N: usize, T: Into<BoolString>> From<T> for FnWithArgsOrT<N, BoolString> {
    /// The plain truth value that `bs` turns into.
    fn from(bs: T) -> (r: Self)
        ensures
            r matches FnWithArgsOrT::T(t) && call_ensures(<T as Into<BoolString>>::into, (bs,), t),
    {
        FnWithArgsOrT::T(bs.into())
    }
}

impl<const N: usize, T: Into<BoolString>> vstd::std_specs::convert::FromSpecImpl<T> for FnWithArgsOrT<N, BoolString> {
    open spec fn obeys_from_spec() -> bool {
        false
    }

    open spec fn from_spec(bs: T) -> Self {
        arbitrary()
    }
}

/// A configuration field that holds either a scalar of any kind or a
/// callback descriptor of `N` parameters.
pub type FnWithArgsOrAny<const N: usize> = FnWithArgsOrT<N, Any>;

impl<const N: usize, T: Into<Any>> From<T> for FnWithArgsOrT<N, Any> {
    /// The scalar that `s` turns into.
    fn from(s: T) -> (r: Self)
        ensures
            r matches FnWithArgsOrT::T(t) && call_ensures(<T as Into<Any>>::into, (s,), t),
    {
        FnWithArgsOrT::T(s.into())
    }
}

impl<const N: usize, T: Into<Any>> vstd::std_specs::convert::FromSpecImpl<T> for FnWithArgsOrT<N, Any> {
    open spec fn obeys_from_spec() -> bool {
        false
    }

    open spec fn from_spec(s: T) -> Self {
        arbitrary()
    }
}

impl<const N: usize> FnWithArgs<N> {
    /// Makes the descriptor stand for the native callback `closure`, which
    /// is put into `registry` under a fresh identifier.
    pub fn rust_closure<F>(self, registry: &mut CallbackRegistry<F>, closure: F) -> (r: Self)
        ensures
            r@.closure_id matches Some(id) && id.len() == 36 && final(registry)@ == old(
                registry,
            )@.push((id, closure)) && r@ == (FnView { closure_id: Some(id), ..self@ }),
            !r.empty(),
    {
        let id = registry.register(closure);
        self.with_closure_id(id)
    }
}

} // verus!
