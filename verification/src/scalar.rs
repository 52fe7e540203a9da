use vstd::prelude::*;
use vstd::string::StringExecFns;
use std::cmp::Ordering;
use std::fmt::Display;
use crate::literal::{bool_literal, int_literal, int_text, int_to_string, is_float, is_float_literal, lemma_int_text_reads_back, parse_bool, parse_int};
use crate::order::{order_scalars, scalar_order};
use crate::value::{items_view, lemma_array_view, JsValue, JsView};
use crate::wire::{ChartJsRsObject, DecodeError, Deserialize, Serialize};

verus! {

/// The model of an [`Any`].
pub enum AnyView {
    String(Seq<char>),
    Int(int),
    Bool(bool),
    /// A list of so many empty items.
    Vec(nat),
}

/// A scalar as it comes off the wire: a text, an integer, a truth value or
/// a list that holds nothing.
#[derive(Debug, Clone, PartialEq, Eq, PartialOrd, Ord)]
pub enum Any {
    String(String),
    Int(isize),
    Bool(bool),
    Vec(Vec<()>),
}

impl View for Any {
    type V = AnyView;

    open spec fn view(&self) -> AnyView {
        match self {
            Any::String(s) => AnyView::String(s@),
            Any::Int(i) => AnyView::Int(*i as int),
            Any::Bool(b) => AnyView::Bool(*b),
            Any::Vec(v) => AnyView::Vec(v@.len()),
        }
    }
}

pub open spec fn bool_text(b: bool) -> Seq<char> {
    if b {
        seq!['t', 'r', 'u', 'e']
    } else {
        seq!['f', 'a', 'l', 's', 'e']
    }
}

/// The text that a scalar is kept as.
pub open spec fn any_text(a: AnyView) -> Seq<char> {
    match a {
        AnyView::String(s) => s,
        AnyView::Int(i) => int_text(i),
        AnyView::Bool(b) => bool_text(b),
        AnyView::Vec(_) => Seq::empty(),
    }
}

pub open spec fn all_null(items: Seq<JsView>) -> bool {
    forall|i: int| 0 <= i < items.len() ==> #[trigger] items[i] == JsView::Null
}

/// The scalar that a wire value is read as: a text, an integer that an
/// `isize` holds, a truth value, or a list of nulls.
pub open spec fn any_of(v: JsView) -> Result<AnyView, DecodeError> {
    match v {
        JsView::Str(s) => Ok(AnyView::String(s)),
        JsView::Int(i) => if isize::MIN <= i <= isize::MAX {
            Ok(AnyView::Int(i))
        } else {
            Err(DecodeError::Shape)
        },
        JsView::Bool(b) => Ok(AnyView::Bool(b)),
        JsView::Array(items) => if all_null(items) {
            Ok(AnyView::Vec(items.len()))
        } else {
            Err(DecodeError::Shape)
        },
        _ => Err(DecodeError::Shape),
    }
}

/// The text that a wire value is kept as once it is read as a scalar.
pub open spec fn scalar_text(v: JsView) -> Result<Seq<char>, DecodeError> {
    match any_of(v) {
        Ok(a) => Ok(any_text(a)),
        Err(e) => Err(e),
    }
}

/// The wire form of a scalar that may be a number: an integer where the
/// text reads as one, a number where it reads as a floating-point number,
/// the text itself otherwise.
pub open spec fn number_wire(text: Seq<char>) -> JsView {
    match int_literal(text) {
        Some(i) => JsView::Int(i),
        None => if is_float_literal(text) {
            JsView::Number(text)
        } else {
            JsView::Str(text)
        },
    }
}

/// The wire form of a scalar that may be a truth value.
pub open spec fn bool_wire(text: Seq<char>) -> JsView {
    match bool_literal(text) {
        Some(b) => JsView::Bool(b),
        None => JsView::Str(text),
    }
}

/// A scalar that was read from an integer or a truth value goes back to
/// the wire as that integer or truth value.
pub proof fn lemma_scalar_round_trip(v: JsView)
    requires
        v is Int || v is Bool,
        scalar_text(v) is Ok,
    ensures
        v is Int ==> number_wire(scalar_text(v)->Ok_0) == v,
        v is Bool ==> bool_wire(scalar_text(v)->Ok_0) == v,
{
    match v {
        JsView::Int(i) => {
            lemma_int_text_reads_back(i);
        },
        _ => {},
    }
}

/// The order that a code stands for: below for a negative one, equal for
/// zero, above for a positive one.
pub open spec fn ordering_of(code: int) -> Ordering {
    if code < 0 {
        Ordering::Less
    } else if code == 0 {
        Ordering::Equal
    } else {
        Ordering::Greater
    }
}

pub(crate) fn to_ordering(code: i8) -> (r: Ordering)
    ensures
        code < 0 ==> r == Ordering::Less,
        code == 0 ==> r == Ordering::Equal,
        code > 0 ==> r == Ordering::Greater,
{
    if code < 0 {
        Ordering::Less
    } else if code == 0 {
        Ordering::Equal
    } else {
        Ordering::Greater
    }
}

fn bool_to_string(b: bool) -> (r: String)
    ensures
        r@ == bool_text(b),
{
    proof {
        reveal_strlit("true");
        reveal_strlit("false");
    }
    let r = if b {
        String::from_str("true")
    } else {
        String::from_str("false")
    };
    assert(r@ =~= bool_text(b));
    r
}

fn number_to_value(text: &String) -> (r: JsValue)
    ensures
        r@ == number_wire(text@),
{
    match parse_int(text.as_str()) {
        Some(i) => JsValue::Int(i),
        None => if is_float(text.as_str()) {
            JsValue::Number(text.clone())
        } else {
            JsValue::Str(text.clone())
        },
    }
}

fn bool_to_value(text: &String) -> (r: JsValue)
    ensures
        r@ == bool_wire(text@),
{
    match parse_bool(text.as_str()) {
        Some(b) => JsValue::Bool(b),
        None => JsValue::Str(text.clone()),
    }
}

impl Any {
    pub open spec fn empty(&self) -> bool {
        match self {
            Any::String(s) => s@.len() == 0,
            Any::Int(_) => false,
            Any::Bool(_) => false,
            Any::Vec(v) => v@.len() == 0,
        }
    }

    /// Whether the scalar holds nothing: an empty text or an empty list.
    pub fn is_empty(&self) -> (r: bool)
        ensures
            r == self.empty(),
    {
        match self {
            Any::String(s) => s.as_str().is_empty(),
            Any::Int(_i) => false,
            Any::Bool(_b) => false,
            Any::Vec(v) => v.len() == 0,
        }
    }

    /// The text that the scalar is kept as.
    pub fn to_string(&self) -> (r: String)
        ensures
            r@ == any_text(self@),
    {
        match self {
            Any::String(s) => s.clone(),
            Any::Int(i) => int_to_string(*i as i64),
            Any::Bool(b) => bool_to_string(*b),
            Any::Vec(_) => String::new(),
        }
    }
}

impl Default for Any {
    /// The truth value `false`.
    fn default() -> (r: Self)
        ensures
            r == Any::Bool(false),
    {
        Any::Bool(false)
    }
}

impl ChartJsRsObject for Any {
    open spec fn empty(&self) -> bool {
        match self {
            Any::String(s) => s@.len() == 0,
            Any::Int(_) => false,
            Any::Bool(_) => false,
            Any::Vec(v) => v@.len() == 0,
        }
    }

    fn is_empty(&self) -> (r: bool)
        ensures
            r == self.empty(),
    {
        match self {
            Any::String(s) => s.as_str().is_empty(),
            Any::Int(_i) => false,
            Any::Bool(_b) => false,
            Any::Vec(v) => v.len() == 0,
        }
    }
}

impl From<bool> for Any {
    fn from(value: bool) -> (r: Self) {
        Any::Bool(value)
    }
}

impl vstd::std_specs::convert::FromSpecImpl<bool> for Any {
    open spec fn obeys_from_spec() -> bool {
        true
    }

    open spec fn from_spec(value: bool) -> Self {
        Any::Bool(value)
    }
}

impl From<String> for Any {
    fn from(value: String) -> (r: Self) {
        Any::String(value)
    }
}

impl vstd::std_specs::convert::FromSpecImpl<String> for Any {
    open spec fn obeys_from_spec() -> bool {
        true
    }

    open spec fn from_spec(value: String) -> Self {
        Any::String(value)
    }
}

/// Reads a scalar off the wire.
fn read_any(v: &JsValue) -> (r: Result<Any, DecodeError>)
    ensures
        match r {
            Ok(a) => any_of(v@) == Ok::<AnyView, DecodeError>(a@),
            Err(e) => any_of(v@) == Err::<AnyView, DecodeError>(e),
        },
{
    match v {
        JsValue::Str(s) => Ok(Any::String(s.clone())),
        JsValue::Int(i) => {
            if isize::MIN as i64 <= *i && *i <= isize::MAX as i64 {
                Ok(Any::Int(*i as isize))
            } else {
                Err(DecodeError::Shape)
            }
        },
        JsValue::Bool(b) => Ok(Any::Bool(*b)),
        JsValue::Array(items) => {
            proof {
                lemma_array_view(*items);
            }
            let mut units: Vec<()> = Vec::new();
            let mut i: usize = 0;
            while i < items.len()
                invariant
                    i <= items.len(),
                    units@.len() == i,
                    v@ == JsView::Array(items_view(items@)),
                    forall|j: int| 0 <= j < i ==> #[trigger] items_view(items@)[j] == JsView::Null,
                decreases items.len() - i,
            {
                match &items[i] {
                    JsValue::Null => {
                        assert(items_view(items@)[i as int] == JsView::Null);
                    },
                    _ => {
                        assert(items_view(items@)[i as int] != JsView::Null);
                        return Err(DecodeError::Shape);
                    },
                }
                units.push(());
                i += 1;
            }
            Ok(Any::Vec(units))
        },
        _ => Err(DecodeError::Shape),
    }
}

impl Deserialize for Any {
    open spec fn readable(v: JsView) -> bool {
        any_of(v) is Ok
    }

    open spec fn reads(&self, v: JsView) -> bool {
        any_of(v) == Ok::<AnyView, DecodeError>(self@)
    }

    fn deserialize(v: &JsValue) -> (r: Result<Self, DecodeError>)
        ensures
            match r {
                Ok(x) => Self::readable(v@) && x.reads(v@),
                Err(e) => !Self::readable(v@) && e == DecodeError::Shape,
            },
    {
        read_any(v)
    }
}

impl Serialize for Any {
    open spec fn wire(&self) -> JsView {
        match self {
            Any::String(s) => JsView::Str(s@),
            Any::Int(i) => JsView::Int(*i as int),
            Any::Bool(b) => JsView::Bool(*b),
            Any::Vec(v) => JsView::Array(Seq::new(v@.len(), |i: int| JsView::Null)),
        }
    }

    fn serialize(&self) -> (r: JsValue)
        ensures
            r@ == self.wire(),
    {
        match self {
            Any::String(s) => JsValue::Str(s.clone()),
            Any::Int(i) => JsValue::Int(*i as i64),
            Any::Bool(b) => JsValue::Bool(*b),
            Any::Vec(v) => {
                let mut items: Vec<JsValue> = Vec::new();
                let mut i: usize = 0;
                while i < v.len()
                    invariant
                        i <= v.len(),
                        items@.len() == i,
                        forall|j: int| 0 <= j < i ==> (#[trigger] items@[j])@ == JsView::Null,
                    decreases v.len() - i,
                {
                    items.push(JsValue::Null);
                    i += 1;
                }
                let r = JsValue::Array(items);
                assert(r@->Array_0 =~= Seq::new(v@.len(), |i: int| JsView::Null));
                r
            },
        }
    }
}

/// A number or a date, kept as the text that was given for it.
#[derive(Debug, Clone, PartialEq, Eq)]
pub struct NumberOrDateString(pub String);

impl View for NumberOrDateString {
    type V = Seq<char>;

    open spec fn view(&self) -> Seq<char> {
        self.0@
    }
}

impl NumberOrDateString {
    /// Whether the scalar was never set: its text is empty.
    pub fn is_empty(&self) -> (r: bool)
        ensures
            r == (self@.len() == 0),
    {
        self.0.as_str().is_empty()
    }

    /// The text that the scalar is kept as.
    pub fn to_string(&self) -> (r: String)
        ensures
            r@ == self@,
    {
        self.0.clone()
    }

    /// Orders two scalars: two numerals by the numbers that they denote,
    /// however many digits they have; two other texts that read as
    /// decimal numbers by those numbers; any other two by the bytes of
    /// their texts.
    pub fn cmp(&self, other: &Self) -> (r: Ordering)
        ensures
            r == ordering_of(scalar_order(self@, other@)),
    {
        to_ordering(order_scalars(self.0.as_str(), other.0.as_str()))
    }
}

impl Default for NumberOrDateString {
    /// The scalar that was never set.
    fn default() -> (r: Self)
        ensures
            r@.len() == 0,
    {
        NumberOrDateString(String::new())
    }
}

impl<T: Display> From<T> for NumberOrDateString {
    /// The scalar whose text is what `s` displays as.
    fn from(s: T) -> (r: Self)
        ensures
            vstd::string::to_string_from_display_ensures::<T>(&s, r.0),
    {
        NumberOrDateString(s.to_string())
    }
}

impl<T: Display> vstd::std_specs::convert::FromSpecImpl<T> for NumberOrDateString {
    open spec fn obeys_from_spec() -> bool {
        false
    }

    open spec fn from_spec(s: T) -> Self {
        arbitrary()
    }
}

impl From<NumberString> for NumberOrDateString {
    fn from(value: NumberString) -> (r: Self) {
        NumberOrDateString(value.0)
    }
}

impl vstd::std_specs::convert::FromSpecImpl<NumberString> for NumberOrDateString {
    open spec fn obeys_from_spec() -> bool {
        true
    }

    open spec fn from_spec(value: NumberString) -> Self {
        NumberOrDateString(value.0)
    }
}

impl PartialOrd for NumberOrDateString {
    fn partial_cmp(&self, other: &Self) -> (r: Option<Ordering>) {
        Some(self.cmp(other))
    }
}

impl vstd::std_specs::cmp::PartialOrdSpecImpl for NumberOrDateString {
    open spec fn obeys_partial_cmp_spec() -> bool {
        true
    }

    open spec fn partial_cmp_spec(&self, other: &Self) -> Option<Ordering> {
        Some(ordering_of(scalar_order(self@, other@)))
    }
}

impl ChartJsRsObject for NumberOrDateString {
    open spec fn empty(&self) -> bool {
        self@.len() == 0
    }

    fn is_empty(&self) -> (r: bool)
        ensures
            r == self.empty(),
    {
        self.0.as_str().is_empty()
    }
}

impl Serialize for NumberOrDateString {
    open spec fn wire(&self) -> JsView {
        number_wire(self@)
    }

    fn serialize(&self) -> (r: JsValue)
        ensures
            r@ == self.wire(),
    {
        number_to_value(&self.0)
    }
}

impl Deserialize for NumberOrDateString {
    open spec fn readable(v: JsView) -> bool {
        scalar_text(v) is Ok
    }

    open spec fn reads(&self, v: JsView) -> bool {
        scalar_text(v) == Ok::<Seq<char>, DecodeError>(self@)
    }

    fn deserialize(v: &JsValue) -> (r: Result<Self, DecodeError>)
        ensures
            match r {
                Ok(x) => Self::readable(v@) && x.reads(v@),
                Err(e) => !Self::readable(v@) && e == DecodeError::Shape,
            },
    {
        match read_any(v) {
            Ok(a) => Ok(NumberOrDateString(a.to_string())),
            Err(e) => Err(e),
        }
    }
}

/// A number, kept as the text that was given for it.
#[derive(Debug, Clone, PartialEq, Eq)]
pub struct NumberString(pub String);

impl View for NumberString {
    type V = Seq<char>;

    open spec fn view(&self) -> Seq<char> {
        self.0@
    }
}

impl NumberString {
    /// Whether the scalar was never set: its text is empty.
    pub fn is_empty(&self) -> (r: bool)
        ensures
            r == (self@.len() == 0),
    {
        self.0.as_str().is_empty()
    }

    /// The text that the scalar is kept as.
    pub fn to_string(&self) -> (r: String)
        ensures
            r@ == self@,
    {
        self.0.clone()
    }

    /// Orders two scalars: two numerals by the numbers that they denote,
    /// however many digits they have; two other texts that read as
    /// decimal numbers by those numbers; any other two by the bytes of
    /// their texts.
    pub fn cmp(&self, other: &Self) -> (r: Ordering)
        ensures
            r == ordering_of(scalar_order(self@, other@)),
    {
        to_ordering(order_scalars(self.0.as_str(), other.0.as_str()))
    }
}

impl Default for NumberString {
    /// The scalar that was never set.
    fn default() -> (r: Self)
        ensures
            r@.len() == 0,
    {
        NumberString(String::new())
    }
}

impl<T: Display> From<T> for NumberString {
    /// The scalar whose text is what `s` displays as.
    fn from(s: T) -> (r: Self)
        ensures
            vstd::string::to_string_from_display_ensures::<T>(&s, r.0),
    {
        NumberString(s.to_string())
    }
}

impl<T: Display> vstd::std_specs::convert::FromSpecImpl<T> for NumberString {
    open spec fn obeys_from_spec() -> bool {
        false
    }

    open spec fn from_spec(s: T) -> Self {
        arbitrary()
    }
}

impl From<NumberOrDateString> for NumberString {
    fn from(value: NumberOrDateString) -> (r: Self) {
        NumberString(value.0)
    }
}

impl vstd::std_specs::convert::FromSpecImpl<NumberOrDateString> for NumberString {
    open spec fn obeys_from_spec() -> bool {
        true
    }

    open spec fn from_spec(value: NumberOrDateString) -> Self {
        NumberString(value.0)
    }
}

impl PartialOrd for NumberString {
    fn partial_cmp(&self, other: &Self) -> (r: Option<Ordering>) {
        Some(self.cmp(other))
    }
}

impl vstd::std_specs::cmp::PartialOrdSpecImpl for NumberString {
    open spec fn obeys_partial_cmp_spec() -> bool {
        true
    }

    open spec fn partial_cmp_spec(&self, other: &Self) -> Option<Ordering> {
        Some(ordering_of(scalar_order(self@, other@)))
    }
}

impl ChartJsRsObject for NumberString {
    open spec fn empty(&self) -> bool {
        self@.len() == 0
    }

    fn is_empty(&self) -> (r: bool)
        ensures
            r == self.empty(),
    {
        self.0.as_str().is_empty()
    }
}

impl Serialize for NumberString {
    open spec fn wire(&self) -> JsView {
        number_wire(self@)
    }

    fn serialize(&self) -> (r: JsValue)
        ensures
            r@ == self.wire(),
    {
        number_to_value(&self.0)
    }
}

impl Deserialize for NumberString {
    open spec fn readable(v: JsView) -> bool {
        scalar_text(v) is Ok
    }

    open spec fn reads(&self, v: JsView) -> bool {
        scalar_text(v) == Ok::<Seq<char>, DecodeError>(self@)
    }

    fn deserialize(v: &JsValue) -> (r: Result<Self, DecodeError>)
        ensures
            match r {
                Ok(x) => Self::readable(v@) && x.reads(v@),
                Err(e) => !Self::readable(v@) && e == DecodeError::Shape,
            },
    {
        match read_any(v) {
            Ok(a) => Ok(NumberString(a.to_string())),
            Err(e) => Err(e),
        }
    }
}

/// A truth value or a text, kept as a text.
#[derive(Debug, Clone, PartialEq, Eq, PartialOrd, Ord)]
pub struct BoolString(pub String);

impl View for BoolString {
    type V = Seq<char>;

    open spec fn view(&self) -> Seq<char> {
        self.0@
    }
}

impl BoolString {
    /// Whether the scalar was never set: its text is empty.
    pub fn is_empty(&self) -> (r: bool)
        ensures
            r == (self@.len() == 0),
    {
        self.0.as_str().is_empty()
    }

    /// The text that the scalar is kept as.
    pub fn to_string(&self) -> (r: String)
        ensures
            r@ == self@,
    {
        self.0.clone()
    }
}

impl Default for BoolString {
    /// The scalar `false`.
    fn default() -> (r: Self)
        ensures
            r@ == bool_text(false),
    {
        BoolString::_false()
    }
}

impl<T: Display> From<T> for BoolString {
    /// The scalar whose text is what `s` displays as.
    fn from(s: T) -> (r: Self)
        ensures
            vstd::string::to_string_from_display_ensures::<T>(&s, r.0),
    {
        BoolString(s.to_string())
    }
}

impl<T: Display> vstd::std_specs::convert::FromSpecImpl<T> for BoolString {
    open spec fn obeys_from_spec() -> bool {
        false
    }

    open spec fn from_spec(s: T) -> Self {
        arbitrary()
    }
}

impl ChartJsRsObject for BoolString {
    open spec fn empty(&self) -> bool {
        self@.len() == 0
    }

    fn is_empty(&self) -> (r: bool)
        ensures
            r == self.empty(),
    {
        self.0.as_str().is_empty()
    }
}

impl Serialize for BoolString {
    open spec fn wire(&self) -> JsView {
        bool_wire(self@)
    }

    fn serialize(&self) -> (r: JsValue)
        ensures
            r@ == self.wire(),
    {
        bool_to_value(&self.0)
    }
}

impl Deserialize for BoolString {
    open spec fn readable(v: JsView) -> bool {
        scalar_text(v) is Ok
    }

    open spec fn reads(&self, v: JsView) -> bool {
        scalar_text(v) == Ok::<Seq<char>, DecodeError>(self@)
    }

    fn deserialize(v: &JsValue) -> (r: Result<Self, DecodeError>)
        ensures
            match r {
                Ok(x) => Self::readable(v@) && x.reads(v@),
                Err(e) => !Self::readable(v@) && e == DecodeError::Shape,
            },
    {
        match read_any(v) {
            Ok(a) => Ok(BoolString(a.to_string())),
            Err(e) => Err(e),
        }
    }
}

impl BoolString {
    pub fn opt_true() -> (r: Option<BoolString>)
        ensures
            r matches Some(b) && b@ == bool_text(true),
    {
        Some(BoolString::_true())
    }

    pub fn opt_false() -> (r: Option<BoolString>)
        ensures
            r matches Some(b) && b@ == bool_text(false),
    {
        Some(BoolString::_false())
    }

    pub fn _true() -> (r: BoolString)
        ensures
            r@ == bool_text(true),
    {
        BoolString(bool_to_string(true))
    }

    pub fn _false() -> (r: BoolString)
        ensures
            r@ == bool_text(false),
    {
        BoolString(bool_to_string(false))
    }

    pub fn true_() -> (r: Option<BoolString>)
        ensures
            r matches Some(b) && b@ == bool_text(true),
    {
        Some(BoolString::_true())
    }

    pub fn false_() -> (r: Option<BoolString>)
        ensures
            r matches Some(b) && b@ == bool_text(false),
    {
        Some(BoolString::_false())
    }
}

} // verus!
