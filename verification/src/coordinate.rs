use vstd::prelude::*;
use vstd::string::StringExecFns;
use std::fmt::Debug;
use crate::json::{json_form, json_text};
use crate::literal::{int_text, int_to_string};
use crate::text::owned;
use crate::value::{field, items_view, js_member, lemma_array_view, JsValue, JsView};
use crate::wire::{decode_message, DecodeError};

verus! {

/// Why a point of a chart was not read.
#[derive(Debug, Clone, PartialEq, Eq)]
#[allow(inconsistent_fields)]
pub enum CoordinateError<TE, UE> {
    /// The `x` of the point does not read as what was asked for.
    InvalidX { ty: &'static str, error: TE, input: String },
    /// The `y` of the point does not read as what was asked for.
    InvalidY { ty: &'static str, error: UE, input: String },
    /// The value has not the shape that was looked for.
    Deserialize { value: JsValue, error: DecodeError },
    /// The value has no members, so none under `key`.
    MissingKey { value: JsValue, key: String },
    /// The member under `key` is not of the kind `ty`.
    GetTypedKey { value: JsValue, key: String, ty: &'static str },
}

/// A point of a chart, with its coordinates read as `T` and `U`.
#[derive(Debug, Clone, PartialEq, Eq)]
#[non_exhaustive]
pub struct Coordinate<T, U> {
    pub x: T,
    pub y: U,
}

/// The dataset that a point belongs to, as the viewer of the chart sees
/// it.
#[derive(Debug, Clone, PartialEq, Eq)]
pub struct ChartJsPointDataset {
    pub label: String,
    pub r_type: String,
}

/// A point as the rendering engine hands it to a tooltip callback.
#[derive(Debug, Clone, PartialEq, Eq)]
#[non_exhaustive]
pub struct ChartJsPoint<T, U> {
    pub formatted_value: String,
    pub label: String,
    pub dataset: ChartJsPointDataset,
    pub raw: Coordinate<T, U>,
}

/// The text of a number as it is handed on to be read.
pub open spec fn number_text(v: JsView) -> Option<Seq<char>> {
    match v {
        JsView::Int(i) => Some(int_text(i)),
        JsView::Number(t) => Some(t),
        _ => None,
    }
}

/// The raw coordinates that a value holds: the text under `x` and the
/// number under `y`.
pub open spec fn raw_coordinate(v: JsView) -> Option<(Seq<char>, Seq<char>)> {
    match (field(v, "x"@), field(v, "y"@)) {
        (Some(JsView::Str(x)), Some(y)) => match number_text(y) {
            Some(t) => Some((x, t)),
            None => None,
        },
        _ => None,
    }
}

/// The dataset that a value holds: the texts under `label` and `type`.
pub open spec fn raw_dataset(v: JsView) -> Option<(Seq<char>, Seq<char>)> {
    match (field(v, "label"@), field(v, "type"@)) {
        (Some(JsView::Str(l)), Some(JsView::Str(t))) => Some((l, t)),
        _ => None,
    }
}

/// What keeps a value from being read as a point, before its coordinates
/// are read.
pub enum Problem {
    /// The value is no object.
    NoMembers,
    /// The member under this key is no text.
    NoText(Seq<char>),
    /// The member under `dataset` holds no dataset.
    NoDataset,
    /// The member under `raw` holds no coordinates.
    NoCoordinate,
}

/// The first thing that keeps a value from being read as a point. The
/// members are looked at in the order `formattedValue`, `label`,
/// `dataset`, `raw`.
pub open spec fn point_problem(v: JsView) -> Option<Problem> {
    if !(v is Object) {
        Some(Problem::NoMembers)
    } else if !(js_member(v, "formattedValue"@)->Some_0 is Str) {
        Some(Problem::NoText("formattedValue"@))
    } else if !(js_member(v, "label"@)->Some_0 is Str) {
        Some(Problem::NoText("label"@))
    } else if raw_dataset(js_member(v, "dataset"@)->Some_0) is None {
        Some(Problem::NoDataset)
    } else if raw_coordinate(js_member(v, "raw"@)->Some_0) is None {
        Some(Problem::NoCoordinate)
    } else {
        None
    }
}

/// What a coordinate is read as from its raw texts and from what the two
/// readers make of them: the first reader's refusal, else the second's,
/// else the point.
pub open spec fn typed<T, TE, U, UE>(
    ty: (&'static str, &'static str),
    x: String,
    y: String,
    read_x: Result<T, TE>,
    read_y: Result<U, UE>,
) -> Result<Coordinate<T, U>, CoordinateError<TE, UE>> {
    match read_x {
        Err(error) => Err(CoordinateError::InvalidX { ty: ty.0, error, input: x }),
        Ok(tx) => match read_y {
            Err(error) => Err(CoordinateError::InvalidY { ty: ty.1, error, input: y }),
            Ok(uy) => Ok(Coordinate { x: tx, y: uy }),
        },
    }
}

fn get_field<'a, TE, UE>(val: &'a JsValue, key: &str) -> (r: Result<Option<&'a JsValue>, CoordinateError<TE, UE>>)
    ensures
        match r {
            Ok(Some(x)) => val@ is Object && field(val@, key@) == Some(x@),
            Ok(None) => val@ is Object && field(val@, key@) is None,
            Err(CoordinateError::MissingKey { value, key: k }) => !(val@ is Object) && value@ == val@
                && k@ == key@,
            Err(_) => false,
        },
{
    match val {
        JsValue::Object(_) => Ok(val.get(key)),
        _ => Err(CoordinateError::MissingKey { value: val.clone(), key: owned(key) }),
    }
}

fn get_string<TE, UE>(val: &JsValue, key: &str) -> (r: Result<String, CoordinateError<TE, UE>>)
    ensures
        match r {
            Ok(s) => js_member(val@, key@) == Some(JsView::Str(s@)),
            Err(CoordinateError::MissingKey { value, key: k }) => js_member(val@, key@) is None
                && value@ == val@ && k@ == key@,
            Err(CoordinateError::GetTypedKey { value, key: k, ty }) => js_member(val@, key@) is Some
                && !(js_member(val@, key@)->Some_0 is Str) && value@ == val@ && k@ == key@ && ty@
                == "String"@,
            Err(_) => false,
        },
{
    match get_field::<TE, UE>(val, key) {
        Err(e) => Err(e),
        Ok(Some(JsValue::Str(s))) => Ok(s.clone()),
        Ok(_) => Err(CoordinateError::GetTypedKey { value: val.clone(), key: owned(key), ty: "String" }),
    }
}

fn number_to_string(v: &JsValue) -> (r: Option<String>)
    ensures
        match r {
            Some(t) => number_text(v@) == Some(t@),
            None => number_text(v@) is None,
        },
{
    match v {
        JsValue::Int(i) => Some(int_to_string(*i)),
        JsValue::Number(t) => Some(t.clone()),
        _ => None,
    }
}

fn read_raw(val: &JsValue) -> (r: Option<(String, String)>)
    ensures
        match r {
            Some((x, y)) => raw_coordinate(val@) == Some((x@, y@)),
            None => raw_coordinate(val@) is None,
        },
{
    match (val.get("x"), val.get("y")) {
        (Some(JsValue::Str(x)), Some(y)) => match number_to_string(y) {
            Some(t) => Some((x.clone(), t)),
            None => None,
        },
        _ => None,
    }
}

fn read_dataset(val: &JsValue) -> (r: Option<ChartJsPointDataset>)
    ensures
        match r {
            Some(d) => raw_dataset(val@) == Some((d.label@, d.r_type@)),
            None => raw_dataset(val@) is None,
        },
{
    match (val.get("label"), val.get("type")) {
        (Some(JsValue::Str(l)), Some(JsValue::Str(t))) => Some(
            ChartJsPointDataset { label: l.clone(), r_type: t.clone() },
        ),
        _ => None,
    }
}

impl<T, U> Coordinate<T, U> {
    /// The point with the coordinates that the two readers make of the raw
    /// texts. The `x` is read first; a refusal tells which coordinate was
    /// refused, why, and what its text was.
    pub fn from_raw<TE, UE, FX: Fn(&String) -> Result<T, TE>, FY: Fn(&String) -> Result<U, UE>>(
        x: String,
        y: String,
        ty: (&'static str, &'static str),
        parse_x: &FX,
        parse_y: &FY,
    ) -> (r: Result<Coordinate<T, U>, CoordinateError<TE, UE>>)
        requires
            parse_x.requires((&x,)),
            parse_y.requires((&y,)),
        ensures
            exists|read_x: Result<T, TE>, read_y: Result<U, UE>|
                parse_x.ensures((&x,), read_x) && (read_x is Ok ==> parse_y.ensures((&y,), read_y))
                    && r == #[trigger] typed(ty, x, y, read_x, read_y),
    {
        match parse_x(&x) {
            Err(error) => {
                let r = Err(CoordinateError::InvalidX { ty: ty.0, error, input: x });
                assert(r == typed::<T, TE, U, UE>(ty, x, y, Err(error), arbitrary()));
                r
            },
            Ok(tx) => match parse_y(&y) {
                Err(error) => {
                    let r = Err(CoordinateError::InvalidY { ty: ty.1, error, input: y });
                    assert(r == typed::<T, TE, U, UE>(ty, x, y, Ok(tx), Err(error)));
                    r
                },
                Ok(uy) => {
                    let r = Ok(Coordinate { x: tx, y: uy });
                    assert(r == typed::<T, TE, U, UE>(ty, x, y, Ok(tx), Ok(uy)));
                    r
                },
            },
        }
    }

    /// The point that a value holds: a text under `x` and a number under
    /// `y`, each read by its reader. A value of another shape is refused as
    /// it is.
    pub fn from_js_value<
        TE,
        UE,
        FX: Fn(&String) -> Result<T, TE>,
        FY: Fn(&String) -> Result<U, UE>,
    >(val: &JsValue, ty: (&'static str, &'static str), parse_x: &FX, parse_y: &FY) -> (r: Result<
        Coordinate<T, U>,
        CoordinateError<TE, UE>,
    >)
        requires
            forall|s: &String| #[trigger] parse_x.requires((s,)),
            forall|s: &String| #[trigger] parse_y.requires((s,)),
        ensures
            raw_coordinate(val@) is None ==> (r matches Err(
                CoordinateError::Deserialize { value, error },
            ) && value@ == val@ && error == DecodeError::Shape),
            raw_coordinate(val@) is Some ==> exists|
                x: String,
                y: String,
                read_x: Result<T, TE>,
                read_y: Result<U, UE>,
            |
                raw_coordinate(val@) == Some((x@, y@)) && parse_x.ensures((&x,), read_x) && (read_x is Ok
                    ==> parse_y.ensures((&y,), read_y)) && r == #[trigger] typed(ty, x, y, read_x, read_y),
    {
        match read_raw(val) {
            None => Err(CoordinateError::Deserialize { value: val.clone(), error: DecodeError::Shape }),
            Some((x, y)) => Coordinate::from_raw(x, y, ty, parse_x, parse_y),
        }
    }
}

/// Whether `r` is what reading `val` as a point gives, with the two
/// readers for its coordinates.
pub open spec fn point_read<T, TE, U, UE, FX: Fn(&String) -> Result<T, TE>, FY: Fn(&String) -> Result<U, UE>>(
    val: JsView,
    ty: (&'static str, &'static str),
    parse_x: FX,
    parse_y: FY,
    r: Result<ChartJsPoint<T, U>, CoordinateError<TE, UE>>,
) -> bool {
    match point_problem(val) {
        Some(Problem::NoMembers) => {
            &&& r matches Err(CoordinateError::MissingKey { value, key })
            &&& value@ == val
            &&& key@ == "formattedValue"@
        },
        Some(Problem::NoText(k)) => {
            &&& r matches Err(CoordinateError::GetTypedKey { value, key, ty: kind })
            &&& value@ == val
            &&& key@ == k
            &&& kind@ == "String"@
        },
        Some(Problem::NoDataset) => {
            &&& r matches Err(CoordinateError::Deserialize { value, error })
            &&& error == DecodeError::Shape
            &&& value@ == val
        },
        Some(Problem::NoCoordinate) => {
            &&& r matches Err(CoordinateError::Deserialize { value, error })
            &&& error == DecodeError::Shape
            &&& value@ == js_member(val, "raw"@)->Some_0
        },
        None => exists|x: String, y: String, read_x: Result<T, TE>, read_y: Result<U, UE>|
            {
                &&& raw_coordinate(js_member(val, "raw"@)->Some_0) == Some((x@, y@))
                &&& parse_x.ensures((&x,), read_x)
                &&& read_x is Ok ==> parse_y.ensures((&y,), read_y)
                &&& match #[trigger] typed(ty, x, y, read_x, read_y) {
                    Ok(raw) => {
                        &&& r matches Ok(p)
                        &&& p.raw == raw
                        &&& js_member(val, "formattedValue"@) == Some(
                            JsView::Str(p.formatted_value@),
                        )
                        &&& js_member(val, "label"@) == Some(JsView::Str(p.label@))
                        &&& raw_dataset(js_member(val, "dataset"@)->Some_0) == Some(
                            (p.dataset.label@, p.dataset.r_type@),
                        )
                    },
                    Err(e) => r == Err::<ChartJsPoint<T, U>, CoordinateError<TE, UE>>(e),
                }
            },
    }
}

/// Whether `val` is read as a point.
pub open spec fn point_accepted<
    T,
    TE,
    U,
    UE,
    FX: Fn(&String) -> Result<T, TE>,
    FY: Fn(&String) -> Result<U, UE>,
>(val: JsView, ty: (&'static str, &'static str), parse_x: FX, parse_y: FY) -> bool {
    exists|p: ChartJsPoint<T, U>|
        #[trigger] point_read(
            val,
            ty,
            parse_x,
            parse_y,
            Ok::<ChartJsPoint<T, U>, CoordinateError<TE, UE>>(p),
        )
}

impl<T, U> ChartJsPoint<T, U> {
    /// The point that a tooltip callback was handed: the texts under
    /// `formattedValue` and `label`, the dataset under `dataset` and the
    /// coordinates under `raw`, looked for in this order. The first that
    /// is not found, or not of its kind, is the error.
    pub fn parse<TE, UE, FX: Fn(&String) -> Result<T, TE>, FY: Fn(&String) -> Result<U, UE>>(
        val: &JsValue,
        ty: (&'static str, &'static str),
        parse_x: &FX,
        parse_y: &FY,
    ) -> (r: Result<ChartJsPoint<T, U>, CoordinateError<TE, UE>>)
        requires
            forall|s: &String| #[trigger] parse_x.requires((s,)),
            forall|s: &String| #[trigger] parse_y.requires((s,)),
        ensures
            point_read(val@, ty, *parse_x, *parse_y, r),
    {
        let formatted_value = match get_string::<TE, UE>(val, "formattedValue") {
            Ok(s) => s,
            Err(e) => {
                return Err(e);
            },
        };
        let label = match get_string::<TE, UE>(val, "label") {
            Ok(s) => s,
            Err(e) => {
                return Err(e);
            },
        };
        let undefined = JsValue::Undefined;
        let dataset_value = match val.get("dataset") {
            Some(d) => d,
            None => &undefined,
        };
        let dataset = match read_dataset(dataset_value) {
            Some(d) => d,
            None => {
                return Err(CoordinateError::Deserialize { value: val.clone(), error: DecodeError::Shape });
            },
        };
        let raw_value = match val.get("raw") {
            Some(d) => d,
            None => &undefined,
        };
        match Coordinate::from_js_value(raw_value, ty, parse_x, parse_y) {
            Ok(raw) => Ok(ChartJsPoint { formatted_value, label, dataset, raw }),
            Err(e) => Err(e),
        }
    }

    /// The points that a tooltip callback was handed: each item of a list,
    /// or the one point that a value that is no list holds. The first item
    /// that is refused is the error.
    pub fn parse_array<TE, UE, FX: Fn(&String) -> Result<T, TE>, FY: Fn(&String) -> Result<U, UE>>(
        val: &JsValue,
        ty: (&'static str, &'static str),
        parse_x: &FX,
        parse_y: &FY,
    ) -> (r: Result<Vec<ChartJsPoint<T, U>>, CoordinateError<TE, UE>>)
        requires
            forall|s: &String| #[trigger] parse_x.requires((s,)),
            forall|s: &String| #[trigger] parse_y.requires((s,)),
        ensures
            match val@ {
                JsView::Array(items) => match r {
                    Ok(points) => {
                        &&& points@.len() == items.len()
                        &&& forall|i: int|
                            0 <= i < items.len() ==> point_read(
                                items[i],
                                ty,
                                *parse_x,
                                *parse_y,
                                Ok::<ChartJsPoint<T, U>, CoordinateError<TE, UE>>(#[trigger] points@[i]),
                            )
                    },
                    Err(e) => exists|i: int|
                        {
                            &&& 0 <= i < items.len()
                            &&& #[trigger] point_read(
                                items[i],
                                ty,
                                *parse_x,
                                *parse_y,
                                Err::<ChartJsPoint<T, U>, CoordinateError<TE, UE>>(e),
                            )
                            &&& forall|j: int|
                                0 <= j < i ==> point_accepted::<T, TE, U, UE, FX, FY>(
                                    #[trigger] items[j],
                                    ty,
                                    *parse_x,
                                    *parse_y,
                                )
                        },
                },
                _ => match r {
                    Ok(points) => points@.len() == 1 && point_read(
                        val@,
                        ty,
                        *parse_x,
                        *parse_y,
                        Ok::<ChartJsPoint<T, U>, CoordinateError<TE, UE>>(points@[0]),
                    ),
                    Err(e) => point_read(
                        val@,
                        ty,
                        *parse_x,
                        *parse_y,
                        Err::<ChartJsPoint<T, U>, CoordinateError<TE, UE>>(e),
                    ),
                },
            },
    {
        match val {
            JsValue::Array(items) => {
                proof {
                    lemma_array_view(*items);
                }
                let mut parsed: Vec<ChartJsPoint<T, U>> = Vec::new();
                let mut i: usize = 0;
                while i < items.len()
                    invariant
                        i <= items.len(),
                        parsed@.len() == i,
                        val@ == JsView::Array(items_view(items@)),
                        forall|s: &String| #[trigger] parse_x.requires((s,)),
                        forall|s: &String| #[trigger] parse_y.requires((s,)),
                        forall|j: int|
                            0 <= j < i ==> point_read(
                                items_view(items@)[j],
                                ty,
                                *parse_x,
                                *parse_y,
                                Ok::<ChartJsPoint<T, U>, CoordinateError<TE, UE>>(#[trigger] parsed@[j]),
                            ),
                    decreases items.len() - i,
                {
                    match ChartJsPoint::parse(&items[i], ty, parse_x, parse_y) {
                        Ok(p) => {
                            parsed.push(p);
                        },
                        Err(e) => {
                            proof {
                                let views = val@->Array_0;
                                assert(views == items_view(items@));
                                assert(views[i as int] == items@[i as int]@);
                                assert forall|j: int| 0 <= j < i implies point_accepted::<
                                    T,
                                    TE,
                                    U,
                                    UE,
                                    FX,
                                    FY,
                                >(#[trigger] views[j], ty, *parse_x, *parse_y) by {
                                    assert(point_read(
                                        views[j],
                                        ty,
                                        *parse_x,
                                        *parse_y,
                                        Ok::<ChartJsPoint<T, U>, CoordinateError<TE, UE>>(parsed@[j]),
                                    ));
                                }
                                assert(0 <= i < views.len() && point_read(
                                    views[i as int],
                                    ty,
                                    *parse_x,
                                    *parse_y,
                                    Err::<ChartJsPoint<T, U>, CoordinateError<TE, UE>>(e),
                                ));
                            }
                            return Err(e);
                        },
                    }
                    i += 1;
                }
                Ok(parsed)
            },
            _ => {
                match ChartJsPoint::parse(val, ty, parse_x, parse_y) {
                    Ok(p) => {
                        let mut parsed: Vec<ChartJsPoint<T, U>> = Vec::new();
                        parsed.push(p);
                        Ok(parsed)
                    },
                    Err(e) => Err(e),
                }
            },
        }
    }
}

/// What the refusal of a coordinate says: which coordinate it was, as
/// what it was to be read, what its text was and why it was refused.
pub open spec fn invalid_text(axis: Seq<char>, ty: Seq<char>, input: Seq<char>, reason: Seq<char>) -> Seq<
    char,
> {
    "Invalid "@ + axis + " coordinate of type `"@ + ty + "`: `"@ + input
        + "`, parsing failed due to: "@ + reason
}

fn invalid_message(axis: &str, ty: &str, input: &str, reason: &str) -> (r: String)
    ensures
        r@ == invalid_text(axis@, ty@, input@, reason@),
{
    let mut out = String::from_str("Invalid ");
    out.append(axis);
    out.append(" coordinate of type `");
    out.append(ty);
    out.append("`: `");
    out.append(input);
    out.append("`, parsing failed due to: ");
    out.append(reason);
    out
}

/// The text that the standard library's `{:?}` formatting gives for a
/// value, through `Debug::fmt`. The standard library leaves that text open,
/// so nothing is claimed of it.
#[verifier::external_body]
fn debug_text<E: Debug>(e: &E) -> (r: String) {
    format!("{:?}", e)
}

impl<TE: Debug, UE: Debug> CoordinateError<TE, UE> {
    /// What the error says, for a log or a reader. A value is shown as its
    /// JSON text, and the reason of a refusal in its debug form, which the
    /// standard library leaves open: of a refusal the text is fixed up to
    /// that reason, with which it ends.
    pub fn message(&self) -> (r: String)
        ensures
            match self {
                CoordinateError::InvalidX { ty, error, input } => exists|reason: Seq<char>|
                    r@ == #[trigger] invalid_text("X"@, ty@, input@, reason),
                CoordinateError::InvalidY { ty, error, input } => exists|reason: Seq<char>|
                    r@ == #[trigger] invalid_text("Y"@, ty@, input@, reason),
                CoordinateError::Deserialize { value, error } => r@ == "Error deserializing value `"@
                    + json_text(json_form(value@)) + "`: "@ + decode_message(*error),
                CoordinateError::MissingKey { value, key } => r@ == "Key `"@ + key@
                    + "` is missing from object `"@ + json_text(json_form(value@)) + "`"@,
                CoordinateError::GetTypedKey { value, key, ty } => r@ == "Key `"@ + key@
                    + "` (of type "@ + ty@ + ") is missing form object `"@ + json_text(
                    json_form(value@),
                ) + "`"@,
            },
    {
        match self {
            CoordinateError::InvalidX { ty, error, input } => {
                let reason = debug_text(error);
                invalid_message("X", ty, input.as_str(), reason.as_str())
            },
            CoordinateError::InvalidY { ty, error, input } => {
                let reason = debug_text(error);
                invalid_message("Y", ty, input.as_str(), reason.as_str())
            },
            CoordinateError::Deserialize { value, error } => {
                let mut out = String::from_str("Error deserializing value `");
                out.append(value.to_json().as_str());
                out.append("`: ");
                out.append(error.message().as_str());
                out
            },
            CoordinateError::MissingKey { value, key } => {
                let mut out = String::from_str("Key `");
                out.append(key.as_str());
                out.append("` is missing from object `");
                out.append(value.to_json().as_str());
                out.append("`");
                out
            },
            CoordinateError::GetTypedKey { value, key, ty } => {
                let mut out = String::from_str("Key `");
                out.append(key.as_str());
                out.append("` (of type ");
                out.append(ty);
                out.append(") is missing form object `");
                out.append(value.to_json().as_str());
                out.append("`");
                out
            },
        }
    }
}

} // verus!
