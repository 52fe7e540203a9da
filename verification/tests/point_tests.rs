use chart_js_rs::coordinate::{ChartJsPoint, ChartJsPointDataset, Coordinate, CoordinateError};
use chart_js_rs::points::{into_data_iter, into_data_iter_with_description, presorted, sorted, DatasetDataExt};
use chart_js_rs::{DecodeError, JsValue, NumberOrDateString, NumberString, XYPoint};
use std::cmp::Ordering;
use std::num::ParseIntError;

fn obj(members: Vec<(&str, JsValue)>) -> JsValue {
    JsValue::Object(members.into_iter().map(|(k, v)| (k.to_string(), v)).collect())
}

fn text(s: &str) -> JsValue {
    JsValue::Str(s.to_string())
}

const NAMES: (&str, &str) = ("i64", "f64");

fn whole(s: &String) -> Result<i64, ParseIntError> {
    s.parse::<i64>()
}

fn same(s: &String) -> Result<String, ParseIntError> {
    Ok(s.clone())
}

fn point(x: &str, y: JsValue) -> JsValue {
    obj(vec![
        ("formattedValue", text("(x, y)")),
        ("label", text("Jan, 3")),
        ("dataset", obj(vec![("label", text("Sales")), ("type", text("line"))])),
        ("raw", obj(vec![("x", text(x)), ("y", y)])),
    ])
}

fn xy(x: &str, y: i64) -> JsValue {
    obj(vec![("x", JsValue::Int(x.parse().unwrap())), ("y", JsValue::Int(y))])
}

#[test]
fn a_coordinate_is_read_from_its_raw_texts() {
    assert_eq!(Coordinate::from_raw("3".to_string(), "4".to_string(), NAMES, &whole, &whole).map(|c| (c.x, c.y)), Ok((3, 4)));
    assert_eq!(
        Coordinate::from_raw("jan".to_string(), "4".to_string(), NAMES, &same, &whole).map(|c| (c.x, c.y)),
        Ok(("jan".to_string(), 4))
    );
}

#[test]
fn the_coordinate_that_is_refused_is_named_with_its_text() {
    let bad_x: Result<Coordinate<i64, i64>, _> = Coordinate::from_raw("x".to_string(), "y".to_string(), NAMES, &whole, &whole);
    assert_eq!(bad_x, Err(CoordinateError::InvalidX { ty: "i64", error: "x".parse::<i64>().unwrap_err(), input: "x".to_string() }));
    let bad_y: Result<Coordinate<i64, i64>, _> = Coordinate::from_raw("1".to_string(), "1.5".to_string(), NAMES, &whole, &whole);
    assert_eq!(bad_y, Err(CoordinateError::InvalidY { ty: "f64", error: "1.5".parse::<i64>().unwrap_err(), input: "1.5".to_string() }));
}

#[test]
fn a_coordinate_is_read_from_a_text_and_a_number() {
    let v = obj(vec![("x", text("12")), ("y", JsValue::Int(-7))]);
    assert_eq!(Coordinate::from_js_value(&v, NAMES, &whole, &whole).map(|c| (c.x, c.y)), Ok((12, -7)));
    let float = obj(vec![("x", text("a")), ("y", JsValue::Number("2.5".into()))]);
    assert_eq!(Coordinate::from_js_value(&float, NAMES, &same, &same).map(|c| (c.x, c.y)), Ok(("a".to_string(), "2.5".to_string())));
    for bad in [
        JsValue::Null,
        obj(vec![("x", text("1"))]),
        obj(vec![("x", JsValue::Int(1)), ("y", JsValue::Int(1))]),
        obj(vec![("x", text("1")), ("y", text("1"))]),
    ] {
        let r: Result<Coordinate<i64, i64>, _> = Coordinate::from_js_value(&bad, NAMES, &whole, &whole);
        assert_eq!(r, Err(CoordinateError::Deserialize { value: bad.clone(), error: DecodeError::Shape }));
    }
}

#[test]
fn a_point_is_read_with_its_texts_its_dataset_and_its_coordinates() {
    let p = ChartJsPoint::parse(&point("2", JsValue::Int(3)), NAMES, &whole, &whole).unwrap();
    assert_eq!(p.formatted_value, "(x, y)");
    assert_eq!(p.label, "Jan, 3");
    assert_eq!(p.dataset, ChartJsPointDataset { label: "Sales".to_string(), r_type: "line".to_string() });
    assert_eq!((p.raw.x, p.raw.y), (2, 3));
}

#[test]
fn the_first_member_that_is_not_found_is_the_error() {
    type R = Result<ChartJsPoint<i64, i64>, CoordinateError<ParseIntError, ParseIntError>>;
    let no_object: R = ChartJsPoint::parse(&JsValue::Int(1), NAMES, &whole, &whole);
    assert_eq!(no_object, Err(CoordinateError::MissingKey { value: JsValue::Int(1), key: "formattedValue".to_string() }));
    let empty = obj(vec![]);
    let r: R = ChartJsPoint::parse(&empty, NAMES, &whole, &whole);
    assert_eq!(r, Err(CoordinateError::GetTypedKey { value: empty.clone(), key: "formattedValue".to_string(), ty: "String" }));
    let no_label = obj(vec![("formattedValue", text("v")), ("label", JsValue::Int(1))]);
    let r: R = ChartJsPoint::parse(&no_label, NAMES, &whole, &whole);
    assert_eq!(r, Err(CoordinateError::GetTypedKey { value: no_label.clone(), key: "label".to_string(), ty: "String" }));
    let no_dataset = obj(vec![("formattedValue", text("v")), ("label", text("l")), ("raw", xy("1", 2))]);
    let r: R = ChartJsPoint::parse(&no_dataset, NAMES, &whole, &whole);
    assert_eq!(r, Err(CoordinateError::Deserialize { value: no_dataset.clone(), error: DecodeError::Shape }));
    let no_raw = obj(vec![
        ("formattedValue", text("v")),
        ("label", text("l")),
        ("dataset", obj(vec![("label", text("Sales")), ("type", text("line"))])),
    ]);
    let r: R = ChartJsPoint::parse(&no_raw, NAMES, &whole, &whole);
    assert_eq!(r, Err(CoordinateError::Deserialize { value: JsValue::Undefined, error: DecodeError::Shape }));
    let bad_x: R = ChartJsPoint::parse(&point("x", JsValue::Int(3)), NAMES, &whole, &whole);
    assert_eq!(bad_x, Err(CoordinateError::InvalidX { ty: "i64", error: "x".parse::<i64>().unwrap_err(), input: "x".to_string() }));
}

#[test]
fn a_list_of_points_is_read_item_by_item() {
    let list = JsValue::Array(vec![point("1", JsValue::Int(10)), point("2", JsValue::Int(20))]);
    let points = ChartJsPoint::parse_array(&list, NAMES, &whole, &whole).unwrap();
    assert_eq!(points.iter().map(|p| (p.raw.x, p.raw.y)).collect::<Vec<_>>(), vec![(1, 10), (2, 20)]);
    let one = ChartJsPoint::parse_array(&point("5", JsValue::Int(6)), NAMES, &whole, &whole).unwrap();
    assert_eq!(one.iter().map(|p| (p.raw.x, p.raw.y)).collect::<Vec<_>>(), vec![(5, 6)]);
    assert_eq!(ChartJsPoint::parse_array(&JsValue::Array(vec![]), NAMES, &whole, &whole).map(|v| v.len()), Ok(0));
    let broken = JsValue::Array(vec![point("1", JsValue::Int(10)), point("x", JsValue::Int(20)), JsValue::Int(3)]);
    assert_eq!(
        ChartJsPoint::parse_array(&broken, NAMES, &whole, &whole).map(|v| v.len()),
        Err(CoordinateError::InvalidX { ty: "i64", error: "x".parse::<i64>().unwrap_err(), input: "x".to_string() })
    );
}

fn triple(x: &str, y: i64) -> (NumberOrDateString, NumberString, Option<JsValue>) {
    (NumberOrDateString::from(x), NumberString::from(y), None)
}

fn row(x: JsValue, y: i64) -> JsValue {
    obj(vec![("x", x), ("y", JsValue::Int(y))])
}

#[test]
fn points_are_ordered_by_their_x() {
    let a = XYPoint::from(triple("9", 1));
    let b = XYPoint::from(triple("10", 0));
    assert_eq!(a.cmp(&b), Ordering::Less);
    assert!(a < b);
    assert_eq!(XYPoint::from(triple("1.0", 1)).cmp(&XYPoint::from(triple("1", 2))), Ordering::Equal);
    assert_eq!(
        XYPoint::from((NumberOrDateString::from(1), NumberString::from(2), Some(text("d")))),
        XYPoint::new().x(1).y(2).description(text("d"))
    );
    assert_eq!(XYPoint::from(triple("1", 2)), XYPoint::new().x(1).y(2));
}

#[test]
fn presorted_data_keeps_the_order_that_it_was_given() {
    let data = presorted(vec![triple("3", 1), triple("1", 2), triple("3", 3)]);
    assert_eq!(
        data.0,
        JsValue::Array(vec![row(JsValue::Int(3), 1), row(JsValue::Int(1), 2), row(JsValue::Int(3), 3)])
    );
    assert_eq!(vec![triple("3", 1)].presorted_to_dataset_data().0, JsValue::Array(vec![row(JsValue::Int(3), 1)]));
    assert_eq!(presorted(vec![]).0, JsValue::Array(vec![]));
}

#[test]
fn unsorted_data_is_put_in_the_order_of_its_x_with_one_point_for_each() {
    let data = sorted(vec![triple("10", 1), triple("9", 2), triple("100", 3), triple("9.0", 4), triple("-1", 5)]);
    assert_eq!(
        data.0,
        JsValue::Array(vec![row(JsValue::Int(-1), 5), row(JsValue::Int(9), 2), row(JsValue::Int(10), 1), row(JsValue::Int(100), 3)])
    );
    let dates = vec![triple("2024-03-01", 1), triple("2024-01-01", 2), triple("2024-02-01", 3)].unsorted_to_dataset_data();
    assert_eq!(
        dates.0,
        JsValue::Array(vec![row(text("2024-01-01"), 2), row(text("2024-02-01"), 3), row(text("2024-03-01"), 1)])
    );
    assert_eq!(sorted(vec![]).0, JsValue::Array(vec![]));
    let many: Vec<_> = (0..50).map(|i| triple(&((i * 37) % 50).to_string(), i)).collect();
    let expected: Vec<JsValue> = (0..50).map(|x| row(JsValue::Int(x), (0..50).find(|i| (i * 37) % 50 == x).unwrap())).collect();
    assert_eq!(sorted(many).0, JsValue::Array(expected));
}

#[test]
fn pairs_become_points_without_a_description() {
    assert_eq!(into_data_iter(vec![(1, 2), (3, 4)]), vec![triple("1", 2), triple("3", 4)]);
    assert_eq!(
        into_data_iter_with_description(vec![("a", 1, "first".to_string())]),
        vec![(NumberOrDateString::from("a"), NumberString::from(1), Some(text("first")))]
    );
    assert_eq!(
        into_data_iter(vec![(2, 20), (1, 10)]).unsorted_to_dataset_data().0,
        JsValue::Array(vec![row(JsValue::Int(1), 10), row(JsValue::Int(2), 20)])
    );
}

#[test]
fn an_error_says_what_was_refused_and_why() {
    type E = CoordinateError<ParseIntError, ParseIntError>;
    let bad_x: E = CoordinateError::InvalidX { ty: "i64", error: "x".parse::<i64>().unwrap_err(), input: "x".to_string() };
    assert_eq!(bad_x.message(), "Invalid X coordinate of type `i64`: `x`, parsing failed due to: ParseIntError { kind: InvalidDigit }");
    let bad_y: E = CoordinateError::InvalidY { ty: "u8", error: "".parse::<i64>().unwrap_err(), input: String::new() };
    assert_eq!(bad_y.message(), "Invalid Y coordinate of type `u8`: ``, parsing failed due to: ParseIntError { kind: Empty }");
    let too_large: E = CoordinateError::InvalidY { ty: "u8", error: "300".parse::<u8>().unwrap_err(), input: "300".to_string() };
    assert_eq!(
        too_large.message(),
        "Invalid Y coordinate of type `u8`: `300`, parsing failed due to: ParseIntError { kind: PosOverflow }"
    );
    let shape: E = CoordinateError::Deserialize { value: obj(vec![("x", JsValue::Int(1))]), error: DecodeError::Shape };
    assert_eq!(shape.message(), "Error deserializing value `{\"x\":1}`: The value has the shape of nothing that was asked for.");
    let missing: E = CoordinateError::MissingKey { value: JsValue::Int(3), key: "label".to_string() };
    assert_eq!(missing.message(), "Key `label` is missing from object `3`");
    let typed: E = CoordinateError::GetTypedKey { value: obj(vec![]), key: "label".to_string(), ty: "String" };
    assert_eq!(typed.message(), "Key `label` (of type String) is missing form object `{}`");
    assert_eq!(DecodeError::Arity { found: 3, needed: 12 }.message(), "Array had length 3, needed 12.");
    assert_eq!(DecodeError::Arity { found: 0, needed: 1 }.message(), "Array had length 0, needed 1.");
}
