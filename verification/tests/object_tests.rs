use chart_js_rs::bar::Bar;
use chart_js_rs::doughnut::Doughnut;
use chart_js_rs::line::Line;
use chart_js_rs::pie::Pie;
use chart_js_rs::scatter::{Scatter, ScatterString};
use chart_js_rs::value::object_values_at;
use chart_js_rs::{
    single_arg_callback, tick_callback, uncircle_chartjs_value_to_serde_json_value, Animation, Annotations,
    BoxAnnotation, Chart, ChartExt, ChartOptions, ChartPlugins, ChartScale, DataLabels, Dataset, DatasetData, DecodeError,
    Deserialize, FnWithArgs, Font, JsValue, LegendLabel, Named, LineAnnotation, NoAnnotations, NoDatasets, NumberOrDateString,
    NumberString, NumberStringOrT, Border, PluginLegend, ScaleTicks, Segment, Serialize, SinglePointDataset, Title,
    TooltipCallbacks, TooltipPlugin, WorkerChartExt, XYDataset, XYPoint,
};

fn obj(members: Vec<(&str, JsValue)>) -> JsValue {
    JsValue::Object(members.into_iter().map(|(k, v)| (k.to_string(), v)).collect())
}

fn text(s: &str) -> JsValue {
    JsValue::Str(s.to_string())
}

#[test]
fn a_new_object_writes_nothing_that_was_not_set() {
    assert_eq!(Font::new().serialize(), obj(vec![]));
    assert_eq!(Font::default(), Font::new());
    assert_eq!(SinglePointDataset::new().serialize(), obj(vec![]));
    assert_eq!(ChartOptions::<NoAnnotations>::new().serialize(), obj(vec![]));
    assert_eq!(ChartScale::new().serialize(), obj(vec![]));
    assert_eq!(TooltipCallbacks::new().serialize(), obj(vec![]));
    assert_eq!(DataLabels::new().serialize(), obj(vec![("display", JsValue::Bool(false))]));
    assert_eq!(XYDataset::new().serialize(), obj(vec![("datalabels", obj(vec![("display", JsValue::Bool(false))]))]));
    assert_eq!(LineAnnotation::new().serialize(), obj(vec![("type", text("line"))]));
    assert_eq!(BoxAnnotation::new().serialize(), obj(vec![("type", text("box"))]));
}

#[test]
fn what_is_set_is_written_in_the_order_of_the_fields() {
    let font = Font::new().weight("bold").size(12).family("serif");
    assert_eq!(font.serialize(), obj(vec![("family", text("serif")), ("size", JsValue::Int(12)), ("weight", text("bold"))]));
    let title = Title::new().text("Sales").display(true).font(font.clone());
    assert_eq!(
        title.serialize(),
        obj(vec![("display", JsValue::Bool(true)), ("font", font.serialize()), ("text", text("Sales"))])
    );
    let dataset = XYDataset::new().border_color("red").background_color("lightcoral").point_radius(4).label("Dataset 1");
    assert_eq!(
        dataset.serialize(),
        obj(vec![
            ("backgroundColor", text("lightcoral")),
            ("borderColor", text("red")),
            ("datalabels", obj(vec![("display", JsValue::Bool(false))])),
            ("label", text("Dataset 1")),
            ("pointRadius", JsValue::Int(4)),
        ])
    );
}

#[test]
fn a_renamed_field_is_written_under_its_wire_name() {
    let d = SinglePointDataset::new().r_type("bar").label("x");
    assert_eq!(d.serialize(), obj(vec![("label", text("x")), ("type", text("bar"))]));
    let d = XYDataset::new().background_color_array(vec!["red", "blue"]);
    assert_eq!(
        d.serialize(),
        obj(vec![
            ("backgroundColor", JsValue::Array(vec![text("red"), text("blue")])),
            ("datalabels", obj(vec![("display", JsValue::Bool(false))])),
        ])
    );
}

#[test]
fn getters_change_a_field_in_place() {
    let mut font = Font::new().size(10);
    assert_eq!(*font.get_size(), NumberString::from(10));
    *font.get_size() = NumberString::from(14);
    font.get_family().push_str("mono");
    assert_eq!(font, Font::new().size(14).family("mono"));
    let mut d = SinglePointDataset::new();
    d.get_data().push(NumberString::from(1));
    *d.get_grouped() = Some(true);
    assert_eq!(d, SinglePointDataset::new().data(vec![1]).grouped(true));
}

#[test]
fn lists_and_numbers_are_written_as_such() {
    let d = SinglePointDataset::new().data(vec![1, 2, 3]).background_color(vec!["red", "green"]).bar_percentage("0.5");
    assert_eq!(
        d.serialize(),
        obj(vec![
            ("backgroundColor", JsValue::Array(vec![text("red"), text("green")])),
            ("barPercentage", JsValue::Number("0.5".to_string())),
            ("data", JsValue::Array(vec![JsValue::Int(1), JsValue::Int(2), JsValue::Int(3)])),
        ])
    );
    let label = LegendLabel::new().box_width(12u32).use_point_style(true);
    assert_eq!(label.serialize(), obj(vec![("boxWidth", JsValue::Int(12)), ("usePointStyle", JsValue::Bool(true))]));
}

#[test]
fn a_callback_is_written_where_it_is_set() {
    let f = FnWithArgs::<1>::new().js_return_value("a.label");
    let callbacks = TooltipCallbacks::new().label(f.clone());
    assert_eq!(callbacks.serialize(), obj(vec![("label", f.serialize())]));
    let tooltip = TooltipPlugin::new().callbacks(callbacks.clone()).enabled(true);
    assert_eq!(
        tooltip.serialize(),
        obj(vec![("callbacks", callbacks.serialize()), ("enabled", JsValue::Bool(true))])
    );
    let ticks = ScaleTicks::new().callback(FnWithArgs::<3>::new().js_return_value("a + '%'")).count(5);
    assert_eq!(
        ticks.serialize(),
        obj(vec![("callback", FnWithArgs::<3>::new().js_return_value("a + '%'").serialize()), ("count", JsValue::Int(5))])
    );
    let segment = Segment::new().border_color(f.clone());
    assert_eq!(segment.serialize(), obj(vec![("borderColor", f.serialize())]));
    let labels = DataLabels::new().align(f.clone()).anchor("end").offset(4);
    assert_eq!(
        labels.serialize(),
        obj(vec![("align", f.serialize()), ("anchor", text("end")), ("display", JsValue::Bool(false)), ("offset", JsValue::Int(4))])
    );
}

#[test]
fn scales_and_annotations_are_written_under_their_names() {
    let options = ChartOptions::<LineAnnotation>::new()
        .scales(vec![("x".to_string(), ChartScale::new().r_type("time")), ("y".to_string(), ChartScale::new().begin_at_zero(true))])
        .plugins(ChartPlugins::new().annotation(Annotations::new().annotations(vec![("limit".to_string(), LineAnnotation::new().y_min(3))])));
    assert_eq!(
        options.serialize(),
        obj(vec![
            (
                "plugins",
                obj(vec![(
                    "annotation",
                    obj(vec![("annotations", obj(vec![("limit", obj(vec![("type", text("line")), ("yMin", JsValue::Int(3))]))]))])
                )])
            ),
            (
                "scales",
                obj(vec![("x", obj(vec![("type", text("time"))])), ("y", obj(vec![("beginAtZero", JsValue::Bool(true))]))])
            ),
        ])
    );
    let legend = PluginLegend::new().display(false).position("bottom");
    assert_eq!(legend.serialize(), obj(vec![("display", JsValue::Bool(false)), ("position", text("bottom"))]));
    assert_eq!(Animation::new().duration(0).serialize(), obj(vec![("duration", JsValue::Int(0))]));
}

#[test]
fn a_table_holds_one_value_under_each_name() {
    let mut table = Named::new();
    assert_eq!(table.len(), 0);
    table.insert("x".to_string(), 1);
    table.insert("y".to_string(), 2);
    table.insert("x".to_string(), 3);
    assert_eq!(table.len(), 2);
    assert_eq!(table.get("x"), Some(&3));
    assert_eq!(table.get("y"), Some(&2));
    assert_eq!(table.get("z"), None);
    assert_eq!(table, Named::from_vec(vec![("x".to_string(), 1), ("y".to_string(), 2), ("x".to_string(), 3)]));
    assert_eq!(table.clone(), table);
    let scales = Named::from_vec(vec![
        ("x".to_string(), ChartScale::new().r_type("linear")),
        ("y".to_string(), ChartScale::new()),
        ("x".to_string(), ChartScale::new().r_type("time")),
    ]);
    assert_eq!(scales.serialize(), obj(vec![("x", obj(vec![("type", text("time"))])), ("y", obj(vec![]))]));
    let options = ChartOptions::<NoAnnotations>::new().scales(vec![
        ("x".to_string(), ChartScale::new().r_type("linear")),
        ("x".to_string(), ChartScale::new().r_type("time")),
    ]);
    assert_eq!(options.serialize(), obj(vec![("scales", obj(vec![("x", obj(vec![("type", text("time"))]))]))]));
}

#[test]
fn data_of_points_is_written_as_rows() {
    let single = DatasetData::from_single_point_array(vec![[NumberOrDateString::from(1)], [NumberOrDateString::from("x")]]);
    assert_eq!(single.0, JsValue::Array(vec![JsValue::Array(vec![JsValue::Int(1)]), JsValue::Array(vec![text("x")])]));
    assert!(!single.is_empty());
    let minmax = DatasetData::from_minmax_array(vec![[NumberOrDateString::from(1), NumberOrDateString::from(5)]]);
    assert_eq!(minmax.0, JsValue::Array(vec![JsValue::Array(vec![JsValue::Int(1), JsValue::Int(5)])]));
    assert!(DatasetData::from_minmax_array(vec![]).is_empty());
    assert_eq!(DatasetData::default().0, JsValue::Null);
    let d = XYDataset::new().data(minmax.clone());
    assert_eq!(
        d.serialize(),
        obj(vec![("data", minmax.0.clone()), ("datalabels", obj(vec![("display", JsValue::Bool(false))]))])
    );
    let point = XYPoint::new().x(1).y("2.5").description(text("first"));
    assert_eq!(
        point.serialize(),
        obj(vec![("x", JsValue::Int(1)), ("y", JsValue::Number("2.5".to_string())), ("description", text("first"))])
    );
    assert_eq!(XYPoint::new().x("a").serialize(), obj(vec![("x", text("a"))]));
}

#[test]
fn a_number_or_another_value_is_written_as_what_it_holds() {
    let n: NumberStringOrT<Border> = NumberStringOrT::NumberString(NumberString::from(2));
    assert_eq!(n.serialize(), JsValue::Int(2));
    assert!(!n.is_empty());
    let b = NumberStringOrT::T(Border::new().top(1).bottom(2));
    assert_eq!(b.serialize(), obj(vec![("bottom", JsValue::Int(2)), ("top", JsValue::Int(1))]));
    assert!(!b.is_empty());
    assert!(NumberStringOrT::<Border>::NumberString(NumberString::default()).is_empty());
    let from_number: NumberStringOrT<Border> = NumberString::from(3).into();
    assert_eq!(from_number, NumberStringOrT::NumberString(NumberString::from(3)));
    assert_eq!(XYDataset::new().border_width(NumberString::from(3)), XYDataset::new().border_width(from_number));
    assert_eq!(NumberStringOrT::<String>::deserialize(&JsValue::Int(3)), Ok(NumberStringOrT::NumberString(NumberString::from(3))));
    assert_eq!(NumberStringOrT::<String>::deserialize(&JsValue::Number("1.5".into())), Err(DecodeError::Shape));
    assert_eq!(NumberStringOrT::<String>::deserialize(&JsValue::Null), Err(DecodeError::Shape));
    let d = XYDataset::new().border_width(b.clone());
    assert_eq!(
        d.serialize(),
        obj(vec![("borderWidth", b.serialize()), ("datalabels", obj(vec![("display", JsValue::Bool(false))]))])
    );
}

#[test]
fn data_holds_its_datasets_and_its_labels() {
    let empty: Dataset<NoDatasets> = Dataset::new();
    assert_eq!(empty.serialize(), obj(vec![("datasets", obj(vec![])), ("labels", JsValue::Null)]));
    let data: Dataset<Vec<SinglePointDataset>> = Dataset::new().datasets([SinglePointDataset::new().label("a")]);
    assert_eq!(
        data.serialize(),
        obj(vec![("datasets", JsValue::Array(vec![obj(vec![("label", text("a"))])])), ("labels", JsValue::Array(vec![]))])
    );
    let labelled = data.clone().labels(vec!["Jan", "Feb"]);
    assert_eq!(
        labelled.serialize(),
        obj(vec![
            ("datasets", JsValue::Array(vec![obj(vec![("label", text("a"))])])),
            ("labels", JsValue::Array(vec![text("Jan"), text("Feb")])),
        ])
    );
    let mut changed = labelled.clone();
    changed.get_datasets().clear();
    *changed.get_labels() = None;
    assert_eq!(changed.serialize(), obj(vec![("datasets", JsValue::Array(vec![])), ("labels", JsValue::Null)]));
}

#[test]
fn a_chart_is_written_with_its_kind_its_data_its_options_and_its_element() {
    let chart = Scatter::new("scatter")
        .data(Dataset::new().datasets([
            XYDataset::new().border_color("red").label("Dataset 1"),
            XYDataset::new().border_color("blue").label("Dataset 2"),
        ]))
        .options(ChartOptions::new().maintain_aspect_ratio(false));
    let dataset = |colour: &str, label: &str| {
        obj(vec![("borderColor", text(colour)), ("datalabels", obj(vec![("display", JsValue::Bool(false))])), ("label", text(label))])
    };
    let expected = obj(vec![
        ("type", text("scatter")),
        (
            "data",
            obj(vec![
                ("datasets", JsValue::Array(vec![dataset("red", "Dataset 1"), dataset("blue", "Dataset 2")])),
                ("labels", JsValue::Array(vec![])),
            ]),
        ),
        ("options", obj(vec![("maintainAspectRatio", JsValue::Bool(false))])),
        ("id", text("scatter")),
    ]);
    assert_eq!(chart.serialize(), expected);
    assert_eq!(chart.get_id(), "scatter");
    let call = chart.clone().into_chart().mutate().render();
    assert_eq!(call.obj, expected);
    assert_eq!(call.id, "scatter");
    assert!(call.mutate);
    let worker_call = chart.into_worker_chart().update(true);
    assert_eq!(worker_call.updated, expected);
}

#[test]
fn every_kind_of_chart_names_itself() {
    let kind = |v: JsValue| v.get("type").cloned();
    assert_eq!(kind(Bar::<NoDatasets>::new("b").serialize()), Some(text("bar")));
    assert_eq!(kind(Doughnut::new("d").serialize()), Some(text("doughnut")));
    assert_eq!(kind(Pie::new("p").serialize()), Some(text("pie")));
    assert_eq!(kind(Scatter::new("s").serialize()), Some(text("scatter")));
    assert_eq!(kind(Line::<NoAnnotations>::new("l").serialize()), Some(text("line")));
    assert_eq!(Pie::new("p").id("q".to_string()).get_id(), "q");
    assert_eq!(Line::<NoAnnotations>::new("l").to_chart().render().id, "l");
    let mut bar = Bar::<Vec<SinglePointDataset>>::new("b");
    bar.get_data().get_datasets().push(SinglePointDataset::new());
    *bar.get_options() = ChartOptions::new().responsive(true);
    assert_eq!(
        bar.serialize(),
        obj(vec![
            ("type", text("bar")),
            ("data", obj(vec![("datasets", JsValue::Array(vec![obj(vec![])])), ("labels", JsValue::Null)])),
            ("options", obj(vec![("responsive", JsValue::Bool(true))])),
            ("id", text("b")),
        ])
    );
}

#[test]
fn the_kind_of_a_chart_is_read_in_any_case() {
    assert_eq!(ScatterString::deserialize(&text("scatter")), Ok(ScatterString));
    assert_eq!(ScatterString::deserialize(&text("Scatter")), Ok(ScatterString));
    assert_eq!(ScatterString::deserialize(&text("SCATTER")), Ok(ScatterString));
    assert_eq!(ScatterString::deserialize(&text("bar")), Err(DecodeError::Shape));
    assert_eq!(ScatterString::deserialize(&text("scatter ")), Err(DecodeError::Shape));
    assert_eq!(ScatterString::deserialize(&text("ſcatter")), Err(DecodeError::Shape));
    assert_eq!(ScatterString::deserialize(&JsValue::Int(1)), Err(DecodeError::Shape));
    assert_eq!(ScatterString.serialize(), text("scatter"));
}

#[test]
fn the_source_of_a_callback_is_a_function_with_the_given_body() {
    assert_eq!(tick_callback("return value + '%';", "value", "index", "ticks"), "function (value, index, ticks) {\n    return value + '%';\n}\n");
    assert_eq!(single_arg_callback("return ctx.label;", "ctx"), "function (ctx) {\n    return ctx.label;\n}\n");
}

#[test]
fn json_text_is_written_and_read_back() {
    let v = obj(vec![
        ("a", JsValue::Array(vec![JsValue::Int(1), JsValue::Null, JsValue::Bool(true), text("x\"y")])),
        ("b", obj(vec![("c", JsValue::Number("1.5".to_string()))])),
    ]);
    assert_eq!(v.to_json(), r#"{"a":[1,null,true,"x\"y"],"b":{"c":1.5}}"#);
    assert_eq!(JsValue::from_json(&v.to_json()), Ok(v.clone()));
    assert_eq!(uncircle_chartjs_value_to_serde_json_value(&v.to_json()), Ok(v));
    assert_eq!(JsValue::from_json("18446744073709551615"), Ok(JsValue::Number("18446744073709551615".to_string())));
    assert_eq!(JsValue::from_json("-7"), Ok(JsValue::Int(-7)));
    assert!(JsValue::from_json("{").is_err());
    assert!(uncircle_chartjs_value_to_serde_json_value("undefined").is_err());
    assert_eq!(JsValue::Undefined.to_json(), "null");
    assert_eq!(JsValue::Function("a".into(), "{}".into()).to_json(), "null");
    assert_eq!(JsValue::Number("inf".into()).to_json(), "null");
    assert_eq!(JsValue::Number("1e3".into()).to_json(), "1000.0");
}

#[test]
fn a_copy_of_a_value_is_the_value() {
    let v = obj(vec![("a", JsValue::Array(vec![JsValue::Int(1), obj(vec![("f", JsValue::Function("x".into(), "{}".into()))])])), ("h", JsValue::Handle(3))]);
    assert_eq!(v.clone(), v);
}

#[test]
fn members_are_looked_up_set_and_taken_by_their_key() {
    let v = obj(vec![("a", JsValue::Int(1)), ("b", JsValue::Int(2)), ("a", JsValue::Int(3))]);
    assert_eq!(v.get("a"), Some(&JsValue::Int(1)));
    assert_eq!(v.get("c"), None);
    assert_eq!(JsValue::Int(1).get("a"), None);
    assert_eq!(v.clone().set("a", JsValue::Null), obj(vec![("a", JsValue::Null), ("b", JsValue::Int(2)), ("a", JsValue::Int(3))]));
    assert_eq!(v.clone().set("c", JsValue::Null), v);
    let (rest, taken) = v.clone().take("b");
    assert_eq!(taken, Some(JsValue::Int(2)));
    assert_eq!(rest, obj(vec![("a", JsValue::Int(1)), ("b", JsValue::Undefined), ("a", JsValue::Int(3))]));
    assert_eq!(rest.set("b", JsValue::Int(2)), v);
    assert_eq!(v.clone().take("zz"), (v, None));
}

#[test]
fn data_is_ordered_by_its_json_text() {
    let low = DatasetData(JsValue::Array(vec![JsValue::Int(1)]));
    let high = DatasetData(JsValue::Array(vec![JsValue::Int(2)]));
    assert_eq!(low.cmp(&high), std::cmp::Ordering::Less);
    assert_eq!(high.cmp(&low), std::cmp::Ordering::Greater);
    assert_eq!(low.cmp(&low.clone()), std::cmp::Ordering::Equal);
    assert!(low < high);
    assert!(DatasetData(JsValue::Array(vec![JsValue::Int(10)])) < DatasetData(JsValue::Array(vec![JsValue::Int(9)])));
}

#[test]
fn a_path_of_keys_leads_to_a_nested_value() {
    let v = obj(vec![
        ("options", obj(vec![("scales", obj(vec![("x", JsValue::Int(1))])), ("empty", JsValue::Undefined)])),
        ("", obj(vec![("", JsValue::Int(7))])),
        ("flat", JsValue::Int(2)),
    ]);
    assert_eq!(object_values_at(&v, "options.scales.x"), Some(&JsValue::Int(1)));
    assert_eq!(object_values_at(&v, "options.scales"), Some(&obj(vec![("x", JsValue::Int(1))])));
    assert_eq!(object_values_at(&v, "flat"), Some(&JsValue::Int(2)));
    assert_eq!(object_values_at(&v, "."), Some(&JsValue::Int(7)));
    assert_eq!(object_values_at(&v, "options.plugins"), None);
    assert_eq!(object_values_at(&v, "options.plugins.legend"), None);
    assert_eq!(object_values_at(&v, "options.empty"), None);
    assert_eq!(object_values_at(&v, "flat.deeper"), None);
    assert_eq!(object_values_at(&v, "options."), None);
    assert_eq!(object_values_at(&JsValue::Int(1), "a"), None);
    assert_eq!(object_values_at(&v, ""), Some(&obj(vec![("", JsValue::Int(7))])));
}

#[test]
fn an_object_comes_back_from_the_wire_as_it_went() {
    let font = Font::new().size(12).family("serif");
    assert_eq!(Font::deserialize(&font.serialize()), Ok(font.clone()));
    assert_eq!(Font::deserialize(&obj(vec![])), Ok(Font::new()));
    let title = Title::new().text("Sales").display(true).font(font);
    assert_eq!(Title::deserialize(&title.serialize()), Ok(title));
    let dataset = XYDataset::new()
        .border_color("red")
        .background_color("lightcoral")
        .point_radius(4)
        .label("Dataset 1")
        .border_dash(vec![2, 4])
        .stepped(true)
        .data(DatasetData(JsValue::Array(vec![obj(vec![("x", JsValue::Int(1)), ("y", JsValue::Int(2))])])));
    assert_eq!(XYDataset::deserialize(&dataset.serialize()), Ok(dataset.clone()));
    let options = ChartOptions::<LineAnnotation>::new()
        .maintain_aspect_ratio(false)
        .scales(vec![("x".to_string(), ChartScale::new().r_type("time").max("2024-01-01"))])
        .plugins(ChartPlugins::new().annotation(Annotations::new().annotations(vec![("limit".to_string(), LineAnnotation::new().y_min(3))])));
    assert_eq!(ChartOptions::<LineAnnotation>::deserialize(&options.serialize()), Ok(options));
    let chart = Scatter::new("scatter").data(Dataset::new().datasets([dataset])).options(ChartOptions::new().responsive(true));
    assert_eq!(Scatter::deserialize(&chart.serialize()), Ok(chart.clone()));
    assert_eq!(Scatter::deserialize(&JsValue::from_json(&chart.serialize().to_json()).unwrap()), Ok(chart));
}

#[test]
fn a_member_of_another_shape_refuses_the_whole_object() {
    assert_eq!(Font::deserialize(&JsValue::Null), Err(DecodeError::Shape));
    assert_eq!(Font::deserialize(&JsValue::Array(vec![])), Err(DecodeError::Shape));
    assert_eq!(Font::deserialize(&obj(vec![("family", JsValue::Int(1))])), Err(DecodeError::Shape));
    assert_eq!(Font::deserialize(&obj(vec![("size", JsValue::Null)])), Err(DecodeError::Shape));
    assert_eq!(Title::deserialize(&obj(vec![("font", text("serif"))])), Err(DecodeError::Shape));
    assert_eq!(XYDataset::deserialize(&obj(vec![])), Err(DecodeError::Shape));
    assert_eq!(Scatter::deserialize(&Doughnut::new("d").serialize()), Err(DecodeError::Shape));
    assert_eq!(Pie::deserialize(&obj(vec![("type", text("pie"))])), Err(DecodeError::Shape));
    assert_eq!(LegendLabel::deserialize(&obj(vec![("boxWidth", JsValue::Int(-1))])), Err(DecodeError::Shape));
}

#[test]
fn members_that_are_missing_null_or_unknown_are_passed_over() {
    assert_eq!(Title::deserialize(&obj(vec![("display", JsValue::Null), ("text", text("t")), ("more", JsValue::Int(1))])), Ok(Title::new().text("t")));
    assert_eq!(Title::deserialize(&obj(vec![("text", JsValue::Undefined)])), Ok(Title::new()));
    assert_eq!(Font::deserialize(&obj(vec![("size", JsValue::Bool(true)), ("weight", JsValue::Array(vec![]))])), Ok(Font::new().size(true)));
    assert_eq!(Pie::deserialize(&Pie::new("p").serialize()), Ok(Pie::new("p")));
    assert_eq!(Bar::<NoDatasets>::deserialize(&Bar::<NoDatasets>::new("b").serialize()), Ok(Bar::new("b")));
    assert_eq!(Line::<NoAnnotations>::deserialize(&Line::<NoAnnotations>::new("l").serialize()), Ok(Line::new("l")));
}

#[test]
fn a_callback_is_never_read_back_into_a_field_of_its_own() {
    let f = FnWithArgs::<1>::new().js_return_value("a.label");
    let callbacks = TooltipCallbacks::new().label(f.clone());
    assert_eq!(TooltipCallbacks::deserialize(&callbacks.serialize()), Ok(TooltipCallbacks::new()));
    let ticks = ScaleTicks::new().callback(FnWithArgs::<3>::new().js_return_value("a")).count(5);
    assert_eq!(ScaleTicks::deserialize(&ticks.serialize()), Ok(ScaleTicks::new().count(5)));
    let labels = DataLabels::new().align(f.clone()).anchor("end");
    assert_eq!(DataLabels::deserialize(&labels.serialize()), Ok(labels));
}

#[test]
fn a_number_is_written_as_the_literal_that_json_has_for_it() {
    let json = |text: &str| JsValue::Number(text.to_string()).to_json();
    assert_eq!(json(".5"), "0.5");
    assert_eq!(json("-.5"), "-0.5");
    assert_eq!(json("+.5"), "0.5");
    assert_eq!(json("5."), "5.0");
    assert_eq!(json("+1.50"), "1.5");
    assert_eq!(json("007.25"), "7.25");
    assert_eq!(json("000"), "0");
    assert_eq!(json("-0.0"), "-0.0");
    assert_eq!(json("1.e5"), "100000.0");
    assert_eq!(json("-.5E3"), "-500.0");
    assert_eq!(json("1e-2"), "0.01");
    assert_eq!(json("9223372036854775808"), "9223372036854775808");
    assert_eq!(json("1e999"), "null");
    assert_eq!(json("inf"), "null");
    assert_eq!(json("NaN"), "null");
    assert_eq!(json("abc"), "null");
    assert_eq!(json(""), "null");
    assert_eq!(json("."), "null");
    assert_eq!(json("1e"), "null");
    for text in [".5", "5.", "+1.50", "007.25", "1.e5", "-.5E3", "1e-2", "0.1", "123.456e7"] {
        let expected = serde_json::to_string(&text.parse::<f64>().unwrap()).unwrap();
        assert_eq!(json(text), expected, "{text}");
        assert_eq!(NumberString::from(text).serialize().to_json(), expected, "{text}");
    }
    assert_eq!(JsValue::Number(".5".into()).json_form(), JsValue::Number("0.5".into()));
    assert_eq!(JsValue::Number("inf".into()).json_form(), JsValue::Null);
    let tree = obj(vec![("a", JsValue::Array(vec![JsValue::Undefined, JsValue::Handle(1), JsValue::Number("5.".into())])), ("f", JsValue::Function("x".into(), "{}".into()))]);
    assert_eq!(tree.json_form(), obj(vec![("a", JsValue::Array(vec![JsValue::Null, JsValue::Null, JsValue::Number("5.0".into())])), ("f", JsValue::Null)]));
    assert_eq!(tree.to_json(), r#"{"a":[null,null,5.0],"f":null}"#);
    assert!(DatasetData(JsValue::Array(vec![JsValue::Number(".5".into())])) < DatasetData(JsValue::Array(vec![JsValue::Number(".6".into())])));
}

fn drawn_into<C: ChartExt>(chart: C, id: &str) -> Chart {
    chart.id(id.to_string()).into_chart()
}

#[test]
fn code_over_any_kind_of_chart_builds_and_draws_it() {
    let pie = drawn_into(Pie::new("p"), "q").render();
    assert_eq!(pie.id, "q");
    assert!(!pie.mutate);
    assert_eq!(pie.obj, Pie::new("q").serialize());
    let bar = drawn_into(Bar::<NoDatasets>::default(), "b").render();
    assert_eq!(bar.obj, Bar::<NoDatasets>::new("b").serialize());
    let options = ChartOptions::new().responsive(true);
    let mut scatter = Scatter::new("s").options(options.clone());
    assert_eq!(*scatter.get_options(), options);
    assert_eq!(*scatter.get_data(), Dataset::new());
    let worker = Doughnut::new("d").into_worker_chart().render();
    assert_eq!(worker.id, "d");
    assert_eq!(worker.obj, Doughnut::new("d").serialize());
}
