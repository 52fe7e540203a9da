use chart_js_rs::rehydrate::{rationalise, rationalise_dataset};
use chart_js_rs::{BoolString, CallbackRegistry, Chart, FnWithArgs, FnWithArgsOrT, JsValue, NumberString, Serialize};

fn obj(members: Vec<(&str, JsValue)>) -> JsValue {
    JsValue::Object(members.into_iter().map(|(k, v)| (k.to_string(), v)).collect())
}

fn text(s: &str) -> JsValue {
    JsValue::Str(s.to_string())
}

fn callback1() -> FnWithArgs<1> {
    FnWithArgs::<1>::new().args(["ctx"]).js_body("var c = ctx.first.skip ? 'red' : 'blue';").js_return_value("c")
}

fn live(f: FnWithArgs<1>) -> JsValue {
    let f = f.build();
    JsValue::Function(f.args, f.body)
}

#[test]
fn a_descriptor_in_a_field_becomes_a_live_function() {
    let before = obj(vec![("label", text("x")), ("filter", callback1().serialize()), ("z", JsValue::Int(1))]);
    let after = FnWithArgs::<1>::rationalise_1_level(before, "filter");
    assert_eq!(after, obj(vec![("label", text("x")), ("filter", live(callback1())), ("z", JsValue::Int(1))]));
    assert_eq!(
        live(callback1()),
        JsValue::Function("ctx".into(), "{\nvar c = ctx.first.skip ? 'red' : 'blue';\nreturn c}".into())
    );
}

#[test]
fn an_absent_field_leaves_the_object_as_it_is() {
    let before = obj(vec![("label", text("x"))]);
    assert_eq!(FnWithArgs::<1>::rationalise_1_level(before.clone(), "filter"), before);
    assert_eq!(FnWithArgs::<1>::rationalise_2_levels(before.clone(), ("segment", "borderColor")), before);
    assert_eq!(FnWithArgsOrT::<1, String>::rationalise_1_level(before.clone(), "filter"), before);
    assert_eq!(FnWithArgsOrT::<1, String>::rationalise_2_levels(before.clone(), ("a", "b")), before);
    let undefined = obj(vec![("filter", JsValue::Undefined), ("segment", JsValue::Undefined)]);
    assert_eq!(FnWithArgs::<1>::rationalise_1_level(undefined.clone(), "filter"), undefined);
    assert_eq!(FnWithArgs::<1>::rationalise_2_levels(undefined.clone(), ("segment", "borderColor")), undefined);
    let no_inner = obj(vec![("segment", obj(vec![("other", JsValue::Int(1))]))]);
    assert_eq!(FnWithArgs::<1>::rationalise_2_levels(no_inner.clone(), ("segment", "borderColor")), no_inner);
    for v in [JsValue::Null, JsValue::Int(3), text("s"), JsValue::Array(vec![])] {
        assert_eq!(FnWithArgs::<1>::rationalise_1_level(v.clone(), "filter"), v);
        assert_eq!(FnWithArgs::<1>::rationalise_2_levels(v.clone(), ("a", "b")), v);
    }
}

#[test]
fn a_field_of_another_shape_is_left_alone() {
    for v in [text("red"), JsValue::Int(3), JsValue::Null, JsValue::Array(vec![]), obj(vec![("args", JsValue::Int(1))])] {
        let before = obj(vec![("filter", v)]);
        assert_eq!(FnWithArgs::<1>::rationalise_1_level(before.clone(), "filter"), before);
        assert_eq!(FnWithArgsOrT::<1, String>::rationalise_1_level(before.clone(), "filter"), before);
    }
    let wrong_arity = obj(vec![("filter", FnWithArgs::<2>::new().js_return_value("a").serialize())]);
    assert_eq!(FnWithArgs::<1>::rationalise_1_level(wrong_arity.clone(), "filter"), wrong_arity);
    assert_eq!(FnWithArgsOrT::<1, String>::rationalise_1_level(wrong_arity.clone(), "filter"), wrong_arity);
}

#[test]
fn a_descriptor_one_level_down_becomes_a_live_function() {
    let before = obj(vec![
        ("label", text("x")),
        ("segment", obj(vec![("borderDash", JsValue::Int(1)), ("borderColor", callback1().serialize())])),
    ]);
    let after = FnWithArgs::<1>::rationalise_2_levels(before, ("segment", "borderColor"));
    assert_eq!(
        after,
        obj(vec![
            ("label", text("x")),
            ("segment", obj(vec![("borderDash", JsValue::Int(1)), ("borderColor", live(callback1()))])),
        ])
    );
}

#[test]
fn a_union_field_is_rehydrated_only_where_it_holds_a_callback() {
    let plain = obj(vec![("backgroundColor", text("red"))]);
    assert_eq!(FnWithArgsOrT::<2, String>::rationalise_1_level(plain.clone(), "backgroundColor"), plain);
    let two = FnWithArgs::<2>::new().js_return_value("'red'");
    let before = obj(vec![("backgroundColor", two.serialize())]);
    let f = two.build();
    assert_eq!(
        FnWithArgsOrT::<2, String>::rationalise_1_level(before, "backgroundColor"),
        obj(vec![("backgroundColor", JsValue::Function(f.args, f.body))])
    );
    let number = obj(vec![("datalabels", obj(vec![("offset", JsValue::Int(4))]))]);
    assert_eq!(FnWithArgsOrT::<1, NumberString>::rationalise_2_levels(number.clone(), ("datalabels", "offset")), number);
    let flag = obj(vec![("datalabels", obj(vec![("display", JsValue::Bool(true))]))]);
    assert_eq!(FnWithArgsOrT::<1, BoolString>::rationalise_2_levels(flag.clone(), ("datalabels", "display")), flag);
}

#[test]
fn every_known_place_of_a_dataset_is_rehydrated() {
    let one = callback1();
    let two = FnWithArgs::<2>::new().js_return_value("a + b");
    let two_live = {
        let f = two.clone().build();
        JsValue::Function(f.args, f.body)
    };
    let before = obj(vec![
        ("backgroundColor", two.serialize()),
        ("segment", obj(vec![("borderColor", one.serialize()), ("borderDash", one.serialize())])),
        (
            "datalabels",
            obj(vec![
                ("align", one.serialize()),
                ("anchor", text("end")),
                ("backgroundColor", one.serialize()),
                ("formatter", two.serialize()),
                ("offset", one.serialize()),
                ("display", one.serialize()),
                ("unknown", one.serialize()),
            ]),
        ),
        ("unknown", one.serialize()),
    ]);
    let after = rationalise_dataset(before);
    assert_eq!(
        after,
        obj(vec![
            ("backgroundColor", two_live.clone()),
            ("segment", obj(vec![("borderColor", live(one.clone())), ("borderDash", live(one.clone()))])),
            (
                "datalabels",
                obj(vec![
                    ("align", live(one.clone())),
                    ("anchor", text("end")),
                    ("backgroundColor", live(one.clone())),
                    ("formatter", two_live),
                    ("offset", live(one.clone())),
                    ("display", live(one.clone())),
                    ("unknown", one.serialize()),
                ]),
            ),
            ("unknown", one.serialize()),
        ])
    );
}

#[test]
fn a_chart_is_rehydrated_under_data_and_options() {
    let one = callback1();
    let two = FnWithArgs::<2>::new().js_return_value("a");
    let three = FnWithArgs::<3>::new().js_return_value("a + '%'");
    let live2 = |f: &FnWithArgs<2>| {
        let f = f.clone().build();
        JsValue::Function(f.args, f.body)
    };
    let live3 = |f: &FnWithArgs<3>| {
        let f = f.clone().build();
        JsValue::Function(f.args, f.body)
    };
    let before = obj(vec![
        ("type", text("line")),
        (
            "data",
            obj(vec![(
                "datasets",
                JsValue::Array(vec![
                    obj(vec![("label", text("first")), ("backgroundColor", two.serialize())]),
                    obj(vec![("label", text("second"))]),
                ]),
            )]),
        ),
        (
            "options",
            obj(vec![
                (
                    "scales",
                    obj(vec![
                        ("x", obj(vec![("ticks", obj(vec![("callback", three.serialize())]))])),
                        ("y", obj(vec![("ticks", obj(vec![("count", JsValue::Int(5))]))])),
                    ]),
                ),
                (
                    "plugins",
                    obj(vec![
                        ("legend", obj(vec![("labels", obj(vec![("filter", two.serialize()), ("sort", three.serialize())]))])),
                        (
                            "tooltip",
                            obj(vec![
                                ("filter", one.serialize()),
                                ("callbacks", obj(vec![("label", one.serialize()), ("title", one.serialize())])),
                            ]),
                        ),
                    ]),
                ),
            ]),
        ),
        ("id", text("chart")),
    ]);
    let expected = obj(vec![
        ("type", text("line")),
        (
            "data",
            obj(vec![(
                "datasets",
                JsValue::Array(vec![
                    obj(vec![("label", text("first")), ("backgroundColor", live2(&two))]),
                    obj(vec![("label", text("second"))]),
                ]),
            )]),
        ),
        (
            "options",
            obj(vec![
                (
                    "scales",
                    obj(vec![
                        ("x", obj(vec![("ticks", obj(vec![("callback", live3(&three))]))])),
                        ("y", obj(vec![("ticks", obj(vec![("count", JsValue::Int(5))]))])),
                    ]),
                ),
                (
                    "plugins",
                    obj(vec![
                        ("legend", obj(vec![("labels", obj(vec![("filter", live2(&two)), ("sort", live3(&three))]))])),
                        (
                            "tooltip",
                            obj(vec![
                                ("filter", live(one.clone())),
                                ("callbacks", obj(vec![("label", live(one.clone())), ("title", live(one.clone()))])),
                            ]),
                        ),
                    ]),
                ),
            ]),
        ),
        ("id", text("chart")),
    ]);
    assert_eq!(rationalise(before.clone()), expected);
    let call = Chart::new(before.clone(), "chart".to_string()).render();
    assert_eq!(call.obj, expected);
    assert_eq!(call.id, "chart");
    assert!(!call.mutate);
    let update = Chart::new(before, "chart".to_string()).update(true);
    assert_eq!(update.updated, expected);
    assert!(update.animate);
}

#[test]
fn a_chart_without_data_or_options_is_left_as_it_is() {
    for v in [obj(vec![("type", text("bar"))]), JsValue::Null, JsValue::Array(vec![]), obj(vec![])] {
        assert_eq!(rationalise(v.clone()), v);
    }
    let odd = obj(vec![("data", JsValue::Int(1)), ("options", obj(vec![("scales", JsValue::Array(vec![]))]))]);
    assert_eq!(rationalise(odd.clone()), odd);
}

#[test]
fn rehydration_can_be_run_afresh_before_every_call() {
    let before = obj(vec![("data", obj(vec![("datasets", JsValue::Array(vec![obj(vec![("segment", obj(vec![("borderColor", callback1().serialize())]))])]))]))]);
    let once = rationalise(before);
    assert_eq!(rationalise(once.clone()), once);
}

#[test]
fn a_native_closure_survives_the_wire_and_is_called_after_rehydration() {
    let mut registry = CallbackRegistry::new();
    let callback = FnWithArgs::<1>::new().rust_closure(&mut registry, |args: Vec<JsValue>| match args.first() {
        Some(JsValue::Int(x)) => JsValue::Int(x * 2),
        _ => JsValue::Undefined,
    });
    let config = obj(vec![
        ("type", text("line")),
        ("options", obj(vec![("plugins", obj(vec![("tooltip", obj(vec![("filter", callback.serialize())]))]))])),
    ]);
    let wire = config.to_json();
    let received = JsValue::from_json(&wire).unwrap();
    let rehydrated = rationalise(received);
    let function = rehydrated
        .get("options")
        .and_then(|o| o.get("plugins"))
        .and_then(|p| p.get("tooltip"))
        .and_then(|t| t.get("filter"))
        .cloned();
    let (params, body) = match function {
        Some(JsValue::Function(params, body)) => (params, body),
        other => panic!("not rehydrated: {other:?}"),
    };
    assert_eq!(params, "a");
    let id = body
        .strip_prefix("{ return window['")
        .and_then(|rest| rest.strip_suffix("'](a) }"))
        .expect("the body looks the callback up by its identifier");
    assert_eq!(registry.invoke(id, vec![JsValue::Int(21)]), Ok(JsValue::Int(42)));
}
