use chart_js_rs::{Any, ChartJsRsObject, CallbackRegistry, FnWithArgsOrAny, DecodeError, Deserialize, FnWithArgs, FnWithArgsOrT, Function, JsValue, NumberString, Serialize};
use chart_js_rs::callback::last_segment;

fn descriptor(args: &[&str], body: &str, return_value: &str, closure_id: JsValue) -> JsValue {
    JsValue::Object(vec![
        ("args".to_string(), JsValue::Array(args.iter().map(|a| JsValue::Str(a.to_string())).collect())),
        ("body".to_string(), JsValue::Str(body.to_string())),
        ("return_value".to_string(), JsValue::Str(return_value.to_string())),
        ("closure_id".to_string(), closure_id),
    ])
}

fn double(x: i64) -> i64 {
    x * 2
}

fn add(x: i64, y: i64) -> i64 {
    x + y
}

#[test]
fn a_new_descriptor_names_its_parameters_by_the_alphabet() {
    assert_eq!(FnWithArgs::<3>::new().serialize(), descriptor(&["a", "b", "c"], "", "", JsValue::Null));
    assert_eq!(FnWithArgs::<1>::default().serialize(), descriptor(&["a"], "", "", JsValue::Null));
    let all = FnWithArgs::<32>::new().build();
    assert_eq!(
        all.args,
        "a, b, c, d, e, f, g, h, i, j, k, l, m, n, o, p, q, r, s, t, u, v, w, x, y, z, aa, bb, cc, dd, ee, ff"
    );
}

#[test]
fn the_default_names_go_on_behind_the_alphabet() {
    let names = FnWithArgs::<80>::new().build().args;
    let names: Vec<&str> = names.split(", ").collect();
    assert_eq!(names.len(), 80);
    assert_eq!(&names[24..34], ["y", "z", "aa", "bb", "cc", "dd", "ee", "ff", "gg", "hh"]);
    assert_eq!(&names[50..54], ["yy", "zz", "aaa", "bbb"]);
    assert_eq!(names[79], "bbbb");
    assert_eq!(FnWithArgs::<40>::default(), FnWithArgs::<40>::new());
    assert!(FnWithArgs::<40>::default().build().args.split(", ").all(|name| !name.is_empty()));
    let mut given = [""; 34];
    given[1] = "second";
    let f = FnWithArgs::<34>::new().args(given).build().args;
    let f: Vec<&str> = f.split(", ").collect();
    assert_eq!((f[0], f[1], f[32], f[33]), ("a", "second", "gg", "hh"));
}

#[test]
fn an_empty_parameter_name_gives_way_to_the_default_of_its_place() {
    let f = FnWithArgs::<3>::new().args(["value", "", "ticks"]);
    assert_eq!(f.serialize(), descriptor(&["value", "b", "ticks"], "", "", JsValue::Null));
}

#[test]
fn the_body_grows_by_one_line_with_each_call() {
    let f = FnWithArgs::<1>::new().js_body("var x = 1;").js_body("var y = 2;");
    assert_eq!(f.serialize(), descriptor(&["a"], "\nvar x = 1;\nvar y = 2;", "", JsValue::Null));
}

#[test]
fn a_return_value_alone_makes_the_descriptor_count() {
    let f = FnWithArgs::<1>::new().js_return_value("a * 2");
    assert!(!f.is_empty());
    assert_eq!(f.serialize(), descriptor(&["a"], "\n", "a * 2", JsValue::Null));
    let g = FnWithArgs::<1>::new().js_body("var x = a;").js_return_value("x");
    assert_eq!(g.serialize(), descriptor(&["a"], "\nvar x = a;", "x", JsValue::Null));
}

#[test]
fn a_descriptor_is_empty_until_something_is_put_into_it() {
    assert!(FnWithArgs::<1>::new().is_empty());
    assert!(FnWithArgs::<7>::new().args(["a", "b", "c", "d", "e", "f", "g"]).is_empty());
    assert!(!FnWithArgs::<1>::new().js_body("").is_empty());
    assert!(!FnWithArgs::<1>::new().js_return_value("").is_empty());
    assert!(!FnWithArgs::<1>::new().run_rust_fn(&double, "my_crate::double").is_empty());
    let mut registry = CallbackRegistry::new();
    assert!(!FnWithArgs::<1>::new().rust_closure(&mut registry, |v: Vec<JsValue>| v[0].clone()).is_empty());
}

#[test]
fn a_native_function_is_called_by_the_last_segment_of_its_path() {
    let f = FnWithArgs::<1>::new().run_rust_fn(&double, "my_crate::formatters::double");
    assert_eq!(
        f.serialize(),
        descriptor(&["a"], "\nconst _out_ = window.callbacks.double(a);", "_out_", JsValue::Null)
    );
    let g = FnWithArgs::<2>::new().args(["x", "y"]).js_body("var z = 0;").run_rust_fn(&add, "add");
    assert_eq!(
        g.serialize(),
        descriptor(&["x", "y"], "\nvar z = 0;\nconst _out_ = window.callbacks.add(x, y);", "_out_", JsValue::Null)
    );
}

#[test]
fn the_last_segment_stands_behind_the_last_separator() {
    assert_eq!(last_segment("a::b::c"), "c");
    assert_eq!(last_segment("plain"), "plain");
    assert_eq!(last_segment(""), "");
    assert_eq!(last_segment("a::"), "");
    assert_eq!(last_segment(":::"), ":");
    assert_eq!(last_segment("a:::b"), ":b");
    assert_eq!(last_segment("a:b"), "a:b");
    for path in ["a::b::c", "", "::", ":::", "a:::b", "x::{{closure}}", "ü::é"] {
        assert_eq!(last_segment(path), path.split("::").collect::<Vec<_>>().into_iter().next_back().unwrap());
    }
}

#[test]
fn build_makes_the_function_of_the_inline_body() {
    let f = FnWithArgs::<1>::new()
        .args(["ctx"])
        .js_body("if (ctx.skip) { var out = 1 } else { var out = 0 }")
        .js_return_value("out")
        .build();
    assert_eq!(
        f,
        Function {
            args: "ctx".to_string(),
            body: "{\nif (ctx.skip) { var out = 1 } else { var out = 0 }\nreturn out}".to_string(),
        }
    );
    let g = FnWithArgs::<3>::new().js_return_value("a + b + c").build();
    assert_eq!(g, Function { args: "a, b, c".to_string(), body: "{\n\nreturn a + b + c}".to_string() });
}

#[test]
fn build_with_a_native_callback_ignores_the_body() {
    let mut registry = CallbackRegistry::new();
    let d = FnWithArgs::<2>::new().js_body("ignored();").js_return_value("ignored").rust_closure(
        &mut registry,
        |v: Vec<JsValue>| v[0].clone(),
    );
    let id = d.closure_id().expect("the descriptor names its callback");
    assert_eq!(FnWithArgs::<1>::new().closure_id(), None);
    assert_eq!(id.len(), 36);
    assert!(registry.get(&id).is_some());
    let f = d.build();
    assert_eq!(f, Function { args: "a, b".to_string(), body: format!("{{ return window['{id}'](a, b) }}") });
}

#[test]
fn a_descriptor_comes_back_from_the_wire_as_it_went() {
    let d = FnWithArgs::<2>::new().args(["value", "index"]).js_body("var t = value;").js_return_value("t + index");
    assert_eq!(FnWithArgs::<2>::deserialize(&d.serialize()), Ok(d.clone()));
    let e = FnWithArgs::<1>::new();
    assert_eq!(FnWithArgs::<1>::deserialize(&e.serialize()), Ok(e));
    let c = FnWithArgs::<3>::new().with_closure_id("0000".to_string());
    assert_eq!(FnWithArgs::<3>::deserialize(&c.serialize()), Ok(c));
    let text = d.serialize().to_json();
    assert_eq!(FnWithArgs::<2>::deserialize(&JsValue::from_json(&text).unwrap()), Ok(d));
}

fn arity_error<const N: usize>(found: usize) {
    let names: Vec<&str> = (0..found).map(|_| "p").collect();
    assert_eq!(
        FnWithArgs::<N>::deserialize(&descriptor(&names, "", "", JsValue::Null)),
        Err(DecodeError::Arity { found, needed: N }),
    );
}

#[test]
fn another_number_of_parameters_is_an_arity_error() {
    for found in 0..10 {
        if found != 1 { arity_error::<1>(found); }
        if found != 2 { arity_error::<2>(found); }
        if found != 3 { arity_error::<3>(found); }
        if found != 4 { arity_error::<4>(found); }
        if found != 5 { arity_error::<5>(found); }
        if found != 6 { arity_error::<6>(found); }
        if found != 7 { arity_error::<7>(found); }
    }
    assert!(FnWithArgs::<2>::deserialize(&descriptor(&["x", "y"], "", "", JsValue::Null)).is_ok());
}

#[test]
fn a_value_of_another_shape_is_no_descriptor() {
    assert_eq!(FnWithArgs::<1>::deserialize(&JsValue::Str("function".into())), Err(DecodeError::Shape));
    assert_eq!(FnWithArgs::<1>::deserialize(&JsValue::Object(vec![])), Err(DecodeError::Shape));
    let missing_body = JsValue::Object(vec![
        ("args".to_string(), JsValue::Array(vec![JsValue::Str("a".into())])),
        ("return_value".to_string(), JsValue::Str(String::new())),
    ]);
    assert_eq!(FnWithArgs::<1>::deserialize(&missing_body), Err(DecodeError::Shape));
    let bad_args = JsValue::Object(vec![
        ("args".to_string(), JsValue::Array(vec![JsValue::Int(1)])),
        ("body".to_string(), JsValue::Str(String::new())),
        ("return_value".to_string(), JsValue::Str(String::new())),
    ]);
    assert_eq!(FnWithArgs::<1>::deserialize(&bad_args), Err(DecodeError::Shape));
    assert_eq!(FnWithArgs::<1>::deserialize(&descriptor(&["a"], "", "", JsValue::Int(3))), Err(DecodeError::Shape));
}

#[test]
fn a_descriptor_without_the_identifier_member_has_no_native_callback() {
    let v = JsValue::Object(vec![
        ("body".to_string(), JsValue::Str("b".into())),
        ("extra".to_string(), JsValue::Int(1)),
        ("args".to_string(), JsValue::Array(vec![JsValue::Str("x".into())])),
        ("return_value".to_string(), JsValue::Str("x".into())),
    ]);
    let d = FnWithArgs::<1>::deserialize(&v).unwrap();
    assert_eq!(d.serialize(), descriptor(&["x"], "b", "x", JsValue::Null));
    let with_id = descriptor(&["x"], "", "", JsValue::Str("abc".into()));
    assert_eq!(FnWithArgs::<1>::deserialize(&with_id).unwrap().serialize(), with_id);
}

#[test]
fn the_default_of_a_union_is_the_plain_default() {
    assert_eq!(FnWithArgsOrT::<1, String>::default(), FnWithArgsOrT::T(String::new()));
    assert_eq!(FnWithArgsOrT::<2, NumberString>::default(), FnWithArgsOrT::T(NumberString::default()));
    assert_eq!(FnWithArgsOrT::<3, bool>::default(), FnWithArgsOrT::T(false));
    assert!(FnWithArgsOrT::<1, String>::default().is_empty());
}

#[test]
fn a_union_is_empty_as_its_variant_is() {
    assert!(!FnWithArgsOrT::<1, String>::from("red").is_empty());
    assert!(FnWithArgsOrT::<1, String>::from(FnWithArgs::<1>::new()).is_empty());
    assert!(!FnWithArgsOrT::<1, String>::from(FnWithArgs::<1>::new().js_return_value("1")).is_empty());
    assert!(!FnWithArgsOrT::<1, NumberString>::from(5).is_empty());
}

#[test]
fn a_union_goes_to_the_wire_untagged_and_comes_back() {
    let plain = FnWithArgsOrT::<1, String>::from("red");
    assert_eq!(plain.serialize(), JsValue::Str("red".into()));
    assert_eq!(FnWithArgsOrT::<1, String>::deserialize(&plain.serialize()), Ok(plain));
    let f = FnWithArgs::<1>::new().js_return_value("'red'");
    let callback = FnWithArgsOrT::<1, String>::from(f.clone());
    assert_eq!(callback.serialize(), f.serialize());
    assert_eq!(FnWithArgsOrT::<1, String>::deserialize(&callback.serialize()), Ok(callback));
    assert_eq!(FnWithArgsOrT::<2, String>::deserialize(&f.serialize()), Err(DecodeError::Shape));
    assert_eq!(FnWithArgsOrT::<1, String>::deserialize(&JsValue::Int(3)), Err(DecodeError::Shape));
    assert_eq!(
        FnWithArgsOrT::<1, NumberString>::deserialize(&JsValue::Int(3)),
        Ok(FnWithArgsOrT::T(NumberString::from(3)))
    );
}

#[test]
fn a_field_of_any_scalar_or_a_callback_holds_either() {
    assert_eq!(FnWithArgsOrAny::<1>::default(), FnWithArgsOrT::T(Any::Bool(false)));
    assert!(!FnWithArgsOrAny::<1>::default().is_empty());
    assert_eq!(FnWithArgsOrAny::<1>::from(true), FnWithArgsOrT::T(Any::Bool(true)));
    assert_eq!(FnWithArgsOrAny::<1>::from("red".to_string()), FnWithArgsOrT::T(Any::String("red".into())));
    assert!(FnWithArgsOrAny::<2>::from(String::new()).is_empty());
    assert!(ChartJsRsObject::is_empty(&Any::Vec(vec![])));
    assert!(!ChartJsRsObject::is_empty(&Any::Int(0)));
    let f = FnWithArgs::<1>::new().js_return_value("1");
    assert_eq!(FnWithArgsOrAny::<1>::from(f.clone()).serialize(), f.serialize());
    assert_eq!(FnWithArgsOrAny::<1>::deserialize(&JsValue::Int(3)), Ok(FnWithArgsOrT::T(Any::Int(3))));
    assert_eq!(FnWithArgsOrAny::<1>::deserialize(&f.serialize()), Ok(FnWithArgsOrT::FnWithArgs(f)));
    assert_eq!(FnWithArgsOrAny::<1>::deserialize(&JsValue::Null), Err(DecodeError::Shape));
}
