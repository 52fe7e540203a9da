use chart_js_rs::{CallbackRegistry, FnWithArgs, JsValue, MissingCallback, Serialize};

fn double(args: Vec<JsValue>) -> JsValue {
    match args.first() {
        Some(JsValue::Int(x)) => JsValue::Int(x * 2),
        _ => JsValue::Undefined,
    }
}

#[test]
fn what_is_registered_is_called_with_the_arguments() {
    let mut registry = CallbackRegistry::new();
    let id = registry.register(double);
    assert_eq!(registry.invoke(&id, vec![JsValue::Int(21)]), Ok(double(vec![JsValue::Int(21)])));
    assert_eq!(registry.invoke(&id, vec![JsValue::Int(21)]), Ok(JsValue::Int(42)));
    assert_eq!(registry.invoke(&id, vec![]), Ok(JsValue::Undefined));
}

#[test]
fn every_registration_gets_an_identifier_of_its_own() {
    let mut registry: CallbackRegistry<Box<dyn Fn(Vec<JsValue>) -> JsValue>> = CallbackRegistry::new();
    let first = registry.register(Box::new(|_| JsValue::Int(1)));
    let second = registry.register(Box::new(|_| JsValue::Int(2)));
    let third = registry.register(Box::new(|args| JsValue::Int(args.len() as i64)));
    assert_ne!(first, second);
    assert_ne!(second, third);
    assert_eq!(first.len(), 36);
    assert_eq!(registry.invoke(&first, vec![]), Ok(JsValue::Int(1)));
    assert_eq!(registry.invoke(&second, vec![]), Ok(JsValue::Int(2)));
    assert_eq!(registry.invoke(&third, vec![JsValue::Null, JsValue::Null]), Ok(JsValue::Int(2)));
}

#[test]
fn an_identifier_that_was_never_given_is_an_error() {
    let mut registry = CallbackRegistry::new();
    registry.register(double);
    assert_eq!(
        registry.invoke("no-such-id", vec![JsValue::Int(1)]),
        Err(MissingCallback { id: "no-such-id".to_string() })
    );
    let empty: CallbackRegistry<fn(Vec<JsValue>) -> JsValue> = CallbackRegistry::new();
    assert!(empty.get("x").is_none());
    assert_eq!(empty.invoke("x", vec![]), Err(MissingCallback { id: "x".to_string() }));
}

#[test]
fn the_last_registration_under_a_name_wins() {
    let mut registry: CallbackRegistry<fn(Vec<JsValue>) -> JsValue> = CallbackRegistry::new();
    registry.register_as("format".to_string(), |_| JsValue::Int(1));
    registry.register_as("other".to_string(), |_| JsValue::Int(7));
    registry.register_as("format".to_string(), |_| JsValue::Int(2));
    assert_eq!(registry.invoke("format", vec![]), Ok(JsValue::Int(2)));
    assert_eq!(registry.invoke("other", vec![]), Ok(JsValue::Int(7)));
}

#[test]
fn a_native_closure_is_found_under_the_identifier_of_its_descriptor() {
    let mut registry = CallbackRegistry::new();
    let d = FnWithArgs::<1>::new().rust_closure(&mut registry, double);
    let id = d.closure_id().expect("the descriptor names its callback");
    assert_eq!(d.serialize().get("closure_id"), Some(&JsValue::Str(id.clone())));
    assert_eq!(registry.invoke(&id, vec![JsValue::Int(21)]), Ok(JsValue::Int(42)));
}
