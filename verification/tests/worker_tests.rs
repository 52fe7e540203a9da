use chart_js_rs::worker::{handle_message, update_succeeded, Envelope, Link, MessageContent, Outcome, Request, Step};
use chart_js_rs::{CallbackRegistry, Chart, JsValue, MissingCallback, WorkerChart};

fn obj(members: Vec<(&str, JsValue)>) -> JsValue {
    JsValue::Object(members.into_iter().map(|(k, v)| (k.to_string(), v)).collect())
}

fn text(s: &str) -> JsValue {
    JsValue::Str(s.to_string())
}

fn render() -> MessageContent {
    MessageContent::Render {
        canvas: JsValue::Handle(7),
        width: JsValue::Int(640),
        height: JsValue::Int(480),
        obj: obj(vec![("type", text("bar"))]),
        id: "chart".to_string(),
        mutate: true,
        plugins: "p".to_string(),
        defaults: "d".to_string(),
    }
}

fn update() -> MessageContent {
    MessageContent::Update { updated: obj(vec![("type", text("bar"))]), id: "chart".to_string(), animate: true }
}

fn all_messages() -> Vec<MessageContent> {
    vec![
        MessageContent::CallbackRequest { function: "format".to_string(), args: vec![JsValue::Int(1), text("x")] },
        MessageContent::CallbackRequest { function: String::new(), args: vec![] },
        MessageContent::CallbackResponse { data: JsValue::Int(5) },
        MessageContent::CallbackResponse { data: JsValue::Undefined },
        render(),
        update(),
        MessageContent::Other,
    ]
}

#[test]
fn every_message_has_the_wire_form_of_its_variant() {
    assert_eq!(
        MessageContent::CallbackRequest { function: "f".to_string(), args: vec![JsValue::Int(1)] }.into_value(),
        obj(vec![("function", text("f")), ("args", JsValue::Array(vec![JsValue::Int(1)]))])
    );
    assert_eq!(MessageContent::CallbackResponse { data: JsValue::Bool(true) }.into_value(), obj(vec![("data", JsValue::Bool(true))]));
    assert_eq!(
        render().into_value(),
        obj(vec![
            ("canvas", JsValue::Handle(7)),
            ("width", JsValue::Int(640)),
            ("height", JsValue::Int(480)),
            ("obj", obj(vec![("type", text("bar"))])),
            ("id", text("chart")),
            ("mutate", JsValue::Bool(true)),
            ("plugins", text("p")),
            ("defaults", text("d")),
        ])
    );
    assert_eq!(
        update().into_value(),
        obj(vec![("updated", obj(vec![("type", text("bar"))])), ("id", text("chart")), ("animate", JsValue::Bool(true))])
    );
    assert_eq!(MessageContent::Other.into_value(), JsValue::Array(vec![]));
}

#[test]
fn every_message_comes_back_from_the_wire_as_it_went() {
    for m in all_messages() {
        assert_eq!(MessageContent::from_value(&m.clone().into_value()), m);
    }
}

#[test]
fn what_fits_no_variant_is_another_message() {
    for v in [
        JsValue::Null,
        JsValue::Undefined,
        JsValue::Int(1),
        text("render"),
        JsValue::Array(vec![JsValue::Int(1)]),
        obj(vec![]),
        obj(vec![("function", text("f"))]),
        obj(vec![("updated", JsValue::Null), ("id", text("x"))]),
        obj(vec![("canvas", JsValue::Null), ("width", JsValue::Int(1)), ("height", JsValue::Int(1))]),
    ] {
        assert_eq!(MessageContent::from_value(&v), MessageContent::Other, "{v:?}");
    }
}

#[test]
fn members_of_another_kind_read_as_their_defaults() {
    let loose = obj(vec![("function", JsValue::Int(3)), ("args", text("none"))]);
    assert_eq!(
        MessageContent::from_value(&loose),
        MessageContent::CallbackRequest { function: String::new(), args: vec![] }
    );
    let loose_update = obj(vec![("updated", JsValue::Int(1)), ("id", JsValue::Int(2)), ("animate", text("yes"))]);
    assert_eq!(
        MessageContent::from_value(&loose_update),
        MessageContent::Update { updated: JsValue::Int(1), id: String::new(), animate: false }
    );
}

#[test]
fn the_variants_are_tried_in_their_order() {
    let both = obj(vec![("data", JsValue::Int(1)), ("function", text("f")), ("args", JsValue::Array(vec![]))]);
    assert_eq!(
        MessageContent::from_value(&both),
        MessageContent::CallbackRequest { function: "f".to_string(), args: vec![] }
    );
    let response_first = obj(vec![("updated", JsValue::Null), ("id", text("x")), ("animate", JsValue::Bool(true)), ("data", JsValue::Int(1))]);
    assert_eq!(MessageContent::from_value(&response_first), MessageContent::CallbackResponse { data: JsValue::Int(1) });
}

#[test]
fn only_the_canvas_of_a_render_is_transferred() {
    assert_eq!(render().transfers(), vec![JsValue::Handle(7)]);
    assert_eq!(update().transfers(), Vec::<JsValue>::new());
    assert_eq!(MessageContent::Other.transfers(), Vec::<JsValue>::new());
    assert_eq!(MessageContent::CallbackResponse { data: JsValue::Handle(1) }.transfers(), Vec::<JsValue>::new());
}

#[test]
fn an_envelope_is_the_identifier_and_then_the_message() {
    let e = Envelope { id: "abc".to_string(), content: update() };
    assert_eq!(e.clone().into_value(), JsValue::Array(vec![text("abc"), update().into_value()]));
    assert_eq!(Envelope::from_value(&e.clone().into_value()), e);
    assert_eq!(Envelope::from_value(&JsValue::Null), Envelope { id: String::new(), content: MessageContent::Other });
    assert_eq!(
        Envelope::from_value(&JsValue::Array(vec![JsValue::Int(1)])),
        Envelope { id: String::new(), content: MessageContent::Other }
    );
}

#[test]
fn every_request_gets_a_correlation_identifier_of_its_own() {
    let (first, sent_first) = Request::send(render());
    let (second, sent_second) = Request::send(update());
    assert_eq!(first.id, sent_first.id);
    assert_eq!(second.id, sent_second.id);
    assert_ne!(first.id, second.id);
    assert_eq!(first.id.len(), 36);
    assert_eq!(sent_first.content, render());
    assert_eq!(sent_second.content, update());
}

#[test]
fn each_caller_gets_the_response_with_its_own_identifier() {
    let response_abc = Envelope { id: "abc".to_string(), content: MessageContent::Other };
    let response_xyz = Envelope { id: "xyz".to_string(), content: MessageContent::CallbackResponse { data: JsValue::Bool(true) } };
    for order in [[&response_abc, &response_xyz], [&response_xyz, &response_abc]] {
        let (mut render_call, _) = Request::send_as("abc".to_string(), render());
        let (mut update_call, _) = Request::send_as("xyz".to_string(), update());
        let mut render_done = None;
        let mut update_done = None;
        for message in order {
            if render_done.is_none() {
                match render_call.clone().on_message(message.clone()) {
                    Step::Waiting(r) => render_call = r,
                    Step::Done(v) => render_done = Some(v),
                }
            }
            if update_done.is_none() {
                match update_call.clone().on_message(message.clone()) {
                    Step::Waiting(r) => update_call = r,
                    Step::Done(v) => update_done = Some(v),
                }
            }
        }
        assert_eq!(render_done, Some(JsValue::Undefined));
        assert_eq!(update_done, Some(JsValue::Bool(true)));
        assert!(update_succeeded(&update_done.unwrap()));
    }
}

#[test]
fn a_message_for_another_request_is_dropped() {
    let (request, _) = Request::send_as("abc".to_string(), update());
    let other = Envelope { id: "abd".to_string(), content: MessageContent::CallbackResponse { data: JsValue::Bool(true) } };
    assert!(!request.accepts(&other));
    assert_eq!(request.clone().on_message(other), Step::Waiting(request.clone()));
    let own = Envelope { id: "abc".to_string(), content: MessageContent::CallbackResponse { data: JsValue::Bool(false) } };
    assert!(request.accepts(&own));
    assert_eq!(request.on_message(own), Step::Done(JsValue::Bool(false)));
}

#[test]
fn only_true_is_a_successful_update() {
    assert!(update_succeeded(&JsValue::Bool(true)));
    assert!(!update_succeeded(&JsValue::Bool(false)));
    assert!(!update_succeeded(&JsValue::Undefined));
    assert!(!update_succeeded(&JsValue::Int(1)));
}

#[test]
fn a_callback_request_is_answered_under_its_own_identifier() {
    let mut callbacks: CallbackRegistry<fn(Vec<JsValue>) -> JsValue> = CallbackRegistry::new();
    callbacks.register_as("count".to_string(), |args| JsValue::Int(args.len() as i64));
    let request = Envelope {
        id: "r-1".to_string(),
        content: MessageContent::CallbackRequest { function: "count".to_string(), args: vec![JsValue::Null, JsValue::Null] },
    };
    assert_eq!(
        handle_message(&callbacks, request),
        Outcome::Reply(Envelope { id: "r-1".to_string(), content: MessageContent::CallbackResponse { data: JsValue::Int(2) } })
    );
}

#[test]
fn a_request_for_a_callback_that_is_not_registered_fails_and_the_loop_goes_on() {
    let mut callbacks: CallbackRegistry<fn(Vec<JsValue>) -> JsValue> = CallbackRegistry::new();
    callbacks.register_as("count".to_string(), |args| JsValue::Int(args.len() as i64));
    let missing = Envelope {
        id: "r-1".to_string(),
        content: MessageContent::CallbackRequest { function: "notRegistered".to_string(), args: vec![] },
    };
    assert_eq!(
        handle_message(&callbacks, missing),
        Outcome::Failed(MissingCallback { id: "notRegistered".to_string() })
    );
    let next = Envelope {
        id: "r-2".to_string(),
        content: MessageContent::CallbackRequest { function: "count".to_string(), args: vec![] },
    };
    assert_eq!(
        handle_message(&callbacks, next),
        Outcome::Reply(Envelope { id: "r-2".to_string(), content: MessageContent::CallbackResponse { data: JsValue::Int(0) } })
    );
}

#[test]
fn every_other_message_is_delivered_as_it_is() {
    let callbacks: CallbackRegistry<fn(Vec<JsValue>) -> JsValue> = CallbackRegistry::new();
    for content in [MessageContent::CallbackResponse { data: JsValue::Int(1) }, render(), update(), MessageContent::Other] {
        let e = Envelope { id: "id".to_string(), content };
        assert_eq!(handle_message(&callbacks, e.clone()), Outcome::Deliver(e));
    }
}

#[test]
fn the_link_is_ready_after_the_first_message() {
    let link = Link::new();
    assert!(!link.is_ready());
    let link = link.on_message();
    assert!(link.is_ready());
    assert!(link.on_message().is_ready());
}

#[test]
fn a_chart_keeps_what_it_is_told_for_the_engine() {
    let mut chart = Chart::new(obj(vec![("type", text("bar"))]), "c".to_string());
    let _ = chart.mutate();
    let _ = chart.plugins("[plugin]");
    let _ = chart.defaults("a = 1;");
    let call = chart.defaults("b = 2;").render();
    assert_eq!(call.id, "c");
    assert!(call.mutate);
    assert_eq!(call.plugins, "[plugin]");
    assert_eq!(call.defaults, "\na = 1;\nb = 2;");
}

#[test]
fn a_worker_chart_sends_its_configuration_as_it_is() {
    let callback = chart_js_rs::FnWithArgs::<1>::new().js_return_value("a");
    let config = obj(vec![("options", obj(vec![("plugins", obj(vec![("tooltip", obj(vec![("filter", chart_js_rs::Serialize::serialize(&callback))]))]))]))]);
    let mut chart = WorkerChart::new(config.clone(), "c".to_string());
    let _ = chart.plugins("[p]");
    let call = chart.mutate().render();
    assert_eq!(call.obj, config);
    let message = MessageContent::render(call, JsValue::Handle(1), JsValue::Int(10), JsValue::Int(20));
    assert_eq!(
        message,
        MessageContent::Render {
            canvas: JsValue::Handle(1),
            width: JsValue::Int(10),
            height: JsValue::Int(20),
            obj: config.clone(),
            id: "c".to_string(),
            mutate: true,
            plugins: "[p]".to_string(),
            defaults: String::new(),
        }
    );
    let update = MessageContent::update(WorkerChart::new(config.clone(), "c".to_string()).update(false));
    assert_eq!(update, MessageContent::Update { updated: config, id: "c".to_string(), animate: false });
}

fn answered(wire: JsValue) -> JsValue {
    let (request, _) = Request::send_as("xyz".to_string(), update());
    match request.on_message(Envelope::from_value(&wire)) {
        Step::Done(payload) => payload,
        Step::Waiting(_) => panic!("the response had the identifier of the request"),
    }
}

#[test]
fn a_response_carries_its_payload_as_its_data() {
    let good = JsValue::Array(vec![text("xyz"), obj(vec![("data", JsValue::Bool(true))])]);
    assert_eq!(answered(good.clone()), JsValue::Bool(true));
    assert!(update_succeeded(&answered(good)));
    let built = Envelope { id: "xyz".to_string(), content: MessageContent::CallbackResponse { data: JsValue::Bool(true) } };
    assert!(update_succeeded(&answered(built.into_value())));
    let failed = JsValue::Array(vec![text("xyz"), obj(vec![("data", JsValue::Bool(false))])]);
    assert!(!update_succeeded(&answered(failed)));
    let bare = JsValue::Array(vec![text("xyz"), JsValue::Bool(true)]);
    assert_eq!(answered(bare.clone()), JsValue::Undefined);
    assert!(!update_succeeded(&answered(bare)));
    let completion = JsValue::Array(vec![text("xyz")]);
    assert_eq!(answered(completion), JsValue::Undefined);
}
