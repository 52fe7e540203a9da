use vstd::prelude::*;
use crate::chart::{RenderCall, UpdateCall};
use crate::registry::{fresh_id, registered, CallbackRegistry, MissingCallback};
use crate::text::{owned, str_eq};
use crate::value::{
    field, items_view, lemma_array_view, lemma_object_view, members_view, JsValue, JsView,
};

verus! {

/// The model of a [`MessageContent`].
pub enum MessageView {
    CallbackRequest { function: Seq<char>, args: Seq<JsView> },
    CallbackResponse { data: JsView },
    Render {
        canvas: JsView,
        width: JsView,
        height: JsView,
        obj: JsView,
        id: Seq<char>,
        mutate: bool,
        plugins: Seq<char>,
        defaults: Seq<char>,
    },
    Update { updated: JsView, id: Seq<char>, animate: bool },
    Other,
}

/// What a message between the main context and a worker holds.
#[derive(Debug, Clone, PartialEq, Eq)]
pub enum MessageContent {
    /// The worker asks for a native callback to be called.
    CallbackRequest { function: String, args: Vec<JsValue> },
    /// What a native callback gave.
    CallbackResponse { data: JsValue },
    /// Draw a chart on the canvas that comes with the message.
    Render {
        canvas: JsValue,
        width: JsValue,
        height: JsValue,
        obj: JsValue,
        id: String,
        mutate: bool,
        plugins: String,
        defaults: String,
    },
    /// Update the chart that is drawn into the element `id`.
    Update { updated: JsValue, id: String, animate: bool },
    Other,
}

impl View for MessageContent {
    type V = MessageView;

    open spec fn view(&self) -> MessageView {
        match self {
            MessageContent::CallbackRequest { function, args } => MessageView::CallbackRequest {
                function: function@,
                args: items_view(args@),
            },
            MessageContent::CallbackResponse { data } => MessageView::CallbackResponse { data: data@ },
            MessageContent::Render {
                canvas,
                width,
                height,
                obj,
                id,
                mutate,
                plugins,
                defaults,
            } => MessageView::Render {
                canvas: canvas@,
                width: width@,
                height: height@,
                obj: obj@,
                id: id@,
                mutate: *mutate,
                plugins: plugins@,
                defaults: defaults@,
            },
            MessageContent::Update { updated, id, animate } => MessageView::Update {
                updated: updated@,
                id: id@,
                animate: *animate,
            },
            MessageContent::Other => MessageView::Other,
        }
    }
}

/// The wire form of a message: an object with one member for each field
/// of its variant; an empty list for `Other`.
pub open spec fn message_wire(m: MessageView) -> JsView {
    match m {
        MessageView::CallbackRequest { function, args } => JsView::Object(
            seq![("function"@, JsView::Str(function)), ("args"@, JsView::Array(args))],
        ),
        MessageView::CallbackResponse { data } => JsView::Object(seq![("data"@, data)]),
        MessageView::Render {
            canvas,
            width,
            height,
            obj,
            id,
            mutate,
            plugins,
            defaults,
        } => JsView::Object(
            seq![
                ("canvas"@, canvas),
                ("width"@, width),
                ("height"@, height),
                ("obj"@, obj),
                ("id"@, JsView::Str(id)),
                ("mutate"@, JsView::Bool(mutate)),
                ("plugins"@, JsView::Str(plugins)),
                ("defaults"@, JsView::Str(defaults)),
            ],
        ),
        MessageView::Update { updated, id, animate } => JsView::Object(
            seq![
                ("updated"@, updated),
                ("id"@, JsView::Str(id)),
                ("animate"@, JsView::Bool(animate)),
            ],
        ),
        MessageView::Other => JsView::Array(Seq::empty()),
    }
}

pub open spec fn has(v: JsView, key: Seq<char>) -> bool {
    field(v, key) is Some
}

/// The text of a member; the empty text where the member is no text.
pub open spec fn text_or_empty(v: Option<JsView>) -> Seq<char> {
    match v {
        Some(JsView::Str(s)) => s,
        _ => Seq::empty(),
    }
}

/// The truth value of a member; `false` where the member is none.
pub open spec fn bool_or_false(v: Option<JsView>) -> bool {
    match v {
        Some(JsView::Bool(b)) => b,
        _ => false,
    }
}

/// The items of a member; none where the member is no list.
pub open spec fn items_or_none(v: Option<JsView>) -> Seq<JsView> {
    match v {
        Some(JsView::Array(items)) => items,
        _ => Seq::empty(),
    }
}

/// The message that a wire value is read as. The variants are tried in
/// this order, each by the members that it needs: a callback request, a
/// callback response, a render, an update. What fits none is `Other`.
pub open spec fn message_of(v: JsView) -> MessageView {
    if has(v, "function"@) && has(v, "args"@) {
        MessageView::CallbackRequest {
            function: text_or_empty(field(v, "function"@)),
            args: items_or_none(field(v, "args"@)),
        }
    } else if has(v, "data"@) {
        MessageView::CallbackResponse { data: field(v, "data"@)->Some_0 }
    } else if has(v, "canvas"@) && has(v, "width"@) && has(v, "height"@) && has(v, "obj"@) && has(
        v,
        "id"@,
    ) && has(v, "mutate"@) && has(v, "plugins"@) && has(v, "defaults"@) {
        MessageView::Render {
            canvas: field(v, "canvas"@)->Some_0,
            width: field(v, "width"@)->Some_0,
            height: field(v, "height"@)->Some_0,
            obj: field(v, "obj"@)->Some_0,
            id: text_or_empty(field(v, "id"@)),
            mutate: bool_or_false(field(v, "mutate"@)),
            plugins: text_or_empty(field(v, "plugins"@)),
            defaults: text_or_empty(field(v, "defaults"@)),
        }
    } else if has(v, "updated"@) && has(v, "id"@) && has(v, "animate"@) {
        MessageView::Update {
            updated: field(v, "updated"@)->Some_0,
            id: text_or_empty(field(v, "id"@)),
            animate: bool_or_false(field(v, "animate"@)),
        }
    } else {
        MessageView::Other
    }
}

/// What is known of the keys of the wire form: no two of them are the
/// same text.
proof fn lemma_keys_differ()
    ensures
        "function"@.len() == 8,
        "args"@.len() == 4,
        "data"@.len() == 4,
        "canvas"@.len() == 6,
        "width"@.len() == 5,
        "height"@.len() == 6,
        "obj"@.len() == 3,
        "id"@.len() == 2,
        "mutate"@.len() == 6,
        "plugins"@.len() == 7,
        "defaults"@.len() == 8,
        "updated"@.len() == 7,
        "animate"@.len() == 7,
        "data"@ != "args"@,
        "defaults"@ != "function"@,
        "canvas"@ != "height"@,
        "canvas"@ != "mutate"@,
        "height"@ != "mutate"@,
        "updated"@ != "animate"@,
        "plugins"@ != "updated"@,
        "plugins"@ != "animate"@,
{
    reveal_strlit("function");
    reveal_strlit("args");
    reveal_strlit("data");
    reveal_strlit("canvas");
    reveal_strlit("width");
    reveal_strlit("height");
    reveal_strlit("obj");
    reveal_strlit("id");
    reveal_strlit("mutate");
    reveal_strlit("plugins");
    reveal_strlit("defaults");
    reveal_strlit("updated");
    reveal_strlit("animate");
    assert("data"@[0] != "args"@[0]);
    assert("defaults"@[0] != "function"@[0]);
    assert("canvas"@[0] != "height"@[0]);
    assert("canvas"@[0] != "mutate"@[0]);
    assert("height"@[0] != "mutate"@[0]);
    assert("updated"@[0] != "animate"@[0]);
    assert("plugins"@[0] != "updated"@[0]);
    assert("plugins"@[0] != "animate"@[0]);
}

/// A message comes back from its wire form as it went.
pub proof fn lemma_message_round_trip(m: MessageView)
    ensures
        message_of(message_wire(m)) == m,
{
    lemma_keys_differ();
    reveal_with_fuel(crate::value::member, 9);
    let v = message_wire(m);
    match m {
        MessageView::CallbackRequest { function, args } => {
            assert(field(v, "function"@) == Some(JsView::Str(function)));
            assert(field(v, "args"@) == Some(JsView::Array(args)));
        },
        MessageView::CallbackResponse { data } => {
            assert(field(v, "function"@) is None);
            assert(field(v, "data"@) == Some(data));
        },
        MessageView::Render { canvas, width, height, obj, id, mutate, plugins, defaults } => {
            assert(field(v, "function"@) is None);
            assert(field(v, "data"@) is None);
            assert(field(v, "canvas"@) == Some(canvas));
            assert(field(v, "width"@) == Some(width));
            assert(field(v, "height"@) == Some(height));
            assert(field(v, "obj"@) == Some(obj));
            assert(field(v, "id"@) == Some(JsView::Str(id)));
            assert(field(v, "mutate"@) == Some(JsView::Bool(mutate)));
            assert(field(v, "plugins"@) == Some(JsView::Str(plugins)));
            assert(field(v, "defaults"@) == Some(JsView::Str(defaults)));
        },
        MessageView::Update { updated, id, animate } => {
            assert(field(v, "function"@) is None);
            assert(field(v, "data"@) is None);
            assert(field(v, "canvas"@) is None);
            assert(field(v, "updated"@) == Some(updated));
            assert(field(v, "id"@) == Some(JsView::Str(id)));
            assert(field(v, "animate"@) == Some(JsView::Bool(animate)));
        },
        MessageView::Other => {},
    }
}

fn as_text(v: Option<&JsValue>) -> (r: String)
    ensures
        r@ == text_or_empty(
            match v {
                Some(x) => Some(x@),
                None => None,
            },
        ),
{
    match v {
        Some(JsValue::Str(s)) => s.clone(),
        _ => String::new(),
    }
}

fn as_flag(v: Option<&JsValue>) -> (r: bool)
    ensures
        r == bool_or_false(
            match v {
                Some(x) => Some(x@),
                None => None,
            },
        ),
{
    match v {
        Some(JsValue::Bool(b)) => *b,
        _ => false,
    }
}

fn as_items(v: Option<&JsValue>) -> (r: Vec<JsValue>)
    ensures
        items_view(r@) == items_or_none(
            match v {
                Some(x) => Some(x@),
                None => None,
            },
        ),
{
    match v {
        Some(JsValue::Array(items)) => {
            proof {
                lemma_array_view(*items);
            }
            let mut out: Vec<JsValue> = Vec::new();
            let mut i: usize = 0;
            while i < items.len()
                invariant
                    i <= items.len(),
                    out@.len() == i,
                    forall|j: int| 0 <= j < i ==> (#[trigger] out@[j])@ == items@[j]@,
                decreases items.len() - i,
            {
                out.push(items[i].clone());
                i += 1;
            }
            assert(items_view(out@) =~= items_view(items@));
            out
        },
        _ => {
            let out: Vec<JsValue> = Vec::new();
            assert(items_view(out@) =~= Seq::<JsView>::empty());
            out
        },
    }
}

fn copy_of(v: Option<&JsValue>) -> (r: JsValue)
    requires
        v is Some,
    ensures
        r@ == v->Some_0@,
{
    match v {
        Some(x) => x.clone(),
        None => JsValue::Undefined,
    }
}

impl MessageContent {
    /// The wire form of the message.
    pub fn into_value(self) -> (r: JsValue)
        ensures
            r@ == message_wire(self@),
    {
        let mut members: Vec<(String, JsValue)> = Vec::new();
        match self {
            MessageContent::CallbackRequest { function, args } => {
                proof {
                    lemma_array_view(args);
                }
                members.push((owned("function"), JsValue::Str(function)));
                members.push((owned("args"), JsValue::Array(args)));
            },
            MessageContent::CallbackResponse { data } => {
                members.push((owned("data"), data));
            },
            MessageContent::Render {
                canvas,
                width,
                height,
                obj,
                id,
                mutate,
                plugins,
                defaults,
            } => {
                members.push((owned("canvas"), canvas));
                members.push((owned("width"), width));
                members.push((owned("height"), height));
                members.push((owned("obj"), obj));
                members.push((owned("id"), JsValue::Str(id)));
                members.push((owned("mutate"), JsValue::Bool(mutate)));
                members.push((owned("plugins"), JsValue::Str(plugins)));
                members.push((owned("defaults"), JsValue::Str(defaults)));
            },
            MessageContent::Update { updated, id, animate } => {
                members.push((owned("updated"), updated));
                members.push((owned("id"), JsValue::Str(id)));
                members.push((owned("animate"), JsValue::Bool(animate)));
            },
            MessageContent::Other => {
                let items: Vec<JsValue> = Vec::new();
                proof {
                    lemma_array_view(items);
                    assert(items_view(items@) =~= Seq::<JsView>::empty());
                }
                return JsValue::Array(items);
            },
        }
        proof {
            lemma_object_view(members);
            assert(members_view(members@) =~= message_wire(self@)->Object_0);
        }
        JsValue::Object(members)
    }

    /// The message that a wire value holds. What is no object, or lacks a
    /// member of every variant, is `Other`.
    pub fn from_value(value: &JsValue) -> (r: Self)
        ensures
            r@ == message_of(value@),
    {
        if value.get("function").is_some() && value.get("args").is_some() {
            MessageContent::CallbackRequest {
                function: as_text(value.get("function")),
                args: as_items(value.get("args")),
            }
        } else if value.get("data").is_some() {
            MessageContent::CallbackResponse { data: copy_of(value.get("data")) }
        } else if value.get("canvas").is_some() && value.get("width").is_some() && value.get(
            "height",
        ).is_some() && value.get("obj").is_some() && value.get("id").is_some() && value.get(
            "mutate",
        ).is_some() && value.get("plugins").is_some() && value.get("defaults").is_some() {
            MessageContent::Render {
                canvas: copy_of(value.get("canvas")),
                width: copy_of(value.get("width")),
                height: copy_of(value.get("height")),
                obj: copy_of(value.get("obj")),
                id: as_text(value.get("id")),
                mutate: as_flag(value.get("mutate")),
                plugins: as_text(value.get("plugins")),
                defaults: as_text(value.get("defaults")),
            }
        } else if value.get("updated").is_some() && value.get("id").is_some() && value.get(
            "animate",
        ).is_some() {
            MessageContent::Update {
                updated: copy_of(value.get("updated")),
                id: as_text(value.get("id")),
                animate: as_flag(value.get("animate")),
            }
        } else {
            MessageContent::Other
        }
    }

    /// The message that asks a worker to draw a chart on `canvas`.
    pub fn render(call: RenderCall, canvas: JsValue, width: JsValue, height: JsValue) -> (r: Self)
        ensures
            r == (MessageContent::Render {
                canvas,
                width,
                height,
                obj: call.obj,
                id: call.id,
                mutate: call.mutate,
                plugins: call.plugins,
                defaults: call.defaults,
            }),
    {
        MessageContent::Render {
            canvas,
            width,
            height,
            obj: call.obj,
            id: call.id,
            mutate: call.mutate,
            plugins: call.plugins,
            defaults: call.defaults,
        }
    }

    /// The message that asks a worker to update a chart.
    pub fn update(call: UpdateCall) -> (r: Self)
        ensures
            r == (MessageContent::Update { updated: call.updated, id: call.id, animate: call.animate }),
    {
        MessageContent::Update { updated: call.updated, id: call.id, animate: call.animate }
    }

    /// The values of the message that are moved to the receiver and not
    /// copied: the canvas of a render, nothing else.
    pub fn transfers(&self) -> (r: Vec<JsValue>)
        ensures
            items_view(r@) == match self@ {
                MessageView::Render { canvas, .. } => seq![canvas],
                _ => Seq::empty(),
            },
    {
        let mut out: Vec<JsValue> = Vec::new();
        match self {
            MessageContent::Render { canvas, .. } => {
                out.push(canvas.clone());
                assert(items_view(out@) =~= seq![canvas@]);
            },
            _ => {
                assert(items_view(out@) =~= Seq::<JsView>::empty());
            },
        }
        out
    }
}

/// A message with the correlation identifier that its sender gave it.
#[derive(Debug, Clone, PartialEq, Eq)]
pub struct Envelope {
    pub id: String,
    pub content: MessageContent,
}

/// The wire form of an envelope: the identifier, then the message.
pub open spec fn envelope_wire(id: Seq<char>, m: MessageView) -> JsView {
    JsView::Array(seq![JsView::Str(id), message_wire(m)])
}

/// The item of a list at `i`; `Undefined` where the value is no list or
/// has no such item.
pub open spec fn item(v: JsView, i: int) -> JsView {
    match v {
        JsView::Array(items) => if 0 <= i < items.len() {
            items[i]
        } else {
            JsView::Undefined
        },
        _ => JsView::Undefined,
    }
}

fn item_at(v: &JsValue, i: usize) -> (r: Option<&JsValue>)
    ensures
        match r {
            Some(x) => x@ == item(v@, i as int),
            None => item(v@, i as int) == JsView::Undefined,
        },
{
    match v {
        JsValue::Array(items) => {
            proof {
                lemma_array_view(*items);
            }
            if i < items.len() {
                Some(&items[i])
            } else {
                None
            }
        },
        _ => None,
    }
}

impl Envelope {
    /// The wire form of the envelope.
    pub fn into_value(self) -> (r: JsValue)
        ensures
            r@ == envelope_wire(self.id@, self.content@),
    {
        let mut items: Vec<JsValue> = Vec::new();
        items.push(JsValue::Str(self.id));
        items.push(self.content.into_value());
        proof {
            lemma_array_view(items);
            assert(items_view(items@) =~= seq![JsView::Str(self.id@), message_wire(self.content@)]);
        }
        JsValue::Array(items)
    }

    /// The envelope that a wire value holds: its first item as the
    /// identifier, the empty text where that is no text, and its second
    /// item as the message.
    pub fn from_value(value: &JsValue) -> (r: Self)
        ensures
            r.id@ == text_or_empty(Some(item(value@, 0))),
            r.content@ == message_of(item(value@, 1)),
    {
        let id = match item_at(value, 0) {
            Some(JsValue::Str(s)) => s.clone(),
            _ => String::new(),
        };
        let content = match item_at(value, 1) {
            Some(x) => MessageContent::from_value(x),
            None => MessageContent::from_value(&JsValue::Undefined),
        };
        Envelope { id, content }
    }
}

/// A request that was sent and waits for its response.
#[derive(Debug, Clone, PartialEq, Eq)]
pub struct Request {
    pub id: String,
}

/// Where a request stands after a message came in.
#[derive(Debug, Clone, PartialEq, Eq)]
pub enum Step {
    /// The message was for another request: go on waiting.
    Waiting(Request),
    /// The response came: here is what it holds.
    Done(JsValue),
}

/// What a response hands to the caller that waited for it. A response
/// carries its payload as the data of a callback response, on the wire the
/// object with the member `data`: the answer to an update is
/// `[id, {"data": true}]` where the update went well. A message of any
/// other form answers its request too, and hands it nothing: so does the
/// answer to a render, and so does a second item that is no object, such
/// as a bare `true`.
pub open spec fn payload(m: MessageView) -> JsView {
    match m {
        MessageView::CallbackResponse { data } => data,
        _ => JsView::Undefined,
    }
}

/// What the message in an envelope on the wire hands to the caller that
/// waits for it.
pub open spec fn wire_payload(v: JsView) -> JsView {
    payload(message_of(item(v, 1)))
}

/// A payload that is sent as the data of a callback response arrives as
/// it was sent, whatever it is and under whatever identifier.
pub proof fn lemma_payload_arrives(id: Seq<char>, data: JsView)
    ensures
        wire_payload(envelope_wire(id, MessageView::CallbackResponse { data })) == data,
{
    lemma_message_round_trip(MessageView::CallbackResponse { data });
}

/// An envelope whose second item is no object, or is an object without
/// the member `data`, hands nothing to the caller that waits for it.
pub proof fn lemma_payload_needs_data(v: JsView)
    requires
        !(has(item(v, 1), "data"@)),
    ensures
        wire_payload(v) == JsView::Undefined,
{
}

impl Request {
    /// Wraps `content` into an envelope with a fresh correlation
    /// identifier, and returns the request that waits for the response.
    pub fn send(content: MessageContent) -> (r: (Request, Envelope))
        ensures
            r.0.id@.len() == 36,
            r.0.id@ == r.1.id@,
            r.1.content == content,
    {
        let id = fresh_id();
        (Request { id: id.clone() }, Envelope { id, content })
    }

    /// Wraps `content` into an envelope with the correlation identifier
    /// `id`.
    pub fn send_as(id: String, content: MessageContent) -> (r: (Request, Envelope))
        ensures
            r.0.id@ == id@,
            r.1.id@ == id@,
            r.1.content == content,
    {
        (Request { id: id.clone() }, Envelope { id, content })
    }

    /// Whether a message answers this request: it carries the request's
    /// identifier.
    pub fn accepts(&self, envelope: &Envelope) -> (r: bool)
        ensures
            r == (envelope.id@ == self.id@),
    {
        str_eq(envelope.id.as_str(), self.id.as_str())
    }

    /// Takes a message that came in. One with another identifier is
    /// dropped and the request waits on; one with the request's own
    /// identifier ends the wait and hands out its payload: the data of a
    /// callback response, and `Undefined` for a message of any other
    /// variant.
    pub fn on_message(self, envelope: Envelope) -> (r: Step)
        ensures
            envelope.id@ != self.id@ ==> r == Step::Waiting(self),
            envelope.id@ == self.id@ ==> (r matches Step::Done(x) && x@ == payload(envelope.content@)),
            envelope.id@ == self.id@ ==> match envelope.content {
                MessageContent::CallbackResponse { data } => r == Step::Done(data),
                _ => r == Step::Done(JsValue::Undefined),
            },
    {
        if self.accepts(&envelope) {
            match envelope.content {
                MessageContent::CallbackResponse { data } => Step::Done(data),
                _ => Step::Done(JsValue::Undefined),
            }
        } else {
            Step::Waiting(self)
        }
    }
}

/// Whether the payload of the response to an update says that it went
/// well: it is the flag `true`. The payload is what [`Request::on_message`]
/// handed out, so an update whose response came without the member `data`
/// counts as failed.
pub fn update_succeeded(response: &JsValue) -> (r: bool)
    ensures
        r == (response@ == JsView::Bool(true)),
{
    match response {
        JsValue::Bool(b) => *b,
        _ => false,
    }
}

/// What the main context does with a message from a worker.
#[derive(Debug, Clone, PartialEq, Eq)]
pub enum Outcome {
    /// A native callback was called: send this back to the worker.
    Reply(Envelope),
    /// The message answers a request: hand it to those that wait.
    Deliver(Envelope),
    /// The worker asked for a callback that nothing stands for.
    Failed(MissingCallback),
}

/// Takes a message from a worker. A callback request is answered by
/// calling the callback that stands under its function name in
/// `callbacks`, and the reply carries the request's identifier and what the
/// callback gave; a name under which nothing stands is a failure that the
/// caller can report and go on. Every other message is delivered as it
/// is.
pub fn handle_message<F: Fn(Vec<JsValue>) -> JsValue>(
    callbacks: &CallbackRegistry<F>,
    envelope: Envelope,
) -> (r: Outcome)
    requires
        envelope.content matches MessageContent::CallbackRequest { function, args } ==> (registered(
            callbacks@,
            function@,
        ) matches Some(f) ==> f.requires((args,))),
    ensures
        match envelope.content {
            MessageContent::CallbackRequest { function, args } => match registered(
                callbacks@,
                function@,
            ) {
                Some(f) => {
                    &&& r matches Outcome::Reply(reply)
                    &&& reply.id == envelope.id
                    &&& reply.content matches MessageContent::CallbackResponse { data }
                    &&& f.ensures((args,), data)
                },
                None => r matches Outcome::Failed(e) && e.id@ == function@,
            },
            _ => r == Outcome::Deliver(envelope),
        },
{
    match envelope.content {
        MessageContent::CallbackRequest { function, args } => {
            match callbacks.invoke(function.as_str(), args) {
                Ok(data) => Outcome::Reply(
                    Envelope { id: envelope.id, content: MessageContent::CallbackResponse { data } },
                ),
                Err(e) => Outcome::Failed(e),
            }
        },
        other => Outcome::Deliver(Envelope { id: envelope.id, content: other }),
    }
}

/// Whether a worker has shown that it is there.
#[derive(Debug, Clone, Copy, PartialEq, Eq, Structural)]
pub enum Link {
    /// The worker was started and has sent nothing yet.
    AwaitingAck,
    /// The worker has sent a message: requests may be sent.
    Ready,
}

impl Link {
    /// The link to a worker that was just started.
    pub fn new() -> (r: Self)
        ensures
            r == Link::AwaitingAck,
    {
        Link::AwaitingAck
    }

    /// Any message from the worker makes the link ready, and it stays so.
    pub fn on_message(self) -> (r: Self)
        ensures
            r == Link::Ready,
    {
        Link::Ready
    }

    /// Whether requests may be sent.
    pub fn is_ready(&self) -> (r: bool)
        ensures
            r == (*self == Link::Ready),
    {
        match self {
            Link::Ready => true,
            Link::AwaitingAck => false,
        }
    }
}

} // verus!
