use vstd::prelude::*;
use vstd::string::StringExecFns;
use crate::literal::{nat_text, nat_to_string};
use crate::value::{JsValue, JsView};

verus! {

/// Why a wire value was not read.
#[derive(Debug, Clone, Copy, PartialEq, Eq, Structural)]
pub enum DecodeError {
    /// The value has the shape of no variant that was asked for.
    Shape,
    /// A callback descriptor names `found` parameters where `needed` are
    /// declared.
    Arity { found: usize, needed: usize },
}

/// What an error says.
pub open spec fn decode_message(e: DecodeError) -> Seq<char> {
    match e {
        DecodeError::Shape => "The value has the shape of nothing that was asked for."@,
        DecodeError::Arity { found, needed } => "Array had length "@ + nat_text(found as nat)
            + ", needed "@ + nat_text(needed as nat) + "."@,
    }
}

impl DecodeError {
    /// What the error says, for a log or a reader.
    pub fn message(&self) -> (r: String)
        ensures
            r@ == decode_message(*self),
    {
        match self {
            DecodeError::Shape => String::from_str(
                "The value has the shape of nothing that was asked for.",
            ),
            DecodeError::Arity { found, needed } => {
                let mut out = String::from_str("Array had length ");
                out.append(nat_to_string(*found as u64).as_str());
                out.append(", needed ");
                out.append(nat_to_string(*needed as u64).as_str());
                out.append(".");
                out
            },
        }
    }
}

/// A value that can be written to the wire.
pub trait Serialize {
    /// The wire value that stands for `self`.
    spec fn wire(&self) -> JsView;

    fn serialize(&self) -> (r: JsValue)
        ensures
            r@ == self.wire(),
    ;
}

/// A value that can be read from the wire.
pub trait Deserialize: Sized {
    /// Whether a wire value reads as a value of this kind.
    spec fn readable(v: JsView) -> bool;

    /// Whether `self` is what a wire value reads as.
    spec fn reads(&self, v: JsView) -> bool;

    fn deserialize(v: &JsValue) -> (r: Result<Self, DecodeError>)
        ensures
            match r {
                Ok(x) => Self::readable(v@) && x.reads(v@),
                Err(_) => !Self::readable(v@),
            },
    ;
}

/// A value of a configuration field that may be left out of the wire
/// form.
pub trait ChartJsRsObject {
    spec fn empty(&self) -> bool;

    /// Whether the field holds nothing worth sending.
    fn is_empty(&self) -> (r: bool)
        ensures
            r == self.empty(),
    ;
}

impl Serialize for String {
    open spec fn wire(&self) -> JsView {
        JsView::Str(self@)
    }

    fn serialize(&self) -> (r: JsValue)
        ensures
            r@ == self.wire(),
    {
        JsValue::Str(self.clone())
    }
}

impl Deserialize for String {
    open spec fn readable(v: JsView) -> bool {
        v is Str
    }

    open spec fn reads(&self, v: JsView) -> bool {
        v == JsView::Str(self@)
    }

    fn deserialize(v: &JsValue) -> (r: Result<Self, DecodeError>)
        ensures
            match r {
                Ok(x) => Self::readable(v@) && x.reads(v@),
                Err(e) => !Self::readable(v@) && e == DecodeError::Shape,
            },
    {
        match v {
            JsValue::Str(s) => Ok(s.clone()),
            _ => Err(DecodeError::Shape),
        }
    }
}

impl ChartJsRsObject for String {
    open spec fn empty(&self) -> bool {
        self@.len() == 0
    }

    fn is_empty(&self) -> (r: bool)
        ensures
            r == self.empty(),
    {
        self.as_str().is_empty()
    }
}

impl Serialize for bool {
    open spec fn wire(&self) -> JsView {
        JsView::Bool(*self)
    }

    fn serialize(&self) -> (r: JsValue)
        ensures
            r@ == self.wire(),
    {
        JsValue::Bool(*self)
    }
}

impl Deserialize for bool {
    open spec fn readable(v: JsView) -> bool {
        v is Bool
    }

    open spec fn reads(&self, v: JsView) -> bool {
        v == JsView::Bool(*self)
    }

    fn deserialize(v: &JsValue) -> (r: Result<Self, DecodeError>)
        ensures
            match r {
                Ok(x) => Self::readable(v@) && x.reads(v@),
                Err(e) => !Self::readable(v@) && e == DecodeError::Shape,
            },
    {
        match v {
            JsValue::Bool(b) => Ok(*b),
            _ => Err(DecodeError::Shape),
        }
    }
}

} // verus!
