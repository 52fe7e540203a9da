use vstd::prelude::*;
use crate::decode::{
    defaulted_readable, defaulted_reads, optional_readable, optional_reads, read_defaulted,
    read_optional,
};
use crate::entries::{finish, option_entry, put_option, put_scalar, scalar_entry};
use crate::scalar::NumberString;
use crate::value::{members_view, JsValue, JsView};
use crate::wire::{DecodeError, Deserialize, Serialize};

verus! {

/// A font.
#[derive(Debug, Clone, PartialEq, Eq)]
pub struct Font {
    pub family: String,
    pub lineHeight: NumberString,
    pub size: NumberString,
    pub style: NumberString,
    pub weight: NumberString,
}

impl Font {
    /// Whether every field is as `new` leaves it: nothing is set.
    pub open spec fn is_new(&self) -> bool {
        &&& self.family@.len() == 0
        &&& self.lineHeight@.len() == 0
        &&& self.size@.len() == 0
        &&& self.style@.len() == 0
        &&& self.weight@.len() == 0
    }

    /// The wire form: an object with one member for each field that is
    /// set, in the order of the fields.
    pub open spec fn wire_form(&self) -> JsView {
        JsView::Object(
            Seq::empty()
                + scalar_entry("family"@, self.family)
                + scalar_entry("lineHeight"@, self.lineHeight)
                + scalar_entry("size"@, self.size)
                + scalar_entry("style"@, self.style)
                + scalar_entry("weight"@, self.weight)
        )
    }

    /// The value with nothing set.
    pub fn new() -> (r: Self)
        ensures
            r.is_new(),
    {
        Font {
            family: String::new(),
            lineHeight: NumberString::default(),
            size: NumberString::default(),
            style: NumberString::default(),
            weight: NumberString::default(),
        }
    }

    /// The field `family`, to read or to change in place.
    pub fn get_family(&mut self) -> (r: &mut String)
        ensures
            *r == old(self).family,
            *final(self) == (Font { family: *final(r), ..*old(self) }),
    {
        &mut self.family
    }

    /// Sets `family`.
    pub fn family<V: Into<String>>(self, value: V) -> (r: Font)
        ensures
            call_ensures(<V as Into<String>>::into, (value,), r.family),
            r == (Font { family: r.family, ..self }),
    {
        let mut s = self;
        s.family = value.into();
        s
    }

    /// The field `lineHeight`, to read or to change in place.
    pub fn get_line_height(&mut self) -> (r: &mut NumberString)
        ensures
            *r == old(self).lineHeight,
            *final(self) == (Font { lineHeight: *final(r), ..*old(self) }),
    {
        &mut self.lineHeight
    }

    /// Sets `lineHeight`.
    pub fn line_height<V: Into<NumberString>>(self, value: V) -> (r: Font)
        ensures
            call_ensures(<V as Into<NumberString>>::into, (value,), r.lineHeight),
            r == (Font { lineHeight: r.lineHeight, ..self }),
    {
        let mut s = self;
        s.lineHeight = value.into();
        s
    }

    /// The field `size`, to read or to change in place.
    pub fn get_size(&mut self) -> (r: &mut NumberString)
        ensures
            *r == old(self).size,
            *final(self) == (Font { size: *final(r), ..*old(self) }),
    {
        &mut self.size
    }

    /// Sets `size`.
    pub fn size<V: Into<NumberString>>(self, value: V) -> (r: Font)
        ensures
            call_ensures(<V as Into<NumberString>>::into, (value,), r.size),
            r == (Font { size: r.size, ..self }),
    {
        let mut s = self;
        s.size = value.into();
        s
    }

    /// The field `style`, to read or to change in place.
    pub fn get_style(&mut self) -> (r: &mut NumberString)
        ensures
            *r == old(self).style,
            *final(self) == (Font { style: *final(r), ..*old(self) }),
    {
        &mut self.style
    }

    /// Sets `style`.
    pub fn style<V: Into<NumberString>>(self, value: V) -> (r: Font)
        ensures
            call_ensures(<V as Into<NumberString>>::into, (value,), r.style),
            r == (Font { style: r.style, ..self }),
    {
        let mut s = self;
        s.style = value.into();
        s
    }

    /// The field `weight`, to read or to change in place.
    pub fn get_weight(&mut self) -> (r: &mut NumberString)
        ensures
            *r == old(self).weight,
            *final(self) == (Font { weight: *final(r), ..*old(self) }),
    {
        &mut self.weight
    }

    /// Sets `weight`.
    pub fn weight<V: Into<NumberString>>(self, value: V) -> (r: Font)
        ensures
            call_ensures(<V as Into<NumberString>>::into, (value,), r.weight),
            r == (Font { weight: r.weight, ..self }),
    {
        let mut s = self;
        s.weight = value.into();
        s
    }

    /// Whether a wire value reads as a value of this kind: an object whose
    /// members, where they are there, read as the fields.
    pub open spec fn readable_form(v: JsView) -> bool {
        &&& v is Object
        &&& defaulted_readable::<String>(v, "family"@)
        &&& defaulted_readable::<NumberString>(v, "lineHeight"@)
        &&& defaulted_readable::<NumberString>(v, "size"@)
        &&& defaulted_readable::<NumberString>(v, "style"@)
        &&& defaulted_readable::<NumberString>(v, "weight"@)
    }

    /// Whether this value is what a wire value reads as: each field is what
    /// its member reads as, or its default where the member is missing or
    /// the field is never read.
    pub open spec fn reads_form(&self, v: JsView) -> bool {
        &&& defaulted_reads(self.family, v, "family"@)
        &&& defaulted_reads(self.lineHeight, v, "lineHeight"@)
        &&& defaulted_reads(self.size, v, "size"@)
        &&& defaulted_reads(self.style, v, "style"@)
        &&& defaulted_reads(self.weight, v, "weight"@)
    }

    /// Reads the value off the wire.
    pub fn from_value(v: &JsValue) -> (r: Result<Self, DecodeError>)
        ensures
            match r {
                Ok(x) => Self::readable_form(v@) && x.reads_form(v@),
                Err(_) => !Self::readable_form(v@),
            },
    {
        match v {
            JsValue::Object(_) => {},
            _ => {
                return Err(DecodeError::Shape);
            },
        }
        let family = match read_defaulted::<String>(v, "family") {
            Ok(x) => x,
            Err(e) => {
                return Err(e);
            },
        };
        let lineHeight = match read_defaulted::<NumberString>(v, "lineHeight") {
            Ok(x) => x,
            Err(e) => {
                return Err(e);
            },
        };
        let size = match read_defaulted::<NumberString>(v, "size") {
            Ok(x) => x,
            Err(e) => {
                return Err(e);
            },
        };
        let style = match read_defaulted::<NumberString>(v, "style") {
            Ok(x) => x,
            Err(e) => {
                return Err(e);
            },
        };
        let weight = match read_defaulted::<NumberString>(v, "weight") {
            Ok(x) => x,
            Err(e) => {
                return Err(e);
            },
        };
        Ok(Font { family, lineHeight, size, style, weight })
    }

    /// Writes the value to the wire.
    pub fn to_value(&self) -> (r: JsValue)
        ensures
            r@ == self.wire_form(),
    {
        let mut members: Vec<(String, JsValue)> = Vec::new();
        assert(members_view(members@) =~= Seq::empty());
        put_scalar(&mut members, "family", &self.family);
        put_scalar(&mut members, "lineHeight", &self.lineHeight);
        put_scalar(&mut members, "size", &self.size);
        put_scalar(&mut members, "style", &self.style);
        put_scalar(&mut members, "weight", &self.weight);
        finish(members)
    }
}

impl Default for Font {
    fn default() -> (r: Self)
        ensures
            r.is_new(),
    {
        Font::new()
    }
}

impl Serialize for Font {
    open spec fn wire(&self) -> JsView {
        self.wire_form()
    }

    fn serialize(&self) -> (r: JsValue)
        ensures
            r@ == self.wire(),
    {
        self.to_value()
    }
}

impl Deserialize for Font {
    open spec fn readable(v: JsView) -> bool {
        Self::readable_form(v)
    }

    open spec fn reads(&self, v: JsView) -> bool {
        self.reads_form(v)
    }

    fn deserialize(v: &JsValue) -> (r: Result<Self, DecodeError>)
        ensures
            match r {
                Ok(x) => Self::readable(v@) && x.reads(v@),
                Err(_) => !Self::readable(v@),
            },
    {
        Font::from_value(v)
    }
}

/// The padding on each side.
#[derive(Debug, Clone, PartialEq, Eq)]
pub struct Padding {
    pub bottom: NumberString,
    pub left: NumberString,
    pub right: NumberString,
    pub top: NumberString,
}

impl Padding {
    /// Whether every field is as `new` leaves it: nothing is set.
    pub open spec fn is_new(&self) -> bool {
        &&& self.bottom@.len() == 0
        &&& self.left@.len() == 0
        &&& self.right@.len() == 0
        &&& self.top@.len() == 0
    }

    /// The wire form: an object with one member for each field that is
    /// set, in the order of the fields.
    pub open spec fn wire_form(&self) -> JsView {
        JsView::Object(
            Seq::empty()
                + scalar_entry("bottom"@, self.bottom)
                + scalar_entry("left"@, self.left)
                + scalar_entry("right"@, self.right)
                + scalar_entry("top"@, self.top)
        )
    }

    /// The value with nothing set.
    pub fn new() -> (r: Self)
        ensures
            r.is_new(),
    {
        Padding {
            bottom: NumberString::default(),
            left: NumberString::default(),
            right: NumberString::default(),
            top: NumberString::default(),
        }
    }

    /// The field `bottom`, to read or to change in place.
    pub fn get_bottom(&mut self) -> (r: &mut NumberString)
        ensures
            *r == old(self).bottom,
            *final(self) == (Padding { bottom: *final(r), ..*old(self) }),
    {
        &mut self.bottom
    }

    /// Sets `bottom`.
    pub fn bottom<V: Into<NumberString>>(self, value: V) -> (r: Padding)
        ensures
            call_ensures(<V as Into<NumberString>>::into, (value,), r.bottom),
            r == (Padding { bottom: r.bottom, ..self }),
    {
        let mut s = self;
        s.bottom = value.into();
        s
    }

    /// The field `left`, to read or to change in place.
    pub fn get_left(&mut self) -> (r: &mut NumberString)
        ensures
            *r == old(self).left,
            *final(self) == (Padding { left: *final(r), ..*old(self) }),
    {
        &mut self.left
    }

    /// Sets `left`.
    pub fn left<V: Into<NumberString>>(self, value: V) -> (r: Padding)
        ensures
            call_ensures(<V as Into<NumberString>>::into, (value,), r.left),
            r == (Padding { left: r.left, ..self }),
    {
        let mut s = self;
        s.left = value.into();
        s
    }

    /// The field `right`, to read or to change in place.
    pub fn get_right(&mut self) -> (r: &mut NumberString)
        ensures
            *r == old(self).right,
            *final(self) == (Padding { right: *final(r), ..*old(self) }),
    {
        &mut self.right
    }

    /// Sets `right`.
    pub fn right<V: Into<NumberString>>(self, value: V) -> (r: Padding)
        ensures
            call_ensures(<V as Into<NumberString>>::into, (value,), r.right),
            r == (Padding { right: r.right, ..self }),
    {
        let mut s = self;
        s.right = value.into();
        s
    }

    /// The field `top`, to read or to change in place.
    pub fn get_top(&mut self) -> (r: &mut NumberString)
        ensures
            *r == old(self).top,
            *final(self) == (Padding { top: *final(r), ..*old(self) }),
    {
        &mut self.top
    }

    /// Sets `top`.
    pub fn top<V: Into<NumberString>>(self, value: V) -> (r: Padding)
        ensures
            call_ensures(<V as Into<NumberString>>::into, (value,), r.top),
            r == (Padding { top: r.top, ..self }),
    {
        let mut s = self;
        s.top = value.into();
        s
    }

    /// Whether a wire value reads as a value of this kind: an object whose
    /// members, where they are there, read as the fields.
    pub open spec fn readable_form(v: JsView) -> bool {
        &&& v is Object
        &&& defaulted_readable::<NumberString>(v, "bottom"@)
        &&& defaulted_readable::<NumberString>(v, "left"@)
        &&& defaulted_readable::<NumberString>(v, "right"@)
        &&& defaulted_readable::<NumberString>(v, "top"@)
    }

    /// Whether this value is what a wire value reads as: each field is what
    /// its member reads as, or its default where the member is missing or
    /// the field is never read.
    pub open spec fn reads_form(&self, v: JsView) -> bool {
        &&& defaulted_reads(self.bottom, v, "bottom"@)
        &&& defaulted_reads(self.left, v, "left"@)
        &&& defaulted_reads(self.right, v, "right"@)
        &&& defaulted_reads(self.top, v, "top"@)
    }

    /// Reads the value off the wire.
    pub fn from_value(v: &JsValue) -> (r: Result<Self, DecodeError>)
        ensures
            match r {
                Ok(x) => Self::readable_form(v@) && x.reads_form(v@),
                Err(_) => !Self::readable_form(v@),
            },
    {
        match v {
            JsValue::Object(_) => {},
            _ => {
                return Err(DecodeError::Shape);
            },
        }
        let bottom = match read_defaulted::<NumberString>(v, "bottom") {
            Ok(x) => x,
            Err(e) => {
                return Err(e);
            },
        };
        let left = match read_defaulted::<NumberString>(v, "left") {
            Ok(x) => x,
            Err(e) => {
                return Err(e);
            },
        };
        let right = match read_defaulted::<NumberString>(v, "right") {
            Ok(x) => x,
            Err(e) => {
                return Err(e);
            },
        };
        let top = match read_defaulted::<NumberString>(v, "top") {
            Ok(x) => x,
            Err(e) => {
                return Err(e);
            },
        };
        Ok(Padding { bottom, left, right, top })
    }

    /// Writes the value to the wire.
    pub fn to_value(&self) -> (r: JsValue)
        ensures
            r@ == self.wire_form(),
    {
        let mut members: Vec<(String, JsValue)> = Vec::new();
        assert(members_view(members@) =~= Seq::empty());
        put_scalar(&mut members, "bottom", &self.bottom);
        put_scalar(&mut members, "left", &self.left);
        put_scalar(&mut members, "right", &self.right);
        put_scalar(&mut members, "top", &self.top);
        finish(members)
    }
}

impl Default for Padding {
    fn default() -> (r: Self)
        ensures
            r.is_new(),
    {
        Padding::new()
    }
}

impl Serialize for Padding {
    open spec fn wire(&self) -> JsView {
        self.wire_form()
    }

    fn serialize(&self) -> (r: JsValue)
        ensures
            r@ == self.wire(),
    {
        self.to_value()
    }
}

impl Deserialize for Padding {
    open spec fn readable(v: JsView) -> bool {
        Self::readable_form(v)
    }

    open spec fn reads(&self, v: JsView) -> bool {
        self.reads_form(v)
    }

    fn deserialize(v: &JsValue) -> (r: Result<Self, DecodeError>)
        ensures
            match r {
                Ok(x) => Self::readable(v@) && x.reads(v@),
                Err(_) => !Self::readable(v@),
            },
    {
        Padding::from_value(v)
    }
}

/// The width of a border on each side.
#[derive(Debug, Clone, PartialEq, Eq)]
pub struct Border {
    pub bottom: NumberString,
    pub left: NumberString,
    pub right: NumberString,
    pub top: NumberString,
}

impl Border {
    /// Whether every field is as `new` leaves it: nothing is set.
    pub open spec fn is_new(&self) -> bool {
        &&& self.bottom@.len() == 0
        &&& self.left@.len() == 0
        &&& self.right@.len() == 0
        &&& self.top@.len() == 0
    }

    /// The wire form: an object with one member for each field that is
    /// set, in the order of the fields.
    pub open spec fn wire_form(&self) -> JsView {
        JsView::Object(
            Seq::empty()
                + scalar_entry("bottom"@, self.bottom)
                + scalar_entry("left"@, self.left)
                + scalar_entry("right"@, self.right)
                + scalar_entry("top"@, self.top)
        )
    }

    /// The value with nothing set.
    pub fn new() -> (r: Self)
        ensures
            r.is_new(),
    {
        Border {
            bottom: NumberString::default(),
            left: NumberString::default(),
            right: NumberString::default(),
            top: NumberString::default(),
        }
    }

    /// The field `bottom`, to read or to change in place.
    pub fn get_bottom(&mut self) -> (r: &mut NumberString)
        ensures
            *r == old(self).bottom,
            *final(self) == (Border { bottom: *final(r), ..*old(self) }),
    {
        &mut self.bottom
    }

    /// Sets `bottom`.
    pub fn bottom<V: Into<NumberString>>(self, value: V) -> (r: Border)
        ensures
            call_ensures(<V as Into<NumberString>>::into, (value,), r.bottom),
            r == (Border { bottom: r.bottom, ..self }),
    {
        let mut s = self;
        s.bottom = value.into();
        s
    }

    /// The field `left`, to read or to change in place.
    pub fn get_left(&mut self) -> (r: &mut NumberString)
        ensures
            *r == old(self).left,
            *final(self) == (Border { left: *final(r), ..*old(self) }),
    {
        &mut self.left
    }

    /// Sets `left`.
    pub fn left<V: Into<NumberString>>(self, value: V) -> (r: Border)
        ensures
            call_ensures(<V as Into<NumberString>>::into, (value,), r.left),
            r == (Border { left: r.left, ..self }),
    {
        let mut s = self;
        s.left = value.into();
        s
    }

    /// The field `right`, to read or to change in place.
    pub fn get_right(&mut self) -> (r: &mut NumberString)
        ensures
            *r == old(self).right,
            *final(self) == (Border { right: *final(r), ..*old(self) }),
    {
        &mut self.right
    }

    /// Sets `right`.
    pub fn right<V: Into<NumberString>>(self, value: V) -> (r: Border)
        ensures
            call_ensures(<V as Into<NumberString>>::into, (value,), r.right),
            r == (Border { right: r.right, ..self }),
    {
        let mut s = self;
        s.right = value.into();
        s
    }

    /// The field `top`, to read or to change in place.
    pub fn get_top(&mut self) -> (r: &mut NumberString)
        ensures
            *r == old(self).top,
            *final(self) == (Border { top: *final(r), ..*old(self) }),
    {
        &mut self.top
    }

    /// Sets `top`.
    pub fn top<V: Into<NumberString>>(self, value: V) -> (r: Border)
        ensures
            call_ensures(<V as Into<NumberString>>::into, (value,), r.top),
            r == (Border { top: r.top, ..self }),
    {
        let mut s = self;
        s.top = value.into();
        s
    }

    /// Whether a wire value reads as a value of this kind: an object whose
    /// members, where they are there, read as the fields.
    pub open spec fn readable_form(v: JsView) -> bool {
        &&& v is Object
        &&& defaulted_readable::<NumberString>(v, "bottom"@)
        &&& defaulted_readable::<NumberString>(v, "left"@)
        &&& defaulted_readable::<NumberString>(v, "right"@)
        &&& defaulted_readable::<NumberString>(v, "top"@)
    }

    /// Whether this value is what a wire value reads as: each field is what
    /// its member reads as, or its default where the member is missing or
    /// the field is never read.
    pub open spec fn reads_form(&self, v: JsView) -> bool {
        &&& defaulted_reads(self.bottom, v, "bottom"@)
        &&& defaulted_reads(self.left, v, "left"@)
        &&& defaulted_reads(self.right, v, "right"@)
        &&& defaulted_reads(self.top, v, "top"@)
    }

    /// Reads the value off the wire.
    pub fn from_value(v: &JsValue) -> (r: Result<Self, DecodeError>)
        ensures
            match r {
                Ok(x) => Self::readable_form(v@) && x.reads_form(v@),
                Err(_) => !Self::readable_form(v@),
            },
    {
        match v {
            JsValue::Object(_) => {},
            _ => {
                return Err(DecodeError::Shape);
            },
        }
        let bottom = match read_defaulted::<NumberString>(v, "bottom") {
            Ok(x) => x,
            Err(e) => {
                return Err(e);
            },
        };
        let left = match read_defaulted::<NumberString>(v, "left") {
            Ok(x) => x,
            Err(e) => {
                return Err(e);
            },
        };
        let right = match read_defaulted::<NumberString>(v, "right") {
            Ok(x) => x,
            Err(e) => {
                return Err(e);
            },
        };
        let top = match read_defaulted::<NumberString>(v, "top") {
            Ok(x) => x,
            Err(e) => {
                return Err(e);
            },
        };
        Ok(Border { bottom, left, right, top })
    }

    /// Writes the value to the wire.
    pub fn to_value(&self) -> (r: JsValue)
        ensures
            r@ == self.wire_form(),
    {
        let mut members: Vec<(String, JsValue)> = Vec::new();
        assert(members_view(members@) =~= Seq::empty());
        put_scalar(&mut members, "bottom", &self.bottom);
        put_scalar(&mut members, "left", &self.left);
        put_scalar(&mut members, "right", &self.right);
        put_scalar(&mut members, "top", &self.top);
        finish(members)
    }
}

impl Default for Border {
    fn default() -> (r: Self)
        ensures
            r.is_new(),
    {
        Border::new()
    }
}

impl Serialize for Border {
    open spec fn wire(&self) -> JsView {
        self.wire_form()
    }

    fn serialize(&self) -> (r: JsValue)
        ensures
            r@ == self.wire(),
    {
        self.to_value()
    }
}

impl Deserialize for Border {
    open spec fn readable(v: JsView) -> bool {
        Self::readable_form(v)
    }

    open spec fn reads(&self, v: JsView) -> bool {
        self.reads_form(v)
    }

    fn deserialize(v: &JsValue) -> (r: Result<Self, DecodeError>)
        ensures
            match r {
                Ok(x) => Self::readable(v@) && x.reads(v@),
                Err(_) => !Self::readable(v@),
            },
    {
        Border::from_value(v)
    }
}

/// A title.
#[derive(Debug, Clone, PartialEq, Eq)]
pub struct Title {
    pub display: Option<bool>,
    pub font: Option<Font>,
    pub text: String,
}

impl Title {
    /// Whether every field is as `new` leaves it: nothing is set.
    pub open spec fn is_new(&self) -> bool {
        &&& self.display is None
        &&& self.font is None
        &&& self.text@.len() == 0
    }

    /// The wire form: an object with one member for each field that is
    /// set, in the order of the fields.
    pub open spec fn wire_form(&self) -> JsView {
        JsView::Object(
            Seq::empty()
                + option_entry("display"@, self.display)
                + option_entry("font"@, self.font)
                + scalar_entry("text"@, self.text)
        )
    }

    /// The value with nothing set.
    pub fn new() -> (r: Self)
        ensures
            r.is_new(),
    {
        Title {
            display: None,
            font: None,
            text: String::new(),
        }
    }

    /// The field `display`, to read or to change in place.
    pub fn get_display(&mut self) -> (r: &mut Option<bool>)
        ensures
            *r == old(self).display,
            *final(self) == (Title { display: *final(r), ..*old(self) }),
    {
        &mut self.display
    }

    /// Sets `display`.
    pub fn display<V: Into<bool>>(self, value: V) -> (r: Title)
        ensures
            r.display matches Some(x) && call_ensures(<V as Into<bool>>::into, (value,), x),
            r == (Title { display: r.display, ..self }),
    {
        let mut s = self;
        s.display = Some(value.into());
        s
    }

    /// The field `font`, to read or to change in place.
    pub fn get_font(&mut self) -> (r: &mut Option<Font>)
        ensures
            *r == old(self).font,
            *final(self) == (Title { font: *final(r), ..*old(self) }),
    {
        &mut self.font
    }

    /// Sets `font`.
    pub fn font<V: Into<Font>>(self, value: V) -> (r: Title)
        ensures
            r.font matches Some(x) && call_ensures(<V as Into<Font>>::into, (value,), x),
            r == (Title { font: r.font, ..self }),
    {
        let mut s = self;
        s.font = Some(value.into());
        s
    }

    /// The field `text`, to read or to change in place.
    pub fn get_text(&mut self) -> (r: &mut String)
        ensures
            *r == old(self).text,
            *final(self) == (Title { text: *final(r), ..*old(self) }),
    {
        &mut self.text
    }

    /// Sets `text`.
    pub fn text<V: Into<String>>(self, value: V) -> (r: Title)
        ensures
            call_ensures(<V as Into<String>>::into, (value,), r.text),
            r == (Title { text: r.text, ..self }),
    {
        let mut s = self;
        s.text = value.into();
        s
    }

    /// Whether a wire value reads as a value of this kind: an object whose
    /// members, where they are there, read as the fields.
    pub open spec fn readable_form(v: JsView) -> bool {
        &&& v is Object
        &&& optional_readable::<bool>(v, "display"@)
        &&& optional_readable::<Font>(v, "font"@)
        &&& defaulted_readable::<String>(v, "text"@)
    }

    /// Whether this value is what a wire value reads as: each field is what
    /// its member reads as, or its default where the member is missing or
    /// the field is never read.
    pub open spec fn reads_form(&self, v: JsView) -> bool {
        &&& optional_reads(self.display, v, "display"@)
        &&& optional_reads(self.font, v, "font"@)
        &&& defaulted_reads(self.text, v, "text"@)
    }

    /// Reads the value off the wire.
    pub fn from_value(v: &JsValue) -> (r: Result<Self, DecodeError>)
        ensures
            match r {
                Ok(x) => Self::readable_form(v@) && x.reads_form(v@),
                Err(_) => !Self::readable_form(v@),
            },
    {
        match v {
            JsValue::Object(_) => {},
            _ => {
                return Err(DecodeError::Shape);
            },
        }
        let display = match read_optional::<bool>(v, "display") {
            Ok(x) => x,
            Err(e) => {
                return Err(e);
            },
        };
        let font = match read_optional::<Font>(v, "font") {
            Ok(x) => x,
            Err(e) => {
                return Err(e);
            },
        };
        let text = match read_defaulted::<String>(v, "text") {
            Ok(x) => x,
            Err(e) => {
                return Err(e);
            },
        };
        Ok(Title { display, font, text })
    }

    /// Writes the value to the wire.
    pub fn to_value(&self) -> (r: JsValue)
        ensures
            r@ == self.wire_form(),
    {
        let mut members: Vec<(String, JsValue)> = Vec::new();
        assert(members_view(members@) =~= Seq::empty());
        put_option(&mut members, "display", &self.display);
        put_option(&mut members, "font", &self.font);
        put_scalar(&mut members, "text", &self.text);
        finish(members)
    }
}

impl Default for Title {
    fn default() -> (r: Self)
        ensures
            r.is_new(),
    {
        Title::new()
    }
}

impl Serialize for Title {
    open spec fn wire(&self) -> JsView {
        self.wire_form()
    }

    fn serialize(&self) -> (r: JsValue)
        ensures
            r@ == self.wire(),
    {
        self.to_value()
    }
}

impl Deserialize for Title {
    open spec fn readable(v: JsView) -> bool {
        Self::readable_form(v)
    }

    open spec fn reads(&self, v: JsView) -> bool {
        self.reads_form(v)
    }

    fn deserialize(v: &JsValue) -> (r: Result<Self, DecodeError>)
        ensures
            match r {
                Ok(x) => Self::readable(v@) && x.reads(v@),
                Err(_) => !Self::readable(v@),
            },
    {
        Title::from_value(v)
    }
}

/// How long the chart takes to draw itself.
#[derive(Debug, Clone, PartialEq, Eq)]
pub struct Animation {
    pub duration: NumberString,
}

impl Animation {
    /// Whether every field is as `new` leaves it: nothing is set.
    pub open spec fn is_new(&self) -> bool {
        &&& self.duration@.len() == 0
    }

    /// The wire form: an object with one member for each field that is
    /// set, in the order of the fields.
    pub open spec fn wire_form(&self) -> JsView {
        JsView::Object(
            Seq::empty()
                + scalar_entry("duration"@, self.duration)
        )
    }

    /// The value with nothing set.
    pub fn new() -> (r: Self)
        ensures
            r.is_new(),
    {
        Animation {
            duration: NumberString::default(),
        }
    }

    /// The field `duration`, to read or to change in place.
    pub fn get_duration(&mut self) -> (r: &mut NumberString)
        ensures
            *r == old(self).duration,
            *final(self) == (Animation { duration: *final(r), ..*old(self) }),
    {
        &mut self.duration
    }

    /// Sets `duration`.
    pub fn duration<V: Into<NumberString>>(self, value: V) -> (r: Animation)
        ensures
            call_ensures(<V as Into<NumberString>>::into, (value,), r.duration),
            r == (Animation { duration: r.duration, ..self }),
    {
        let mut s = self;
        s.duration = value.into();
        s
    }

    /// Whether a wire value reads as a value of this kind: an object whose
    /// members, where they are there, read as the fields.
    pub open spec fn readable_form(v: JsView) -> bool {
        &&& v is Object
        &&& defaulted_readable::<NumberString>(v, "duration"@)
    }

    /// Whether this value is what a wire value reads as: each field is what
    /// its member reads as, or its default where the member is missing or
    /// the field is never read.
    pub open spec fn reads_form(&self, v: JsView) -> bool {
        &&& defaulted_reads(self.duration, v, "duration"@)
    }

    /// Reads the value off the wire.
    pub fn from_value(v: &JsValue) -> (r: Result<Self, DecodeError>)
        ensures
            match r {
                Ok(x) => Self::readable_form(v@) && x.reads_form(v@),
                Err(_) => !Self::readable_form(v@),
            },
    {
        match v {
            JsValue::Object(_) => {},
            _ => {
                return Err(DecodeError::Shape);
            },
        }
        let duration = match read_defaulted::<NumberString>(v, "duration") {
            Ok(x) => x,
            Err(e) => {
                return Err(e);
            },
        };
        Ok(Animation { duration })
    }

    /// Writes the value to the wire.
    pub fn to_value(&self) -> (r: JsValue)
        ensures
            r@ == self.wire_form(),
    {
        let mut members: Vec<(String, JsValue)> = Vec::new();
        assert(members_view(members@) =~= Seq::empty());
        put_scalar(&mut members, "duration", &self.duration);
        finish(members)
    }
}

impl Default for Animation {
    fn default() -> (r: Self)
        ensures
            r.is_new(),
    {
        Animation::new()
    }
}

impl Serialize for Animation {
    open spec fn wire(&self) -> JsView {
        self.wire_form()
    }

    fn serialize(&self) -> (r: JsValue)
        ensures
            r@ == self.wire(),
    {
        self.to_value()
    }
}

impl Deserialize for Animation {
    open spec fn readable(v: JsView) -> bool {
        Self::readable_form(v)
    }

    open spec fn reads(&self, v: JsView) -> bool {
        self.reads_form(v)
    }

    fn deserialize(v: &JsValue) -> (r: Result<Self, DecodeError>)
        ensures
            match r {
                Ok(x) => Self::readable(v@) && x.reads(v@),
                Err(_) => !Self::readable(v@),
            },
    {
        Animation::from_value(v)
    }
}
} // verus!
