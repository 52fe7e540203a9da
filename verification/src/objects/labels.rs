use vstd::prelude::*;
use crate::callback::{fresh, FnWithArgs, FnWithArgsOrT};
use crate::decode::{
    defaulted_readable, defaulted_reads, optional_readable, optional_reads, read_defaulted,
    read_optional, read_skipped, skipped_reads,
};
use crate::entries::{
    always_entry, finish, option_entry, put_always, put_option, put_scalar, scalar_entry,
};
use crate::objects::style::{Font, Padding};
use crate::scalar::{bool_text, BoolString, NumberString};
use crate::value::{members_view, JsValue, JsView};
use crate::wire::{DecodeError, Deserialize, Serialize};

verus! {

/// The labels that are written beside the points of a dataset.
#[derive(Debug, Clone, PartialEq, Eq)]
pub struct DataLabels {
    pub align: FnWithArgsOrT<1, String>,
    pub anchor: FnWithArgsOrT<1, String>,
    pub backgroundColor: FnWithArgsOrT<1, String>,
    pub borderRadius: NumberString,
    pub clamp: Option<bool>,
    pub clip: Option<bool>,
    pub color: String,
    pub display: BoolString,
    pub drawTime: NumberString,
    pub font: Option<Font>,
    pub formatter: FnWithArgs<2>,
    pub offset: FnWithArgsOrT<1, NumberString>,
    pub opacity: NumberString,
    pub padding: Option<Padding>,
    pub z: NumberString,
}

impl DataLabels {
    /// Whether every field is as `new` leaves it: nothing is set.
    pub open spec fn is_new(&self) -> bool {
        &&& (self.align matches FnWithArgsOrT::T(t) && t@.len() == 0)
        &&& (self.anchor matches FnWithArgsOrT::T(t) && t@.len() == 0)
        &&& (self.backgroundColor matches FnWithArgsOrT::T(t) && t@.len() == 0)
        &&& self.borderRadius@.len() == 0
        &&& self.clamp is None
        &&& self.clip is None
        &&& self.color@.len() == 0
        &&& self.display@ == bool_text(false)
        &&& self.drawTime@.len() == 0
        &&& self.font is None
        &&& self.formatter@ == fresh(2)
        &&& (self.offset matches FnWithArgsOrT::T(t) && t@.len() == 0)
        &&& self.opacity@.len() == 0
        &&& self.padding is None
        &&& self.z@.len() == 0
    }

    /// The wire form: an object with one member for each field that is
    /// set, in the order of the fields.
    pub open spec fn wire_form(&self) -> JsView {
        JsView::Object(
            Seq::empty()
                + scalar_entry("align"@, self.align)
                + scalar_entry("anchor"@, self.anchor)
                + scalar_entry("backgroundColor"@, self.backgroundColor)
                + scalar_entry("borderRadius"@, self.borderRadius)
                + option_entry("clamp"@, self.clamp)
                + option_entry("clip"@, self.clip)
                + scalar_entry("color"@, self.color)
                + always_entry("display"@, self.display)
                + scalar_entry("drawTime"@, self.drawTime)
                + option_entry("font"@, self.font)
                + scalar_entry("formatter"@, self.formatter)
                + scalar_entry("offset"@, self.offset)
                + scalar_entry("opacity"@, self.opacity)
                + option_entry("padding"@, self.padding)
                + scalar_entry("z"@, self.z)
        )
    }

    /// The value with nothing set.
    pub fn new() -> (r: Self)
        ensures
            r.is_new(),
    {
        DataLabels {
            align: FnWithArgsOrT::T(String::new()),
            anchor: FnWithArgsOrT::T(String::new()),
            backgroundColor: FnWithArgsOrT::T(String::new()),
            borderRadius: NumberString::default(),
            clamp: None,
            clip: None,
            color: String::new(),
            display: BoolString::_false(),
            drawTime: NumberString::default(),
            font: None,
            formatter: FnWithArgs::new(),
            offset: FnWithArgsOrT::T(NumberString::default()),
            opacity: NumberString::default(),
            padding: None,
            z: NumberString::default(),
        }
    }

    /// The field `align`, to read or to change in place.
    pub fn get_align(&mut self) -> (r: &mut FnWithArgsOrT<1, String>)
        ensures
            *r == old(self).align,
            *final(self) == (DataLabels { align: *final(r), ..*old(self) }),
    {
        &mut self.align
    }

    /// Sets `align`.
    pub fn align<V: Into<FnWithArgsOrT<1, String>>>(self, value: V) -> (r: DataLabels)
        ensures
            call_ensures(<V as Into<FnWithArgsOrT<1, String>>>::into, (value,), r.align),
            r == (DataLabels { align: r.align, ..self }),
    {
        let mut s = self;
        s.align = value.into();
        s
    }

    /// The field `anchor`, to read or to change in place.
    pub fn get_anchor(&mut self) -> (r: &mut FnWithArgsOrT<1, String>)
        ensures
            *r == old(self).anchor,
            *final(self) == (DataLabels { anchor: *final(r), ..*old(self) }),
    {
        &mut self.anchor
    }

    /// Sets `anchor`.
    pub fn anchor<V: Into<FnWithArgsOrT<1, String>>>(self, value: V) -> (r: DataLabels)
        ensures
            call_ensures(<V as Into<FnWithArgsOrT<1, String>>>::into, (value,), r.anchor),
            r == (DataLabels { anchor: r.anchor, ..self }),
    {
        let mut s = self;
        s.anchor = value.into();
        s
    }

    /// The field `backgroundColor`, to read or to change in place.
    pub fn get_background_color(&mut self) -> (r: &mut FnWithArgsOrT<1, String>)
        ensures
            *r == old(self).backgroundColor,
            *final(self) == (DataLabels { backgroundColor: *final(r), ..*old(self) }),
    {
        &mut self.backgroundColor
    }

    /// Sets `backgroundColor`.
    pub fn background_color<V: Into<FnWithArgsOrT<1, String>>>(self, value: V) -> (r: DataLabels)
        ensures
            call_ensures(<V as Into<FnWithArgsOrT<1, String>>>::into, (value,), r.backgroundColor),
            r == (DataLabels { backgroundColor: r.backgroundColor, ..self }),
    {
        let mut s = self;
        s.backgroundColor = value.into();
        s
    }

    /// The field `borderRadius`, to read or to change in place.
    pub fn get_border_radius(&mut self) -> (r: &mut NumberString)
        ensures
            *r == old(self).borderRadius,
            *final(self) == (DataLabels { borderRadius: *final(r), ..*old(self) }),
    {
        &mut self.borderRadius
    }

    /// Sets `borderRadius`.
    pub fn border_radius<V: Into<NumberString>>(self, value: V) -> (r: DataLabels)
        ensures
            call_ensures(<V as Into<NumberString>>::into, (value,), r.borderRadius),
            r == (DataLabels { borderRadius: r.borderRadius, ..self }),
    {
        let mut s = self;
        s.borderRadius = value.into();
        s
    }

    /// The field `clamp`, to read or to change in place.
    pub fn get_clamp(&mut self) -> (r: &mut Option<bool>)
        ensures
            *r == old(self).clamp,
            *final(self) == (DataLabels { clamp: *final(r), ..*old(self) }),
    {
        &mut self.clamp
    }

    /// Sets `clamp`.
    pub fn clamp<V: Into<bool>>(self, value: V) -> (r: DataLabels)
        ensures
            r.clamp matches Some(x) && call_ensures(<V as Into<bool>>::into, (value,), x),
            r == (DataLabels { clamp: r.clamp, ..self }),
    {
        let mut s = self;
        s.clamp = Some(value.into());
        s
    }

    /// The field `clip`, to read or to change in place.
    pub fn get_clip(&mut self) -> (r: &mut Option<bool>)
        ensures
            *r == old(self).clip,
            *final(self) == (DataLabels { clip: *final(r), ..*old(self) }),
    {
        &mut self.clip
    }

    /// Sets `clip`.
    pub fn clip<V: Into<bool>>(self, value: V) -> (r: DataLabels)
        ensures
            r.clip matches Some(x) && call_ensures(<V as Into<bool>>::into, (value,), x),
            r == (DataLabels { clip: r.clip, ..self }),
    {
        let mut s = self;
        s.clip = Some(value.into());
        s
    }

    /// The field `color`, to read or to change in place.
    pub fn get_color(&mut self) -> (r: &mut String)
        ensures
            *r == old(self).color,
            *final(self) == (DataLabels { color: *final(r), ..*old(self) }),
    {
        &mut self.color
    }

    /// Sets `color`.
    pub fn color<V: Into<String>>(self, value: V) -> (r: DataLabels)
        ensures
            call_ensures(<V as Into<String>>::into, (value,), r.color),
            r == (DataLabels { color: r.color, ..self }),
    {
        let mut s = self;
        s.color = value.into();
        s
    }

    /// The field `display`, to read or to change in place.
    pub fn get_display(&mut self) -> (r: &mut BoolString)
        ensures
            *r == old(self).display,
            *final(self) == (DataLabels { display: *final(r), ..*old(self) }),
    {
        &mut self.display
    }

    /// Sets `display`.
    pub fn display<V: Into<BoolString>>(self, value: V) -> (r: DataLabels)
        ensures
            call_ensures(<V as Into<BoolString>>::into, (value,), r.display),
            r == (DataLabels { display: r.display, ..self }),
    {
        let mut s = self;
        s.display = value.into();
        s
    }

    /// The field `drawTime`, to read or to change in place.
    pub fn get_draw_time(&mut self) -> (r: &mut NumberString)
        ensures
            *r == old(self).drawTime,
            *final(self) == (DataLabels { drawTime: *final(r), ..*old(self) }),
    {
        &mut self.drawTime
    }

    /// Sets `drawTime`.
    pub fn draw_time<V: Into<NumberString>>(self, value: V) -> (r: DataLabels)
        ensures
            call_ensures(<V as Into<NumberString>>::into, (value,), r.drawTime),
            r == (DataLabels { drawTime: r.drawTime, ..self }),
    {
        let mut s = self;
        s.drawTime = value.into();
        s
    }

    /// The field `font`, to read or to change in place.
    pub fn get_font(&mut self) -> (r: &mut Option<Font>)
        ensures
            *r == old(self).font,
            *final(self) == (DataLabels { font: *final(r), ..*old(self) }),
    {
        &mut self.font
    }

    /// Sets `font`.
    pub fn font<V: Into<Font>>(self, value: V) -> (r: DataLabels)
        ensures
            r.font matches Some(x) && call_ensures(<V as Into<Font>>::into, (value,), x),
            r == (DataLabels { font: r.font, ..self }),
    {
        let mut s = self;
        s.font = Some(value.into());
        s
    }

    /// The field `formatter`, to read or to change in place.
    pub fn get_formatter(&mut self) -> (r: &mut FnWithArgs<2>)
        ensures
            *r == old(self).formatter,
            *final(self) == (DataLabels { formatter: *final(r), ..*old(self) }),
    {
        &mut self.formatter
    }

    /// Sets `formatter`.
    pub fn formatter<V: Into<FnWithArgs<2>>>(self, value: V) -> (r: DataLabels)
        ensures
            call_ensures(<V as Into<FnWithArgs<2>>>::into, (value,), r.formatter),
            r == (DataLabels { formatter: r.formatter, ..self }),
    {
        let mut s = self;
        s.formatter = value.into();
        s
    }

    /// The field `offset`, to read or to change in place.
    pub fn get_offset(&mut self) -> (r: &mut FnWithArgsOrT<1, NumberString>)
        ensures
            *r == old(self).offset,
            *final(self) == (DataLabels { offset: *final(r), ..*old(self) }),
    {
        &mut self.offset
    }

    /// Sets `offset`.
    pub fn offset<V: Into<FnWithArgsOrT<1, NumberString>>>(self, value: V) -> (r: DataLabels)
        ensures
            call_ensures(<V as Into<FnWithArgsOrT<1, NumberString>>>::into, (value,), r.offset),
            r == (DataLabels { offset: r.offset, ..self }),
    {
        let mut s = self;
        s.offset = value.into();
        s
    }

    /// The field `opacity`, to read or to change in place.
    pub fn get_opacity(&mut self) -> (r: &mut NumberString)
        ensures
            *r == old(self).opacity,
            *final(self) == (DataLabels { opacity: *final(r), ..*old(self) }),
    {
        &mut self.opacity
    }

    /// Sets `opacity`.
    pub fn opacity<V: Into<NumberString>>(self, value: V) -> (r: DataLabels)
        ensures
            call_ensures(<V as Into<NumberString>>::into, (value,), r.opacity),
            r == (DataLabels { opacity: r.opacity, ..self }),
    {
        let mut s = self;
        s.opacity = value.into();
        s
    }

    /// The field `padding`, to read or to change in place.
    pub fn get_padding(&mut self) -> (r: &mut Option<Padding>)
        ensures
            *r == old(self).padding,
            *final(self) == (DataLabels { padding: *final(r), ..*old(self) }),
    {
        &mut self.padding
    }

    /// Sets `padding`.
    pub fn padding<V: Into<Padding>>(self, value: V) -> (r: DataLabels)
        ensures
            r.padding matches Some(x) && call_ensures(<V as Into<Padding>>::into, (value,), x),
            r == (DataLabels { padding: r.padding, ..self }),
    {
        let mut s = self;
        s.padding = Some(value.into());
        s
    }

    /// The field `z`, to read or to change in place.
    pub fn get_z(&mut self) -> (r: &mut NumberString)
        ensures
            *r == old(self).z,
            *final(self) == (DataLabels { z: *final(r), ..*old(self) }),
    {
        &mut self.z
    }

    /// Sets `z`.
    pub fn z<V: Into<NumberString>>(self, value: V) -> (r: DataLabels)
        ensures
            call_ensures(<V as Into<NumberString>>::into, (value,), r.z),
            r == (DataLabels { z: r.z, ..self }),
    {
        let mut s = self;
        s.z = value.into();
        s
    }

    /// Whether a wire value reads as a value of this kind: an object whose
    /// members, where they are there, read as the fields.
    pub open spec fn readable_form(v: JsView) -> bool {
        &&& v is Object
        &&& defaulted_readable::<FnWithArgsOrT<1, String>>(v, "align"@)
        &&& defaulted_readable::<FnWithArgsOrT<1, String>>(v, "anchor"@)
        &&& defaulted_readable::<FnWithArgsOrT<1, String>>(v, "backgroundColor"@)
        &&& defaulted_readable::<NumberString>(v, "borderRadius"@)
        &&& optional_readable::<bool>(v, "clamp"@)
        &&& optional_readable::<bool>(v, "clip"@)
        &&& defaulted_readable::<String>(v, "color"@)
        &&& defaulted_readable::<BoolString>(v, "display"@)
        &&& defaulted_readable::<NumberString>(v, "drawTime"@)
        &&& optional_readable::<Font>(v, "font"@)
        &&& defaulted_readable::<FnWithArgsOrT<1, NumberString>>(v, "offset"@)
        &&& defaulted_readable::<NumberString>(v, "opacity"@)
        &&& optional_readable::<Padding>(v, "padding"@)
        &&& defaulted_readable::<NumberString>(v, "z"@)
    }

    /// Whether this value is what a wire value reads as: each field is what
    /// its member reads as, or its default where the member is missing or
    /// the field is never read.
    pub open spec fn reads_form(&self, v: JsView) -> bool {
        &&& defaulted_reads(self.align, v, "align"@)
        &&& defaulted_reads(self.anchor, v, "anchor"@)
        &&& defaulted_reads(self.backgroundColor, v, "backgroundColor"@)
        &&& defaulted_reads(self.borderRadius, v, "borderRadius"@)
        &&& optional_reads(self.clamp, v, "clamp"@)
        &&& optional_reads(self.clip, v, "clip"@)
        &&& defaulted_reads(self.color, v, "color"@)
        &&& defaulted_reads(self.display, v, "display"@)
        &&& defaulted_reads(self.drawTime, v, "drawTime"@)
        &&& optional_reads(self.font, v, "font"@)
        &&& skipped_reads(self.formatter)
        &&& defaulted_reads(self.offset, v, "offset"@)
        &&& defaulted_reads(self.opacity, v, "opacity"@)
        &&& optional_reads(self.padding, v, "padding"@)
        &&& defaulted_reads(self.z, v, "z"@)
    }

    /// Reads the value off the wire.
    pub fn from_value(v: &JsValue) -> (r: Result<Self, DecodeError>)
        ensures
            match r {
                Ok(x) => Self::readable_form(v@) && x.reads_form(v@),
                Err(_) => !Self::readable_form(v@),
            },
    {
        match v {
            JsValue::Object(_) => {},
            _ => {
                return Err(DecodeError::Shape);
            },
        }
        let align = match read_defaulted::<FnWithArgsOrT<1, String>>(v, "align") {
            Ok(x) => x,
            Err(e) => {
                return Err(e);
            },
        };
        let anchor = match read_defaulted::<FnWithArgsOrT<1, String>>(v, "anchor") {
            Ok(x) => x,
            Err(e) => {
                return Err(e);
            },
        };
        let backgroundColor = match read_defaulted::<FnWithArgsOrT<1, String>>(v, "backgroundColor") {
            Ok(x) => x,
            Err(e) => {
                return Err(e);
            },
        };
        let borderRadius = match read_defaulted::<NumberString>(v, "borderRadius") {
            Ok(x) => x,
            Err(e) => {
                return Err(e);
            },
        };
        let clamp = match read_optional::<bool>(v, "clamp") {
            Ok(x) => x,
            Err(e) => {
                return Err(e);
            },
        };
        let clip = match read_optional::<bool>(v, "clip") {
            Ok(x) => x,
            Err(e) => {
                return Err(e);
            },
        };
        let color = match read_defaulted::<String>(v, "color") {
            Ok(x) => x,
            Err(e) => {
                return Err(e);
            },
        };
        let display = match read_defaulted::<BoolString>(v, "display") {
            Ok(x) => x,
            Err(e) => {
                return Err(e);
            },
        };
        let drawTime = match read_defaulted::<NumberString>(v, "drawTime") {
            Ok(x) => x,
            Err(e) => {
                return Err(e);
            },
        };
        let font = match read_optional::<Font>(v, "font") {
            Ok(x) => x,
            Err(e) => {
                return Err(e);
            },
        };
        let formatter = read_skipped::<FnWithArgs<2>>();
        let offset = match read_defaulted::<FnWithArgsOrT<1, NumberString>>(v, "offset") {
            Ok(x) => x,
            Err(e) => {
                return Err(e);
            },
        };
        let opacity = match read_defaulted::<NumberString>(v, "opacity") {
            Ok(x) => x,
            Err(e) => {
                return Err(e);
            },
        };
        let padding = match read_optional::<Padding>(v, "padding") {
            Ok(x) => x,
            Err(e) => {
                return Err(e);
            },
        };
        let z = match read_defaulted::<NumberString>(v, "z") {
            Ok(x) => x,
            Err(e) => {
                return Err(e);
            },
        };
        Ok(DataLabels { align, anchor, backgroundColor, borderRadius, clamp, clip, color, display, drawTime, font, formatter, offset, opacity, padding, z })
    }

    /// Writes the value to the wire.
    pub fn to_value(&self) -> (r: JsValue)
        ensures
            r@ == self.wire_form(),
    {
        let mut members: Vec<(String, JsValue)> = Vec::new();
        assert(members_view(members@) =~= Seq::empty());
        put_scalar(&mut members, "align", &self.align);
        put_scalar(&mut members, "anchor", &self.anchor);
        put_scalar(&mut members, "backgroundColor", &self.backgroundColor);
        put_scalar(&mut members, "borderRadius", &self.borderRadius);
        put_option(&mut members, "clamp", &self.clamp);
        put_option(&mut members, "clip", &self.clip);
        put_scalar(&mut members, "color", &self.color);
        put_always(&mut members, "display", &self.display);
        put_scalar(&mut members, "drawTime", &self.drawTime);
        put_option(&mut members, "font", &self.font);
        put_scalar(&mut members, "formatter", &self.formatter);
        put_scalar(&mut members, "offset", &self.offset);
        put_scalar(&mut members, "opacity", &self.opacity);
        put_option(&mut members, "padding", &self.padding);
        put_scalar(&mut members, "z", &self.z);
        finish(members)
    }
}

impl Default for DataLabels {
    fn default() -> (r: Self)
        ensures
            r.is_new(),
    {
        DataLabels::new()
    }
}

impl Serialize for DataLabels {
    open spec fn wire(&self) -> JsView {
        self.wire_form()
    }

    fn serialize(&self) -> (r: JsValue)
        ensures
            r@ == self.wire(),
    {
        self.to_value()
    }
}

impl Deserialize for DataLabels {
    open spec fn readable(v: JsView) -> bool {
        Self::readable_form(v)
    }

    open spec fn reads(&self, v: JsView) -> bool {
        self.reads_form(v)
    }

    fn deserialize(v: &JsValue) -> (r: Result<Self, DecodeError>)
        ensures
            match r {
                Ok(x) => Self::readable(v@) && x.reads(v@),
                Err(_) => !Self::readable(v@),
            },
    {
        DataLabels::from_value(v)
    }
}

/// The callbacks that style the segments of a line.
#[derive(Debug, Clone, PartialEq, Eq)]
pub struct Segment {
    pub borderColor: FnWithArgs<1>,
    pub borderDash: FnWithArgs<1>,
}

impl Segment {
    /// Whether every field is as `new` leaves it: nothing is set.
    pub open spec fn is_new(&self) -> bool {
        &&& self.borderColor@ == fresh(1)
        &&& self.borderDash@ == fresh(1)
    }

    /// The wire form: an object with one member for each field that is
    /// set, in the order of the fields.
    pub open spec fn wire_form(&self) -> JsView {
        JsView::Object(
            Seq::empty()
                + scalar_entry("borderColor"@, self.borderColor)
                + scalar_entry("borderDash"@, self.borderDash)
        )
    }

    /// The value with nothing set.
    pub fn new() -> (r: Self)
        ensures
            r.is_new(),
    {
        Segment {
            borderColor: FnWithArgs::new(),
            borderDash: FnWithArgs::new(),
        }
    }

    /// The field `borderColor`, to read or to change in place.
    pub fn get_border_color(&mut self) -> (r: &mut FnWithArgs<1>)
        ensures
            *r == old(self).borderColor,
            *final(self) == (Segment { borderColor: *final(r), ..*old(self) }),
    {
        &mut self.borderColor
    }

    /// Sets `borderColor`.
    pub fn border_color<V: Into<FnWithArgs<1>>>(self, value: V) -> (r: Segment)
        ensures
            call_ensures(<V as Into<FnWithArgs<1>>>::into, (value,), r.borderColor),
            r == (Segment { borderColor: r.borderColor, ..self }),
    {
        let mut s = self;
        s.borderColor = value.into();
        s
    }

    /// The field `borderDash`, to read or to change in place.
    pub fn get_border_dash(&mut self) -> (r: &mut FnWithArgs<1>)
        ensures
            *r == old(self).borderDash,
            *final(self) == (Segment { borderDash: *final(r), ..*old(self) }),
    {
        &mut self.borderDash
    }

    /// Sets `borderDash`.
    pub fn border_dash<V: Into<FnWithArgs<1>>>(self, value: V) -> (r: Segment)
        ensures
            call_ensures(<V as Into<FnWithArgs<1>>>::into, (value,), r.borderDash),
            r == (Segment { borderDash: r.borderDash, ..self }),
    {
        let mut s = self;
        s.borderDash = value.into();
        s
    }

    /// Whether a wire value reads as a value of this kind: an object whose
    /// members, where they are there, read as the fields.
    pub open spec fn readable_form(v: JsView) -> bool {
        &&& v is Object
    }

    /// Whether this value is what a wire value reads as: each field is what
    /// its member reads as, or its default where the member is missing or
    /// the field is never read.
    pub open spec fn reads_form(&self, v: JsView) -> bool {
        &&& skipped_reads(self.borderColor)
        &&& skipped_reads(self.borderDash)
    }

    /// Reads the value off the wire.
    pub fn from_value(v: &JsValue) -> (r: Result<Self, DecodeError>)
        ensures
            match r {
                Ok(x) => Self::readable_form(v@) && x.reads_form(v@),
                Err(_) => !Self::readable_form(v@),
            },
    {
        match v {
            JsValue::Object(_) => {},
            _ => {
                return Err(DecodeError::Shape);
            },
        }
        let borderColor = read_skipped::<FnWithArgs<1>>();
        let borderDash = read_skipped::<FnWithArgs<1>>();
        Ok(Segment { borderColor, borderDash })
    }

    /// Writes the value to the wire.
    pub fn to_value(&self) -> (r: JsValue)
        ensures
            r@ == self.wire_form(),
    {
        let mut members: Vec<(String, JsValue)> = Vec::new();
        assert(members_view(members@) =~= Seq::empty());
        put_scalar(&mut members, "borderColor", &self.borderColor);
        put_scalar(&mut members, "borderDash", &self.borderDash);
        finish(members)
    }
}

impl Default for Segment {
    fn default() -> (r: Self)
        ensures
            r.is_new(),
    {
        Segment::new()
    }
}

impl Serialize for Segment {
    open spec fn wire(&self) -> JsView {
        self.wire_form()
    }

    fn serialize(&self) -> (r: JsValue)
        ensures
            r@ == self.wire(),
    {
        self.to_value()
    }
}

impl Deserialize for Segment {
    open spec fn readable(v: JsView) -> bool {
        Self::readable_form(v)
    }

    open spec fn reads(&self, v: JsView) -> bool {
        self.reads_form(v)
    }

    fn deserialize(v: &JsValue) -> (r: Result<Self, DecodeError>)
        ensures
            match r {
                Ok(x) => Self::readable(v@) && x.reads(v@),
                Err(_) => !Self::readable(v@),
            },
    {
        Segment::from_value(v)
    }
}
} // verus!
