use vstd::prelude::*;
use crate::dataset::Annotation;
use crate::decode::{
    defaulted_readable, defaulted_reads, optional_readable, optional_reads, read_defaulted,
    read_optional,
};
use crate::entries::{
    always_entry, convert_all, finish, list_entry, put_always, put_list, put_scalar, put_table,
    scalar_entry, table_entry,
};
use crate::literal::{is_word, is_word_ignoring_case};
use crate::named::{collected, Named};
use crate::scalar::{NumberOrDateString, NumberString};
use crate::text::owned;
use crate::value::{members_view, JsValue, JsView};
use crate::wire::{DecodeError, Deserialize, Serialize};

verus! {

/// The kind of a [`LineAnnotation`]: always `line`.
#[derive(Debug, Default, Clone, Copy, PartialEq, Eq, Structural)]
pub struct LineAnnotationType;

/// The kind of a [`BoxAnnotation`]: always `box`.
#[derive(Debug, Default, Clone, Copy, PartialEq, Eq, Structural)]
pub struct BoxAnnotationType;

impl LineAnnotationType {
    /// The kind `line`.
    pub fn new() -> (r: Self)
        ensures
            r == LineAnnotationType,
    {
        LineAnnotationType
    }
}

impl BoxAnnotationType {
    /// The kind `box`.
    pub fn new() -> (r: Self)
        ensures
            r == BoxAnnotationType,
    {
        BoxAnnotationType
    }
}

impl Serialize for LineAnnotationType {
    open spec fn wire(&self) -> JsView {
        JsView::Str("line"@)
    }

    fn serialize(&self) -> (r: JsValue)
        ensures
            r@ == self.wire(),
    {
        JsValue::Str(owned("line"))
    }
}

impl Serialize for BoxAnnotationType {
    open spec fn wire(&self) -> JsView {
        JsView::Str("box"@)
    }

    fn serialize(&self) -> (r: JsValue)
        ensures
            r@ == self.wire(),
    {
        JsValue::Str(owned("box"))
    }
}

impl Deserialize for LineAnnotationType {
    /// The kind is read from the text `line`, in any case of its letters.
    open spec fn readable(v: JsView) -> bool {
        v matches JsView::Str(s) && is_word(s, "line"@)
    }

    open spec fn reads(&self, v: JsView) -> bool {
        true
    }

    fn deserialize(v: &JsValue) -> (r: Result<Self, DecodeError>)
        ensures
            match r {
                Ok(x) => Self::readable(v@) && x.reads(v@),
                Err(_) => !Self::readable(v@),
            },
    {
        proof {
            reveal_strlit("line");
        }
        match v {
            JsValue::Str(s) => if is_word_ignoring_case(s.as_str(), "line") {
                Ok(LineAnnotationType)
            } else {
                Err(DecodeError::Shape)
            },
            _ => Err(DecodeError::Shape),
        }
    }
}

impl Deserialize for BoxAnnotationType {
    /// The kind is read from the text `box`, in any case of its letters.
    open spec fn readable(v: JsView) -> bool {
        v matches JsView::Str(s) && is_word(s, "box"@)
    }

    open spec fn reads(&self, v: JsView) -> bool {
        true
    }

    fn deserialize(v: &JsValue) -> (r: Result<Self, DecodeError>)
        ensures
            match r {
                Ok(x) => Self::readable(v@) && x.reads(v@),
                Err(_) => !Self::readable(v@),
            },
    {
        proof {
            reveal_strlit("box");
        }
        match v {
            JsValue::Str(s) => if is_word_ignoring_case(s.as_str(), "box") {
                Ok(BoxAnnotationType)
            } else {
                Err(DecodeError::Shape)
            },
            _ => Err(DecodeError::Shape),
        }
    }
}

impl Annotation for BoxAnnotation {
}

impl Annotation for LineAnnotation {
}

/// A line that is drawn over a chart.
#[derive(Debug, Clone, PartialEq, Eq)]
pub struct LineAnnotation {
    pub borderColor: String,
    pub borderDash: Vec<NumberString>,
    pub borderWidth: NumberString,
    pub drawTime: String,
    pub r_type: LineAnnotationType,
    pub xMax: NumberOrDateString,
    pub xMin: NumberOrDateString,
    pub yMax: NumberOrDateString,
    pub yMin: NumberOrDateString,
    pub yScaleID: NumberString,
}

impl LineAnnotation {
    /// Whether every field is as `new` leaves it: nothing is set.
    pub open spec fn is_new(&self) -> bool {
        &&& self.borderColor@.len() == 0
        &&& self.borderDash@.len() == 0
        &&& self.borderWidth@.len() == 0
        &&& self.drawTime@.len() == 0
        &&& self.xMax@.len() == 0
        &&& self.xMin@.len() == 0
        &&& self.yMax@.len() == 0
        &&& self.yMin@.len() == 0
        &&& self.yScaleID@.len() == 0
    }

    /// The wire form: an object with one member for each field that is
    /// set, in the order of the fields.
    pub open spec fn wire_form(&self) -> JsView {
        JsView::Object(
            Seq::empty()
                + scalar_entry("borderColor"@, self.borderColor)
                + list_entry("borderDash"@, self.borderDash@)
                + scalar_entry("borderWidth"@, self.borderWidth)
                + scalar_entry("drawTime"@, self.drawTime)
                + always_entry("type"@, self.r_type)
                + scalar_entry("xMax"@, self.xMax)
                + scalar_entry("xMin"@, self.xMin)
                + scalar_entry("yMax"@, self.yMax)
                + scalar_entry("yMin"@, self.yMin)
                + scalar_entry("yScaleID"@, self.yScaleID)
        )
    }

    /// The value with nothing set.
    pub fn new() -> (r: Self)
        ensures
            r.is_new(),
    {
        LineAnnotation {
            borderColor: String::new(),
            borderDash: Vec::new(),
            borderWidth: NumberString::default(),
            drawTime: String::new(),
            r_type: LineAnnotationType,
            xMax: NumberOrDateString::default(),
            xMin: NumberOrDateString::default(),
            yMax: NumberOrDateString::default(),
            yMin: NumberOrDateString::default(),
            yScaleID: NumberString::default(),
        }
    }

    /// The field `borderColor`, to read or to change in place.
    pub fn get_border_color(&mut self) -> (r: &mut String)
        ensures
            *r == old(self).borderColor,
            *final(self) == (LineAnnotation { borderColor: *final(r), ..*old(self) }),
    {
        &mut self.borderColor
    }

    /// Sets `borderColor`.
    pub fn border_color<V: Into<String>>(self, value: V) -> (r: LineAnnotation)
        ensures
            call_ensures(<V as Into<String>>::into, (value,), r.borderColor),
            r == (LineAnnotation { borderColor: r.borderColor, ..self }),
    {
        let mut s = self;
        s.borderColor = value.into();
        s
    }

    /// The field `borderDash`, to read or to change in place.
    pub fn get_border_dash(&mut self) -> (r: &mut Vec<NumberString>)
        ensures
            *r == old(self).borderDash,
            *final(self) == (LineAnnotation { borderDash: *final(r), ..*old(self) }),
    {
        &mut self.borderDash
    }

    /// Sets `borderDash`: each of the given values, turned into a `NumberString`.
    pub fn border_dash<T: Into<NumberString>>(self, value: Vec<T>) -> (r: LineAnnotation)
        ensures
            r.borderDash@.len() == value@.len(),
            forall|i: int|
                0 <= i < value@.len() ==> call_ensures(
                    <T as Into<NumberString>>::into,
                    (value@[i],),
                    #[trigger] r.borderDash@[i],
                ),
            r == (LineAnnotation { borderDash: r.borderDash, ..self }),
    {
        let mut s = self;
        s.borderDash = convert_all(value);
        s
    }

    /// The field `borderWidth`, to read or to change in place.
    pub fn get_border_width(&mut self) -> (r: &mut NumberString)
        ensures
            *r == old(self).borderWidth,
            *final(self) == (LineAnnotation { borderWidth: *final(r), ..*old(self) }),
    {
        &mut self.borderWidth
    }

    /// Sets `borderWidth`.
    pub fn border_width<V: Into<NumberString>>(self, value: V) -> (r: LineAnnotation)
        ensures
            call_ensures(<V as Into<NumberString>>::into, (value,), r.borderWidth),
            r == (LineAnnotation { borderWidth: r.borderWidth, ..self }),
    {
        let mut s = self;
        s.borderWidth = value.into();
        s
    }

    /// The field `drawTime`, to read or to change in place.
    pub fn get_draw_time(&mut self) -> (r: &mut String)
        ensures
            *r == old(self).drawTime,
            *final(self) == (LineAnnotation { drawTime: *final(r), ..*old(self) }),
    {
        &mut self.drawTime
    }

    /// Sets `drawTime`.
    pub fn draw_time<V: Into<String>>(self, value: V) -> (r: LineAnnotation)
        ensures
            call_ensures(<V as Into<String>>::into, (value,), r.drawTime),
            r == (LineAnnotation { drawTime: r.drawTime, ..self }),
    {
        let mut s = self;
        s.drawTime = value.into();
        s
    }

    /// The field `type`, to read or to change in place.
    pub fn get_r_type(&mut self) -> (r: &mut LineAnnotationType)
        ensures
            *r == old(self).r_type,
            *final(self) == (LineAnnotation { r_type: *final(r), ..*old(self) }),
    {
        &mut self.r_type
    }

    /// Sets `type`.
    pub fn r_type<V: Into<LineAnnotationType>>(self, value: V) -> (r: LineAnnotation)
        ensures
            call_ensures(<V as Into<LineAnnotationType>>::into, (value,), r.r_type),
            r == (LineAnnotation { r_type: r.r_type, ..self }),
    {
        let mut s = self;
        s.r_type = value.into();
        s
    }

    /// The field `xMax`, to read or to change in place.
    pub fn get_x_max(&mut self) -> (r: &mut NumberOrDateString)
        ensures
            *r == old(self).xMax,
            *final(self) == (LineAnnotation { xMax: *final(r), ..*old(self) }),
    {
        &mut self.xMax
    }

    /// Sets `xMax`.
    pub fn x_max<V: Into<NumberOrDateString>>(self, value: V) -> (r: LineAnnotation)
        ensures
            call_ensures(<V as Into<NumberOrDateString>>::into, (value,), r.xMax),
            r == (LineAnnotation { xMax: r.xMax, ..self }),
    {
        let mut s = self;
        s.xMax = value.into();
        s
    }

    /// The field `xMin`, to read or to change in place.
    pub fn get_x_min(&mut self) -> (r: &mut NumberOrDateString)
        ensures
            *r == old(self).xMin,
            *final(self) == (LineAnnotation { xMin: *final(r), ..*old(self) }),
    {
        &mut self.xMin
    }

    /// Sets `xMin`.
    pub fn x_min<V: Into<NumberOrDateString>>(self, value: V) -> (r: LineAnnotation)
        ensures
            call_ensures(<V as Into<NumberOrDateString>>::into, (value,), r.xMin),
            r == (LineAnnotation { xMin: r.xMin, ..self }),
    {
        let mut s = self;
        s.xMin = value.into();
        s
    }

    /// The field `yMax`, to read or to change in place.
    pub fn get_y_max(&mut self) -> (r: &mut NumberOrDateString)
        ensures
            *r == old(self).yMax,
            *final(self) == (LineAnnotation { yMax: *final(r), ..*old(self) }),
    {
        &mut self.yMax
    }

    /// Sets `yMax`.
    pub fn y_max<V: Into<NumberOrDateString>>(self, value: V) -> (r: LineAnnotation)
        ensures
            call_ensures(<V as Into<NumberOrDateString>>::into, (value,), r.yMax),
            r == (LineAnnotation { yMax: r.yMax, ..self }),
    {
        let mut s = self;
        s.yMax = value.into();
        s
    }

    /// The field `yMin`, to read or to change in place.
    pub fn get_y_min(&mut self) -> (r: &mut NumberOrDateString)
        ensures
            *r == old(self).yMin,
            *final(self) == (LineAnnotation { yMin: *final(r), ..*old(self) }),
    {
        &mut self.yMin
    }

    /// Sets `yMin`.
    pub fn y_min<V: Into<NumberOrDateString>>(self, value: V) -> (r: LineAnnotation)
        ensures
            call_ensures(<V as Into<NumberOrDateString>>::into, (value,), r.yMin),
            r == (LineAnnotation { yMin: r.yMin, ..self }),
    {
        let mut s = self;
        s.yMin = value.into();
        s
    }

    /// The field `yScaleID`, to read or to change in place.
    pub fn get_y_scale_id(&mut self) -> (r: &mut NumberString)
        ensures
            *r == old(self).yScaleID,
            *final(self) == (LineAnnotation { yScaleID: *final(r), ..*old(self) }),
    {
        &mut self.yScaleID
    }

    /// Sets `yScaleID`.
    pub fn y_scale_id<V: Into<NumberString>>(self, value: V) -> (r: LineAnnotation)
        ensures
            call_ensures(<V as Into<NumberString>>::into, (value,), r.yScaleID),
            r == (LineAnnotation { yScaleID: r.yScaleID, ..self }),
    {
        let mut s = self;
        s.yScaleID = value.into();
        s
    }

    /// Whether a wire value reads as a value of this kind: an object whose
    /// members, where they are there, read as the fields.
    pub open spec fn readable_form(v: JsView) -> bool {
        &&& v is Object
        &&& defaulted_readable::<String>(v, "borderColor"@)
        &&& defaulted_readable::<Vec<NumberString>>(v, "borderDash"@)
        &&& defaulted_readable::<NumberString>(v, "borderWidth"@)
        &&& defaulted_readable::<String>(v, "drawTime"@)
        &&& defaulted_readable::<LineAnnotationType>(v, "type"@)
        &&& defaulted_readable::<NumberOrDateString>(v, "xMax"@)
        &&& defaulted_readable::<NumberOrDateString>(v, "xMin"@)
        &&& defaulted_readable::<NumberOrDateString>(v, "yMax"@)
        &&& defaulted_readable::<NumberOrDateString>(v, "yMin"@)
        &&& defaulted_readable::<NumberString>(v, "yScaleID"@)
    }

    /// Whether this value is what a wire value reads as: each field is what
    /// its member reads as, or its default where the member is missing or
    /// the field is never read.
    pub open spec fn reads_form(&self, v: JsView) -> bool {
        &&& defaulted_reads(self.borderColor, v, "borderColor"@)
        &&& defaulted_reads(self.borderDash, v, "borderDash"@)
        &&& defaulted_reads(self.borderWidth, v, "borderWidth"@)
        &&& defaulted_reads(self.drawTime, v, "drawTime"@)
        &&& defaulted_reads(self.r_type, v, "type"@)
        &&& defaulted_reads(self.xMax, v, "xMax"@)
        &&& defaulted_reads(self.xMin, v, "xMin"@)
        &&& defaulted_reads(self.yMax, v, "yMax"@)
        &&& defaulted_reads(self.yMin, v, "yMin"@)
        &&& defaulted_reads(self.yScaleID, v, "yScaleID"@)
    }

    /// Reads the value off the wire.
    pub fn from_value(v: &JsValue) -> (r: Result<Self, DecodeError>)
        ensures
            match r {
                Ok(x) => Self::readable_form(v@) && x.reads_form(v@),
                Err(_) => !Self::readable_form(v@),
            },
    {
        match v {
            JsValue::Object(_) => {},
            _ => {
                return Err(DecodeError::Shape);
            },
        }
        let borderColor = match read_defaulted::<String>(v, "borderColor") {
            Ok(x) => x,
            Err(e) => {
                return Err(e);
            },
        };
        let borderDash = match read_defaulted::<Vec<NumberString>>(v, "borderDash") {
            Ok(x) => x,
            Err(e) => {
                return Err(e);
            },
        };
        let borderWidth = match read_defaulted::<NumberString>(v, "borderWidth") {
            Ok(x) => x,
            Err(e) => {
                return Err(e);
            },
        };
        let drawTime = match read_defaulted::<String>(v, "drawTime") {
            Ok(x) => x,
            Err(e) => {
                return Err(e);
            },
        };
        let r_type = match read_defaulted::<LineAnnotationType>(v, "type") {
            Ok(x) => x,
            Err(e) => {
                return Err(e);
            },
        };
        let xMax = match read_defaulted::<NumberOrDateString>(v, "xMax") {
            Ok(x) => x,
            Err(e) => {
                return Err(e);
            },
        };
        let xMin = match read_defaulted::<NumberOrDateString>(v, "xMin") {
            Ok(x) => x,
            Err(e) => {
                return Err(e);
            },
        };
        let yMax = match read_defaulted::<NumberOrDateString>(v, "yMax") {
            Ok(x) => x,
            Err(e) => {
                return Err(e);
            },
        };
        let yMin = match read_defaulted::<NumberOrDateString>(v, "yMin") {
            Ok(x) => x,
            Err(e) => {
                return Err(e);
            },
        };
        let yScaleID = match read_defaulted::<NumberString>(v, "yScaleID") {
            Ok(x) => x,
            Err(e) => {
                return Err(e);
            },
        };
        Ok(LineAnnotation { borderColor, borderDash, borderWidth, drawTime, r_type, xMax, xMin, yMax, yMin, yScaleID })
    }

    /// Writes the value to the wire.
    pub fn to_value(&self) -> (r: JsValue)
        ensures
            r@ == self.wire_form(),
    {
        let mut members: Vec<(String, JsValue)> = Vec::new();
        assert(members_view(members@) =~= Seq::empty());
        put_scalar(&mut members, "borderColor", &self.borderColor);
        put_list(&mut members, "borderDash", &self.borderDash);
        put_scalar(&mut members, "borderWidth", &self.borderWidth);
        put_scalar(&mut members, "drawTime", &self.drawTime);
        put_always(&mut members, "type", &self.r_type);
        put_scalar(&mut members, "xMax", &self.xMax);
        put_scalar(&mut members, "xMin", &self.xMin);
        put_scalar(&mut members, "yMax", &self.yMax);
        put_scalar(&mut members, "yMin", &self.yMin);
        put_scalar(&mut members, "yScaleID", &self.yScaleID);
        finish(members)
    }
}

impl Default for LineAnnotation {
    fn default() -> (r: Self)
        ensures
            r.is_new(),
    {
        LineAnnotation::new()
    }
}

impl Serialize for LineAnnotation {
    open spec fn wire(&self) -> JsView {
        self.wire_form()
    }

    fn serialize(&self) -> (r: JsValue)
        ensures
            r@ == self.wire(),
    {
        self.to_value()
    }
}

impl Deserialize for LineAnnotation {
    open spec fn readable(v: JsView) -> bool {
        Self::readable_form(v)
    }

    open spec fn reads(&self, v: JsView) -> bool {
        self.reads_form(v)
    }

    fn deserialize(v: &JsValue) -> (r: Result<Self, DecodeError>)
        ensures
            match r {
                Ok(x) => Self::readable(v@) && x.reads(v@),
                Err(_) => !Self::readable(v@),
            },
    {
        LineAnnotation::from_value(v)
    }
}

/// A box that is drawn over a chart.
#[derive(Debug, Clone, PartialEq, Eq)]
pub struct BoxAnnotation {
    pub backgroundColor: String,
    pub borderColor: String,
    pub borderDash: Vec<NumberString>,
    pub borderWidth: NumberString,
    pub drawTime: String,
    pub r_type: BoxAnnotationType,
    pub xMax: NumberString,
    pub xMin: NumberString,
    pub yMax: NumberString,
    pub yMin: NumberString,
}

impl BoxAnnotation {
    /// Whether every field is as `new` leaves it: nothing is set.
    pub open spec fn is_new(&self) -> bool {
        &&& self.backgroundColor@.len() == 0
        &&& self.borderColor@.len() == 0
        &&& self.borderDash@.len() == 0
        &&& self.borderWidth@.len() == 0
        &&& self.drawTime@.len() == 0
        &&& self.xMax@.len() == 0
        &&& self.xMin@.len() == 0
        &&& self.yMax@.len() == 0
        &&& self.yMin@.len() == 0
    }

    /// The wire form: an object with one member for each field that is
    /// set, in the order of the fields.
    pub open spec fn wire_form(&self) -> JsView {
        JsView::Object(
            Seq::empty()
                + scalar_entry("backgroundColor"@, self.backgroundColor)
                + scalar_entry("borderColor"@, self.borderColor)
                + list_entry("borderDash"@, self.borderDash@)
                + scalar_entry("borderWidth"@, self.borderWidth)
                + scalar_entry("drawTime"@, self.drawTime)
                + always_entry("type"@, self.r_type)
                + scalar_entry("xMax"@, self.xMax)
                + scalar_entry("xMin"@, self.xMin)
                + scalar_entry("yMax"@, self.yMax)
                + scalar_entry("yMin"@, self.yMin)
        )
    }

    /// The value with nothing set.
    pub fn new() -> (r: Self)
        ensures
            r.is_new(),
    {
        BoxAnnotation {
            backgroundColor: String::new(),
            borderColor: String::new(),
            borderDash: Vec::new(),
            borderWidth: NumberString::default(),
            drawTime: String::new(),
            r_type: BoxAnnotationType,
            xMax: NumberString::default(),
            xMin: NumberString::default(),
            yMax: NumberString::default(),
            yMin: NumberString::default(),
        }
    }

    /// The field `backgroundColor`, to read or to change in place.
    pub fn get_background_color(&mut self) -> (r: &mut String)
        ensures
            *r == old(self).backgroundColor,
            *final(self) == (BoxAnnotation { backgroundColor: *final(r), ..*old(self) }),
    {
        &mut self.backgroundColor
    }

    /// Sets `backgroundColor`.
    pub fn background_color<V: Into<String>>(self, value: V) -> (r: BoxAnnotation)
        ensures
            call_ensures(<V as Into<String>>::into, (value,), r.backgroundColor),
            r == (BoxAnnotation { backgroundColor: r.backgroundColor, ..self }),
    {
        let mut s = self;
        s.backgroundColor = value.into();
        s
    }

    /// The field `borderColor`, to read or to change in place.
    pub fn get_border_color(&mut self) -> (r: &mut String)
        ensures
            *r == old(self).borderColor,
            *final(self) == (BoxAnnotation { borderColor: *final(r), ..*old(self) }),
    {
        &mut self.borderColor
    }

    /// Sets `borderColor`.
    pub fn border_color<V: Into<String>>(self, value: V) -> (r: BoxAnnotation)
        ensures
            call_ensures(<V as Into<String>>::into, (value,), r.borderColor),
            r == (BoxAnnotation { borderColor: r.borderColor, ..self }),
    {
        let mut s = self;
        s.borderColor = value.into();
        s
    }

    /// The field `borderDash`, to read or to change in place.
    pub fn get_border_dash(&mut self) -> (r: &mut Vec<NumberString>)
        ensures
            *r == old(self).borderDash,
            *final(self) == (BoxAnnotation { borderDash: *final(r), ..*old(self) }),
    {
        &mut self.borderDash
    }

    /// Sets `borderDash`: each of the given values, turned into a `NumberString`.
    pub fn border_dash<T: Into<NumberString>>(self, value: Vec<T>) -> (r: BoxAnnotation)
        ensures
            r.borderDash@.len() == value@.len(),
            forall|i: int|
                0 <= i < value@.len() ==> call_ensures(
                    <T as Into<NumberString>>::into,
                    (value@[i],),
                    #[trigger] r.borderDash@[i],
                ),
            r == (BoxAnnotation { borderDash: r.borderDash, ..self }),
    {
        let mut s = self;
        s.borderDash = convert_all(value);
        s
    }

    /// The field `borderWidth`, to read or to change in place.
    pub fn get_border_width(&mut self) -> (r: &mut NumberString)
        ensures
            *r == old(self).borderWidth,
            *final(self) == (BoxAnnotation { borderWidth: *final(r), ..*old(self) }),
    {
        &mut self.borderWidth
    }

    /// Sets `borderWidth`.
    pub fn border_width<V: Into<NumberString>>(self, value: V) -> (r: BoxAnnotation)
        ensures
            call_ensures(<V as Into<NumberString>>::into, (value,), r.borderWidth),
            r == (BoxAnnotation { borderWidth: r.borderWidth, ..self }),
    {
        let mut s = self;
        s.borderWidth = value.into();
        s
    }

    /// The field `drawTime`, to read or to change in place.
    pub fn get_draw_time(&mut self) -> (r: &mut String)
        ensures
            *r == old(self).drawTime,
            *final(self) == (BoxAnnotation { drawTime: *final(r), ..*old(self) }),
    {
        &mut self.drawTime
    }

    /// Sets `drawTime`.
    pub fn draw_time<V: Into<String>>(self, value: V) -> (r: BoxAnnotation)
        ensures
            call_ensures(<V as Into<String>>::into, (value,), r.drawTime),
            r == (BoxAnnotation { drawTime: r.drawTime, ..self }),
    {
        let mut s = self;
        s.drawTime = value.into();
        s
    }

    /// The field `type`, to read or to change in place.
    pub fn get_r_type(&mut self) -> (r: &mut BoxAnnotationType)
        ensures
            *r == old(self).r_type,
            *final(self) == (BoxAnnotation { r_type: *final(r), ..*old(self) }),
    {
        &mut self.r_type
    }

    /// Sets `type`.
    pub fn r_type<V: Into<BoxAnnotationType>>(self, value: V) -> (r: BoxAnnotation)
        ensures
            call_ensures(<V as Into<BoxAnnotationType>>::into, (value,), r.r_type),
            r == (BoxAnnotation { r_type: r.r_type, ..self }),
    {
        let mut s = self;
        s.r_type = value.into();
        s
    }

    /// The field `xMax`, to read or to change in place.
    pub fn get_x_max(&mut self) -> (r: &mut NumberString)
        ensures
            *r == old(self).xMax,
            *final(self) == (BoxAnnotation { xMax: *final(r), ..*old(self) }),
    {
        &mut self.xMax
    }

    /// Sets `xMax`.
    pub fn x_max<V: Into<NumberString>>(self, value: V) -> (r: BoxAnnotation)
        ensures
            call_ensures(<V as Into<NumberString>>::into, (value,), r.xMax),
            r == (BoxAnnotation { xMax: r.xMax, ..self }),
    {
        let mut s = self;
        s.xMax = value.into();
        s
    }

    /// The field `xMin`, to read or to change in place.
    pub fn get_x_min(&mut self) -> (r: &mut NumberString)
        ensures
            *r == old(self).xMin,
            *final(self) == (BoxAnnotation { xMin: *final(r), ..*old(self) }),
    {
        &mut self.xMin
    }

    /// Sets `xMin`.
    pub fn x_min<V: Into<NumberString>>(self, value: V) -> (r: BoxAnnotation)
        ensures
            call_ensures(<V as Into<NumberString>>::into, (value,), r.xMin),
            r == (BoxAnnotation { xMin: r.xMin, ..self }),
    {
        let mut s = self;
        s.xMin = value.into();
        s
    }

    /// The field `yMax`, to read or to change in place.
    pub fn get_y_max(&mut self) -> (r: &mut NumberString)
        ensures
            *r == old(self).yMax,
            *final(self) == (BoxAnnotation { yMax: *final(r), ..*old(self) }),
    {
        &mut self.yMax
    }

    /// Sets `yMax`.
    pub fn y_max<V: Into<NumberString>>(self, value: V) -> (r: BoxAnnotation)
        ensures
            call_ensures(<V as Into<NumberString>>::into, (value,), r.yMax),
            r == (BoxAnnotation { yMax: r.yMax, ..self }),
    {
        let mut s = self;
        s.yMax = value.into();
        s
    }

    /// The field `yMin`, to read or to change in place.
    pub fn get_y_min(&mut self) -> (r: &mut NumberString)
        ensures
            *r == old(self).yMin,
            *final(self) == (BoxAnnotation { yMin: *final(r), ..*old(self) }),
    {
        &mut self.yMin
    }

    /// Sets `yMin`.
    pub fn y_min<V: Into<NumberString>>(self, value: V) -> (r: BoxAnnotation)
        ensures
            call_ensures(<V as Into<NumberString>>::into, (value,), r.yMin),
            r == (BoxAnnotation { yMin: r.yMin, ..self }),
    {
        let mut s = self;
        s.yMin = value.into();
        s
    }

    /// Whether a wire value reads as a value of this kind: an object whose
    /// members, where they are there, read as the fields.
    pub open spec fn readable_form(v: JsView) -> bool {
        &&& v is Object
        &&& defaulted_readable::<String>(v, "backgroundColor"@)
        &&& defaulted_readable::<String>(v, "borderColor"@)
        &&& defaulted_readable::<Vec<NumberString>>(v, "borderDash"@)
        &&& defaulted_readable::<NumberString>(v, "borderWidth"@)
        &&& defaulted_readable::<String>(v, "drawTime"@)
        &&& defaulted_readable::<BoxAnnotationType>(v, "type"@)
        &&& defaulted_readable::<NumberString>(v, "xMax"@)
        &&& defaulted_readable::<NumberString>(v, "xMin"@)
        &&& defaulted_readable::<NumberString>(v, "yMax"@)
        &&& defaulted_readable::<NumberString>(v, "yMin"@)
    }

    /// Whether this value is what a wire value reads as: each field is what
    /// its member reads as, or its default where the member is missing or
    /// the field is never read.
    pub open spec fn reads_form(&self, v: JsView) -> bool {
        &&& defaulted_reads(self.backgroundColor, v, "backgroundColor"@)
        &&& defaulted_reads(self.borderColor, v, "borderColor"@)
        &&& defaulted_reads(self.borderDash, v, "borderDash"@)
        &&& defaulted_reads(self.borderWidth, v, "borderWidth"@)
        &&& defaulted_reads(self.drawTime, v, "drawTime"@)
        &&& defaulted_reads(self.r_type, v, "type"@)
        &&& defaulted_reads(self.xMax, v, "xMax"@)
        &&& defaulted_reads(self.xMin, v, "xMin"@)
        &&& defaulted_reads(self.yMax, v, "yMax"@)
        &&& defaulted_reads(self.yMin, v, "yMin"@)
    }

    /// Reads the value off the wire.
    pub fn from_value(v: &JsValue) -> (r: Result<Self, DecodeError>)
        ensures
            match r {
                Ok(x) => Self::readable_form(v@) && x.reads_form(v@),
                Err(_) => !Self::readable_form(v@),
            },
    {
        match v {
            JsValue::Object(_) => {},
            _ => {
                return Err(DecodeError::Shape);
            },
        }
        let backgroundColor = match read_defaulted::<String>(v, "backgroundColor") {
            Ok(x) => x,
            Err(e) => {
                return Err(e);
            },
        };
        let borderColor = match read_defaulted::<String>(v, "borderColor") {
            Ok(x) => x,
            Err(e) => {
                return Err(e);
            },
        };
        let borderDash = match read_defaulted::<Vec<NumberString>>(v, "borderDash") {
            Ok(x) => x,
            Err(e) => {
                return Err(e);
            },
        };
        let borderWidth = match read_defaulted::<NumberString>(v, "borderWidth") {
            Ok(x) => x,
            Err(e) => {
                return Err(e);
            },
        };
        let drawTime = match read_defaulted::<String>(v, "drawTime") {
            Ok(x) => x,
            Err(e) => {
                return Err(e);
            },
        };
        let r_type = match read_defaulted::<BoxAnnotationType>(v, "type") {
            Ok(x) => x,
            Err(e) => {
                return Err(e);
            },
        };
        let xMax = match read_defaulted::<NumberString>(v, "xMax") {
            Ok(x) => x,
            Err(e) => {
                return Err(e);
            },
        };
        let xMin = match read_defaulted::<NumberString>(v, "xMin") {
            Ok(x) => x,
            Err(e) => {
                return Err(e);
            },
        };
        let yMax = match read_defaulted::<NumberString>(v, "yMax") {
            Ok(x) => x,
            Err(e) => {
                return Err(e);
            },
        };
        let yMin = match read_defaulted::<NumberString>(v, "yMin") {
            Ok(x) => x,
            Err(e) => {
                return Err(e);
            },
        };
        Ok(BoxAnnotation { backgroundColor, borderColor, borderDash, borderWidth, drawTime, r_type, xMax, xMin, yMax, yMin })
    }

    /// Writes the value to the wire.
    pub fn to_value(&self) -> (r: JsValue)
        ensures
            r@ == self.wire_form(),
    {
        let mut members: Vec<(String, JsValue)> = Vec::new();
        assert(members_view(members@) =~= Seq::empty());
        put_scalar(&mut members, "backgroundColor", &self.backgroundColor);
        put_scalar(&mut members, "borderColor", &self.borderColor);
        put_list(&mut members, "borderDash", &self.borderDash);
        put_scalar(&mut members, "borderWidth", &self.borderWidth);
        put_scalar(&mut members, "drawTime", &self.drawTime);
        put_always(&mut members, "type", &self.r_type);
        put_scalar(&mut members, "xMax", &self.xMax);
        put_scalar(&mut members, "xMin", &self.xMin);
        put_scalar(&mut members, "yMax", &self.yMax);
        put_scalar(&mut members, "yMin", &self.yMin);
        finish(members)
    }
}

impl Default for BoxAnnotation {
    fn default() -> (r: Self)
        ensures
            r.is_new(),
    {
        BoxAnnotation::new()
    }
}

impl Serialize for BoxAnnotation {
    open spec fn wire(&self) -> JsView {
        self.wire_form()
    }

    fn serialize(&self) -> (r: JsValue)
        ensures
            r@ == self.wire(),
    {
        self.to_value()
    }
}

impl Deserialize for BoxAnnotation {
    open spec fn readable(v: JsView) -> bool {
        Self::readable_form(v)
    }

    open spec fn reads(&self, v: JsView) -> bool {
        self.reads_form(v)
    }

    fn deserialize(v: &JsValue) -> (r: Result<Self, DecodeError>)
        ensures
            match r {
                Ok(x) => Self::readable(v@) && x.reads(v@),
                Err(_) => !Self::readable(v@),
            },
    {
        BoxAnnotation::from_value(v)
    }
}

/// The annotations that are drawn over a chart, each under a name.
#[derive(Debug, Clone, PartialEq, Eq)]
pub struct Annotations<A: Annotation> {
    pub annotations: Option<Named<A>>,
}

impl<A: Annotation> Annotations<A> {
    /// Whether every field is as `new` leaves it: nothing is set.
    pub open spec fn is_new(&self) -> bool {
        &&& self.annotations is None
    }

    /// The wire form: an object with one member for each field that is
    /// set, in the order of the fields.
    pub open spec fn wire_form(&self) -> JsView {
        JsView::Object(
            Seq::empty()
                + table_entry("annotations"@, self.annotations)
        )
    }

    /// The value with nothing set.
    pub fn new() -> (r: Self)
        ensures
            r.is_new(),
    {
        Annotations {
            annotations: None,
        }
    }

    /// The field `annotations`, to read or to change in place.
    pub fn get_annotations(&mut self) -> (r: &mut Option<Named<A>>)
        ensures
            *r == old(self).annotations,
            *final(self) == (Annotations { annotations: *final(r), ..*old(self) }),
    {
        &mut self.annotations
    }

    /// Sets `annotations`: the given values, each under its name. Of two values
    /// under one name the later one stays.
    pub fn annotations(self, value: Vec<(String, A)>) -> (r: Annotations<A>)
        ensures
            r.annotations matches Some(table) && table@ == collected(value@),
            r == (Annotations { annotations: r.annotations, ..self }),
    {
        let mut s = self;
        s.annotations = Some(Named::from_vec(value));
        s
    }

    /// Whether a wire value reads as a value of this kind: an object whose
    /// members, where they are there, read as the fields.
    pub open spec fn readable_form(v: JsView) -> bool {
        &&& v is Object
        &&& optional_readable::<Named<A>>(v, "annotations"@)
    }

    /// Whether this value is what a wire value reads as: each field is what
    /// its member reads as, or its default where the member is missing or
    /// the field is never read.
    pub open spec fn reads_form(&self, v: JsView) -> bool {
        &&& optional_reads(self.annotations, v, "annotations"@)
    }

    /// Reads the value off the wire.
    pub fn from_value(v: &JsValue) -> (r: Result<Self, DecodeError>)
        ensures
            match r {
                Ok(x) => Self::readable_form(v@) && x.reads_form(v@),
                Err(_) => !Self::readable_form(v@),
            },
    {
        match v {
            JsValue::Object(_) => {},
            _ => {
                return Err(DecodeError::Shape);
            },
        }
        let annotations = match read_optional::<Named<A>>(v, "annotations") {
            Ok(x) => x,
            Err(e) => {
                return Err(e);
            },
        };
        Ok(Annotations { annotations })
    }

    /// Writes the value to the wire.
    pub fn to_value(&self) -> (r: JsValue)
        ensures
            r@ == self.wire_form(),
    {
        let mut members: Vec<(String, JsValue)> = Vec::new();
        assert(members_view(members@) =~= Seq::empty());
        put_table(&mut members, "annotations", &self.annotations);
        finish(members)
    }
}

impl<A: Annotation> Default for Annotations<A> {
    fn default() -> (r: Self)
        ensures
            r.is_new(),
    {
        Annotations::new()
    }
}

impl<A: Annotation> Serialize for Annotations<A> {
    open spec fn wire(&self) -> JsView {
        self.wire_form()
    }

    fn serialize(&self) -> (r: JsValue)
        ensures
            r@ == self.wire(),
    {
        self.to_value()
    }
}

impl<A: Annotation> Deserialize for Annotations<A> {
    open spec fn readable(v: JsView) -> bool {
        Self::readable_form(v)
    }

    open spec fn reads(&self, v: JsView) -> bool {
        self.reads_form(v)
    }

    fn deserialize(v: &JsValue) -> (r: Result<Self, DecodeError>)
        ensures
            match r {
                Ok(x) => Self::readable(v@) && x.reads(v@),
                Err(_) => !Self::readable(v@),
            },
    {
        Annotations::from_value(v)
    }
}

/// The settings of the plugin that picks colours.
#[derive(Debug, Clone, PartialEq, Eq)]
pub struct AutoColors {
    pub mode: String,
}

impl AutoColors {
    /// Whether every field is as `new` leaves it: nothing is set.
    pub open spec fn is_new(&self) -> bool {
        &&& self.mode@.len() == 0
    }

    /// The wire form: an object with one member for each field that is
    /// set, in the order of the fields.
    pub open spec fn wire_form(&self) -> JsView {
        JsView::Object(
            Seq::empty()
                + scalar_entry("mode"@, self.mode)
        )
    }

    /// The value with nothing set.
    pub fn new() -> (r: Self)
        ensures
            r.is_new(),
    {
        AutoColors {
            mode: String::new(),
        }
    }

    /// The field `mode`, to read or to change in place.
    pub fn get_mode(&mut self) -> (r: &mut String)
        ensures
            *r == old(self).mode,
            *final(self) == (AutoColors { mode: *final(r), ..*old(self) }),
    {
        &mut self.mode
    }

    /// Sets `mode`.
    pub fn mode<V: Into<String>>(self, value: V) -> (r: AutoColors)
        ensures
            call_ensures(<V as Into<String>>::into, (value,), r.mode),
            r == (AutoColors { mode: r.mode, ..self }),
    {
        let mut s = self;
        s.mode = value.into();
        s
    }

    /// Whether a wire value reads as a value of this kind: an object whose
    /// members, where they are there, read as the fields.
    pub open spec fn readable_form(v: JsView) -> bool {
        &&& v is Object
        &&& defaulted_readable::<String>(v, "mode"@)
    }

    /// Whether this value is what a wire value reads as: each field is what
    /// its member reads as, or its default where the member is missing or
    /// the field is never read.
    pub open spec fn reads_form(&self, v: JsView) -> bool {
        &&& defaulted_reads(self.mode, v, "mode"@)
    }

    /// Reads the value off the wire.
    pub fn from_value(v: &JsValue) -> (r: Result<Self, DecodeError>)
        ensures
            match r {
                Ok(x) => Self::readable_form(v@) && x.reads_form(v@),
                Err(_) => !Self::readable_form(v@),
            },
    {
        match v {
            JsValue::Object(_) => {},
            _ => {
                return Err(DecodeError::Shape);
            },
        }
        let mode = match read_defaulted::<String>(v, "mode") {
            Ok(x) => x,
            Err(e) => {
                return Err(e);
            },
        };
        Ok(AutoColors { mode })
    }

    /// Writes the value to the wire.
    pub fn to_value(&self) -> (r: JsValue)
        ensures
            r@ == self.wire_form(),
    {
        let mut members: Vec<(String, JsValue)> = Vec::new();
        assert(members_view(members@) =~= Seq::empty());
        put_scalar(&mut members, "mode", &self.mode);
        finish(members)
    }
}

impl Default for AutoColors {
    fn default() -> (r: Self)
        ensures
            r.is_new(),
    {
        AutoColors::new()
    }
}

impl Serialize for AutoColors {
    open spec fn wire(&self) -> JsView {
        self.wire_form()
    }

    fn serialize(&self) -> (r: JsValue)
        ensures
            r@ == self.wire(),
    {
        self.to_value()
    }
}

impl Deserialize for AutoColors {
    open spec fn readable(v: JsView) -> bool {
        Self::readable_form(v)
    }

    open spec fn reads(&self, v: JsView) -> bool {
        self.reads_form(v)
    }

    fn deserialize(v: &JsValue) -> (r: Result<Self, DecodeError>)
        ensures
            match r {
                Ok(x) => Self::readable(v@) && x.reads(v@),
                Err(_) => !Self::readable(v@),
            },
    {
        AutoColors::from_value(v)
    }
}
} // verus!
