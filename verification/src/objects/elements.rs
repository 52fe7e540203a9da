use vstd::prelude::*;
use crate::decode::{
    defaulted_readable, defaulted_reads, optional_readable, optional_reads, read_defaulted,
    read_optional,
};
use crate::entries::{finish, option_entry, put_option, put_scalar, scalar_entry};
use crate::scalar::NumberString;
use crate::value::{members_view, JsValue, JsView};
use crate::wire::{DecodeError, Deserialize, Serialize};

verus! {

/// The defaults of bars.
#[derive(Debug, Clone, PartialEq, Eq)]
pub struct BarElementConfiguration {
    pub borderRadius: NumberString,
    pub borderWidth: NumberString,
    pub fill: Option<bool>,
    pub hoverBorderWidth: NumberString,
}

impl BarElementConfiguration {
    /// Whether every field is as `new` leaves it: nothing is set.
    pub open spec fn is_new(&self) -> bool {
        &&& self.borderRadius@.len() == 0
        &&& self.borderWidth@.len() == 0
        &&& self.fill is None
        &&& self.hoverBorderWidth@.len() == 0
    }

    /// The wire form: an object with one member for each field that is
    /// set, in the order of the fields.
    pub open spec fn wire_form(&self) -> JsView {
        JsView::Object(
            Seq::empty()
                + scalar_entry("borderRadius"@, self.borderRadius)
                + scalar_entry("borderWidth"@, self.borderWidth)
                + option_entry("fill"@, self.fill)
                + scalar_entry("hoverBorderWidth"@, self.hoverBorderWidth)
        )
    }

    /// The value with nothing set.
    pub fn new() -> (r: Self)
        ensures
            r.is_new(),
    {
        BarElementConfiguration {
            borderRadius: NumberString::default(),
            borderWidth: NumberString::default(),
            fill: None,
            hoverBorderWidth: NumberString::default(),
        }
    }

    /// The field `borderRadius`, to read or to change in place.
    pub fn get_border_radius(&mut self) -> (r: &mut NumberString)
        ensures
            *r == old(self).borderRadius,
            *final(self) == (BarElementConfiguration { borderRadius: *final(r), ..*old(self) }),
    {
        &mut self.borderRadius
    }

    /// Sets `borderRadius`.
    pub fn border_radius<V: Into<NumberString>>(self, value: V) -> (r: BarElementConfiguration)
        ensures
            call_ensures(<V as Into<NumberString>>::into, (value,), r.borderRadius),
            r == (BarElementConfiguration { borderRadius: r.borderRadius, ..self }),
    {
        let mut s = self;
        s.borderRadius = value.into();
        s
    }

    /// The field `borderWidth`, to read or to change in place.
    pub fn get_border_width(&mut self) -> (r: &mut NumberString)
        ensures
            *r == old(self).borderWidth,
            *final(self) == (BarElementConfiguration { borderWidth: *final(r), ..*old(self) }),
    {
        &mut self.borderWidth
    }

    /// Sets `borderWidth`.
    pub fn border_width<V: Into<NumberString>>(self, value: V) -> (r: BarElementConfiguration)
        ensures
            call_ensures(<V as Into<NumberString>>::into, (value,), r.borderWidth),
            r == (BarElementConfiguration { borderWidth: r.borderWidth, ..self }),
    {
        let mut s = self;
        s.borderWidth = value.into();
        s
    }

    /// The field `fill`, to read or to change in place.
    pub fn get_fill(&mut self) -> (r: &mut Option<bool>)
        ensures
            *r == old(self).fill,
            *final(self) == (BarElementConfiguration { fill: *final(r), ..*old(self) }),
    {
        &mut self.fill
    }

    /// Sets `fill`.
    pub fn fill<V: Into<bool>>(self, value: V) -> (r: BarElementConfiguration)
        ensures
            r.fill matches Some(x) && call_ensures(<V as Into<bool>>::into, (value,), x),
            r == (BarElementConfiguration { fill: r.fill, ..self }),
    {
        let mut s = self;
        s.fill = Some(value.into());
        s
    }

    /// The field `hoverBorderWidth`, to read or to change in place.
    pub fn get_hover_border_width(&mut self) -> (r: &mut NumberString)
        ensures
            *r == old(self).hoverBorderWidth,
            *final(self) == (BarElementConfiguration { hoverBorderWidth: *final(r), ..*old(self) }),
    {
        &mut self.hoverBorderWidth
    }

    /// Sets `hoverBorderWidth`.
    pub fn hover_border_width<V: Into<NumberString>>(self, value: V) -> (r: BarElementConfiguration)
        ensures
            call_ensures(<V as Into<NumberString>>::into, (value,), r.hoverBorderWidth),
            r == (BarElementConfiguration { hoverBorderWidth: r.hoverBorderWidth, ..self }),
    {
        let mut s = self;
        s.hoverBorderWidth = value.into();
        s
    }

    /// Whether a wire value reads as a value of this kind: an object whose
    /// members, where they are there, read as the fields.
    pub open spec fn readable_form(v: JsView) -> bool {
        &&& v is Object
        &&& defaulted_readable::<NumberString>(v, "borderRadius"@)
        &&& defaulted_readable::<NumberString>(v, "borderWidth"@)
        &&& optional_readable::<bool>(v, "fill"@)
        &&& defaulted_readable::<NumberString>(v, "hoverBorderWidth"@)
    }

    /// Whether this value is what a wire value reads as: each field is what
    /// its member reads as, or its default where the member is missing or
    /// the field is never read.
    pub open spec fn reads_form(&self, v: JsView) -> bool {
        &&& defaulted_reads(self.borderRadius, v, "borderRadius"@)
        &&& defaulted_reads(self.borderWidth, v, "borderWidth"@)
        &&& optional_reads(self.fill, v, "fill"@)
        &&& defaulted_reads(self.hoverBorderWidth, v, "hoverBorderWidth"@)
    }

    /// Reads the value off the wire.
    pub fn from_value(v: &JsValue) -> (r: Result<Self, DecodeError>)
        ensures
            match r {
                Ok(x) => Self::readable_form(v@) && x.reads_form(v@),
                Err(_) => !Self::readable_form(v@),
            },
    {
        match v {
            JsValue::Object(_) => {},
            _ => {
                return Err(DecodeError::Shape);
            },
        }
        let borderRadius = match read_defaulted::<NumberString>(v, "borderRadius") {
            Ok(x) => x,
            Err(e) => {
                return Err(e);
            },
        };
        let borderWidth = match read_defaulted::<NumberString>(v, "borderWidth") {
            Ok(x) => x,
            Err(e) => {
                return Err(e);
            },
        };
        let fill = match read_optional::<bool>(v, "fill") {
            Ok(x) => x,
            Err(e) => {
                return Err(e);
            },
        };
        let hoverBorderWidth = match read_defaulted::<NumberString>(v, "hoverBorderWidth") {
            Ok(x) => x,
            Err(e) => {
                return Err(e);
            },
        };
        Ok(BarElementConfiguration { borderRadius, borderWidth, fill, hoverBorderWidth })
    }

    /// Writes the value to the wire.
    pub fn to_value(&self) -> (r: JsValue)
        ensures
            r@ == self.wire_form(),
    {
        let mut members: Vec<(String, JsValue)> = Vec::new();
        assert(members_view(members@) =~= Seq::empty());
        put_scalar(&mut members, "borderRadius", &self.borderRadius);
        put_scalar(&mut members, "borderWidth", &self.borderWidth);
        put_option(&mut members, "fill", &self.fill);
        put_scalar(&mut members, "hoverBorderWidth", &self.hoverBorderWidth);
        finish(members)
    }
}

impl Default for BarElementConfiguration {
    fn default() -> (r: Self)
        ensures
            r.is_new(),
    {
        BarElementConfiguration::new()
    }
}

impl Serialize for BarElementConfiguration {
    open spec fn wire(&self) -> JsView {
        self.wire_form()
    }

    fn serialize(&self) -> (r: JsValue)
        ensures
            r@ == self.wire(),
    {
        self.to_value()
    }
}

impl Deserialize for BarElementConfiguration {
    open spec fn readable(v: JsView) -> bool {
        Self::readable_form(v)
    }

    open spec fn reads(&self, v: JsView) -> bool {
        self.reads_form(v)
    }

    fn deserialize(v: &JsValue) -> (r: Result<Self, DecodeError>)
        ensures
            match r {
                Ok(x) => Self::readable(v@) && x.reads(v@),
                Err(_) => !Self::readable(v@),
            },
    {
        BarElementConfiguration::from_value(v)
    }
}

/// The defaults of lines.
#[derive(Debug, Clone, PartialEq, Eq)]
pub struct LineElementConfiguration {
    pub borderWidth: NumberString,
    pub cubicInterpolationMode: String,
    pub fill: Option<bool>,
}

impl LineElementConfiguration {
    /// Whether every field is as `new` leaves it: nothing is set.
    pub open spec fn is_new(&self) -> bool {
        &&& self.borderWidth@.len() == 0
        &&& self.cubicInterpolationMode@.len() == 0
        &&& self.fill is None
    }

    /// The wire form: an object with one member for each field that is
    /// set, in the order of the fields.
    pub open spec fn wire_form(&self) -> JsView {
        JsView::Object(
            Seq::empty()
                + scalar_entry("borderWidth"@, self.borderWidth)
                + scalar_entry("cubicInterpolationMode"@, self.cubicInterpolationMode)
                + option_entry("fill"@, self.fill)
        )
    }

    /// The value with nothing set.
    pub fn new() -> (r: Self)
        ensures
            r.is_new(),
    {
        LineElementConfiguration {
            borderWidth: NumberString::default(),
            cubicInterpolationMode: String::new(),
            fill: None,
        }
    }

    /// The field `borderWidth`, to read or to change in place.
    pub fn get_border_width(&mut self) -> (r: &mut NumberString)
        ensures
            *r == old(self).borderWidth,
            *final(self) == (LineElementConfiguration { borderWidth: *final(r), ..*old(self) }),
    {
        &mut self.borderWidth
    }

    /// Sets `borderWidth`.
    pub fn border_width<V: Into<NumberString>>(self, value: V) -> (r: LineElementConfiguration)
        ensures
            call_ensures(<V as Into<NumberString>>::into, (value,), r.borderWidth),
            r == (LineElementConfiguration { borderWidth: r.borderWidth, ..self }),
    {
        let mut s = self;
        s.borderWidth = value.into();
        s
    }

    /// The field `cubicInterpolationMode`, to read or to change in place.
    pub fn get_cubic_interpolation_mode(&mut self) -> (r: &mut String)
        ensures
            *r == old(self).cubicInterpolationMode,
            *final(self) == (LineElementConfiguration { cubicInterpolationMode: *final(r), ..*old(self) }),
    {
        &mut self.cubicInterpolationMode
    }

    /// Sets `cubicInterpolationMode`.
    pub fn cubic_interpolation_mode<V: Into<String>>(self, value: V) -> (r: LineElementConfiguration)
        ensures
            call_ensures(<V as Into<String>>::into, (value,), r.cubicInterpolationMode),
            r == (LineElementConfiguration { cubicInterpolationMode: r.cubicInterpolationMode, ..self }),
    {
        let mut s = self;
        s.cubicInterpolationMode = value.into();
        s
    }

    /// The field `fill`, to read or to change in place.
    pub fn get_fill(&mut self) -> (r: &mut Option<bool>)
        ensures
            *r == old(self).fill,
            *final(self) == (LineElementConfiguration { fill: *final(r), ..*old(self) }),
    {
        &mut self.fill
    }

    /// Sets `fill`.
    pub fn fill<V: Into<bool>>(self, value: V) -> (r: LineElementConfiguration)
        ensures
            r.fill matches Some(x) && call_ensures(<V as Into<bool>>::into, (value,), x),
            r == (LineElementConfiguration { fill: r.fill, ..self }),
    {
        let mut s = self;
        s.fill = Some(value.into());
        s
    }

    /// Whether a wire value reads as a value of this kind: an object whose
    /// members, where they are there, read as the fields.
    pub open spec fn readable_form(v: JsView) -> bool {
        &&& v is Object
        &&& defaulted_readable::<NumberString>(v, "borderWidth"@)
        &&& defaulted_readable::<String>(v, "cubicInterpolationMode"@)
        &&& optional_readable::<bool>(v, "fill"@)
    }

    /// Whether this value is what a wire value reads as: each field is what
    /// its member reads as, or its default where the member is missing or
    /// the field is never read.
    pub open spec fn reads_form(&self, v: JsView) -> bool {
        &&& defaulted_reads(self.borderWidth, v, "borderWidth"@)
        &&& defaulted_reads(self.cubicInterpolationMode, v, "cubicInterpolationMode"@)
        &&& optional_reads(self.fill, v, "fill"@)
    }

    /// Reads the value off the wire.
    pub fn from_value(v: &JsValue) -> (r: Result<Self, DecodeError>)
        ensures
            match r {
                Ok(x) => Self::readable_form(v@) && x.reads_form(v@),
                Err(_) => !Self::readable_form(v@),
            },
    {
        match v {
            JsValue::Object(_) => {},
            _ => {
                return Err(DecodeError::Shape);
            },
        }
        let borderWidth = match read_defaulted::<NumberString>(v, "borderWidth") {
            Ok(x) => x,
            Err(e) => {
                return Err(e);
            },
        };
        let cubicInterpolationMode = match read_defaulted::<String>(v, "cubicInterpolationMode") {
            Ok(x) => x,
            Err(e) => {
                return Err(e);
            },
        };
        let fill = match read_optional::<bool>(v, "fill") {
            Ok(x) => x,
            Err(e) => {
                return Err(e);
            },
        };
        Ok(LineElementConfiguration { borderWidth, cubicInterpolationMode, fill })
    }

    /// Writes the value to the wire.
    pub fn to_value(&self) -> (r: JsValue)
        ensures
            r@ == self.wire_form(),
    {
        let mut members: Vec<(String, JsValue)> = Vec::new();
        assert(members_view(members@) =~= Seq::empty());
        put_scalar(&mut members, "borderWidth", &self.borderWidth);
        put_scalar(&mut members, "cubicInterpolationMode", &self.cubicInterpolationMode);
        put_option(&mut members, "fill", &self.fill);
        finish(members)
    }
}

impl Default for LineElementConfiguration {
    fn default() -> (r: Self)
        ensures
            r.is_new(),
    {
        LineElementConfiguration::new()
    }
}

impl Serialize for LineElementConfiguration {
    open spec fn wire(&self) -> JsView {
        self.wire_form()
    }

    fn serialize(&self) -> (r: JsValue)
        ensures
            r@ == self.wire(),
    {
        self.to_value()
    }
}

impl Deserialize for LineElementConfiguration {
    open spec fn readable(v: JsView) -> bool {
        Self::readable_form(v)
    }

    open spec fn reads(&self, v: JsView) -> bool {
        self.reads_form(v)
    }

    fn deserialize(v: &JsValue) -> (r: Result<Self, DecodeError>)
        ensures
            match r {
                Ok(x) => Self::readable(v@) && x.reads(v@),
                Err(_) => !Self::readable(v@),
            },
    {
        LineElementConfiguration::from_value(v)
    }
}

/// The defaults of points.
#[derive(Debug, Clone, PartialEq, Eq)]
pub struct PointElementConfiguration {
    pub borderWidth: NumberString,
    pub hitRadius: NumberString,
    pub hoverBorderWidth: NumberString,
    pub hoverRadius: NumberString,
    pub radius: NumberString,
}

impl PointElementConfiguration {
    /// Whether every field is as `new` leaves it: nothing is set.
    pub open spec fn is_new(&self) -> bool {
        &&& self.borderWidth@.len() == 0
        &&& self.hitRadius@.len() == 0
        &&& self.hoverBorderWidth@.len() == 0
        &&& self.hoverRadius@.len() == 0
        &&& self.radius@.len() == 0
    }

    /// The wire form: an object with one member for each field that is
    /// set, in the order of the fields.
    pub open spec fn wire_form(&self) -> JsView {
        JsView::Object(
            Seq::empty()
                + scalar_entry("borderWidth"@, self.borderWidth)
                + scalar_entry("hitRadius"@, self.hitRadius)
                + scalar_entry("hoverBorderWidth"@, self.hoverBorderWidth)
                + scalar_entry("hoverRadius"@, self.hoverRadius)
                + scalar_entry("radius"@, self.radius)
        )
    }

    /// The value with nothing set.
    pub fn new() -> (r: Self)
        ensures
            r.is_new(),
    {
        PointElementConfiguration {
            borderWidth: NumberString::default(),
            hitRadius: NumberString::default(),
            hoverBorderWidth: NumberString::default(),
            hoverRadius: NumberString::default(),
            radius: NumberString::default(),
        }
    }

    /// The field `borderWidth`, to read or to change in place.
    pub fn get_border_width(&mut self) -> (r: &mut NumberString)
        ensures
            *r == old(self).borderWidth,
            *final(self) == (PointElementConfiguration { borderWidth: *final(r), ..*old(self) }),
    {
        &mut self.borderWidth
    }

    /// Sets `borderWidth`.
    pub fn border_width<V: Into<NumberString>>(self, value: V) -> (r: PointElementConfiguration)
        ensures
            call_ensures(<V as Into<NumberString>>::into, (value,), r.borderWidth),
            r == (PointElementConfiguration { borderWidth: r.borderWidth, ..self }),
    {
        let mut s = self;
        s.borderWidth = value.into();
        s
    }

    /// The field `hitRadius`, to read or to change in place.
    pub fn get_hit_radius(&mut self) -> (r: &mut NumberString)
        ensures
            *r == old(self).hitRadius,
            *final(self) == (PointElementConfiguration { hitRadius: *final(r), ..*old(self) }),
    {
        &mut self.hitRadius
    }

    /// Sets `hitRadius`.
    pub fn hit_radius<V: Into<NumberString>>(self, value: V) -> (r: PointElementConfiguration)
        ensures
            call_ensures(<V as Into<NumberString>>::into, (value,), r.hitRadius),
            r == (PointElementConfiguration { hitRadius: r.hitRadius, ..self }),
    {
        let mut s = self;
        s.hitRadius = value.into();
        s
    }

    /// The field `hoverBorderWidth`, to read or to change in place.
    pub fn get_hover_border_width(&mut self) -> (r: &mut NumberString)
        ensures
            *r == old(self).hoverBorderWidth,
            *final(self) == (PointElementConfiguration { hoverBorderWidth: *final(r), ..*old(self) }),
    {
        &mut self.hoverBorderWidth
    }

    /// Sets `hoverBorderWidth`.
    pub fn hover_border_width<V: Into<NumberString>>(self, value: V) -> (r: PointElementConfiguration)
        ensures
            call_ensures(<V as Into<NumberString>>::into, (value,), r.hoverBorderWidth),
            r == (PointElementConfiguration { hoverBorderWidth: r.hoverBorderWidth, ..self }),
    {
        let mut s = self;
        s.hoverBorderWidth = value.into();
        s
    }

    /// The field `hoverRadius`, to read or to change in place.
    pub fn get_hover_radius(&mut self) -> (r: &mut NumberString)
        ensures
            *r == old(self).hoverRadius,
            *final(self) == (PointElementConfiguration { hoverRadius: *final(r), ..*old(self) }),
    {
        &mut self.hoverRadius
    }

    /// Sets `hoverRadius`.
    pub fn hover_radius<V: Into<NumberString>>(self, value: V) -> (r: PointElementConfiguration)
        ensures
            call_ensures(<V as Into<NumberString>>::into, (value,), r.hoverRadius),
            r == (PointElementConfiguration { hoverRadius: r.hoverRadius, ..self }),
    {
        let mut s = self;
        s.hoverRadius = value.into();
        s
    }

    /// The field `radius`, to read or to change in place.
    pub fn get_radius(&mut self) -> (r: &mut NumberString)
        ensures
            *r == old(self).radius,
            *final(self) == (PointElementConfiguration { radius: *final(r), ..*old(self) }),
    {
        &mut self.radius
    }

    /// Sets `radius`.
    pub fn radius<V: Into<NumberString>>(self, value: V) -> (r: PointElementConfiguration)
        ensures
            call_ensures(<V as Into<NumberString>>::into, (value,), r.radius),
            r == (PointElementConfiguration { radius: r.radius, ..self }),
    {
        let mut s = self;
        s.radius = value.into();
        s
    }

    /// Whether a wire value reads as a value of this kind: an object whose
    /// members, where they are there, read as the fields.
    pub open spec fn readable_form(v: JsView) -> bool {
        &&& v is Object
        &&& defaulted_readable::<NumberString>(v, "borderWidth"@)
        &&& defaulted_readable::<NumberString>(v, "hitRadius"@)
        &&& defaulted_readable::<NumberString>(v, "hoverBorderWidth"@)
        &&& defaulted_readable::<NumberString>(v, "hoverRadius"@)
        &&& defaulted_readable::<NumberString>(v, "radius"@)
    }

    /// Whether this value is what a wire value reads as: each field is what
    /// its member reads as, or its default where the member is missing or
    /// the field is never read.
    pub open spec fn reads_form(&self, v: JsView) -> bool {
        &&& defaulted_reads(self.borderWidth, v, "borderWidth"@)
        &&& defaulted_reads(self.hitRadius, v, "hitRadius"@)
        &&& defaulted_reads(self.hoverBorderWidth, v, "hoverBorderWidth"@)
        &&& defaulted_reads(self.hoverRadius, v, "hoverRadius"@)
        &&& defaulted_reads(self.radius, v, "radius"@)
    }

    /// Reads the value off the wire.
    pub fn from_value(v: &JsValue) -> (r: Result<Self, DecodeError>)
        ensures
            match r {
                Ok(x) => Self::readable_form(v@) && x.reads_form(v@),
                Err(_) => !Self::readable_form(v@),
            },
    {
        match v {
            JsValue::Object(_) => {},
            _ => {
                return Err(DecodeError::Shape);
            },
        }
        let borderWidth = match read_defaulted::<NumberString>(v, "borderWidth") {
            Ok(x) => x,
            Err(e) => {
                return Err(e);
            },
        };
        let hitRadius = match read_defaulted::<NumberString>(v, "hitRadius") {
            Ok(x) => x,
            Err(e) => {
                return Err(e);
            },
        };
        let hoverBorderWidth = match read_defaulted::<NumberString>(v, "hoverBorderWidth") {
            Ok(x) => x,
            Err(e) => {
                return Err(e);
            },
        };
        let hoverRadius = match read_defaulted::<NumberString>(v, "hoverRadius") {
            Ok(x) => x,
            Err(e) => {
                return Err(e);
            },
        };
        let radius = match read_defaulted::<NumberString>(v, "radius") {
            Ok(x) => x,
            Err(e) => {
                return Err(e);
            },
        };
        Ok(PointElementConfiguration { borderWidth, hitRadius, hoverBorderWidth, hoverRadius, radius })
    }

    /// Writes the value to the wire.
    pub fn to_value(&self) -> (r: JsValue)
        ensures
            r@ == self.wire_form(),
    {
        let mut members: Vec<(String, JsValue)> = Vec::new();
        assert(members_view(members@) =~= Seq::empty());
        put_scalar(&mut members, "borderWidth", &self.borderWidth);
        put_scalar(&mut members, "hitRadius", &self.hitRadius);
        put_scalar(&mut members, "hoverBorderWidth", &self.hoverBorderWidth);
        put_scalar(&mut members, "hoverRadius", &self.hoverRadius);
        put_scalar(&mut members, "radius", &self.radius);
        finish(members)
    }
}

impl Default for PointElementConfiguration {
    fn default() -> (r: Self)
        ensures
            r.is_new(),
    {
        PointElementConfiguration::new()
    }
}

impl Serialize for PointElementConfiguration {
    open spec fn wire(&self) -> JsView {
        self.wire_form()
    }

    fn serialize(&self) -> (r: JsValue)
        ensures
            r@ == self.wire(),
    {
        self.to_value()
    }
}

impl Deserialize for PointElementConfiguration {
    open spec fn readable(v: JsView) -> bool {
        Self::readable_form(v)
    }

    open spec fn reads(&self, v: JsView) -> bool {
        self.reads_form(v)
    }

    fn deserialize(v: &JsValue) -> (r: Result<Self, DecodeError>)
        ensures
            match r {
                Ok(x) => Self::readable(v@) && x.reads(v@),
                Err(_) => !Self::readable(v@),
            },
    {
        PointElementConfiguration::from_value(v)
    }
}

/// The defaults of the elements that a chart is drawn with.
#[derive(Debug, Clone, PartialEq, Eq)]
pub struct ChartElements {
    pub bar: Option<BarElementConfiguration>,
    pub line: Option<LineElementConfiguration>,
    pub point: Option<PointElementConfiguration>,
}

impl ChartElements {
    /// Whether every field is as `new` leaves it: nothing is set.
    pub open spec fn is_new(&self) -> bool {
        &&& self.bar is None
        &&& self.line is None
        &&& self.point is None
    }

    /// The wire form: an object with one member for each field that is
    /// set, in the order of the fields.
    pub open spec fn wire_form(&self) -> JsView {
        JsView::Object(
            Seq::empty()
                + option_entry("bar"@, self.bar)
                + option_entry("line"@, self.line)
                + option_entry("point"@, self.point)
        )
    }

    /// The value with nothing set.
    pub fn new() -> (r: Self)
        ensures
            r.is_new(),
    {
        ChartElements {
            bar: None,
            line: None,
            point: None,
        }
    }

    /// The field `bar`, to read or to change in place.
    pub fn get_bar(&mut self) -> (r: &mut Option<BarElementConfiguration>)
        ensures
            *r == old(self).bar,
            *final(self) == (ChartElements { bar: *final(r), ..*old(self) }),
    {
        &mut self.bar
    }

    /// Sets `bar`.
    pub fn bar<V: Into<BarElementConfiguration>>(self, value: V) -> (r: ChartElements)
        ensures
            r.bar matches Some(x) && call_ensures(<V as Into<BarElementConfiguration>>::into, (value,), x),
            r == (ChartElements { bar: r.bar, ..self }),
    {
        let mut s = self;
        s.bar = Some(value.into());
        s
    }

    /// The field `line`, to read or to change in place.
    pub fn get_line(&mut self) -> (r: &mut Option<LineElementConfiguration>)
        ensures
            *r == old(self).line,
            *final(self) == (ChartElements { line: *final(r), ..*old(self) }),
    {
        &mut self.line
    }

    /// Sets `line`.
    pub fn line<V: Into<LineElementConfiguration>>(self, value: V) -> (r: ChartElements)
        ensures
            r.line matches Some(x) && call_ensures(<V as Into<LineElementConfiguration>>::into, (value,), x),
            r == (ChartElements { line: r.line, ..self }),
    {
        let mut s = self;
        s.line = Some(value.into());
        s
    }

    /// The field `point`, to read or to change in place.
    pub fn get_point(&mut self) -> (r: &mut Option<PointElementConfiguration>)
        ensures
            *r == old(self).point,
            *final(self) == (ChartElements { point: *final(r), ..*old(self) }),
    {
        &mut self.point
    }

    /// Sets `point`.
    pub fn point<V: Into<PointElementConfiguration>>(self, value: V) -> (r: ChartElements)
        ensures
            r.point matches Some(x) && call_ensures(<V as Into<PointElementConfiguration>>::into, (value,), x),
            r == (ChartElements { point: r.point, ..self }),
    {
        let mut s = self;
        s.point = Some(value.into());
        s
    }

    /// Whether a wire value reads as a value of this kind: an object whose
    /// members, where they are there, read as the fields.
    pub open spec fn readable_form(v: JsView) -> bool {
        &&& v is Object
        &&& optional_readable::<BarElementConfiguration>(v, "bar"@)
        &&& optional_readable::<LineElementConfiguration>(v, "line"@)
        &&& optional_readable::<PointElementConfiguration>(v, "point"@)
    }

    /// Whether this value is what a wire value reads as: each field is what
    /// its member reads as, or its default where the member is missing or
    /// the field is never read.
    pub open spec fn reads_form(&self, v: JsView) -> bool {
        &&& optional_reads(self.bar, v, "bar"@)
        &&& optional_reads(self.line, v, "line"@)
        &&& optional_reads(self.point, v, "point"@)
    }

    /// Reads the value off the wire.
    pub fn from_value(v: &JsValue) -> (r: Result<Self, DecodeError>)
        ensures
            match r {
                Ok(x) => Self::readable_form(v@) && x.reads_form(v@),
                Err(_) => !Self::readable_form(v@),
            },
    {
        match v {
            JsValue::Object(_) => {},
            _ => {
                return Err(DecodeError::Shape);
            },
        }
        let bar = match read_optional::<BarElementConfiguration>(v, "bar") {
            Ok(x) => x,
            Err(e) => {
                return Err(e);
            },
        };
        let line = match read_optional::<LineElementConfiguration>(v, "line") {
            Ok(x) => x,
            Err(e) => {
                return Err(e);
            },
        };
        let point = match read_optional::<PointElementConfiguration>(v, "point") {
            Ok(x) => x,
            Err(e) => {
                return Err(e);
            },
        };
        Ok(ChartElements { bar, line, point })
    }

    /// Writes the value to the wire.
    pub fn to_value(&self) -> (r: JsValue)
        ensures
            r@ == self.wire_form(),
    {
        let mut members: Vec<(String, JsValue)> = Vec::new();
        assert(members_view(members@) =~= Seq::empty());
        put_option(&mut members, "bar", &self.bar);
        put_option(&mut members, "line", &self.line);
        put_option(&mut members, "point", &self.point);
        finish(members)
    }
}

impl Default for ChartElements {
    fn default() -> (r: Self)
        ensures
            r.is_new(),
    {
        ChartElements::new()
    }
}

impl Serialize for ChartElements {
    open spec fn wire(&self) -> JsView {
        self.wire_form()
    }

    fn serialize(&self) -> (r: JsValue)
        ensures
            r@ == self.wire(),
    {
        self.to_value()
    }
}

impl Deserialize for ChartElements {
    open spec fn readable(v: JsView) -> bool {
        Self::readable_form(v)
    }

    open spec fn reads(&self, v: JsView) -> bool {
        self.reads_form(v)
    }

    fn deserialize(v: &JsValue) -> (r: Result<Self, DecodeError>)
        ensures
            match r {
                Ok(x) => Self::readable(v@) && x.reads(v@),
                Err(_) => !Self::readable(v@),
            },
    {
        ChartElements::from_value(v)
    }
}
} // verus!
