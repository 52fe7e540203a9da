use vstd::prelude::*;
use crate::callback::{fresh, FnWithArgs};
use crate::decode::{
    defaulted_readable, defaulted_reads, optional_readable, optional_reads, read_defaulted,
    read_optional, read_skipped, skipped_reads,
};
use crate::entries::{finish, option_entry, put_option, put_scalar, scalar_entry};
use crate::objects::style::Font;
use crate::scalar::NumberString;
use crate::value::{members_view, JsValue, JsView};
use crate::wire::{DecodeError, Deserialize, Serialize};

verus! {

/// The labels of a legend.
#[derive(Debug, Clone, PartialEq, Eq)]
pub struct LegendLabel {
    pub boxHeight: Option<u32>,
    pub boxWidth: Option<u32>,
    pub filter: FnWithArgs<2>,
    pub font: Option<Font>,
    pub pointStyle: String,
    pub pointStyleWidth: NumberString,
    pub useBorderRadius: Option<bool>,
    pub usePointStyle: Option<bool>,
}

impl LegendLabel {
    /// Whether every field is as `new` leaves it: nothing is set.
    pub open spec fn is_new(&self) -> bool {
        &&& self.boxHeight is None
        &&& self.boxWidth is None
        &&& self.filter@ == fresh(2)
        &&& self.font is None
        &&& self.pointStyle@.len() == 0
        &&& self.pointStyleWidth@.len() == 0
        &&& self.useBorderRadius is None
        &&& self.usePointStyle is None
    }

    /// The wire form: an object with one member for each field that is
    /// set, in the order of the fields.
    pub open spec fn wire_form(&self) -> JsView {
        JsView::Object(
            Seq::empty()
                + option_entry("boxHeight"@, self.boxHeight)
                + option_entry("boxWidth"@, self.boxWidth)
                + scalar_entry("filter"@, self.filter)
                + option_entry("font"@, self.font)
                + scalar_entry("pointStyle"@, self.pointStyle)
                + scalar_entry("pointStyleWidth"@, self.pointStyleWidth)
                + option_entry("useBorderRadius"@, self.useBorderRadius)
                + option_entry("usePointStyle"@, self.usePointStyle)
        )
    }

    /// The value with nothing set.
    pub fn new() -> (r: Self)
        ensures
            r.is_new(),
    {
        LegendLabel {
            boxHeight: None,
            boxWidth: None,
            filter: FnWithArgs::new(),
            font: None,
            pointStyle: String::new(),
            pointStyleWidth: NumberString::default(),
            useBorderRadius: None,
            usePointStyle: None,
        }
    }

    /// The field `boxHeight`, to read or to change in place.
    pub fn get_box_height(&mut self) -> (r: &mut Option<u32>)
        ensures
            *r == old(self).boxHeight,
            *final(self) == (LegendLabel { boxHeight: *final(r), ..*old(self) }),
    {
        &mut self.boxHeight
    }

    /// Sets `boxHeight`.
    pub fn box_height<V: Into<u32>>(self, value: V) -> (r: LegendLabel)
        ensures
            r.boxHeight matches Some(x) && call_ensures(<V as Into<u32>>::into, (value,), x),
            r == (LegendLabel { boxHeight: r.boxHeight, ..self }),
    {
        let mut s = self;
        s.boxHeight = Some(value.into());
        s
    }

    /// The field `boxWidth`, to read or to change in place.
    pub fn get_box_width(&mut self) -> (r: &mut Option<u32>)
        ensures
            *r == old(self).boxWidth,
            *final(self) == (LegendLabel { boxWidth: *final(r), ..*old(self) }),
    {
        &mut self.boxWidth
    }

    /// Sets `boxWidth`.
    pub fn box_width<V: Into<u32>>(self, value: V) -> (r: LegendLabel)
        ensures
            r.boxWidth matches Some(x) && call_ensures(<V as Into<u32>>::into, (value,), x),
            r == (LegendLabel { boxWidth: r.boxWidth, ..self }),
    {
        let mut s = self;
        s.boxWidth = Some(value.into());
        s
    }

    /// The field `filter`, to read or to change in place.
    pub fn get_filter(&mut self) -> (r: &mut FnWithArgs<2>)
        ensures
            *r == old(self).filter,
            *final(self) == (LegendLabel { filter: *final(r), ..*old(self) }),
    {
        &mut self.filter
    }

    /// Sets `filter`.
    pub fn filter<V: Into<FnWithArgs<2>>>(self, value: V) -> (r: LegendLabel)
        ensures
            call_ensures(<V as Into<FnWithArgs<2>>>::into, (value,), r.filter),
            r == (LegendLabel { filter: r.filter, ..self }),
    {
        let mut s = self;
        s.filter = value.into();
        s
    }

    /// The field `font`, to read or to change in place.
    pub fn get_font(&mut self) -> (r: &mut Option<Font>)
        ensures
            *r == old(self).font,
            *final(self) == (LegendLabel { font: *final(r), ..*old(self) }),
    {
        &mut self.font
    }

    /// Sets `font`.
    pub fn font<V: Into<Font>>(self, value: V) -> (r: LegendLabel)
        ensures
            r.font matches Some(x) && call_ensures(<V as Into<Font>>::into, (value,), x),
            r == (LegendLabel { font: r.font, ..self }),
    {
        let mut s = self;
        s.font = Some(value.into());
        s
    }

    /// The field `pointStyle`, to read or to change in place.
    pub fn get_point_style(&mut self) -> (r: &mut String)
        ensures
            *r == old(self).pointStyle,
            *final(self) == (LegendLabel { pointStyle: *final(r), ..*old(self) }),
    {
        &mut self.pointStyle
    }

    /// Sets `pointStyle`.
    pub fn point_style<V: Into<String>>(self, value: V) -> (r: LegendLabel)
        ensures
            call_ensures(<V as Into<String>>::into, (value,), r.pointStyle),
            r == (LegendLabel { pointStyle: r.pointStyle, ..self }),
    {
        let mut s = self;
        s.pointStyle = value.into();
        s
    }

    /// The field `pointStyleWidth`, to read or to change in place.
    pub fn get_point_style_width(&mut self) -> (r: &mut NumberString)
        ensures
            *r == old(self).pointStyleWidth,
            *final(self) == (LegendLabel { pointStyleWidth: *final(r), ..*old(self) }),
    {
        &mut self.pointStyleWidth
    }

    /// Sets `pointStyleWidth`.
    pub fn point_style_width<V: Into<NumberString>>(self, value: V) -> (r: LegendLabel)
        ensures
            call_ensures(<V as Into<NumberString>>::into, (value,), r.pointStyleWidth),
            r == (LegendLabel { pointStyleWidth: r.pointStyleWidth, ..self }),
    {
        let mut s = self;
        s.pointStyleWidth = value.into();
        s
    }

    /// The field `useBorderRadius`, to read or to change in place.
    pub fn get_use_border_radius(&mut self) -> (r: &mut Option<bool>)
        ensures
            *r == old(self).useBorderRadius,
            *final(self) == (LegendLabel { useBorderRadius: *final(r), ..*old(self) }),
    {
        &mut self.useBorderRadius
    }

    /// Sets `useBorderRadius`.
    pub fn use_border_radius<V: Into<bool>>(self, value: V) -> (r: LegendLabel)
        ensures
            r.useBorderRadius matches Some(x) && call_ensures(<V as Into<bool>>::into, (value,), x),
            r == (LegendLabel { useBorderRadius: r.useBorderRadius, ..self }),
    {
        let mut s = self;
        s.useBorderRadius = Some(value.into());
        s
    }

    /// The field `usePointStyle`, to read or to change in place.
    pub fn get_use_point_style(&mut self) -> (r: &mut Option<bool>)
        ensures
            *r == old(self).usePointStyle,
            *final(self) == (LegendLabel { usePointStyle: *final(r), ..*old(self) }),
    {
        &mut self.usePointStyle
    }

    /// Sets `usePointStyle`.
    pub fn use_point_style<V: Into<bool>>(self, value: V) -> (r: LegendLabel)
        ensures
            r.usePointStyle matches Some(x) && call_ensures(<V as Into<bool>>::into, (value,), x),
            r == (LegendLabel { usePointStyle: r.usePointStyle, ..self }),
    {
        let mut s = self;
        s.usePointStyle = Some(value.into());
        s
    }

    /// Whether a wire value reads as a value of this kind: an object whose
    /// members, where they are there, read as the fields.
    pub open spec fn readable_form(v: JsView) -> bool {
        &&& v is Object
        &&& optional_readable::<u32>(v, "boxHeight"@)
        &&& optional_readable::<u32>(v, "boxWidth"@)
        &&& optional_readable::<Font>(v, "font"@)
        &&& defaulted_readable::<String>(v, "pointStyle"@)
        &&& defaulted_readable::<NumberString>(v, "pointStyleWidth"@)
        &&& optional_readable::<bool>(v, "useBorderRadius"@)
        &&& optional_readable::<bool>(v, "usePointStyle"@)
    }

    /// Whether this value is what a wire value reads as: each field is what
    /// its member reads as, or its default where the member is missing or
    /// the field is never read.
    pub open spec fn reads_form(&self, v: JsView) -> bool {
        &&& optional_reads(self.boxHeight, v, "boxHeight"@)
        &&& optional_reads(self.boxWidth, v, "boxWidth"@)
        &&& skipped_reads(self.filter)
        &&& optional_reads(self.font, v, "font"@)
        &&& defaulted_reads(self.pointStyle, v, "pointStyle"@)
        &&& defaulted_reads(self.pointStyleWidth, v, "pointStyleWidth"@)
        &&& optional_reads(self.useBorderRadius, v, "useBorderRadius"@)
        &&& optional_reads(self.usePointStyle, v, "usePointStyle"@)
    }

    /// Reads the value off the wire.
    pub fn from_value(v: &JsValue) -> (r: Result<Self, DecodeError>)
        ensures
            match r {
                Ok(x) => Self::readable_form(v@) && x.reads_form(v@),
                Err(_) => !Self::readable_form(v@),
            },
    {
        match v {
            JsValue::Object(_) => {},
            _ => {
                return Err(DecodeError::Shape);
            },
        }
        let boxHeight = match read_optional::<u32>(v, "boxHeight") {
            Ok(x) => x,
            Err(e) => {
                return Err(e);
            },
        };
        let boxWidth = match read_optional::<u32>(v, "boxWidth") {
            Ok(x) => x,
            Err(e) => {
                return Err(e);
            },
        };
        let filter = read_skipped::<FnWithArgs<2>>();
        let font = match read_optional::<Font>(v, "font") {
            Ok(x) => x,
            Err(e) => {
                return Err(e);
            },
        };
        let pointStyle = match read_defaulted::<String>(v, "pointStyle") {
            Ok(x) => x,
            Err(e) => {
                return Err(e);
            },
        };
        let pointStyleWidth = match read_defaulted::<NumberString>(v, "pointStyleWidth") {
            Ok(x) => x,
            Err(e) => {
                return Err(e);
            },
        };
        let useBorderRadius = match read_optional::<bool>(v, "useBorderRadius") {
            Ok(x) => x,
            Err(e) => {
                return Err(e);
            },
        };
        let usePointStyle = match read_optional::<bool>(v, "usePointStyle") {
            Ok(x) => x,
            Err(e) => {
                return Err(e);
            },
        };
        Ok(LegendLabel { boxHeight, boxWidth, filter, font, pointStyle, pointStyleWidth, useBorderRadius, usePointStyle })
    }

    /// Writes the value to the wire.
    pub fn to_value(&self) -> (r: JsValue)
        ensures
            r@ == self.wire_form(),
    {
        let mut members: Vec<(String, JsValue)> = Vec::new();
        assert(members_view(members@) =~= Seq::empty());
        put_option(&mut members, "boxHeight", &self.boxHeight);
        put_option(&mut members, "boxWidth", &self.boxWidth);
        put_scalar(&mut members, "filter", &self.filter);
        put_option(&mut members, "font", &self.font);
        put_scalar(&mut members, "pointStyle", &self.pointStyle);
        put_scalar(&mut members, "pointStyleWidth", &self.pointStyleWidth);
        put_option(&mut members, "useBorderRadius", &self.useBorderRadius);
        put_option(&mut members, "usePointStyle", &self.usePointStyle);
        finish(members)
    }
}

impl Default for LegendLabel {
    fn default() -> (r: Self)
        ensures
            r.is_new(),
    {
        LegendLabel::new()
    }
}

impl Serialize for LegendLabel {
    open spec fn wire(&self) -> JsView {
        self.wire_form()
    }

    fn serialize(&self) -> (r: JsValue)
        ensures
            r@ == self.wire(),
    {
        self.to_value()
    }
}

impl Deserialize for LegendLabel {
    open spec fn readable(v: JsView) -> bool {
        Self::readable_form(v)
    }

    open spec fn reads(&self, v: JsView) -> bool {
        self.reads_form(v)
    }

    fn deserialize(v: &JsValue) -> (r: Result<Self, DecodeError>)
        ensures
            match r {
                Ok(x) => Self::readable(v@) && x.reads(v@),
                Err(_) => !Self::readable(v@),
            },
    {
        LegendLabel::from_value(v)
    }
}

/// The legend of a chart.
#[derive(Debug, Clone, PartialEq, Eq)]
pub struct ChartLegend {
    pub display: Option<bool>,
    pub labels: Option<LegendLabel>,
    pub position: String,
}

impl ChartLegend {
    /// Whether every field is as `new` leaves it: nothing is set.
    pub open spec fn is_new(&self) -> bool {
        &&& self.display is None
        &&& self.labels is None
        &&& self.position@.len() == 0
    }

    /// The wire form: an object with one member for each field that is
    /// set, in the order of the fields.
    pub open spec fn wire_form(&self) -> JsView {
        JsView::Object(
            Seq::empty()
                + option_entry("display"@, self.display)
                + option_entry("labels"@, self.labels)
                + scalar_entry("position"@, self.position)
        )
    }

    /// The value with nothing set.
    pub fn new() -> (r: Self)
        ensures
            r.is_new(),
    {
        ChartLegend {
            display: None,
            labels: None,
            position: String::new(),
        }
    }

    /// The field `display`, to read or to change in place.
    pub fn get_display(&mut self) -> (r: &mut Option<bool>)
        ensures
            *r == old(self).display,
            *final(self) == (ChartLegend { display: *final(r), ..*old(self) }),
    {
        &mut self.display
    }

    /// Sets `display`.
    pub fn display<V: Into<bool>>(self, value: V) -> (r: ChartLegend)
        ensures
            r.display matches Some(x) && call_ensures(<V as Into<bool>>::into, (value,), x),
            r == (ChartLegend { display: r.display, ..self }),
    {
        let mut s = self;
        s.display = Some(value.into());
        s
    }

    /// The field `labels`, to read or to change in place.
    pub fn get_labels(&mut self) -> (r: &mut Option<LegendLabel>)
        ensures
            *r == old(self).labels,
            *final(self) == (ChartLegend { labels: *final(r), ..*old(self) }),
    {
        &mut self.labels
    }

    /// Sets `labels`.
    pub fn labels<V: Into<LegendLabel>>(self, value: V) -> (r: ChartLegend)
        ensures
            r.labels matches Some(x) && call_ensures(<V as Into<LegendLabel>>::into, (value,), x),
            r == (ChartLegend { labels: r.labels, ..self }),
    {
        let mut s = self;
        s.labels = Some(value.into());
        s
    }

    /// The field `position`, to read or to change in place.
    pub fn get_position(&mut self) -> (r: &mut String)
        ensures
            *r == old(self).position,
            *final(self) == (ChartLegend { position: *final(r), ..*old(self) }),
    {
        &mut self.position
    }

    /// Sets `position`.
    pub fn position<V: Into<String>>(self, value: V) -> (r: ChartLegend)
        ensures
            call_ensures(<V as Into<String>>::into, (value,), r.position),
            r == (ChartLegend { position: r.position, ..self }),
    {
        let mut s = self;
        s.position = value.into();
        s
    }

    /// Whether a wire value reads as a value of this kind: an object whose
    /// members, where they are there, read as the fields.
    pub open spec fn readable_form(v: JsView) -> bool {
        &&& v is Object
        &&& optional_readable::<bool>(v, "display"@)
        &&& optional_readable::<LegendLabel>(v, "labels"@)
        &&& defaulted_readable::<String>(v, "position"@)
    }

    /// Whether this value is what a wire value reads as: each field is what
    /// its member reads as, or its default where the member is missing or
    /// the field is never read.
    pub open spec fn reads_form(&self, v: JsView) -> bool {
        &&& optional_reads(self.display, v, "display"@)
        &&& optional_reads(self.labels, v, "labels"@)
        &&& defaulted_reads(self.position, v, "position"@)
    }

    /// Reads the value off the wire.
    pub fn from_value(v: &JsValue) -> (r: Result<Self, DecodeError>)
        ensures
            match r {
                Ok(x) => Self::readable_form(v@) && x.reads_form(v@),
                Err(_) => !Self::readable_form(v@),
            },
    {
        match v {
            JsValue::Object(_) => {},
            _ => {
                return Err(DecodeError::Shape);
            },
        }
        let display = match read_optional::<bool>(v, "display") {
            Ok(x) => x,
            Err(e) => {
                return Err(e);
            },
        };
        let labels = match read_optional::<LegendLabel>(v, "labels") {
            Ok(x) => x,
            Err(e) => {
                return Err(e);
            },
        };
        let position = match read_defaulted::<String>(v, "position") {
            Ok(x) => x,
            Err(e) => {
                return Err(e);
            },
        };
        Ok(ChartLegend { display, labels, position })
    }

    /// Writes the value to the wire.
    pub fn to_value(&self) -> (r: JsValue)
        ensures
            r@ == self.wire_form(),
    {
        let mut members: Vec<(String, JsValue)> = Vec::new();
        assert(members_view(members@) =~= Seq::empty());
        put_option(&mut members, "display", &self.display);
        put_option(&mut members, "labels", &self.labels);
        put_scalar(&mut members, "position", &self.position);
        finish(members)
    }
}

impl Default for ChartLegend {
    fn default() -> (r: Self)
        ensures
            r.is_new(),
    {
        ChartLegend::new()
    }
}

impl Serialize for ChartLegend {
    open spec fn wire(&self) -> JsView {
        self.wire_form()
    }

    fn serialize(&self) -> (r: JsValue)
        ensures
            r@ == self.wire(),
    {
        self.to_value()
    }
}

impl Deserialize for ChartLegend {
    open spec fn readable(v: JsView) -> bool {
        Self::readable_form(v)
    }

    open spec fn reads(&self, v: JsView) -> bool {
        self.reads_form(v)
    }

    fn deserialize(v: &JsValue) -> (r: Result<Self, DecodeError>)
        ensures
            match r {
                Ok(x) => Self::readable(v@) && x.reads(v@),
                Err(_) => !Self::readable(v@),
            },
    {
        ChartLegend::from_value(v)
    }
}

/// The settings of the legend plugin.
#[derive(Debug, Clone, PartialEq, Eq)]
pub struct PluginLegend {
    pub display: Option<bool>,
    pub labels: Option<LegendLabel>,
    pub position: String,
    pub reverse: Option<bool>,
}

impl PluginLegend {
    /// Whether every field is as `new` leaves it: nothing is set.
    pub open spec fn is_new(&self) -> bool {
        &&& self.display is None
        &&& self.labels is None
        &&& self.position@.len() == 0
        &&& self.reverse is None
    }

    /// The wire form: an object with one member for each field that is
    /// set, in the order of the fields.
    pub open spec fn wire_form(&self) -> JsView {
        JsView::Object(
            Seq::empty()
                + option_entry("display"@, self.display)
                + option_entry("labels"@, self.labels)
                + scalar_entry("position"@, self.position)
                + option_entry("reverse"@, self.reverse)
        )
    }

    /// The value with nothing set.
    pub fn new() -> (r: Self)
        ensures
            r.is_new(),
    {
        PluginLegend {
            display: None,
            labels: None,
            position: String::new(),
            reverse: None,
        }
    }

    /// The field `display`, to read or to change in place.
    pub fn get_display(&mut self) -> (r: &mut Option<bool>)
        ensures
            *r == old(self).display,
            *final(self) == (PluginLegend { display: *final(r), ..*old(self) }),
    {
        &mut self.display
    }

    /// Sets `display`.
    pub fn display<V: Into<bool>>(self, value: V) -> (r: PluginLegend)
        ensures
            r.display matches Some(x) && call_ensures(<V as Into<bool>>::into, (value,), x),
            r == (PluginLegend { display: r.display, ..self }),
    {
        let mut s = self;
        s.display = Some(value.into());
        s
    }

    /// The field `labels`, to read or to change in place.
    pub fn get_labels(&mut self) -> (r: &mut Option<LegendLabel>)
        ensures
            *r == old(self).labels,
            *final(self) == (PluginLegend { labels: *final(r), ..*old(self) }),
    {
        &mut self.labels
    }

    /// Sets `labels`.
    pub fn labels<V: Into<LegendLabel>>(self, value: V) -> (r: PluginLegend)
        ensures
            r.labels matches Some(x) && call_ensures(<V as Into<LegendLabel>>::into, (value,), x),
            r == (PluginLegend { labels: r.labels, ..self }),
    {
        let mut s = self;
        s.labels = Some(value.into());
        s
    }

    /// The field `position`, to read or to change in place.
    pub fn get_position(&mut self) -> (r: &mut String)
        ensures
            *r == old(self).position,
            *final(self) == (PluginLegend { position: *final(r), ..*old(self) }),
    {
        &mut self.position
    }

    /// Sets `position`.
    pub fn position<V: Into<String>>(self, value: V) -> (r: PluginLegend)
        ensures
            call_ensures(<V as Into<String>>::into, (value,), r.position),
            r == (PluginLegend { position: r.position, ..self }),
    {
        let mut s = self;
        s.position = value.into();
        s
    }

    /// The field `reverse`, to read or to change in place.
    pub fn get_reverse(&mut self) -> (r: &mut Option<bool>)
        ensures
            *r == old(self).reverse,
            *final(self) == (PluginLegend { reverse: *final(r), ..*old(self) }),
    {
        &mut self.reverse
    }

    /// Sets `reverse`.
    pub fn reverse<V: Into<bool>>(self, value: V) -> (r: PluginLegend)
        ensures
            r.reverse matches Some(x) && call_ensures(<V as Into<bool>>::into, (value,), x),
            r == (PluginLegend { reverse: r.reverse, ..self }),
    {
        let mut s = self;
        s.reverse = Some(value.into());
        s
    }

    /// Whether a wire value reads as a value of this kind: an object whose
    /// members, where they are there, read as the fields.
    pub open spec fn readable_form(v: JsView) -> bool {
        &&& v is Object
        &&& optional_readable::<bool>(v, "display"@)
        &&& optional_readable::<LegendLabel>(v, "labels"@)
        &&& defaulted_readable::<String>(v, "position"@)
        &&& optional_readable::<bool>(v, "reverse"@)
    }

    /// Whether this value is what a wire value reads as: each field is what
    /// its member reads as, or its default where the member is missing or
    /// the field is never read.
    pub open spec fn reads_form(&self, v: JsView) -> bool {
        &&& optional_reads(self.display, v, "display"@)
        &&& optional_reads(self.labels, v, "labels"@)
        &&& defaulted_reads(self.position, v, "position"@)
        &&& optional_reads(self.reverse, v, "reverse"@)
    }

    /// Reads the value off the wire.
    pub fn from_value(v: &JsValue) -> (r: Result<Self, DecodeError>)
        ensures
            match r {
                Ok(x) => Self::readable_form(v@) && x.reads_form(v@),
                Err(_) => !Self::readable_form(v@),
            },
    {
        match v {
            JsValue::Object(_) => {},
            _ => {
                return Err(DecodeError::Shape);
            },
        }
        let display = match read_optional::<bool>(v, "display") {
            Ok(x) => x,
            Err(e) => {
                return Err(e);
            },
        };
        let labels = match read_optional::<LegendLabel>(v, "labels") {
            Ok(x) => x,
            Err(e) => {
                return Err(e);
            },
        };
        let position = match read_defaulted::<String>(v, "position") {
            Ok(x) => x,
            Err(e) => {
                return Err(e);
            },
        };
        let reverse = match read_optional::<bool>(v, "reverse") {
            Ok(x) => x,
            Err(e) => {
                return Err(e);
            },
        };
        Ok(PluginLegend { display, labels, position, reverse })
    }

    /// Writes the value to the wire.
    pub fn to_value(&self) -> (r: JsValue)
        ensures
            r@ == self.wire_form(),
    {
        let mut members: Vec<(String, JsValue)> = Vec::new();
        assert(members_view(members@) =~= Seq::empty());
        put_option(&mut members, "display", &self.display);
        put_option(&mut members, "labels", &self.labels);
        put_scalar(&mut members, "position", &self.position);
        put_option(&mut members, "reverse", &self.reverse);
        finish(members)
    }
}

impl Default for PluginLegend {
    fn default() -> (r: Self)
        ensures
            r.is_new(),
    {
        PluginLegend::new()
    }
}

impl Serialize for PluginLegend {
    open spec fn wire(&self) -> JsView {
        self.wire_form()
    }

    fn serialize(&self) -> (r: JsValue)
        ensures
            r@ == self.wire(),
    {
        self.to_value()
    }
}

impl Deserialize for PluginLegend {
    open spec fn readable(v: JsView) -> bool {
        Self::readable_form(v)
    }

    open spec fn reads(&self, v: JsView) -> bool {
        self.reads_form(v)
    }

    fn deserialize(v: &JsValue) -> (r: Result<Self, DecodeError>)
        ensures
            match r {
                Ok(x) => Self::readable(v@) && x.reads(v@),
                Err(_) => !Self::readable(v@),
            },
    {
        PluginLegend::from_value(v)
    }
}
} // verus!
