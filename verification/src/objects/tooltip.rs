use vstd::prelude::*;
use crate::callback::{fresh, FnWithArgs};
use crate::decode::{
    defaulted_readable, defaulted_reads, optional_readable, optional_reads, read_defaulted,
    read_optional, read_skipped, skipped_reads,
};
use crate::entries::{finish, option_entry, put_option, put_scalar, scalar_entry};
use crate::scalar::NumberString;
use crate::value::{members_view, JsValue, JsView};
use crate::wire::{DecodeError, Deserialize, Serialize};

verus! {

/// The callbacks that write the texts of a tooltip.
#[derive(Debug, Clone, PartialEq, Eq)]
pub struct TooltipCallbacks {
    pub label: FnWithArgs<1>,
    pub title: FnWithArgs<1>,
}

impl TooltipCallbacks {
    /// Whether every field is as `new` leaves it: nothing is set.
    pub open spec fn is_new(&self) -> bool {
        &&& self.label@ == fresh(1)
        &&& self.title@ == fresh(1)
    }

    /// The wire form: an object with one member for each field that is
    /// set, in the order of the fields.
    pub open spec fn wire_form(&self) -> JsView {
        JsView::Object(
            Seq::empty()
                + scalar_entry("label"@, self.label)
                + scalar_entry("title"@, self.title)
        )
    }

    /// The value with nothing set.
    pub fn new() -> (r: Self)
        ensures
            r.is_new(),
    {
        TooltipCallbacks {
            label: FnWithArgs::new(),
            title: FnWithArgs::new(),
        }
    }

    /// The field `label`, to read or to change in place.
    pub fn get_label(&mut self) -> (r: &mut FnWithArgs<1>)
        ensures
            *r == old(self).label,
            *final(self) == (TooltipCallbacks { label: *final(r), ..*old(self) }),
    {
        &mut self.label
    }

    /// Sets `label`.
    pub fn label<V: Into<FnWithArgs<1>>>(self, value: V) -> (r: TooltipCallbacks)
        ensures
            call_ensures(<V as Into<FnWithArgs<1>>>::into, (value,), r.label),
            r == (TooltipCallbacks { label: r.label, ..self }),
    {
        let mut s = self;
        s.label = value.into();
        s
    }

    /// The field `title`, to read or to change in place.
    pub fn get_title(&mut self) -> (r: &mut FnWithArgs<1>)
        ensures
            *r == old(self).title,
            *final(self) == (TooltipCallbacks { title: *final(r), ..*old(self) }),
    {
        &mut self.title
    }

    /// Sets `title`.
    pub fn title<V: Into<FnWithArgs<1>>>(self, value: V) -> (r: TooltipCallbacks)
        ensures
            call_ensures(<V as Into<FnWithArgs<1>>>::into, (value,), r.title),
            r == (TooltipCallbacks { title: r.title, ..self }),
    {
        let mut s = self;
        s.title = value.into();
        s
    }

    /// Whether a wire value reads as a value of this kind: an object whose
    /// members, where they are there, read as the fields.
    pub open spec fn readable_form(v: JsView) -> bool {
        &&& v is Object
    }

    /// Whether this value is what a wire value reads as: each field is what
    /// its member reads as, or its default where the member is missing or
    /// the field is never read.
    pub open spec fn reads_form(&self, v: JsView) -> bool {
        &&& skipped_reads(self.label)
        &&& skipped_reads(self.title)
    }

    /// Reads the value off the wire.
    pub fn from_value(v: &JsValue) -> (r: Result<Self, DecodeError>)
        ensures
            match r {
                Ok(x) => Self::readable_form(v@) && x.reads_form(v@),
                Err(_) => !Self::readable_form(v@),
            },
    {
        match v {
            JsValue::Object(_) => {},
            _ => {
                return Err(DecodeError::Shape);
            },
        }
        let label = read_skipped::<FnWithArgs<1>>();
        let title = read_skipped::<FnWithArgs<1>>();
        Ok(TooltipCallbacks { label, title })
    }

    /// Writes the value to the wire.
    pub fn to_value(&self) -> (r: JsValue)
        ensures
            r@ == self.wire_form(),
    {
        let mut members: Vec<(String, JsValue)> = Vec::new();
        assert(members_view(members@) =~= Seq::empty());
        put_scalar(&mut members, "label", &self.label);
        put_scalar(&mut members, "title", &self.title);
        finish(members)
    }
}

impl Default for TooltipCallbacks {
    fn default() -> (r: Self)
        ensures
            r.is_new(),
    {
        TooltipCallbacks::new()
    }
}

impl Serialize for TooltipCallbacks {
    open spec fn wire(&self) -> JsView {
        self.wire_form()
    }

    fn serialize(&self) -> (r: JsValue)
        ensures
            r@ == self.wire(),
    {
        self.to_value()
    }
}

impl Deserialize for TooltipCallbacks {
    open spec fn readable(v: JsView) -> bool {
        Self::readable_form(v)
    }

    open spec fn reads(&self, v: JsView) -> bool {
        self.reads_form(v)
    }

    fn deserialize(v: &JsValue) -> (r: Result<Self, DecodeError>)
        ensures
            match r {
                Ok(x) => Self::readable(v@) && x.reads(v@),
                Err(_) => !Self::readable(v@),
            },
    {
        TooltipCallbacks::from_value(v)
    }
}

/// The settings of the tooltip plugin.
#[derive(Debug, Clone, PartialEq, Eq)]
pub struct TooltipPlugin {
    pub backgroundColor: String,
    pub bodyAlign: String,
    pub bodyColor: String,
    pub callbacks: Option<TooltipCallbacks>,
    pub filter: FnWithArgs<1>,
    pub displayColors: Option<bool>,
    pub enabled: Option<bool>,
    pub titleAlign: String,
    pub titleColor: String,
    pub titleMarginBottom: NumberString,
}

impl TooltipPlugin {
    /// Whether every field is as `new` leaves it: nothing is set.
    pub open spec fn is_new(&self) -> bool {
        &&& self.backgroundColor@.len() == 0
        &&& self.bodyAlign@.len() == 0
        &&& self.bodyColor@.len() == 0
        &&& self.callbacks is None
        &&& self.filter@ == fresh(1)
        &&& self.displayColors is None
        &&& self.enabled is None
        &&& self.titleAlign@.len() == 0
        &&& self.titleColor@.len() == 0
        &&& self.titleMarginBottom@.len() == 0
    }

    /// The wire form: an object with one member for each field that is
    /// set, in the order of the fields.
    pub open spec fn wire_form(&self) -> JsView {
        JsView::Object(
            Seq::empty()
                + scalar_entry("backgroundColor"@, self.backgroundColor)
                + scalar_entry("bodyAlign"@, self.bodyAlign)
                + scalar_entry("bodyColor"@, self.bodyColor)
                + option_entry("callbacks"@, self.callbacks)
                + scalar_entry("filter"@, self.filter)
                + option_entry("displayColors"@, self.displayColors)
                + option_entry("enabled"@, self.enabled)
                + scalar_entry("titleAlign"@, self.titleAlign)
                + scalar_entry("titleColor"@, self.titleColor)
                + scalar_entry("titleMarginBottom"@, self.titleMarginBottom)
        )
    }

    /// The value with nothing set.
    pub fn new() -> (r: Self)
        ensures
            r.is_new(),
    {
        TooltipPlugin {
            backgroundColor: String::new(),
            bodyAlign: String::new(),
            bodyColor: String::new(),
            callbacks: None,
            filter: FnWithArgs::new(),
            displayColors: None,
            enabled: None,
            titleAlign: String::new(),
            titleColor: String::new(),
            titleMarginBottom: NumberString::default(),
        }
    }

    /// The field `backgroundColor`, to read or to change in place.
    pub fn get_background_color(&mut self) -> (r: &mut String)
        ensures
            *r == old(self).backgroundColor,
            *final(self) == (TooltipPlugin { backgroundColor: *final(r), ..*old(self) }),
    {
        &mut self.backgroundColor
    }

    /// Sets `backgroundColor`.
    pub fn background_color<V: Into<String>>(self, value: V) -> (r: TooltipPlugin)
        ensures
            call_ensures(<V as Into<String>>::into, (value,), r.backgroundColor),
            r == (TooltipPlugin { backgroundColor: r.backgroundColor, ..self }),
    {
        let mut s = self;
        s.backgroundColor = value.into();
        s
    }

    /// The field `bodyAlign`, to read or to change in place.
    pub fn get_body_align(&mut self) -> (r: &mut String)
        ensures
            *r == old(self).bodyAlign,
            *final(self) == (TooltipPlugin { bodyAlign: *final(r), ..*old(self) }),
    {
        &mut self.bodyAlign
    }

    /// Sets `bodyAlign`.
    pub fn body_align<V: Into<String>>(self, value: V) -> (r: TooltipPlugin)
        ensures
            call_ensures(<V as Into<String>>::into, (value,), r.bodyAlign),
            r == (TooltipPlugin { bodyAlign: r.bodyAlign, ..self }),
    {
        let mut s = self;
        s.bodyAlign = value.into();
        s
    }

    /// The field `bodyColor`, to read or to change in place.
    pub fn get_body_color(&mut self) -> (r: &mut String)
        ensures
            *r == old(self).bodyColor,
            *final(self) == (TooltipPlugin { bodyColor: *final(r), ..*old(self) }),
    {
        &mut self.bodyColor
    }

    /// Sets `bodyColor`.
    pub fn body_color<V: Into<String>>(self, value: V) -> (r: TooltipPlugin)
        ensures
            call_ensures(<V as Into<String>>::into, (value,), r.bodyColor),
            r == (TooltipPlugin { bodyColor: r.bodyColor, ..self }),
    {
        let mut s = self;
        s.bodyColor = value.into();
        s
    }

    /// The field `callbacks`, to read or to change in place.
    pub fn get_callbacks(&mut self) -> (r: &mut Option<TooltipCallbacks>)
        ensures
            *r == old(self).callbacks,
            *final(self) == (TooltipPlugin { callbacks: *final(r), ..*old(self) }),
    {
        &mut self.callbacks
    }

    /// Sets `callbacks`.
    pub fn callbacks<V: Into<TooltipCallbacks>>(self, value: V) -> (r: TooltipPlugin)
        ensures
            r.callbacks matches Some(x) && call_ensures(<V as Into<TooltipCallbacks>>::into, (value,), x),
            r == (TooltipPlugin { callbacks: r.callbacks, ..self }),
    {
        let mut s = self;
        s.callbacks = Some(value.into());
        s
    }

    /// The field `filter`, to read or to change in place.
    pub fn get_filter(&mut self) -> (r: &mut FnWithArgs<1>)
        ensures
            *r == old(self).filter,
            *final(self) == (TooltipPlugin { filter: *final(r), ..*old(self) }),
    {
        &mut self.filter
    }

    /// Sets `filter`.
    pub fn filter<V: Into<FnWithArgs<1>>>(self, value: V) -> (r: TooltipPlugin)
        ensures
            call_ensures(<V as Into<FnWithArgs<1>>>::into, (value,), r.filter),
            r == (TooltipPlugin { filter: r.filter, ..self }),
    {
        let mut s = self;
        s.filter = value.into();
        s
    }

    /// The field `displayColors`, to read or to change in place.
    pub fn get_display_colors(&mut self) -> (r: &mut Option<bool>)
        ensures
            *r == old(self).displayColors,
            *final(self) == (TooltipPlugin { displayColors: *final(r), ..*old(self) }),
    {
        &mut self.displayColors
    }

    /// Sets `displayColors`.
    pub fn display_colors<V: Into<bool>>(self, value: V) -> (r: TooltipPlugin)
        ensures
            r.displayColors matches Some(x) && call_ensures(<V as Into<bool>>::into, (value,), x),
            r == (TooltipPlugin { displayColors: r.displayColors, ..self }),
    {
        let mut s = self;
        s.displayColors = Some(value.into());
        s
    }

    /// The field `enabled`, to read or to change in place.
    pub fn get_enabled(&mut self) -> (r: &mut Option<bool>)
        ensures
            *r == old(self).enabled,
            *final(self) == (TooltipPlugin { enabled: *final(r), ..*old(self) }),
    {
        &mut self.enabled
    }

    /// Sets `enabled`.
    pub fn enabled<V: Into<bool>>(self, value: V) -> (r: TooltipPlugin)
        ensures
            r.enabled matches Some(x) && call_ensures(<V as Into<bool>>::into, (value,), x),
            r == (TooltipPlugin { enabled: r.enabled, ..self }),
    {
        let mut s = self;
        s.enabled = Some(value.into());
        s
    }

    /// The field `titleAlign`, to read or to change in place.
    pub fn get_title_align(&mut self) -> (r: &mut String)
        ensures
            *r == old(self).titleAlign,
            *final(self) == (TooltipPlugin { titleAlign: *final(r), ..*old(self) }),
    {
        &mut self.titleAlign
    }

    /// Sets `titleAlign`.
    pub fn title_align<V: Into<String>>(self, value: V) -> (r: TooltipPlugin)
        ensures
            call_ensures(<V as Into<String>>::into, (value,), r.titleAlign),
            r == (TooltipPlugin { titleAlign: r.titleAlign, ..self }),
    {
        let mut s = self;
        s.titleAlign = value.into();
        s
    }

    /// The field `titleColor`, to read or to change in place.
    pub fn get_title_color(&mut self) -> (r: &mut String)
        ensures
            *r == old(self).titleColor,
            *final(self) == (TooltipPlugin { titleColor: *final(r), ..*old(self) }),
    {
        &mut self.titleColor
    }

    /// Sets `titleColor`.
    pub fn title_color<V: Into<String>>(self, value: V) -> (r: TooltipPlugin)
        ensures
            call_ensures(<V as Into<String>>::into, (value,), r.titleColor),
            r == (TooltipPlugin { titleColor: r.titleColor, ..self }),
    {
        let mut s = self;
        s.titleColor = value.into();
        s
    }

    /// The field `titleMarginBottom`, to read or to change in place.
    pub fn get_title_margin_bottom(&mut self) -> (r: &mut NumberString)
        ensures
            *r == old(self).titleMarginBottom,
            *final(self) == (TooltipPlugin { titleMarginBottom: *final(r), ..*old(self) }),
    {
        &mut self.titleMarginBottom
    }

    /// Sets `titleMarginBottom`.
    pub fn title_margin_bottom<V: Into<NumberString>>(self, value: V) -> (r: TooltipPlugin)
        ensures
            call_ensures(<V as Into<NumberString>>::into, (value,), r.titleMarginBottom),
            r == (TooltipPlugin { titleMarginBottom: r.titleMarginBottom, ..self }),
    {
        let mut s = self;
        s.titleMarginBottom = value.into();
        s
    }

    /// Whether a wire value reads as a value of this kind: an object whose
    /// members, where they are there, read as the fields.
    pub open spec fn readable_form(v: JsView) -> bool {
        &&& v is Object
        &&& defaulted_readable::<String>(v, "backgroundColor"@)
        &&& defaulted_readable::<String>(v, "bodyAlign"@)
        &&& defaulted_readable::<String>(v, "bodyColor"@)
        &&& optional_readable::<TooltipCallbacks>(v, "callbacks"@)
        &&& optional_readable::<bool>(v, "displayColors"@)
        &&& optional_readable::<bool>(v, "enabled"@)
        &&& defaulted_readable::<String>(v, "titleAlign"@)
        &&& defaulted_readable::<String>(v, "titleColor"@)
        &&& defaulted_readable::<NumberString>(v, "titleMarginBottom"@)
    }

    /// Whether this value is what a wire value reads as: each field is what
    /// its member reads as, or its default where the member is missing or
    /// the field is never read.
    pub open spec fn reads_form(&self, v: JsView) -> bool {
        &&& defaulted_reads(self.backgroundColor, v, "backgroundColor"@)
        &&& defaulted_reads(self.bodyAlign, v, "bodyAlign"@)
        &&& defaulted_reads(self.bodyColor, v, "bodyColor"@)
        &&& optional_reads(self.callbacks, v, "callbacks"@)
        &&& skipped_reads(self.filter)
        &&& optional_reads(self.displayColors, v, "displayColors"@)
        &&& optional_reads(self.enabled, v, "enabled"@)
        &&& defaulted_reads(self.titleAlign, v, "titleAlign"@)
        &&& defaulted_reads(self.titleColor, v, "titleColor"@)
        &&& defaulted_reads(self.titleMarginBottom, v, "titleMarginBottom"@)
    }

    /// Reads the value off the wire.
    pub fn from_value(v: &JsValue) -> (r: Result<Self, DecodeError>)
        ensures
            match r {
                Ok(x) => Self::readable_form(v@) && x.reads_form(v@),
                Err(_) => !Self::readable_form(v@),
            },
    {
        match v {
            JsValue::Object(_) => {},
            _ => {
                return Err(DecodeError::Shape);
            },
        }
        let backgroundColor = match read_defaulted::<String>(v, "backgroundColor") {
            Ok(x) => x,
            Err(e) => {
                return Err(e);
            },
        };
        let bodyAlign = match read_defaulted::<String>(v, "bodyAlign") {
            Ok(x) => x,
            Err(e) => {
                return Err(e);
            },
        };
        let bodyColor = match read_defaulted::<String>(v, "bodyColor") {
            Ok(x) => x,
            Err(e) => {
                return Err(e);
            },
        };
        let callbacks = match read_optional::<TooltipCallbacks>(v, "callbacks") {
            Ok(x) => x,
            Err(e) => {
                return Err(e);
            },
        };
        let filter = read_skipped::<FnWithArgs<1>>();
        let displayColors = match read_optional::<bool>(v, "displayColors") {
            Ok(x) => x,
            Err(e) => {
                return Err(e);
            },
        };
        let enabled = match read_optional::<bool>(v, "enabled") {
            Ok(x) => x,
            Err(e) => {
                return Err(e);
            },
        };
        let titleAlign = match read_defaulted::<String>(v, "titleAlign") {
            Ok(x) => x,
            Err(e) => {
                return Err(e);
            },
        };
        let titleColor = match read_defaulted::<String>(v, "titleColor") {
            Ok(x) => x,
            Err(e) => {
                return Err(e);
            },
        };
        let titleMarginBottom = match read_defaulted::<NumberString>(v, "titleMarginBottom") {
            Ok(x) => x,
            Err(e) => {
                return Err(e);
            },
        };
        Ok(TooltipPlugin { backgroundColor, bodyAlign, bodyColor, callbacks, filter, displayColors, enabled, titleAlign, titleColor, titleMarginBottom })
    }

    /// Writes the value to the wire.
    pub fn to_value(&self) -> (r: JsValue)
        ensures
            r@ == self.wire_form(),
    {
        let mut members: Vec<(String, JsValue)> = Vec::new();
        assert(members_view(members@) =~= Seq::empty());
        put_scalar(&mut members, "backgroundColor", &self.backgroundColor);
        put_scalar(&mut members, "bodyAlign", &self.bodyAlign);
        put_scalar(&mut members, "bodyColor", &self.bodyColor);
        put_option(&mut members, "callbacks", &self.callbacks);
        put_scalar(&mut members, "filter", &self.filter);
        put_option(&mut members, "displayColors", &self.displayColors);
        put_option(&mut members, "enabled", &self.enabled);
        put_scalar(&mut members, "titleAlign", &self.titleAlign);
        put_scalar(&mut members, "titleColor", &self.titleColor);
        put_scalar(&mut members, "titleMarginBottom", &self.titleMarginBottom);
        finish(members)
    }
}

impl Default for TooltipPlugin {
    fn default() -> (r: Self)
        ensures
            r.is_new(),
    {
        TooltipPlugin::new()
    }
}

impl Serialize for TooltipPlugin {
    open spec fn wire(&self) -> JsView {
        self.wire_form()
    }

    fn serialize(&self) -> (r: JsValue)
        ensures
            r@ == self.wire(),
    {
        self.to_value()
    }
}

impl Deserialize for TooltipPlugin {
    open spec fn readable(v: JsView) -> bool {
        Self::readable_form(v)
    }

    open spec fn reads(&self, v: JsView) -> bool {
        self.reads_form(v)
    }

    fn deserialize(v: &JsValue) -> (r: Result<Self, DecodeError>)
        ensures
            match r {
                Ok(x) => Self::readable(v@) && x.reads(v@),
                Err(_) => !Self::readable(v@),
            },
    {
        TooltipPlugin::from_value(v)
    }
}
} // verus!
