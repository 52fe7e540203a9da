use vstd::prelude::*;
use crate::dataset::Annotation;
use crate::decode::{
    defaulted_readable, defaulted_reads, optional_readable, optional_reads, read_defaulted,
    read_optional,
};
use crate::entries::{
    finish, option_entry, put_option, put_scalar, put_table, scalar_entry, table_entry,
};
use crate::named::{collected, Named};
use crate::objects::annotations::{Annotations, AutoColors};
use crate::objects::elements::ChartElements;
use crate::objects::legend::{ChartLegend, PluginLegend};
use crate::objects::scales::ChartScale;
use crate::objects::style::{Animation, Padding, Title};
use crate::objects::tooltip::TooltipPlugin;
use crate::value::{members_view, JsValue, JsView};
use crate::wire::{DecodeError, Deserialize, Serialize};

verus! {

/// How the chart answers to the pointer.
#[derive(Debug, Clone, PartialEq, Eq)]
pub struct ChartInteraction {
    pub axis: String,
    pub intersect: Option<bool>,
    pub mode: String,
}

impl ChartInteraction {
    /// Whether every field is as `new` leaves it: nothing is set.
    pub open spec fn is_new(&self) -> bool {
        &&& self.axis@.len() == 0
        &&& self.intersect is None
        &&& self.mode@.len() == 0
    }

    /// The wire form: an object with one member for each field that is
    /// set, in the order of the fields.
    pub open spec fn wire_form(&self) -> JsView {
        JsView::Object(
            Seq::empty()
                + scalar_entry("axis"@, self.axis)
                + option_entry("intersect"@, self.intersect)
                + scalar_entry("mode"@, self.mode)
        )
    }

    /// The value with nothing set.
    pub fn new() -> (r: Self)
        ensures
            r.is_new(),
    {
        ChartInteraction {
            axis: String::new(),
            intersect: None,
            mode: String::new(),
        }
    }

    /// The field `axis`, to read or to change in place.
    pub fn get_axis(&mut self) -> (r: &mut String)
        ensures
            *r == old(self).axis,
            *final(self) == (ChartInteraction { axis: *final(r), ..*old(self) }),
    {
        &mut self.axis
    }

    /// Sets `axis`.
    pub fn axis<V: Into<String>>(self, value: V) -> (r: ChartInteraction)
        ensures
            call_ensures(<V as Into<String>>::into, (value,), r.axis),
            r == (ChartInteraction { axis: r.axis, ..self }),
    {
        let mut s = self;
        s.axis = value.into();
        s
    }

    /// The field `intersect`, to read or to change in place.
    pub fn get_intersect(&mut self) -> (r: &mut Option<bool>)
        ensures
            *r == old(self).intersect,
            *final(self) == (ChartInteraction { intersect: *final(r), ..*old(self) }),
    {
        &mut self.intersect
    }

    /// Sets `intersect`.
    pub fn intersect<V: Into<bool>>(self, value: V) -> (r: ChartInteraction)
        ensures
            r.intersect matches Some(x) && call_ensures(<V as Into<bool>>::into, (value,), x),
            r == (ChartInteraction { intersect: r.intersect, ..self }),
    {
        let mut s = self;
        s.intersect = Some(value.into());
        s
    }

    /// The field `mode`, to read or to change in place.
    pub fn get_mode(&mut self) -> (r: &mut String)
        ensures
            *r == old(self).mode,
            *final(self) == (ChartInteraction { mode: *final(r), ..*old(self) }),
    {
        &mut self.mode
    }

    /// Sets `mode`.
    pub fn mode<V: Into<String>>(self, value: V) -> (r: ChartInteraction)
        ensures
            call_ensures(<V as Into<String>>::into, (value,), r.mode),
            r == (ChartInteraction { mode: r.mode, ..self }),
    {
        let mut s = self;
        s.mode = value.into();
        s
    }

    /// Whether a wire value reads as a value of this kind: an object whose
    /// members, where they are there, read as the fields.
    pub open spec fn readable_form(v: JsView) -> bool {
        &&& v is Object
        &&& defaulted_readable::<String>(v, "axis"@)
        &&& optional_readable::<bool>(v, "intersect"@)
        &&& defaulted_readable::<String>(v, "mode"@)
    }

    /// Whether this value is what a wire value reads as: each field is what
    /// its member reads as, or its default where the member is missing or
    /// the field is never read.
    pub open spec fn reads_form(&self, v: JsView) -> bool {
        &&& defaulted_reads(self.axis, v, "axis"@)
        &&& optional_reads(self.intersect, v, "intersect"@)
        &&& defaulted_reads(self.mode, v, "mode"@)
    }

    /// Reads the value off the wire.
    pub fn from_value(v: &JsValue) -> (r: Result<Self, DecodeError>)
        ensures
            match r {
                Ok(x) => Self::readable_form(v@) && x.reads_form(v@),
                Err(_) => !Self::readable_form(v@),
            },
    {
        match v {
            JsValue::Object(_) => {},
            _ => {
                return Err(DecodeError::Shape);
            },
        }
        let axis = match read_defaulted::<String>(v, "axis") {
            Ok(x) => x,
            Err(e) => {
                return Err(e);
            },
        };
        let intersect = match read_optional::<bool>(v, "intersect") {
            Ok(x) => x,
            Err(e) => {
                return Err(e);
            },
        };
        let mode = match read_defaulted::<String>(v, "mode") {
            Ok(x) => x,
            Err(e) => {
                return Err(e);
            },
        };
        Ok(ChartInteraction { axis, intersect, mode })
    }

    /// Writes the value to the wire.
    pub fn to_value(&self) -> (r: JsValue)
        ensures
            r@ == self.wire_form(),
    {
        let mut members: Vec<(String, JsValue)> = Vec::new();
        assert(members_view(members@) =~= Seq::empty());
        put_scalar(&mut members, "axis", &self.axis);
        put_option(&mut members, "intersect", &self.intersect);
        put_scalar(&mut members, "mode", &self.mode);
        finish(members)
    }
}

impl Default for ChartInteraction {
    fn default() -> (r: Self)
        ensures
            r.is_new(),
    {
        ChartInteraction::new()
    }
}

impl Serialize for ChartInteraction {
    open spec fn wire(&self) -> JsView {
        self.wire_form()
    }

    fn serialize(&self) -> (r: JsValue)
        ensures
            r@ == self.wire(),
    {
        self.to_value()
    }
}

impl Deserialize for ChartInteraction {
    open spec fn readable(v: JsView) -> bool {
        Self::readable_form(v)
    }

    open spec fn reads(&self, v: JsView) -> bool {
        self.reads_form(v)
    }

    fn deserialize(v: &JsValue) -> (r: Result<Self, DecodeError>)
        ensures
            match r {
                Ok(x) => Self::readable(v@) && x.reads(v@),
                Err(_) => !Self::readable(v@),
            },
    {
        ChartInteraction::from_value(v)
    }
}

/// The space around the chart.
#[derive(Debug, Clone, PartialEq, Eq)]
pub struct ChartLayout {
    pub padding: Option<Padding>,
}

impl ChartLayout {
    /// Whether every field is as `new` leaves it: nothing is set.
    pub open spec fn is_new(&self) -> bool {
        &&& self.padding is None
    }

    /// The wire form: an object with one member for each field that is
    /// set, in the order of the fields.
    pub open spec fn wire_form(&self) -> JsView {
        JsView::Object(
            Seq::empty()
                + option_entry("padding"@, self.padding)
        )
    }

    /// The value with nothing set.
    pub fn new() -> (r: Self)
        ensures
            r.is_new(),
    {
        ChartLayout {
            padding: None,
        }
    }

    /// The field `padding`, to read or to change in place.
    pub fn get_padding(&mut self) -> (r: &mut Option<Padding>)
        ensures
            *r == old(self).padding,
            *final(self) == (ChartLayout { padding: *final(r), ..*old(self) }),
    {
        &mut self.padding
    }

    /// Sets `padding`.
    pub fn padding<V: Into<Padding>>(self, value: V) -> (r: ChartLayout)
        ensures
            r.padding matches Some(x) && call_ensures(<V as Into<Padding>>::into, (value,), x),
            r == (ChartLayout { padding: r.padding, ..self }),
    {
        let mut s = self;
        s.padding = Some(value.into());
        s
    }

    /// Whether a wire value reads as a value of this kind: an object whose
    /// members, where they are there, read as the fields.
    pub open spec fn readable_form(v: JsView) -> bool {
        &&& v is Object
        &&& optional_readable::<Padding>(v, "padding"@)
    }

    /// Whether this value is what a wire value reads as: each field is what
    /// its member reads as, or its default where the member is missing or
    /// the field is never read.
    pub open spec fn reads_form(&self, v: JsView) -> bool {
        &&& optional_reads(self.padding, v, "padding"@)
    }

    /// Reads the value off the wire.
    pub fn from_value(v: &JsValue) -> (r: Result<Self, DecodeError>)
        ensures
            match r {
                Ok(x) => Self::readable_form(v@) && x.reads_form(v@),
                Err(_) => !Self::readable_form(v@),
            },
    {
        match v {
            JsValue::Object(_) => {},
            _ => {
                return Err(DecodeError::Shape);
            },
        }
        let padding = match read_optional::<Padding>(v, "padding") {
            Ok(x) => x,
            Err(e) => {
                return Err(e);
            },
        };
        Ok(ChartLayout { padding })
    }

    /// Writes the value to the wire.
    pub fn to_value(&self) -> (r: JsValue)
        ensures
            r@ == self.wire_form(),
    {
        let mut members: Vec<(String, JsValue)> = Vec::new();
        assert(members_view(members@) =~= Seq::empty());
        put_option(&mut members, "padding", &self.padding);
        finish(members)
    }
}

impl Default for ChartLayout {
    fn default() -> (r: Self)
        ensures
            r.is_new(),
    {
        ChartLayout::new()
    }
}

impl Serialize for ChartLayout {
    open spec fn wire(&self) -> JsView {
        self.wire_form()
    }

    fn serialize(&self) -> (r: JsValue)
        ensures
            r@ == self.wire(),
    {
        self.to_value()
    }
}

impl Deserialize for ChartLayout {
    open spec fn readable(v: JsView) -> bool {
        Self::readable_form(v)
    }

    open spec fn reads(&self, v: JsView) -> bool {
        self.reads_form(v)
    }

    fn deserialize(v: &JsValue) -> (r: Result<Self, DecodeError>)
        ensures
            match r {
                Ok(x) => Self::readable(v@) && x.reads(v@),
                Err(_) => !Self::readable(v@),
            },
    {
        ChartLayout::from_value(v)
    }
}

/// The settings of the plugins of a chart.
#[derive(Debug, Clone, PartialEq, Eq)]
pub struct ChartPlugins<A: Annotation> {
    pub annotation: Option<Annotations<A>>,
    pub autocolors: Option<AutoColors>,
    pub legend: Option<PluginLegend>,
    pub title: Option<Title>,
    pub tooltip: Option<TooltipPlugin>,
}

impl<A: Annotation> ChartPlugins<A> {
    /// Whether every field is as `new` leaves it: nothing is set.
    pub open spec fn is_new(&self) -> bool {
        &&& self.annotation is None
        &&& self.autocolors is None
        &&& self.legend is None
        &&& self.title is None
        &&& self.tooltip is None
    }

    /// The wire form: an object with one member for each field that is
    /// set, in the order of the fields.
    pub open spec fn wire_form(&self) -> JsView {
        JsView::Object(
            Seq::empty()
                + option_entry("annotation"@, self.annotation)
                + option_entry("autocolors"@, self.autocolors)
                + option_entry("legend"@, self.legend)
                + option_entry("title"@, self.title)
                + option_entry("tooltip"@, self.tooltip)
        )
    }

    /// The value with nothing set.
    pub fn new() -> (r: Self)
        ensures
            r.is_new(),
    {
        ChartPlugins {
            annotation: None,
            autocolors: None,
            legend: None,
            title: None,
            tooltip: None,
        }
    }

    /// The field `annotation`, to read or to change in place.
    pub fn get_annotation(&mut self) -> (r: &mut Option<Annotations<A>>)
        ensures
            *r == old(self).annotation,
            *final(self) == (ChartPlugins { annotation: *final(r), ..*old(self) }),
    {
        &mut self.annotation
    }

    /// Sets `annotation`.
    pub fn annotation<V: Into<Annotations<A>>>(self, value: V) -> (r: ChartPlugins<A>)
        ensures
            r.annotation matches Some(x) && call_ensures(<V as Into<Annotations<A>>>::into, (value,), x),
            r == (ChartPlugins { annotation: r.annotation, ..self }),
    {
        let mut s = self;
        s.annotation = Some(value.into());
        s
    }

    /// The field `autocolors`, to read or to change in place.
    pub fn get_autocolors(&mut self) -> (r: &mut Option<AutoColors>)
        ensures
            *r == old(self).autocolors,
            *final(self) == (ChartPlugins { autocolors: *final(r), ..*old(self) }),
    {
        &mut self.autocolors
    }

    /// Sets `autocolors`.
    pub fn autocolors<V: Into<AutoColors>>(self, value: V) -> (r: ChartPlugins<A>)
        ensures
            r.autocolors matches Some(x) && call_ensures(<V as Into<AutoColors>>::into, (value,), x),
            r == (ChartPlugins { autocolors: r.autocolors, ..self }),
    {
        let mut s = self;
        s.autocolors = Some(value.into());
        s
    }

    /// The field `legend`, to read or to change in place.
    pub fn get_legend(&mut self) -> (r: &mut Option<PluginLegend>)
        ensures
            *r == old(self).legend,
            *final(self) == (ChartPlugins { legend: *final(r), ..*old(self) }),
    {
        &mut self.legend
    }

    /// Sets `legend`.
    pub fn legend<V: Into<PluginLegend>>(self, value: V) -> (r: ChartPlugins<A>)
        ensures
            r.legend matches Some(x) && call_ensures(<V as Into<PluginLegend>>::into, (value,), x),
            r == (ChartPlugins { legend: r.legend, ..self }),
    {
        let mut s = self;
        s.legend = Some(value.into());
        s
    }

    /// The field `title`, to read or to change in place.
    pub fn get_title(&mut self) -> (r: &mut Option<Title>)
        ensures
            *r == old(self).title,
            *final(self) == (ChartPlugins { title: *final(r), ..*old(self) }),
    {
        &mut self.title
    }

    /// Sets `title`.
    pub fn title<V: Into<Title>>(self, value: V) -> (r: ChartPlugins<A>)
        ensures
            r.title matches Some(x) && call_ensures(<V as Into<Title>>::into, (value,), x),
            r == (ChartPlugins { title: r.title, ..self }),
    {
        let mut s = self;
        s.title = Some(value.into());
        s
    }

    /// The field `tooltip`, to read or to change in place.
    pub fn get_tooltip(&mut self) -> (r: &mut Option<TooltipPlugin>)
        ensures
            *r == old(self).tooltip,
            *final(self) == (ChartPlugins { tooltip: *final(r), ..*old(self) }),
    {
        &mut self.tooltip
    }

    /// Sets `tooltip`.
    pub fn tooltip<V: Into<TooltipPlugin>>(self, value: V) -> (r: ChartPlugins<A>)
        ensures
            r.tooltip matches Some(x) && call_ensures(<V as Into<TooltipPlugin>>::into, (value,), x),
            r == (ChartPlugins { tooltip: r.tooltip, ..self }),
    {
        let mut s = self;
        s.tooltip = Some(value.into());
        s
    }

    /// Whether a wire value reads as a value of this kind: an object whose
    /// members, where they are there, read as the fields.
    pub open spec fn readable_form(v: JsView) -> bool {
        &&& v is Object
        &&& optional_readable::<Annotations<A>>(v, "annotation"@)
        &&& optional_readable::<AutoColors>(v, "autocolors"@)
        &&& optional_readable::<PluginLegend>(v, "legend"@)
        &&& optional_readable::<Title>(v, "title"@)
        &&& optional_readable::<TooltipPlugin>(v, "tooltip"@)
    }

    /// Whether this value is what a wire value reads as: each field is what
    /// its member reads as, or its default where the member is missing or
    /// the field is never read.
    pub open spec fn reads_form(&self, v: JsView) -> bool {
        &&& optional_reads(self.annotation, v, "annotation"@)
        &&& optional_reads(self.autocolors, v, "autocolors"@)
        &&& optional_reads(self.legend, v, "legend"@)
        &&& optional_reads(self.title, v, "title"@)
        &&& optional_reads(self.tooltip, v, "tooltip"@)
    }

    /// Reads the value off the wire.
    pub fn from_value(v: &JsValue) -> (r: Result<Self, DecodeError>)
        ensures
            match r {
                Ok(x) => Self::readable_form(v@) && x.reads_form(v@),
                Err(_) => !Self::readable_form(v@),
            },
    {
        match v {
            JsValue::Object(_) => {},
            _ => {
                return Err(DecodeError::Shape);
            },
        }
        let annotation = match read_optional::<Annotations<A>>(v, "annotation") {
            Ok(x) => x,
            Err(e) => {
                return Err(e);
            },
        };
        let autocolors = match read_optional::<AutoColors>(v, "autocolors") {
            Ok(x) => x,
            Err(e) => {
                return Err(e);
            },
        };
        let legend = match read_optional::<PluginLegend>(v, "legend") {
            Ok(x) => x,
            Err(e) => {
                return Err(e);
            },
        };
        let title = match read_optional::<Title>(v, "title") {
            Ok(x) => x,
            Err(e) => {
                return Err(e);
            },
        };
        let tooltip = match read_optional::<TooltipPlugin>(v, "tooltip") {
            Ok(x) => x,
            Err(e) => {
                return Err(e);
            },
        };
        Ok(ChartPlugins { annotation, autocolors, legend, title, tooltip })
    }

    /// Writes the value to the wire.
    pub fn to_value(&self) -> (r: JsValue)
        ensures
            r@ == self.wire_form(),
    {
        let mut members: Vec<(String, JsValue)> = Vec::new();
        assert(members_view(members@) =~= Seq::empty());
        put_option(&mut members, "annotation", &self.annotation);
        put_option(&mut members, "autocolors", &self.autocolors);
        put_option(&mut members, "legend", &self.legend);
        put_option(&mut members, "title", &self.title);
        put_option(&mut members, "tooltip", &self.tooltip);
        finish(members)
    }
}

impl<A: Annotation> Default for ChartPlugins<A> {
    fn default() -> (r: Self)
        ensures
            r.is_new(),
    {
        ChartPlugins::new()
    }
}

impl<A: Annotation> Serialize for ChartPlugins<A> {
    open spec fn wire(&self) -> JsView {
        self.wire_form()
    }

    fn serialize(&self) -> (r: JsValue)
        ensures
            r@ == self.wire(),
    {
        self.to_value()
    }
}

impl<A: Annotation> Deserialize for ChartPlugins<A> {
    open spec fn readable(v: JsView) -> bool {
        Self::readable_form(v)
    }

    open spec fn reads(&self, v: JsView) -> bool {
        self.reads_form(v)
    }

    fn deserialize(v: &JsValue) -> (r: Result<Self, DecodeError>)
        ensures
            match r {
                Ok(x) => Self::readable(v@) && x.reads(v@),
                Err(_) => !Self::readable(v@),
            },
    {
        ChartPlugins::from_value(v)
    }
}

/// The options of a chart.
#[derive(Debug, Clone, PartialEq, Eq)]
pub struct ChartOptions<A: Annotation> {
    pub animation: Option<Animation>,
    pub elements: Option<ChartElements>,
    pub interaction: Option<ChartInteraction>,
    pub indexAxis: String,
    pub legend: Option<ChartLegend>,
    pub layout: Option<ChartLayout>,
    pub maintainAspectRatio: Option<bool>,
    pub plugins: Option<ChartPlugins<A>>,
    pub responsive: Option<bool>,
    pub scales: Option<Named<ChartScale>>,
    pub spanGaps: Option<bool>,
}

impl<A: Annotation> ChartOptions<A> {
    /// Whether every field is as `new` leaves it: nothing is set.
    pub open spec fn is_new(&self) -> bool {
        &&& self.animation is None
        &&& self.elements is None
        &&& self.interaction is None
        &&& self.indexAxis@.len() == 0
        &&& self.legend is None
        &&& self.layout is None
        &&& self.maintainAspectRatio is None
        &&& self.plugins is None
        &&& self.responsive is None
        &&& self.scales is None
        &&& self.spanGaps is None
    }

    /// The wire form: an object with one member for each field that is
    /// set, in the order of the fields.
    pub open spec fn wire_form(&self) -> JsView {
        JsView::Object(
            Seq::empty()
                + option_entry("animation"@, self.animation)
                + option_entry("elements"@, self.elements)
                + option_entry("interaction"@, self.interaction)
                + scalar_entry("indexAxis"@, self.indexAxis)
                + option_entry("legend"@, self.legend)
                + option_entry("layout"@, self.layout)
                + option_entry("maintainAspectRatio"@, self.maintainAspectRatio)
                + option_entry("plugins"@, self.plugins)
                + option_entry("responsive"@, self.responsive)
                + table_entry("scales"@, self.scales)
                + option_entry("spanGaps"@, self.spanGaps)
        )
    }

    /// The value with nothing set.
    pub fn new() -> (r: Self)
        ensures
            r.is_new(),
    {
        ChartOptions {
            animation: None,
            elements: None,
            interaction: None,
            indexAxis: String::new(),
            legend: None,
            layout: None,
            maintainAspectRatio: None,
            plugins: None,
            responsive: None,
            scales: None,
            spanGaps: None,
        }
    }

    /// The field `animation`, to read or to change in place.
    pub fn get_animation(&mut self) -> (r: &mut Option<Animation>)
        ensures
            *r == old(self).animation,
            *final(self) == (ChartOptions { animation: *final(r), ..*old(self) }),
    {
        &mut self.animation
    }

    /// Sets `animation`.
    pub fn animation<V: Into<Animation>>(self, value: V) -> (r: ChartOptions<A>)
        ensures
            r.animation matches Some(x) && call_ensures(<V as Into<Animation>>::into, (value,), x),
            r == (ChartOptions { animation: r.animation, ..self }),
    {
        let mut s = self;
        s.animation = Some(value.into());
        s
    }

    /// The field `elements`, to read or to change in place.
    pub fn get_elements(&mut self) -> (r: &mut Option<ChartElements>)
        ensures
            *r == old(self).elements,
            *final(self) == (ChartOptions { elements: *final(r), ..*old(self) }),
    {
        &mut self.elements
    }

    /// Sets `elements`.
    pub fn elements<V: Into<ChartElements>>(self, value: V) -> (r: ChartOptions<A>)
        ensures
            r.elements matches Some(x) && call_ensures(<V as Into<ChartElements>>::into, (value,), x),
            r == (ChartOptions { elements: r.elements, ..self }),
    {
        let mut s = self;
        s.elements = Some(value.into());
        s
    }

    /// The field `interaction`, to read or to change in place.
    pub fn get_interaction(&mut self) -> (r: &mut Option<ChartInteraction>)
        ensures
            *r == old(self).interaction,
            *final(self) == (ChartOptions { interaction: *final(r), ..*old(self) }),
    {
        &mut self.interaction
    }

    /// Sets `interaction`.
    pub fn interaction<V: Into<ChartInteraction>>(self, value: V) -> (r: ChartOptions<A>)
        ensures
            r.interaction matches Some(x) && call_ensures(<V as Into<ChartInteraction>>::into, (value,), x),
            r == (ChartOptions { interaction: r.interaction, ..self }),
    {
        let mut s = self;
        s.interaction = Some(value.into());
        s
    }

    /// The field `indexAxis`, to read or to change in place.
    pub fn get_index_axis(&mut self) -> (r: &mut String)
        ensures
            *r == old(self).indexAxis,
            *final(self) == (ChartOptions { indexAxis: *final(r), ..*old(self) }),
    {
        &mut self.indexAxis
    }

    /// Sets `indexAxis`.
    pub fn index_axis<V: Into<String>>(self, value: V) -> (r: ChartOptions<A>)
        ensures
            call_ensures(<V as Into<String>>::into, (value,), r.indexAxis),
            r == (ChartOptions { indexAxis: r.indexAxis, ..self }),
    {
        let mut s = self;
        s.indexAxis = value.into();
        s
    }

    /// The field `legend`, to read or to change in place.
    pub fn get_legend(&mut self) -> (r: &mut Option<ChartLegend>)
        ensures
            *r == old(self).legend,
            *final(self) == (ChartOptions { legend: *final(r), ..*old(self) }),
    {
        &mut self.legend
    }

    /// Sets `legend`.
    pub fn legend<V: Into<ChartLegend>>(self, value: V) -> (r: ChartOptions<A>)
        ensures
            r.legend matches Some(x) && call_ensures(<V as Into<ChartLegend>>::into, (value,), x),
            r == (ChartOptions { legend: r.legend, ..self }),
    {
        let mut s = self;
        s.legend = Some(value.into());
        s
    }

    /// The field `layout`, to read or to change in place.
    pub fn get_layout(&mut self) -> (r: &mut Option<ChartLayout>)
        ensures
            *r == old(self).layout,
            *final(self) == (ChartOptions { layout: *final(r), ..*old(self) }),
    {
        &mut self.layout
    }

    /// Sets `layout`.
    pub fn layout<V: Into<ChartLayout>>(self, value: V) -> (r: ChartOptions<A>)
        ensures
            r.layout matches Some(x) && call_ensures(<V as Into<ChartLayout>>::into, (value,), x),
            r == (ChartOptions { layout: r.layout, ..self }),
    {
        let mut s = self;
        s.layout = Some(value.into());
        s
    }

    /// The field `maintainAspectRatio`, to read or to change in place.
    pub fn get_maintain_aspect_ratio(&mut self) -> (r: &mut Option<bool>)
        ensures
            *r == old(self).maintainAspectRatio,
            *final(self) == (ChartOptions { maintainAspectRatio: *final(r), ..*old(self) }),
    {
        &mut self.maintainAspectRatio
    }

    /// Sets `maintainAspectRatio`.
    pub fn maintain_aspect_ratio<V: Into<bool>>(self, value: V) -> (r: ChartOptions<A>)
        ensures
            r.maintainAspectRatio matches Some(x) && call_ensures(<V as Into<bool>>::into, (value,), x),
            r == (ChartOptions { maintainAspectRatio: r.maintainAspectRatio, ..self }),
    {
        let mut s = self;
        s.maintainAspectRatio = Some(value.into());
        s
    }

    /// The field `plugins`, to read or to change in place.
    pub fn get_plugins(&mut self) -> (r: &mut Option<ChartPlugins<A>>)
        ensures
            *r == old(self).plugins,
            *final(self) == (ChartOptions { plugins: *final(r), ..*old(self) }),
    {
        &mut self.plugins
    }

    /// Sets `plugins`.
    pub fn plugins<V: Into<ChartPlugins<A>>>(self, value: V) -> (r: ChartOptions<A>)
        ensures
            r.plugins matches Some(x) && call_ensures(<V as Into<ChartPlugins<A>>>::into, (value,), x),
            r == (ChartOptions { plugins: r.plugins, ..self }),
    {
        let mut s = self;
        s.plugins = Some(value.into());
        s
    }

    /// The field `responsive`, to read or to change in place.
    pub fn get_responsive(&mut self) -> (r: &mut Option<bool>)
        ensures
            *r == old(self).responsive,
            *final(self) == (ChartOptions { responsive: *final(r), ..*old(self) }),
    {
        &mut self.responsive
    }

    /// Sets `responsive`.
    pub fn responsive<V: Into<bool>>(self, value: V) -> (r: ChartOptions<A>)
        ensures
            r.responsive matches Some(x) && call_ensures(<V as Into<bool>>::into, (value,), x),
            r == (ChartOptions { responsive: r.responsive, ..self }),
    {
        let mut s = self;
        s.responsive = Some(value.into());
        s
    }

    /// The field `scales`, to read or to change in place.
    pub fn get_scales(&mut self) -> (r: &mut Option<Named<ChartScale>>)
        ensures
            *r == old(self).scales,
            *final(self) == (ChartOptions { scales: *final(r), ..*old(self) }),
    {
        &mut self.scales
    }

    /// Sets `scales`: the given values, each under its name. Of two values
    /// under one name the later one stays.
    pub fn scales(self, value: Vec<(String, ChartScale)>) -> (r: ChartOptions<A>)
        ensures
            r.scales matches Some(table) && table@ == collected(value@),
            r == (ChartOptions { scales: r.scales, ..self }),
    {
        let mut s = self;
        s.scales = Some(Named::from_vec(value));
        s
    }

    /// The field `spanGaps`, to read or to change in place.
    pub fn get_span_gaps(&mut self) -> (r: &mut Option<bool>)
        ensures
            *r == old(self).spanGaps,
            *final(self) == (ChartOptions { spanGaps: *final(r), ..*old(self) }),
    {
        &mut self.spanGaps
    }

    /// Sets `spanGaps`.
    pub fn span_gaps<V: Into<bool>>(self, value: V) -> (r: ChartOptions<A>)
        ensures
            r.spanGaps matches Some(x) && call_ensures(<V as Into<bool>>::into, (value,), x),
            r == (ChartOptions { spanGaps: r.spanGaps, ..self }),
    {
        let mut s = self;
        s.spanGaps = Some(value.into());
        s
    }

    /// Whether a wire value reads as a value of this kind: an object whose
    /// members, where they are there, read as the fields.
    pub open spec fn readable_form(v: JsView) -> bool {
        &&& v is Object
        &&& optional_readable::<Animation>(v, "animation"@)
        &&& optional_readable::<ChartElements>(v, "elements"@)
        &&& optional_readable::<ChartInteraction>(v, "interaction"@)
        &&& defaulted_readable::<String>(v, "indexAxis"@)
        &&& optional_readable::<ChartLegend>(v, "legend"@)
        &&& optional_readable::<ChartLayout>(v, "layout"@)
        &&& optional_readable::<bool>(v, "maintainAspectRatio"@)
        &&& optional_readable::<ChartPlugins<A>>(v, "plugins"@)
        &&& optional_readable::<bool>(v, "responsive"@)
        &&& optional_readable::<Named<ChartScale>>(v, "scales"@)
        &&& optional_readable::<bool>(v, "spanGaps"@)
    }

    /// Whether this value is what a wire value reads as: each field is what
    /// its member reads as, or its default where the member is missing or
    /// the field is never read.
    pub open spec fn reads_form(&self, v: JsView) -> bool {
        &&& optional_reads(self.animation, v, "animation"@)
        &&& optional_reads(self.elements, v, "elements"@)
        &&& optional_reads(self.interaction, v, "interaction"@)
        &&& defaulted_reads(self.indexAxis, v, "indexAxis"@)
        &&& optional_reads(self.legend, v, "legend"@)
        &&& optional_reads(self.layout, v, "layout"@)
        &&& optional_reads(self.maintainAspectRatio, v, "maintainAspectRatio"@)
        &&& optional_reads(self.plugins, v, "plugins"@)
        &&& optional_reads(self.responsive, v, "responsive"@)
        &&& optional_reads(self.scales, v, "scales"@)
        &&& optional_reads(self.spanGaps, v, "spanGaps"@)
    }

    /// Reads the value off the wire.
    pub fn from_value(v: &JsValue) -> (r: Result<Self, DecodeError>)
        ensures
            match r {
                Ok(x) => Self::readable_form(v@) && x.reads_form(v@),
                Err(_) => !Self::readable_form(v@),
            },
    {
        match v {
            JsValue::Object(_) => {},
            _ => {
                return Err(DecodeError::Shape);
            },
        }
        let animation = match read_optional::<Animation>(v, "animation") {
            Ok(x) => x,
            Err(e) => {
                return Err(e);
            },
        };
        let elements = match read_optional::<ChartElements>(v, "elements") {
            Ok(x) => x,
            Err(e) => {
                return Err(e);
            },
        };
        let interaction = match read_optional::<ChartInteraction>(v, "interaction") {
            Ok(x) => x,
            Err(e) => {
                return Err(e);
            },
        };
        let indexAxis = match read_defaulted::<String>(v, "indexAxis") {
            Ok(x) => x,
            Err(e) => {
                return Err(e);
            },
        };
        let legend = match read_optional::<ChartLegend>(v, "legend") {
            Ok(x) => x,
            Err(e) => {
                return Err(e);
            },
        };
        let layout = match read_optional::<ChartLayout>(v, "layout") {
            Ok(x) => x,
            Err(e) => {
                return Err(e);
            },
        };
        let maintainAspectRatio = match read_optional::<bool>(v, "maintainAspectRatio") {
            Ok(x) => x,
            Err(e) => {
                return Err(e);
            },
        };
        let plugins = match read_optional::<ChartPlugins<A>>(v, "plugins") {
            Ok(x) => x,
            Err(e) => {
                return Err(e);
            },
        };
        let responsive = match read_optional::<bool>(v, "responsive") {
            Ok(x) => x,
            Err(e) => {
                return Err(e);
            },
        };
        let scales = match read_optional::<Named<ChartScale>>(v, "scales") {
            Ok(x) => x,
            Err(e) => {
                return Err(e);
            },
        };
        let spanGaps = match read_optional::<bool>(v, "spanGaps") {
            Ok(x) => x,
            Err(e) => {
                return Err(e);
            },
        };
        Ok(ChartOptions { animation, elements, interaction, indexAxis, legend, layout, maintainAspectRatio, plugins, responsive, scales, spanGaps })
    }

    /// Writes the value to the wire.
    pub fn to_value(&self) -> (r: JsValue)
        ensures
            r@ == self.wire_form(),
    {
        let mut members: Vec<(String, JsValue)> = Vec::new();
        assert(members_view(members@) =~= Seq::empty());
        put_option(&mut members, "animation", &self.animation);
        put_option(&mut members, "elements", &self.elements);
        put_option(&mut members, "interaction", &self.interaction);
        put_scalar(&mut members, "indexAxis", &self.indexAxis);
        put_option(&mut members, "legend", &self.legend);
        put_option(&mut members, "layout", &self.layout);
        put_option(&mut members, "maintainAspectRatio", &self.maintainAspectRatio);
        put_option(&mut members, "plugins", &self.plugins);
        put_option(&mut members, "responsive", &self.responsive);
        put_table(&mut members, "scales", &self.scales);
        put_option(&mut members, "spanGaps", &self.spanGaps);
        finish(members)
    }
}

impl<A: Annotation> Default for ChartOptions<A> {
    fn default() -> (r: Self)
        ensures
            r.is_new(),
    {
        ChartOptions::new()
    }
}

impl<A: Annotation> Serialize for ChartOptions<A> {
    open spec fn wire(&self) -> JsView {
        self.wire_form()
    }

    fn serialize(&self) -> (r: JsValue)
        ensures
            r@ == self.wire(),
    {
        self.to_value()
    }
}

impl<A: Annotation> Deserialize for ChartOptions<A> {
    open spec fn readable(v: JsView) -> bool {
        Self::readable_form(v)
    }

    open spec fn reads(&self, v: JsView) -> bool {
        self.reads_form(v)
    }

    fn deserialize(v: &JsValue) -> (r: Result<Self, DecodeError>)
        ensures
            match r {
                Ok(x) => Self::readable(v@) && x.reads(v@),
                Err(_) => !Self::readable(v@),
            },
    {
        ChartOptions::from_value(v)
    }
}
} // verus!
