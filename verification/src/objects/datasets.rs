use vstd::prelude::*;
use crate::callback::FnWithArgsOrT;
use crate::dataset::{DatasetData, NumberStringOrT};
use crate::decode::{
    defaulted_readable, defaulted_reads, optional_readable, optional_reads, read_defaulted,
    read_optional, read_required, required_readable, required_reads,
};
use crate::entries::{
    always_entry, convert_all, finish, list_entry, option_entry, put_always, put_list, put_option,
    put_scalar, scalar_entry,
};
use crate::objects::labels::{DataLabels, Segment};
use crate::objects::style::Border;
use crate::scalar::{BoolString, NumberOrDateString, NumberString};
use crate::value::{members_view, JsValue, JsView};
use crate::wire::{DecodeError, Deserialize, Serialize};

verus! {

/// A dataset whose points are single numbers, one for each label of the chart.
#[derive(Debug, Clone, PartialEq, Eq)]
pub struct SinglePointDataset {
    pub backgroundColor: Vec<String>,
    pub barPercentage: NumberString,
    pub barThickness: NumberString,
    pub base: NumberString,
    pub borderColor: String,
    pub borderJoinStyle: String,
    pub borderRadius: NumberString,
    pub borderSkipped: String,
    pub borderWidth: NumberString,
    pub categoryPercentage: NumberString,
    pub clip: NumberString,
    pub data: Vec<NumberString>,
    pub datalabels: Option<DataLabels>,
    pub grouped: Option<bool>,
    pub hoverBackgroundColor: String,
    pub hoverBorderColor: String,
    pub hoverBorderRadius: NumberString,
    pub hoverBorderWidth: NumberString,
    pub indexAxis: String,
    pub inflateAmount: NumberString,
    pub label: String,
    pub maxBarThickness: NumberString,
    pub minBarLength: NumberString,
    pub order: NumberString,
    pub pointBackgroundColor: String,
    pub pointBorderColor: String,
    pub pointBorderWidth: NumberString,
    pub pointHoverBackgroundColor: String,
    pub pointHoverBorderWidth: NumberString,
    pub pointHoverRadius: NumberOrDateString,
    pub pointRadius: NumberString,
    pub pointStyle: String,
    pub r_type: String,
    pub skipNull: Option<bool>,
    pub stack: String,
    pub stepped: Option<bool>,
    pub xAxisID: String,
    pub yAxisID: String,
}

impl SinglePointDataset {
    /// Whether every field is as `new` leaves it: nothing is set.
    pub open spec fn is_new(&self) -> bool {
        &&& self.backgroundColor@.len() == 0
        &&& self.barPercentage@.len() == 0
        &&& self.barThickness@.len() == 0
        &&& self.base@.len() == 0
        &&& self.borderColor@.len() == 0
        &&& self.borderJoinStyle@.len() == 0
        &&& self.borderRadius@.len() == 0
        &&& self.borderSkipped@.len() == 0
        &&& self.borderWidth@.len() == 0
        &&& self.categoryPercentage@.len() == 0
        &&& self.clip@.len() == 0
        &&& self.data@.len() == 0
        &&& self.datalabels is None
        &&& self.grouped is None
        &&& self.hoverBackgroundColor@.len() == 0
        &&& self.hoverBorderColor@.len() == 0
        &&& self.hoverBorderRadius@.len() == 0
        &&& self.hoverBorderWidth@.len() == 0
        &&& self.indexAxis@.len() == 0
        &&& self.inflateAmount@.len() == 0
        &&& self.label@.len() == 0
        &&& self.maxBarThickness@.len() == 0
        &&& self.minBarLength@.len() == 0
        &&& self.order@.len() == 0
        &&& self.pointBackgroundColor@.len() == 0
        &&& self.pointBorderColor@.len() == 0
        &&& self.pointBorderWidth@.len() == 0
        &&& self.pointHoverBackgroundColor@.len() == 0
        &&& self.pointHoverBorderWidth@.len() == 0
        &&& self.pointHoverRadius@.len() == 0
        &&& self.pointRadius@.len() == 0
        &&& self.pointStyle@.len() == 0
        &&& self.r_type@.len() == 0
        &&& self.skipNull is None
        &&& self.stack@.len() == 0
        &&& self.stepped is None
        &&& self.xAxisID@.len() == 0
        &&& self.yAxisID@.len() == 0
    }

    /// The wire form: an object with one member for each field that is
    /// set, in the order of the fields.
    pub open spec fn wire_form(&self) -> JsView {
        JsView::Object(
            Seq::empty()
                + list_entry("backgroundColor"@, self.backgroundColor@)
                + scalar_entry("barPercentage"@, self.barPercentage)
                + scalar_entry("barThickness"@, self.barThickness)
                + scalar_entry("base"@, self.base)
                + scalar_entry("borderColor"@, self.borderColor)
                + scalar_entry("borderJoinStyle"@, self.borderJoinStyle)
                + scalar_entry("borderRadius"@, self.borderRadius)
                + scalar_entry("borderSkipped"@, self.borderSkipped)
                + scalar_entry("borderWidth"@, self.borderWidth)
                + scalar_entry("categoryPercentage"@, self.categoryPercentage)
                + scalar_entry("clip"@, self.clip)
                + list_entry("data"@, self.data@)
                + option_entry("datalabels"@, self.datalabels)
                + option_entry("grouped"@, self.grouped)
                + scalar_entry("hoverBackgroundColor"@, self.hoverBackgroundColor)
                + scalar_entry("hoverBorderColor"@, self.hoverBorderColor)
                + scalar_entry("hoverBorderRadius"@, self.hoverBorderRadius)
                + scalar_entry("hoverBorderWidth"@, self.hoverBorderWidth)
                + scalar_entry("indexAxis"@, self.indexAxis)
                + scalar_entry("inflateAmount"@, self.inflateAmount)
                + scalar_entry("label"@, self.label)
                + scalar_entry("maxBarThickness"@, self.maxBarThickness)
                + scalar_entry("minBarLength"@, self.minBarLength)
                + scalar_entry("order"@, self.order)
                + scalar_entry("pointBackgroundColor"@, self.pointBackgroundColor)
                + scalar_entry("pointBorderColor"@, self.pointBorderColor)
                + scalar_entry("pointBorderWidth"@, self.pointBorderWidth)
                + scalar_entry("pointHoverBackgroundColor"@, self.pointHoverBackgroundColor)
                + scalar_entry("pointHoverBorderWidth"@, self.pointHoverBorderWidth)
                + scalar_entry("pointHoverRadius"@, self.pointHoverRadius)
                + scalar_entry("pointRadius"@, self.pointRadius)
                + scalar_entry("pointStyle"@, self.pointStyle)
                + scalar_entry("type"@, self.r_type)
                + option_entry("skipNull"@, self.skipNull)
                + scalar_entry("stack"@, self.stack)
                + option_entry("stepped"@, self.stepped)
                + scalar_entry("xAxisID"@, self.xAxisID)
                + scalar_entry("yAxisID"@, self.yAxisID)
        )
    }

    /// The value with nothing set.
    pub fn new() -> (r: Self)
        ensures
            r.is_new(),
    {
        SinglePointDataset {
            backgroundColor: Vec::new(),
            barPercentage: NumberString::default(),
            barThickness: NumberString::default(),
            base: NumberString::default(),
            borderColor: String::new(),
            borderJoinStyle: String::new(),
            borderRadius: NumberString::default(),
            borderSkipped: String::new(),
            borderWidth: NumberString::default(),
            categoryPercentage: NumberString::default(),
            clip: NumberString::default(),
            data: Vec::new(),
            datalabels: None,
            grouped: None,
            hoverBackgroundColor: String::new(),
            hoverBorderColor: String::new(),
            hoverBorderRadius: NumberString::default(),
            hoverBorderWidth: NumberString::default(),
            indexAxis: String::new(),
            inflateAmount: NumberString::default(),
            label: String::new(),
            maxBarThickness: NumberString::default(),
            minBarLength: NumberString::default(),
            order: NumberString::default(),
            pointBackgroundColor: String::new(),
            pointBorderColor: String::new(),
            pointBorderWidth: NumberString::default(),
            pointHoverBackgroundColor: String::new(),
            pointHoverBorderWidth: NumberString::default(),
            pointHoverRadius: NumberOrDateString::default(),
            pointRadius: NumberString::default(),
            pointStyle: String::new(),
            r_type: String::new(),
            skipNull: None,
            stack: String::new(),
            stepped: None,
            xAxisID: String::new(),
            yAxisID: String::new(),
        }
    }

    /// The field `backgroundColor`, to read or to change in place.
    pub fn get_background_color(&mut self) -> (r: &mut Vec<String>)
        ensures
            *r == old(self).backgroundColor,
            *final(self) == (SinglePointDataset { backgroundColor: *final(r), ..*old(self) }),
    {
        &mut self.backgroundColor
    }

    /// Sets `backgroundColor`: each of the given values, turned into a `String`.
    pub fn background_color<T: Into<String>>(self, value: Vec<T>) -> (r: SinglePointDataset)
        ensures
            r.backgroundColor@.len() == value@.len(),
            forall|i: int|
                0 <= i < value@.len() ==> call_ensures(
                    <T as Into<String>>::into,
                    (value@[i],),
                    #[trigger] r.backgroundColor@[i],
                ),
            r == (SinglePointDataset { backgroundColor: r.backgroundColor, ..self }),
    {
        let mut s = self;
        s.backgroundColor = convert_all(value);
        s
    }

    /// The field `barPercentage`, to read or to change in place.
    pub fn get_bar_percentage(&mut self) -> (r: &mut NumberString)
        ensures
            *r == old(self).barPercentage,
            *final(self) == (SinglePointDataset { barPercentage: *final(r), ..*old(self) }),
    {
        &mut self.barPercentage
    }

    /// Sets `barPercentage`.
    pub fn bar_percentage<V: Into<NumberString>>(self, value: V) -> (r: SinglePointDataset)
        ensures
            call_ensures(<V as Into<NumberString>>::into, (value,), r.barPercentage),
            r == (SinglePointDataset { barPercentage: r.barPercentage, ..self }),
    {
        let mut s = self;
        s.barPercentage = value.into();
        s
    }

    /// The field `barThickness`, to read or to change in place.
    pub fn get_bar_thickness(&mut self) -> (r: &mut NumberString)
        ensures
            *r == old(self).barThickness,
            *final(self) == (SinglePointDataset { barThickness: *final(r), ..*old(self) }),
    {
        &mut self.barThickness
    }

    /// Sets `barThickness`.
    pub fn bar_thickness<V: Into<NumberString>>(self, value: V) -> (r: SinglePointDataset)
        ensures
            call_ensures(<V as Into<NumberString>>::into, (value,), r.barThickness),
            r == (SinglePointDataset { barThickness: r.barThickness, ..self }),
    {
        let mut s = self;
        s.barThickness = value.into();
        s
    }

    /// The field `base`, to read or to change in place.
    pub fn get_base(&mut self) -> (r: &mut NumberString)
        ensures
            *r == old(self).base,
            *final(self) == (SinglePointDataset { base: *final(r), ..*old(self) }),
    {
        &mut self.base
    }

    /// Sets `base`.
    pub fn base<V: Into<NumberString>>(self, value: V) -> (r: SinglePointDataset)
        ensures
            call_ensures(<V as Into<NumberString>>::into, (value,), r.base),
            r == (SinglePointDataset { base: r.base, ..self }),
    {
        let mut s = self;
        s.base = value.into();
        s
    }

    /// The field `borderColor`, to read or to change in place.
    pub fn get_border_color(&mut self) -> (r: &mut String)
        ensures
            *r == old(self).borderColor,
            *final(self) == (SinglePointDataset { borderColor: *final(r), ..*old(self) }),
    {
        &mut self.borderColor
    }

    /// Sets `borderColor`.
    pub fn border_color<V: Into<String>>(self, value: V) -> (r: SinglePointDataset)
        ensures
            call_ensures(<V as Into<String>>::into, (value,), r.borderColor),
            r == (SinglePointDataset { borderColor: r.borderColor, ..self }),
    {
        let mut s = self;
        s.borderColor = value.into();
        s
    }

    /// The field `borderJoinStyle`, to read or to change in place.
    pub fn get_border_join_style(&mut self) -> (r: &mut String)
        ensures
            *r == old(self).borderJoinStyle,
            *final(self) == (SinglePointDataset { borderJoinStyle: *final(r), ..*old(self) }),
    {
        &mut self.borderJoinStyle
    }

    /// Sets `borderJoinStyle`.
    pub fn border_join_style<V: Into<String>>(self, value: V) -> (r: SinglePointDataset)
        ensures
            call_ensures(<V as Into<String>>::into, (value,), r.borderJoinStyle),
            r == (SinglePointDataset { borderJoinStyle: r.borderJoinStyle, ..self }),
    {
        let mut s = self;
        s.borderJoinStyle = value.into();
        s
    }

    /// The field `borderRadius`, to read or to change in place.
    pub fn get_border_radius(&mut self) -> (r: &mut NumberString)
        ensures
            *r == old(self).borderRadius,
            *final(self) == (SinglePointDataset { borderRadius: *final(r), ..*old(self) }),
    {
        &mut self.borderRadius
    }

    /// Sets `borderRadius`.
    pub fn border_radius<V: Into<NumberString>>(self, value: V) -> (r: SinglePointDataset)
        ensures
            call_ensures(<V as Into<NumberString>>::into, (value,), r.borderRadius),
            r == (SinglePointDataset { borderRadius: r.borderRadius, ..self }),
    {
        let mut s = self;
        s.borderRadius = value.into();
        s
    }

    /// The field `borderSkipped`, to read or to change in place.
    pub fn get_border_skipped(&mut self) -> (r: &mut String)
        ensures
            *r == old(self).borderSkipped,
            *final(self) == (SinglePointDataset { borderSkipped: *final(r), ..*old(self) }),
    {
        &mut self.borderSkipped
    }

    /// Sets `borderSkipped`.
    pub fn border_skipped<V: Into<String>>(self, value: V) -> (r: SinglePointDataset)
        ensures
            call_ensures(<V as Into<String>>::into, (value,), r.borderSkipped),
            r == (SinglePointDataset { borderSkipped: r.borderSkipped, ..self }),
    {
        let mut s = self;
        s.borderSkipped = value.into();
        s
    }

    /// The field `borderWidth`, to read or to change in place.
    pub fn get_border_width(&mut self) -> (r: &mut NumberString)
        ensures
            *r == old(self).borderWidth,
            *final(self) == (SinglePointDataset { borderWidth: *final(r), ..*old(self) }),
    {
        &mut self.borderWidth
    }

    /// Sets `borderWidth`.
    pub fn border_width<V: Into<NumberString>>(self, value: V) -> (r: SinglePointDataset)
        ensures
            call_ensures(<V as Into<NumberString>>::into, (value,), r.borderWidth),
            r == (SinglePointDataset { borderWidth: r.borderWidth, ..self }),
    {
        let mut s = self;
        s.borderWidth = value.into();
        s
    }

    /// The field `categoryPercentage`, to read or to change in place.
    pub fn get_category_percentage(&mut self) -> (r: &mut NumberString)
        ensures
            *r == old(self).categoryPercentage,
            *final(self) == (SinglePointDataset { categoryPercentage: *final(r), ..*old(self) }),
    {
        &mut self.categoryPercentage
    }

    /// Sets `categoryPercentage`.
    pub fn category_percentage<V: Into<NumberString>>(self, value: V) -> (r: SinglePointDataset)
        ensures
            call_ensures(<V as Into<NumberString>>::into, (value,), r.categoryPercentage),
            r == (SinglePointDataset { categoryPercentage: r.categoryPercentage, ..self }),
    {
        let mut s = self;
        s.categoryPercentage = value.into();
        s
    }

    /// The field `clip`, to read or to change in place.
    pub fn get_clip(&mut self) -> (r: &mut NumberString)
        ensures
            *r == old(self).clip,
            *final(self) == (SinglePointDataset { clip: *final(r), ..*old(self) }),
    {
        &mut self.clip
    }

    /// Sets `clip`.
    pub fn clip<V: Into<NumberString>>(self, value: V) -> (r: SinglePointDataset)
        ensures
            call_ensures(<V as Into<NumberString>>::into, (value,), r.clip),
            r == (SinglePointDataset { clip: r.clip, ..self }),
    {
        let mut s = self;
        s.clip = value.into();
        s
    }

    /// The field `data`, to read or to change in place.
    pub fn get_data(&mut self) -> (r: &mut Vec<NumberString>)
        ensures
            *r == old(self).data,
            *final(self) == (SinglePointDataset { data: *final(r), ..*old(self) }),
    {
        &mut self.data
    }

    /// Sets `data`: each of the given values, turned into a `NumberString`.
    pub fn data<T: Into<NumberString>>(self, value: Vec<T>) -> (r: SinglePointDataset)
        ensures
            r.data@.len() == value@.len(),
            forall|i: int|
                0 <= i < value@.len() ==> call_ensures(
                    <T as Into<NumberString>>::into,
                    (value@[i],),
                    #[trigger] r.data@[i],
                ),
            r == (SinglePointDataset { data: r.data, ..self }),
    {
        let mut s = self;
        s.data = convert_all(value);
        s
    }

    /// The field `datalabels`, to read or to change in place.
    pub fn get_datalabels(&mut self) -> (r: &mut Option<DataLabels>)
        ensures
            *r == old(self).datalabels,
            *final(self) == (SinglePointDataset { datalabels: *final(r), ..*old(self) }),
    {
        &mut self.datalabels
    }

    /// Sets `datalabels`.
    pub fn datalabels<V: Into<DataLabels>>(self, value: V) -> (r: SinglePointDataset)
        ensures
            r.datalabels matches Some(x) && call_ensures(<V as Into<DataLabels>>::into, (value,), x),
            r == (SinglePointDataset { datalabels: r.datalabels, ..self }),
    {
        let mut s = self;
        s.datalabels = Some(value.into());
        s
    }

    /// The field `grouped`, to read or to change in place.
    pub fn get_grouped(&mut self) -> (r: &mut Option<bool>)
        ensures
            *r == old(self).grouped,
            *final(self) == (SinglePointDataset { grouped: *final(r), ..*old(self) }),
    {
        &mut self.grouped
    }

    /// Sets `grouped`.
    pub fn grouped<V: Into<bool>>(self, value: V) -> (r: SinglePointDataset)
        ensures
            r.grouped matches Some(x) && call_ensures(<V as Into<bool>>::into, (value,), x),
            r == (SinglePointDataset { grouped: r.grouped, ..self }),
    {
        let mut s = self;
        s.grouped = Some(value.into());
        s
    }

    /// The field `hoverBackgroundColor`, to read or to change in place.
    pub fn get_hover_background_color(&mut self) -> (r: &mut String)
        ensures
            *r == old(self).hoverBackgroundColor,
            *final(self) == (SinglePointDataset { hoverBackgroundColor: *final(r), ..*old(self) }),
    {
        &mut self.hoverBackgroundColor
    }

    /// Sets `hoverBackgroundColor`.
    pub fn hover_background_color<V: Into<String>>(self, value: V) -> (r: SinglePointDataset)
        ensures
            call_ensures(<V as Into<String>>::into, (value,), r.hoverBackgroundColor),
            r == (SinglePointDataset { hoverBackgroundColor: r.hoverBackgroundColor, ..self }),
    {
        let mut s = self;
        s.hoverBackgroundColor = value.into();
        s
    }

    /// The field `hoverBorderColor`, to read or to change in place.
    pub fn get_hover_border_color(&mut self) -> (r: &mut String)
        ensures
            *r == old(self).hoverBorderColor,
            *final(self) == (SinglePointDataset { hoverBorderColor: *final(r), ..*old(self) }),
    {
        &mut self.hoverBorderColor
    }

    /// Sets `hoverBorderColor`.
    pub fn hover_border_color<V: Into<String>>(self, value: V) -> (r: SinglePointDataset)
        ensures
            call_ensures(<V as Into<String>>::into, (value,), r.hoverBorderColor),
            r == (SinglePointDataset { hoverBorderColor: r.hoverBorderColor, ..self }),
    {
        let mut s = self;
        s.hoverBorderColor = value.into();
        s
    }

    /// The field `hoverBorderRadius`, to read or to change in place.
    pub fn get_hover_border_radius(&mut self) -> (r: &mut NumberString)
        ensures
            *r == old(self).hoverBorderRadius,
            *final(self) == (SinglePointDataset { hoverBorderRadius: *final(r), ..*old(self) }),
    {
        &mut self.hoverBorderRadius
    }

    /// Sets `hoverBorderRadius`.
    pub fn hover_border_radius<V: Into<NumberString>>(self, value: V) -> (r: SinglePointDataset)
        ensures
            call_ensures(<V as Into<NumberString>>::into, (value,), r.hoverBorderRadius),
            r == (SinglePointDataset { hoverBorderRadius: r.hoverBorderRadius, ..self }),
    {
        let mut s = self;
        s.hoverBorderRadius = value.into();
        s
    }

    /// The field `hoverBorderWidth`, to read or to change in place.
    pub fn get_hover_border_width(&mut self) -> (r: &mut NumberString)
        ensures
            *r == old(self).hoverBorderWidth,
            *final(self) == (SinglePointDataset { hoverBorderWidth: *final(r), ..*old(self) }),
    {
        &mut self.hoverBorderWidth
    }

    /// Sets `hoverBorderWidth`.
    pub fn hover_border_width<V: Into<NumberString>>(self, value: V) -> (r: SinglePointDataset)
        ensures
            call_ensures(<V as Into<NumberString>>::into, (value,), r.hoverBorderWidth),
            r == (SinglePointDataset { hoverBorderWidth: r.hoverBorderWidth, ..self }),
    {
        let mut s = self;
        s.hoverBorderWidth = value.into();
        s
    }

    /// The field `indexAxis`, to read or to change in place.
    pub fn get_index_axis(&mut self) -> (r: &mut String)
        ensures
            *r == old(self).indexAxis,
            *final(self) == (SinglePointDataset { indexAxis: *final(r), ..*old(self) }),
    {
        &mut self.indexAxis
    }

    /// Sets `indexAxis`.
    pub fn index_axis<V: Into<String>>(self, value: V) -> (r: SinglePointDataset)
        ensures
            call_ensures(<V as Into<String>>::into, (value,), r.indexAxis),
            r == (SinglePointDataset { indexAxis: r.indexAxis, ..self }),
    {
        let mut s = self;
        s.indexAxis = value.into();
        s
    }

    /// The field `inflateAmount`, to read or to change in place.
    pub fn get_inflate_amount(&mut self) -> (r: &mut NumberString)
        ensures
            *r == old(self).inflateAmount,
            *final(self) == (SinglePointDataset { inflateAmount: *final(r), ..*old(self) }),
    {
        &mut self.inflateAmount
    }

    /// Sets `inflateAmount`.
    pub fn inflate_amount<V: Into<NumberString>>(self, value: V) -> (r: SinglePointDataset)
        ensures
            call_ensures(<V as Into<NumberString>>::into, (value,), r.inflateAmount),
            r == (SinglePointDataset { inflateAmount: r.inflateAmount, ..self }),
    {
        let mut s = self;
        s.inflateAmount = value.into();
        s
    }

    /// The field `label`, to read or to change in place.
    pub fn get_label(&mut self) -> (r: &mut String)
        ensures
            *r == old(self).label,
            *final(self) == (SinglePointDataset { label: *final(r), ..*old(self) }),
    {
        &mut self.label
    }

    /// Sets `label`.
    pub fn label<V: Into<String>>(self, value: V) -> (r: SinglePointDataset)
        ensures
            call_ensures(<V as Into<String>>::into, (value,), r.label),
            r == (SinglePointDataset { label: r.label, ..self }),
    {
        let mut s = self;
        s.label = value.into();
        s
    }

    /// The field `maxBarThickness`, to read or to change in place.
    pub fn get_max_bar_thickness(&mut self) -> (r: &mut NumberString)
        ensures
            *r == old(self).maxBarThickness,
            *final(self) == (SinglePointDataset { maxBarThickness: *final(r), ..*old(self) }),
    {
        &mut self.maxBarThickness
    }

    /// Sets `maxBarThickness`.
    pub fn max_bar_thickness<V: Into<NumberString>>(self, value: V) -> (r: SinglePointDataset)
        ensures
            call_ensures(<V as Into<NumberString>>::into, (value,), r.maxBarThickness),
            r == (SinglePointDataset { maxBarThickness: r.maxBarThickness, ..self }),
    {
        let mut s = self;
        s.maxBarThickness = value.into();
        s
    }

    /// The field `minBarLength`, to read or to change in place.
    pub fn get_min_bar_length(&mut self) -> (r: &mut NumberString)
        ensures
            *r == old(self).minBarLength,
            *final(self) == (SinglePointDataset { minBarLength: *final(r), ..*old(self) }),
    {
        &mut self.minBarLength
    }

    /// Sets `minBarLength`.
    pub fn min_bar_length<V: Into<NumberString>>(self, value: V) -> (r: SinglePointDataset)
        ensures
            call_ensures(<V as Into<NumberString>>::into, (value,), r.minBarLength),
            r == (SinglePointDataset { minBarLength: r.minBarLength, ..self }),
    {
        let mut s = self;
        s.minBarLength = value.into();
        s
    }

    /// The field `order`, to read or to change in place.
    pub fn get_order(&mut self) -> (r: &mut NumberString)
        ensures
            *r == old(self).order,
            *final(self) == (SinglePointDataset { order: *final(r), ..*old(self) }),
    {
        &mut self.order
    }

    /// Sets `order`.
    pub fn order<V: Into<NumberString>>(self, value: V) -> (r: SinglePointDataset)
        ensures
            call_ensures(<V as Into<NumberString>>::into, (value,), r.order),
            r == (SinglePointDataset { order: r.order, ..self }),
    {
        let mut s = self;
        s.order = value.into();
        s
    }

    /// The field `pointBackgroundColor`, to read or to change in place.
    pub fn get_point_background_color(&mut self) -> (r: &mut String)
        ensures
            *r == old(self).pointBackgroundColor,
            *final(self) == (SinglePointDataset { pointBackgroundColor: *final(r), ..*old(self) }),
    {
        &mut self.pointBackgroundColor
    }

    /// Sets `pointBackgroundColor`.
    pub fn point_background_color<V: Into<String>>(self, value: V) -> (r: SinglePointDataset)
        ensures
            call_ensures(<V as Into<String>>::into, (value,), r.pointBackgroundColor),
            r == (SinglePointDataset { pointBackgroundColor: r.pointBackgroundColor, ..self }),
    {
        let mut s = self;
        s.pointBackgroundColor = value.into();
        s
    }

    /// The field `pointBorderColor`, to read or to change in place.
    pub fn get_point_border_color(&mut self) -> (r: &mut String)
        ensures
            *r == old(self).pointBorderColor,
            *final(self) == (SinglePointDataset { pointBorderColor: *final(r), ..*old(self) }),
    {
        &mut self.pointBorderColor
    }

    /// Sets `pointBorderColor`.
    pub fn point_border_color<V: Into<String>>(self, value: V) -> (r: SinglePointDataset)
        ensures
            call_ensures(<V as Into<String>>::into, (value,), r.pointBorderColor),
            r == (SinglePointDataset { pointBorderColor: r.pointBorderColor, ..self }),
    {
        let mut s = self;
        s.pointBorderColor = value.into();
        s
    }

    /// The field `pointBorderWidth`, to read or to change in place.
    pub fn get_point_border_width(&mut self) -> (r: &mut NumberString)
        ensures
            *r == old(self).pointBorderWidth,
            *final(self) == (SinglePointDataset { pointBorderWidth: *final(r), ..*old(self) }),
    {
        &mut self.pointBorderWidth
    }

    /// Sets `pointBorderWidth`.
    pub fn point_border_width<V: Into<NumberString>>(self, value: V) -> (r: SinglePointDataset)
        ensures
            call_ensures(<V as Into<NumberString>>::into, (value,), r.pointBorderWidth),
            r == (SinglePointDataset { pointBorderWidth: r.pointBorderWidth, ..self }),
    {
        let mut s = self;
        s.pointBorderWidth = value.into();
        s
    }

    /// The field `pointHoverBackgroundColor`, to read or to change in place.
    pub fn get_point_hover_background_color(&mut self) -> (r: &mut String)
        ensures
            *r == old(self).pointHoverBackgroundColor,
            *final(self) == (SinglePointDataset { pointHoverBackgroundColor: *final(r), ..*old(self) }),
    {
        &mut self.pointHoverBackgroundColor
    }

    /// Sets `pointHoverBackgroundColor`.
    pub fn point_hover_background_color<V: Into<String>>(self, value: V) -> (r: SinglePointDataset)
        ensures
            call_ensures(<V as Into<String>>::into, (value,), r.pointHoverBackgroundColor),
            r == (SinglePointDataset { pointHoverBackgroundColor: r.pointHoverBackgroundColor, ..self }),
    {
        let mut s = self;
        s.pointHoverBackgroundColor = value.into();
        s
    }

    /// The field `pointHoverBorderWidth`, to read or to change in place.
    pub fn get_point_hover_border_width(&mut self) -> (r: &mut NumberString)
        ensures
            *r == old(self).pointHoverBorderWidth,
            *final(self) == (SinglePointDataset { pointHoverBorderWidth: *final(r), ..*old(self) }),
    {
        &mut self.pointHoverBorderWidth
    }

    /// Sets `pointHoverBorderWidth`.
    pub fn point_hover_border_width<V: Into<NumberString>>(self, value: V) -> (r: SinglePointDataset)
        ensures
            call_ensures(<V as Into<NumberString>>::into, (value,), r.pointHoverBorderWidth),
            r == (SinglePointDataset { pointHoverBorderWidth: r.pointHoverBorderWidth, ..self }),
    {
        let mut s = self;
        s.pointHoverBorderWidth = value.into();
        s
    }

    /// The field `pointHoverRadius`, to read or to change in place.
    pub fn get_point_hover_radius(&mut self) -> (r: &mut NumberOrDateString)
        ensures
            *r == old(self).pointHoverRadius,
            *final(self) == (SinglePointDataset { pointHoverRadius: *final(r), ..*old(self) }),
    {
        &mut self.pointHoverRadius
    }

    /// Sets `pointHoverRadius`.
    pub fn point_hover_radius<V: Into<NumberOrDateString>>(self, value: V) -> (r: SinglePointDataset)
        ensures
            call_ensures(<V as Into<NumberOrDateString>>::into, (value,), r.pointHoverRadius),
            r == (SinglePointDataset { pointHoverRadius: r.pointHoverRadius, ..self }),
    {
        let mut s = self;
        s.pointHoverRadius = value.into();
        s
    }

    /// The field `pointRadius`, to read or to change in place.
    pub fn get_point_radius(&mut self) -> (r: &mut NumberString)
        ensures
            *r == old(self).pointRadius,
            *final(self) == (SinglePointDataset { pointRadius: *final(r), ..*old(self) }),
    {
        &mut self.pointRadius
    }

    /// Sets `pointRadius`.
    pub fn point_radius<V: Into<NumberString>>(self, value: V) -> (r: SinglePointDataset)
        ensures
            call_ensures(<V as Into<NumberString>>::into, (value,), r.pointRadius),
            r == (SinglePointDataset { pointRadius: r.pointRadius, ..self }),
    {
        let mut s = self;
        s.pointRadius = value.into();
        s
    }

    /// The field `pointStyle`, to read or to change in place.
    pub fn get_point_style(&mut self) -> (r: &mut String)
        ensures
            *r == old(self).pointStyle,
            *final(self) == (SinglePointDataset { pointStyle: *final(r), ..*old(self) }),
    {
        &mut self.pointStyle
    }

    /// Sets `pointStyle`.
    pub fn point_style<V: Into<String>>(self, value: V) -> (r: SinglePointDataset)
        ensures
            call_ensures(<V as Into<String>>::into, (value,), r.pointStyle),
            r == (SinglePointDataset { pointStyle: r.pointStyle, ..self }),
    {
        let mut s = self;
        s.pointStyle = value.into();
        s
    }

    /// The field `type`, to read or to change in place.
    pub fn get_r_type(&mut self) -> (r: &mut String)
        ensures
            *r == old(self).r_type,
            *final(self) == (SinglePointDataset { r_type: *final(r), ..*old(self) }),
    {
        &mut self.r_type
    }

    /// Sets `type`.
    pub fn r_type<V: Into<String>>(self, value: V) -> (r: SinglePointDataset)
        ensures
            call_ensures(<V as Into<String>>::into, (value,), r.r_type),
            r == (SinglePointDataset { r_type: r.r_type, ..self }),
    {
        let mut s = self;
        s.r_type = value.into();
        s
    }

    /// The field `skipNull`, to read or to change in place.
    pub fn get_skip_null(&mut self) -> (r: &mut Option<bool>)
        ensures
            *r == old(self).skipNull,
            *final(self) == (SinglePointDataset { skipNull: *final(r), ..*old(self) }),
    {
        &mut self.skipNull
    }

    /// Sets `skipNull`.
    pub fn skip_null<V: Into<bool>>(self, value: V) -> (r: SinglePointDataset)
        ensures
            r.skipNull matches Some(x) && call_ensures(<V as Into<bool>>::into, (value,), x),
            r == (SinglePointDataset { skipNull: r.skipNull, ..self }),
    {
        let mut s = self;
        s.skipNull = Some(value.into());
        s
    }

    /// The field `stack`, to read or to change in place.
    pub fn get_stack(&mut self) -> (r: &mut String)
        ensures
            *r == old(self).stack,
            *final(self) == (SinglePointDataset { stack: *final(r), ..*old(self) }),
    {
        &mut self.stack
    }

    /// Sets `stack`.
    pub fn stack<V: Into<String>>(self, value: V) -> (r: SinglePointDataset)
        ensures
            call_ensures(<V as Into<String>>::into, (value,), r.stack),
            r == (SinglePointDataset { stack: r.stack, ..self }),
    {
        let mut s = self;
        s.stack = value.into();
        s
    }

    /// The field `stepped`, to read or to change in place.
    pub fn get_stepped(&mut self) -> (r: &mut Option<bool>)
        ensures
            *r == old(self).stepped,
            *final(self) == (SinglePointDataset { stepped: *final(r), ..*old(self) }),
    {
        &mut self.stepped
    }

    /// Sets `stepped`.
    pub fn stepped<V: Into<bool>>(self, value: V) -> (r: SinglePointDataset)
        ensures
            r.stepped matches Some(x) && call_ensures(<V as Into<bool>>::into, (value,), x),
            r == (SinglePointDataset { stepped: r.stepped, ..self }),
    {
        let mut s = self;
        s.stepped = Some(value.into());
        s
    }

    /// The field `xAxisID`, to read or to change in place.
    pub fn get_x_axis_id(&mut self) -> (r: &mut String)
        ensures
            *r == old(self).xAxisID,
            *final(self) == (SinglePointDataset { xAxisID: *final(r), ..*old(self) }),
    {
        &mut self.xAxisID
    }

    /// Sets `xAxisID`.
    pub fn x_axis_id<V: Into<String>>(self, value: V) -> (r: SinglePointDataset)
        ensures
            call_ensures(<V as Into<String>>::into, (value,), r.xAxisID),
            r == (SinglePointDataset { xAxisID: r.xAxisID, ..self }),
    {
        let mut s = self;
        s.xAxisID = value.into();
        s
    }

    /// The field `yAxisID`, to read or to change in place.
    pub fn get_y_axis_id(&mut self) -> (r: &mut String)
        ensures
            *r == old(self).yAxisID,
            *final(self) == (SinglePointDataset { yAxisID: *final(r), ..*old(self) }),
    {
        &mut self.yAxisID
    }

    /// Sets `yAxisID`.
    pub fn y_axis_id<V: Into<String>>(self, value: V) -> (r: SinglePointDataset)
        ensures
            call_ensures(<V as Into<String>>::into, (value,), r.yAxisID),
            r == (SinglePointDataset { yAxisID: r.yAxisID, ..self }),
    {
        let mut s = self;
        s.yAxisID = value.into();
        s
    }

    /// Whether a wire value reads as a value of this kind: an object whose
    /// members, where they are there, read as the fields.
    pub open spec fn readable_form(v: JsView) -> bool {
        &&& v is Object
        &&& defaulted_readable::<Vec<String>>(v, "backgroundColor"@)
        &&& defaulted_readable::<NumberString>(v, "barPercentage"@)
        &&& defaulted_readable::<NumberString>(v, "barThickness"@)
        &&& defaulted_readable::<NumberString>(v, "base"@)
        &&& defaulted_readable::<String>(v, "borderColor"@)
        &&& defaulted_readable::<String>(v, "borderJoinStyle"@)
        &&& defaulted_readable::<NumberString>(v, "borderRadius"@)
        &&& defaulted_readable::<String>(v, "borderSkipped"@)
        &&& defaulted_readable::<NumberString>(v, "borderWidth"@)
        &&& defaulted_readable::<NumberString>(v, "categoryPercentage"@)
        &&& defaulted_readable::<NumberString>(v, "clip"@)
        &&& defaulted_readable::<Vec<NumberString>>(v, "data"@)
        &&& optional_readable::<DataLabels>(v, "datalabels"@)
        &&& optional_readable::<bool>(v, "grouped"@)
        &&& defaulted_readable::<String>(v, "hoverBackgroundColor"@)
        &&& defaulted_readable::<String>(v, "hoverBorderColor"@)
        &&& defaulted_readable::<NumberString>(v, "hoverBorderRadius"@)
        &&& defaulted_readable::<NumberString>(v, "hoverBorderWidth"@)
        &&& defaulted_readable::<String>(v, "indexAxis"@)
        &&& defaulted_readable::<NumberString>(v, "inflateAmount"@)
        &&& defaulted_readable::<String>(v, "label"@)
        &&& defaulted_readable::<NumberString>(v, "maxBarThickness"@)
        &&& defaulted_readable::<NumberString>(v, "minBarLength"@)
        &&& defaulted_readable::<NumberString>(v, "order"@)
        &&& defaulted_readable::<String>(v, "pointBackgroundColor"@)
        &&& defaulted_readable::<String>(v, "pointBorderColor"@)
        &&& defaulted_readable::<NumberString>(v, "pointBorderWidth"@)
        &&& defaulted_readable::<String>(v, "pointHoverBackgroundColor"@)
        &&& defaulted_readable::<NumberString>(v, "pointHoverBorderWidth"@)
        &&& defaulted_readable::<NumberOrDateString>(v, "pointHoverRadius"@)
        &&& defaulted_readable::<NumberString>(v, "pointRadius"@)
        &&& defaulted_readable::<String>(v, "pointStyle"@)
        &&& defaulted_readable::<String>(v, "type"@)
        &&& optional_readable::<bool>(v, "skipNull"@)
        &&& defaulted_readable::<String>(v, "stack"@)
        &&& optional_readable::<bool>(v, "stepped"@)
        &&& defaulted_readable::<String>(v, "xAxisID"@)
        &&& defaulted_readable::<String>(v, "yAxisID"@)
    }

    /// Whether this value is what a wire value reads as: each field is what
    /// its member reads as, or its default where the member is missing or
    /// the field is never read.
    pub open spec fn reads_form(&self, v: JsView) -> bool {
        &&& defaulted_reads(self.backgroundColor, v, "backgroundColor"@)
        &&& defaulted_reads(self.barPercentage, v, "barPercentage"@)
        &&& defaulted_reads(self.barThickness, v, "barThickness"@)
        &&& defaulted_reads(self.base, v, "base"@)
        &&& defaulted_reads(self.borderColor, v, "borderColor"@)
        &&& defaulted_reads(self.borderJoinStyle, v, "borderJoinStyle"@)
        &&& defaulted_reads(self.borderRadius, v, "borderRadius"@)
        &&& defaulted_reads(self.borderSkipped, v, "borderSkipped"@)
        &&& defaulted_reads(self.borderWidth, v, "borderWidth"@)
        &&& defaulted_reads(self.categoryPercentage, v, "categoryPercentage"@)
        &&& defaulted_reads(self.clip, v, "clip"@)
        &&& defaulted_reads(self.data, v, "data"@)
        &&& optional_reads(self.datalabels, v, "datalabels"@)
        &&& optional_reads(self.grouped, v, "grouped"@)
        &&& defaulted_reads(self.hoverBackgroundColor, v, "hoverBackgroundColor"@)
        &&& defaulted_reads(self.hoverBorderColor, v, "hoverBorderColor"@)
        &&& defaulted_reads(self.hoverBorderRadius, v, "hoverBorderRadius"@)
        &&& defaulted_reads(self.hoverBorderWidth, v, "hoverBorderWidth"@)
        &&& defaulted_reads(self.indexAxis, v, "indexAxis"@)
        &&& defaulted_reads(self.inflateAmount, v, "inflateAmount"@)
        &&& defaulted_reads(self.label, v, "label"@)
        &&& defaulted_reads(self.maxBarThickness, v, "maxBarThickness"@)
        &&& defaulted_reads(self.minBarLength, v, "minBarLength"@)
        &&& defaulted_reads(self.order, v, "order"@)
        &&& defaulted_reads(self.pointBackgroundColor, v, "pointBackgroundColor"@)
        &&& defaulted_reads(self.pointBorderColor, v, "pointBorderColor"@)
        &&& defaulted_reads(self.pointBorderWidth, v, "pointBorderWidth"@)
        &&& defaulted_reads(self.pointHoverBackgroundColor, v, "pointHoverBackgroundColor"@)
        &&& defaulted_reads(self.pointHoverBorderWidth, v, "pointHoverBorderWidth"@)
        &&& defaulted_reads(self.pointHoverRadius, v, "pointHoverRadius"@)
        &&& defaulted_reads(self.pointRadius, v, "pointRadius"@)
        &&& defaulted_reads(self.pointStyle, v, "pointStyle"@)
        &&& defaulted_reads(self.r_type, v, "type"@)
        &&& optional_reads(self.skipNull, v, "skipNull"@)
        &&& defaulted_reads(self.stack, v, "stack"@)
        &&& optional_reads(self.stepped, v, "stepped"@)
        &&& defaulted_reads(self.xAxisID, v, "xAxisID"@)
        &&& defaulted_reads(self.yAxisID, v, "yAxisID"@)
    }

    /// Reads the value off the wire.
    pub fn from_value(v: &JsValue) -> (r: Result<Self, DecodeError>)
        ensures
            match r {
                Ok(x) => Self::readable_form(v@) && x.reads_form(v@),
                Err(_) => !Self::readable_form(v@),
            },
    {
        match v {
            JsValue::Object(_) => {},
            _ => {
                return Err(DecodeError::Shape);
            },
        }
        let backgroundColor = match read_defaulted::<Vec<String>>(v, "backgroundColor") {
            Ok(x) => x,
            Err(e) => {
                return Err(e);
            },
        };
        let barPercentage = match read_defaulted::<NumberString>(v, "barPercentage") {
            Ok(x) => x,
            Err(e) => {
                return Err(e);
            },
        };
        let barThickness = match read_defaulted::<NumberString>(v, "barThickness") {
            Ok(x) => x,
            Err(e) => {
                return Err(e);
            },
        };
        let base = match read_defaulted::<NumberString>(v, "base") {
            Ok(x) => x,
            Err(e) => {
                return Err(e);
            },
        };
        let borderColor = match read_defaulted::<String>(v, "borderColor") {
            Ok(x) => x,
            Err(e) => {
                return Err(e);
            },
        };
        let borderJoinStyle = match read_defaulted::<String>(v, "borderJoinStyle") {
            Ok(x) => x,
            Err(e) => {
                return Err(e);
            },
        };
        let borderRadius = match read_defaulted::<NumberString>(v, "borderRadius") {
            Ok(x) => x,
            Err(e) => {
                return Err(e);
            },
        };
        let borderSkipped = match read_defaulted::<String>(v, "borderSkipped") {
            Ok(x) => x,
            Err(e) => {
                return Err(e);
            },
        };
        let borderWidth = match read_defaulted::<NumberString>(v, "borderWidth") {
            Ok(x) => x,
            Err(e) => {
                return Err(e);
            },
        };
        let categoryPercentage = match read_defaulted::<NumberString>(v, "categoryPercentage") {
            Ok(x) => x,
            Err(e) => {
                return Err(e);
            },
        };
        let clip = match read_defaulted::<NumberString>(v, "clip") {
            Ok(x) => x,
            Err(e) => {
                return Err(e);
            },
        };
        let data = match read_defaulted::<Vec<NumberString>>(v, "data") {
            Ok(x) => x,
            Err(e) => {
                return Err(e);
            },
        };
        let datalabels = match read_optional::<DataLabels>(v, "datalabels") {
            Ok(x) => x,
            Err(e) => {
                return Err(e);
            },
        };
        let grouped = match read_optional::<bool>(v, "grouped") {
            Ok(x) => x,
            Err(e) => {
                return Err(e);
            },
        };
        let hoverBackgroundColor = match read_defaulted::<String>(v, "hoverBackgroundColor") {
            Ok(x) => x,
            Err(e) => {
                return Err(e);
            },
        };
        let hoverBorderColor = match read_defaulted::<String>(v, "hoverBorderColor") {
            Ok(x) => x,
            Err(e) => {
                return Err(e);
            },
        };
        let hoverBorderRadius = match read_defaulted::<NumberString>(v, "hoverBorderRadius") {
            Ok(x) => x,
            Err(e) => {
                return Err(e);
            },
        };
        let hoverBorderWidth = match read_defaulted::<NumberString>(v, "hoverBorderWidth") {
            Ok(x) => x,
            Err(e) => {
                return Err(e);
            },
        };
        let indexAxis = match read_defaulted::<String>(v, "indexAxis") {
            Ok(x) => x,
            Err(e) => {
                return Err(e);
            },
        };
        let inflateAmount = match read_defaulted::<NumberString>(v, "inflateAmount") {
            Ok(x) => x,
            Err(e) => {
                return Err(e);
            },
        };
        let label = match read_defaulted::<String>(v, "label") {
            Ok(x) => x,
            Err(e) => {
                return Err(e);
            },
        };
        let maxBarThickness = match read_defaulted::<NumberString>(v, "maxBarThickness") {
            Ok(x) => x,
            Err(e) => {
                return Err(e);
            },
        };
        let minBarLength = match read_defaulted::<NumberString>(v, "minBarLength") {
            Ok(x) => x,
            Err(e) => {
                return Err(e);
            },
        };
        let order = match read_defaulted::<NumberString>(v, "order") {
            Ok(x) => x,
            Err(e) => {
                return Err(e);
            },
        };
        let pointBackgroundColor = match read_defaulted::<String>(v, "pointBackgroundColor") {
            Ok(x) => x,
            Err(e) => {
                return Err(e);
            },
        };
        let pointBorderColor = match read_defaulted::<String>(v, "pointBorderColor") {
            Ok(x) => x,
            Err(e) => {
                return Err(e);
            },
        };
        let pointBorderWidth = match read_defaulted::<NumberString>(v, "pointBorderWidth") {
            Ok(x) => x,
            Err(e) => {
                return Err(e);
            },
        };
        let pointHoverBackgroundColor = match read_defaulted::<String>(v, "pointHoverBackgroundColor") {
            Ok(x) => x,
            Err(e) => {
                return Err(e);
            },
        };
        let pointHoverBorderWidth = match read_defaulted::<NumberString>(v, "pointHoverBorderWidth") {
            Ok(x) => x,
            Err(e) => {
                return Err(e);
            },
        };
        let pointHoverRadius = match read_defaulted::<NumberOrDateString>(v, "pointHoverRadius") {
            Ok(x) => x,
            Err(e) => {
                return Err(e);
            },
        };
        let pointRadius = match read_defaulted::<NumberString>(v, "pointRadius") {
            Ok(x) => x,
            Err(e) => {
                return Err(e);
            },
        };
        let pointStyle = match read_defaulted::<String>(v, "pointStyle") {
            Ok(x) => x,
            Err(e) => {
                return Err(e);
            },
        };
        let r_type = match read_defaulted::<String>(v, "type") {
            Ok(x) => x,
            Err(e) => {
                return Err(e);
            },
        };
        let skipNull = match read_optional::<bool>(v, "skipNull") {
            Ok(x) => x,
            Err(e) => {
                return Err(e);
            },
        };
        let stack = match read_defaulted::<String>(v, "stack") {
            Ok(x) => x,
            Err(e) => {
                return Err(e);
            },
        };
        let stepped = match read_optional::<bool>(v, "stepped") {
            Ok(x) => x,
            Err(e) => {
                return Err(e);
            },
        };
        let xAxisID = match read_defaulted::<String>(v, "xAxisID") {
            Ok(x) => x,
            Err(e) => {
                return Err(e);
            },
        };
        let yAxisID = match read_defaulted::<String>(v, "yAxisID") {
            Ok(x) => x,
            Err(e) => {
                return Err(e);
            },
        };
        Ok(SinglePointDataset { backgroundColor, barPercentage, barThickness, base, borderColor, borderJoinStyle, borderRadius, borderSkipped, borderWidth, categoryPercentage, clip, data, datalabels, grouped, hoverBackgroundColor, hoverBorderColor, hoverBorderRadius, hoverBorderWidth, indexAxis, inflateAmount, label, maxBarThickness, minBarLength, order, pointBackgroundColor, pointBorderColor, pointBorderWidth, pointHoverBackgroundColor, pointHoverBorderWidth, pointHoverRadius, pointRadius, pointStyle, r_type, skipNull, stack, stepped, xAxisID, yAxisID })
    }

    /// Writes the value to the wire.
    pub fn to_value(&self) -> (r: JsValue)
        ensures
            r@ == self.wire_form(),
    {
        let mut members: Vec<(String, JsValue)> = Vec::new();
        assert(members_view(members@) =~= Seq::empty());
        put_list(&mut members, "backgroundColor", &self.backgroundColor);
        put_scalar(&mut members, "barPercentage", &self.barPercentage);
        put_scalar(&mut members, "barThickness", &self.barThickness);
        put_scalar(&mut members, "base", &self.base);
        put_scalar(&mut members, "borderColor", &self.borderColor);
        put_scalar(&mut members, "borderJoinStyle", &self.borderJoinStyle);
        put_scalar(&mut members, "borderRadius", &self.borderRadius);
        put_scalar(&mut members, "borderSkipped", &self.borderSkipped);
        put_scalar(&mut members, "borderWidth", &self.borderWidth);
        put_scalar(&mut members, "categoryPercentage", &self.categoryPercentage);
        put_scalar(&mut members, "clip", &self.clip);
        put_list(&mut members, "data", &self.data);
        put_option(&mut members, "datalabels", &self.datalabels);
        put_option(&mut members, "grouped", &self.grouped);
        put_scalar(&mut members, "hoverBackgroundColor", &self.hoverBackgroundColor);
        put_scalar(&mut members, "hoverBorderColor", &self.hoverBorderColor);
        put_scalar(&mut members, "hoverBorderRadius", &self.hoverBorderRadius);
        put_scalar(&mut members, "hoverBorderWidth", &self.hoverBorderWidth);
        put_scalar(&mut members, "indexAxis", &self.indexAxis);
        put_scalar(&mut members, "inflateAmount", &self.inflateAmount);
        put_scalar(&mut members, "label", &self.label);
        put_scalar(&mut members, "maxBarThickness", &self.maxBarThickness);
        put_scalar(&mut members, "minBarLength", &self.minBarLength);
        put_scalar(&mut members, "order", &self.order);
        put_scalar(&mut members, "pointBackgroundColor", &self.pointBackgroundColor);
        put_scalar(&mut members, "pointBorderColor", &self.pointBorderColor);
        put_scalar(&mut members, "pointBorderWidth", &self.pointBorderWidth);
        put_scalar(&mut members, "pointHoverBackgroundColor", &self.pointHoverBackgroundColor);
        put_scalar(&mut members, "pointHoverBorderWidth", &self.pointHoverBorderWidth);
        put_scalar(&mut members, "pointHoverRadius", &self.pointHoverRadius);
        put_scalar(&mut members, "pointRadius", &self.pointRadius);
        put_scalar(&mut members, "pointStyle", &self.pointStyle);
        put_scalar(&mut members, "type", &self.r_type);
        put_option(&mut members, "skipNull", &self.skipNull);
        put_scalar(&mut members, "stack", &self.stack);
        put_option(&mut members, "stepped", &self.stepped);
        put_scalar(&mut members, "xAxisID", &self.xAxisID);
        put_scalar(&mut members, "yAxisID", &self.yAxisID);
        finish(members)
    }
}

impl Default for SinglePointDataset {
    fn default() -> (r: Self)
        ensures
            r.is_new(),
    {
        SinglePointDataset::new()
    }
}

impl Serialize for SinglePointDataset {
    open spec fn wire(&self) -> JsView {
        self.wire_form()
    }

    fn serialize(&self) -> (r: JsValue)
        ensures
            r@ == self.wire(),
    {
        self.to_value()
    }
}

impl Deserialize for SinglePointDataset {
    open spec fn readable(v: JsView) -> bool {
        Self::readable_form(v)
    }

    open spec fn reads(&self, v: JsView) -> bool {
        self.reads_form(v)
    }

    fn deserialize(v: &JsValue) -> (r: Result<Self, DecodeError>)
        ensures
            match r {
                Ok(x) => Self::readable(v@) && x.reads(v@),
                Err(_) => !Self::readable(v@),
            },
    {
        SinglePointDataset::from_value(v)
    }
}

/// A dataset whose points have an `x` and a `y` of their own.
#[derive(Debug, Clone, PartialEq, Eq)]
pub struct XYDataset {
    pub backgroundColor: FnWithArgsOrT<2, String>,
    pub backgroundColorArray: Vec<String>,
    pub barPercentage: NumberString,
    pub barThickness: NumberString,
    pub base: NumberString,
    pub borderColor: String,
    pub borderDash: Vec<NumberString>,
    pub borderJoinStyle: String,
    pub borderRadius: NumberString,
    pub borderSkipped: String,
    pub borderWidth: Option<NumberStringOrT<Border>>,
    pub category_label: String,
    pub categoryPercentage: NumberString,
    pub clip: NumberString,
    pub data: DatasetData,
    pub datalabels: DataLabels,
    pub description: String,
    pub fill: String,
    pub grouped: Option<bool>,
    pub hitRadius: NumberString,
    pub hoverBackgroundColor: String,
    pub hoverBorderColor: String,
    pub hoverBorderRadius: NumberString,
    pub hoverBorderWidth: NumberString,
    pub axis: String,
    pub inflateAmount: NumberString,
    pub label: String,
    pub maxBarThickness: NumberString,
    pub minBarLength: NumberString,
    pub order: NumberString,
    pub pointBackgroundColor: String,
    pub pointBorderColor: String,
    pub pointBorderWidth: NumberString,
    pub pointHitRadius: NumberString,
    pub pointHoverBackgroundColor: String,
    pub pointHoverBorderWidth: NumberString,
    pub pointHoverRadius: NumberOrDateString,
    pub pointRadius: NumberString,
    pub pointStyle: String,
    pub segment: Option<Segment>,
    pub skipNull: Option<bool>,
    pub spanGaps: Option<bool>,
    pub stack: String,
    pub stepped: Option<BoolString>,
    pub tension: NumberString,
    pub r_type: String,
    pub xAxisID: String,
    pub yAxisID: String,
    pub z: NumberString,
}

impl XYDataset {
    /// Whether every field is as `new` leaves it: nothing is set.
    pub open spec fn is_new(&self) -> bool {
        &&& (self.backgroundColor matches FnWithArgsOrT::T(t) && t@.len() == 0)
        &&& self.backgroundColorArray@.len() == 0
        &&& self.barPercentage@.len() == 0
        &&& self.barThickness@.len() == 0
        &&& self.base@.len() == 0
        &&& self.borderColor@.len() == 0
        &&& self.borderDash@.len() == 0
        &&& self.borderJoinStyle@.len() == 0
        &&& self.borderRadius@.len() == 0
        &&& self.borderSkipped@.len() == 0
        &&& self.borderWidth is None
        &&& self.category_label@.len() == 0
        &&& self.categoryPercentage@.len() == 0
        &&& self.clip@.len() == 0
        &&& self.data.0@ == JsView::Null
        &&& self.datalabels.is_new()
        &&& self.description@.len() == 0
        &&& self.fill@.len() == 0
        &&& self.grouped is None
        &&& self.hitRadius@.len() == 0
        &&& self.hoverBackgroundColor@.len() == 0
        &&& self.hoverBorderColor@.len() == 0
        &&& self.hoverBorderRadius@.len() == 0
        &&& self.hoverBorderWidth@.len() == 0
        &&& self.axis@.len() == 0
        &&& self.inflateAmount@.len() == 0
        &&& self.label@.len() == 0
        &&& self.maxBarThickness@.len() == 0
        &&& self.minBarLength@.len() == 0
        &&& self.order@.len() == 0
        &&& self.pointBackgroundColor@.len() == 0
        &&& self.pointBorderColor@.len() == 0
        &&& self.pointBorderWidth@.len() == 0
        &&& self.pointHitRadius@.len() == 0
        &&& self.pointHoverBackgroundColor@.len() == 0
        &&& self.pointHoverBorderWidth@.len() == 0
        &&& self.pointHoverRadius@.len() == 0
        &&& self.pointRadius@.len() == 0
        &&& self.pointStyle@.len() == 0
        &&& self.segment is None
        &&& self.skipNull is None
        &&& self.spanGaps is None
        &&& self.stack@.len() == 0
        &&& self.stepped is None
        &&& self.tension@.len() == 0
        &&& self.r_type@.len() == 0
        &&& self.xAxisID@.len() == 0
        &&& self.yAxisID@.len() == 0
        &&& self.z@.len() == 0
    }

    /// The wire form: an object with one member for each field that is
    /// set, in the order of the fields.
    pub open spec fn wire_form(&self) -> JsView {
        JsView::Object(
            Seq::empty()
                + scalar_entry("backgroundColor"@, self.backgroundColor)
                + list_entry("backgroundColor"@, self.backgroundColorArray@)
                + scalar_entry("barPercentage"@, self.barPercentage)
                + scalar_entry("barThickness"@, self.barThickness)
                + scalar_entry("base"@, self.base)
                + scalar_entry("borderColor"@, self.borderColor)
                + list_entry("borderDash"@, self.borderDash@)
                + scalar_entry("borderJoinStyle"@, self.borderJoinStyle)
                + scalar_entry("borderRadius"@, self.borderRadius)
                + scalar_entry("borderSkipped"@, self.borderSkipped)
                + option_entry("borderWidth"@, self.borderWidth)
                + scalar_entry("category_label"@, self.category_label)
                + scalar_entry("categoryPercentage"@, self.categoryPercentage)
                + scalar_entry("clip"@, self.clip)
                + scalar_entry("data"@, self.data)
                + always_entry("datalabels"@, self.datalabels)
                + scalar_entry("description"@, self.description)
                + scalar_entry("fill"@, self.fill)
                + option_entry("grouped"@, self.grouped)
                + scalar_entry("hitRadius"@, self.hitRadius)
                + scalar_entry("hoverBackgroundColor"@, self.hoverBackgroundColor)
                + scalar_entry("hoverBorderColor"@, self.hoverBorderColor)
                + scalar_entry("hoverBorderRadius"@, self.hoverBorderRadius)
                + scalar_entry("hoverBorderWidth"@, self.hoverBorderWidth)
                + scalar_entry("axis"@, self.axis)
                + scalar_entry("inflateAmount"@, self.inflateAmount)
                + scalar_entry("label"@, self.label)
                + scalar_entry("maxBarThickness"@, self.maxBarThickness)
                + scalar_entry("minBarLength"@, self.minBarLength)
                + scalar_entry("order"@, self.order)
                + scalar_entry("pointBackgroundColor"@, self.pointBackgroundColor)
                + scalar_entry("pointBorderColor"@, self.pointBorderColor)
                + scalar_entry("pointBorderWidth"@, self.pointBorderWidth)
                + scalar_entry("pointHitRadius"@, self.pointHitRadius)
                + scalar_entry("pointHoverBackgroundColor"@, self.pointHoverBackgroundColor)
                + scalar_entry("pointHoverBorderWidth"@, self.pointHoverBorderWidth)
                + scalar_entry("pointHoverRadius"@, self.pointHoverRadius)
                + scalar_entry("pointRadius"@, self.pointRadius)
                + scalar_entry("pointStyle"@, self.pointStyle)
                + option_entry("segment"@, self.segment)
                + option_entry("skipNull"@, self.skipNull)
                + option_entry("spanGaps"@, self.spanGaps)
                + scalar_entry("stack"@, self.stack)
                + option_entry("stepped"@, self.stepped)
                + scalar_entry("tension"@, self.tension)
                + scalar_entry("type"@, self.r_type)
                + scalar_entry("xAxisID"@, self.xAxisID)
                + scalar_entry("yAxisID"@, self.yAxisID)
                + scalar_entry("z"@, self.z)
        )
    }

    /// The value with nothing set.
    pub fn new() -> (r: Self)
        ensures
            r.is_new(),
    {
        XYDataset {
            backgroundColor: FnWithArgsOrT::T(String::new()),
            backgroundColorArray: Vec::new(),
            barPercentage: NumberString::default(),
            barThickness: NumberString::default(),
            base: NumberString::default(),
            borderColor: String::new(),
            borderDash: Vec::new(),
            borderJoinStyle: String::new(),
            borderRadius: NumberString::default(),
            borderSkipped: String::new(),
            borderWidth: None,
            category_label: String::new(),
            categoryPercentage: NumberString::default(),
            clip: NumberString::default(),
            data: DatasetData(JsValue::Null),
            datalabels: DataLabels::new(),
            description: String::new(),
            fill: String::new(),
            grouped: None,
            hitRadius: NumberString::default(),
            hoverBackgroundColor: String::new(),
            hoverBorderColor: String::new(),
            hoverBorderRadius: NumberString::default(),
            hoverBorderWidth: NumberString::default(),
            axis: String::new(),
            inflateAmount: NumberString::default(),
            label: String::new(),
            maxBarThickness: NumberString::default(),
            minBarLength: NumberString::default(),
            order: NumberString::default(),
            pointBackgroundColor: String::new(),
            pointBorderColor: String::new(),
            pointBorderWidth: NumberString::default(),
            pointHitRadius: NumberString::default(),
            pointHoverBackgroundColor: String::new(),
            pointHoverBorderWidth: NumberString::default(),
            pointHoverRadius: NumberOrDateString::default(),
            pointRadius: NumberString::default(),
            pointStyle: String::new(),
            segment: None,
            skipNull: None,
            spanGaps: None,
            stack: String::new(),
            stepped: None,
            tension: NumberString::default(),
            r_type: String::new(),
            xAxisID: String::new(),
            yAxisID: String::new(),
            z: NumberString::default(),
        }
    }

    /// The field `backgroundColor`, to read or to change in place.
    pub fn get_background_color(&mut self) -> (r: &mut FnWithArgsOrT<2, String>)
        ensures
            *r == old(self).backgroundColor,
            *final(self) == (XYDataset { backgroundColor: *final(r), ..*old(self) }),
    {
        &mut self.backgroundColor
    }

    /// Sets `backgroundColor`.
    pub fn background_color<V: Into<FnWithArgsOrT<2, String>>>(self, value: V) -> (r: XYDataset)
        ensures
            call_ensures(<V as Into<FnWithArgsOrT<2, String>>>::into, (value,), r.backgroundColor),
            r == (XYDataset { backgroundColor: r.backgroundColor, ..self }),
    {
        let mut s = self;
        s.backgroundColor = value.into();
        s
    }

    /// The field `backgroundColor`, to read or to change in place.
    pub fn get_background_color_array(&mut self) -> (r: &mut Vec<String>)
        ensures
            *r == old(self).backgroundColorArray,
            *final(self) == (XYDataset { backgroundColorArray: *final(r), ..*old(self) }),
    {
        &mut self.backgroundColorArray
    }

    /// Sets `backgroundColor`: each of the given values, turned into a `String`.
    pub fn background_color_array<T: Into<String>>(self, value: Vec<T>) -> (r: XYDataset)
        ensures
            r.backgroundColorArray@.len() == value@.len(),
            forall|i: int|
                0 <= i < value@.len() ==> call_ensures(
                    <T as Into<String>>::into,
                    (value@[i],),
                    #[trigger] r.backgroundColorArray@[i],
                ),
            r == (XYDataset { backgroundColorArray: r.backgroundColorArray, ..self }),
    {
        let mut s = self;
        s.backgroundColorArray = convert_all(value);
        s
    }

    /// The field `barPercentage`, to read or to change in place.
    pub fn get_bar_percentage(&mut self) -> (r: &mut NumberString)
        ensures
            *r == old(self).barPercentage,
            *final(self) == (XYDataset { barPercentage: *final(r), ..*old(self) }),
    {
        &mut self.barPercentage
    }

    /// Sets `barPercentage`.
    pub fn bar_percentage<V: Into<NumberString>>(self, value: V) -> (r: XYDataset)
        ensures
            call_ensures(<V as Into<NumberString>>::into, (value,), r.barPercentage),
            r == (XYDataset { barPercentage: r.barPercentage, ..self }),
    {
        let mut s = self;
        s.barPercentage = value.into();
        s
    }

    /// The field `barThickness`, to read or to change in place.
    pub fn get_bar_thickness(&mut self) -> (r: &mut NumberString)
        ensures
            *r == old(self).barThickness,
            *final(self) == (XYDataset { barThickness: *final(r), ..*old(self) }),
    {
        &mut self.barThickness
    }

    /// Sets `barThickness`.
    pub fn bar_thickness<V: Into<NumberString>>(self, value: V) -> (r: XYDataset)
        ensures
            call_ensures(<V as Into<NumberString>>::into, (value,), r.barThickness),
            r == (XYDataset { barThickness: r.barThickness, ..self }),
    {
        let mut s = self;
        s.barThickness = value.into();
        s
    }

    /// The field `base`, to read or to change in place.
    pub fn get_base(&mut self) -> (r: &mut NumberString)
        ensures
            *r == old(self).base,
            *final(self) == (XYDataset { base: *final(r), ..*old(self) }),
    {
        &mut self.base
    }

    /// Sets `base`.
    pub fn base<V: Into<NumberString>>(self, value: V) -> (r: XYDataset)
        ensures
            call_ensures(<V as Into<NumberString>>::into, (value,), r.base),
            r == (XYDataset { base: r.base, ..self }),
    {
        let mut s = self;
        s.base = value.into();
        s
    }

    /// The field `borderColor`, to read or to change in place.
    pub fn get_border_color(&mut self) -> (r: &mut String)
        ensures
            *r == old(self).borderColor,
            *final(self) == (XYDataset { borderColor: *final(r), ..*old(self) }),
    {
        &mut self.borderColor
    }

    /// Sets `borderColor`.
    pub fn border_color<V: Into<String>>(self, value: V) -> (r: XYDataset)
        ensures
            call_ensures(<V as Into<String>>::into, (value,), r.borderColor),
            r == (XYDataset { borderColor: r.borderColor, ..self }),
    {
        let mut s = self;
        s.borderColor = value.into();
        s
    }

    /// The field `borderDash`, to read or to change in place.
    pub fn get_border_dash(&mut self) -> (r: &mut Vec<NumberString>)
        ensures
            *r == old(self).borderDash,
            *final(self) == (XYDataset { borderDash: *final(r), ..*old(self) }),
    {
        &mut self.borderDash
    }

    /// Sets `borderDash`: each of the given values, turned into a `NumberString`.
    pub fn border_dash<T: Into<NumberString>>(self, value: Vec<T>) -> (r: XYDataset)
        ensures
            r.borderDash@.len() == value@.len(),
            forall|i: int|
                0 <= i < value@.len() ==> call_ensures(
                    <T as Into<NumberString>>::into,
                    (value@[i],),
                    #[trigger] r.borderDash@[i],
                ),
            r == (XYDataset { borderDash: r.borderDash, ..self }),
    {
        let mut s = self;
        s.borderDash = convert_all(value);
        s
    }

    /// The field `borderJoinStyle`, to read or to change in place.
    pub fn get_border_join_style(&mut self) -> (r: &mut String)
        ensures
            *r == old(self).borderJoinStyle,
            *final(self) == (XYDataset { borderJoinStyle: *final(r), ..*old(self) }),
    {
        &mut self.borderJoinStyle
    }

    /// Sets `borderJoinStyle`.
    pub fn border_join_style<V: Into<String>>(self, value: V) -> (r: XYDataset)
        ensures
            call_ensures(<V as Into<String>>::into, (value,), r.borderJoinStyle),
            r == (XYDataset { borderJoinStyle: r.borderJoinStyle, ..self }),
    {
        let mut s = self;
        s.borderJoinStyle = value.into();
        s
    }

    /// The field `borderRadius`, to read or to change in place.
    pub fn get_border_radius(&mut self) -> (r: &mut NumberString)
        ensures
            *r == old(self).borderRadius,
            *final(self) == (XYDataset { borderRadius: *final(r), ..*old(self) }),
    {
        &mut self.borderRadius
    }

    /// Sets `borderRadius`.
    pub fn border_radius<V: Into<NumberString>>(self, value: V) -> (r: XYDataset)
        ensures
            call_ensures(<V as Into<NumberString>>::into, (value,), r.borderRadius),
            r == (XYDataset { borderRadius: r.borderRadius, ..self }),
    {
        let mut s = self;
        s.borderRadius = value.into();
        s
    }

    /// The field `borderSkipped`, to read or to change in place.
    pub fn get_border_skipped(&mut self) -> (r: &mut String)
        ensures
            *r == old(self).borderSkipped,
            *final(self) == (XYDataset { borderSkipped: *final(r), ..*old(self) }),
    {
        &mut self.borderSkipped
    }

    /// Sets `borderSkipped`.
    pub fn border_skipped<V: Into<String>>(self, value: V) -> (r: XYDataset)
        ensures
            call_ensures(<V as Into<String>>::into, (value,), r.borderSkipped),
            r == (XYDataset { borderSkipped: r.borderSkipped, ..self }),
    {
        let mut s = self;
        s.borderSkipped = value.into();
        s
    }

    /// The field `borderWidth`, to read or to change in place.
    pub fn get_border_width(&mut self) -> (r: &mut Option<NumberStringOrT<Border>>)
        ensures
            *r == old(self).borderWidth,
            *final(self) == (XYDataset { borderWidth: *final(r), ..*old(self) }),
    {
        &mut self.borderWidth
    }

    /// Sets `borderWidth`.
    pub fn border_width<V: Into<NumberStringOrT<Border>>>(self, value: V) -> (r: XYDataset)
        ensures
            r.borderWidth matches Some(x) && call_ensures(<V as Into<NumberStringOrT<Border>>>::into, (value,), x),
            r == (XYDataset { borderWidth: r.borderWidth, ..self }),
    {
        let mut s = self;
        s.borderWidth = Some(value.into());
        s
    }

    /// The field `category_label`, to read or to change in place.
    pub fn get_category_label(&mut self) -> (r: &mut String)
        ensures
            *r == old(self).category_label,
            *final(self) == (XYDataset { category_label: *final(r), ..*old(self) }),
    {
        &mut self.category_label
    }

    /// Sets `category_label`.
    pub fn category_label<V: Into<String>>(self, value: V) -> (r: XYDataset)
        ensures
            call_ensures(<V as Into<String>>::into, (value,), r.category_label),
            r == (XYDataset { category_label: r.category_label, ..self }),
    {
        let mut s = self;
        s.category_label = value.into();
        s
    }

    /// The field `categoryPercentage`, to read or to change in place.
    pub fn get_category_percentage(&mut self) -> (r: &mut NumberString)
        ensures
            *r == old(self).categoryPercentage,
            *final(self) == (XYDataset { categoryPercentage: *final(r), ..*old(self) }),
    {
        &mut self.categoryPercentage
    }

    /// Sets `categoryPercentage`.
    pub fn category_percentage<V: Into<NumberString>>(self, value: V) -> (r: XYDataset)
        ensures
            call_ensures(<V as Into<NumberString>>::into, (value,), r.categoryPercentage),
            r == (XYDataset { categoryPercentage: r.categoryPercentage, ..self }),
    {
        let mut s = self;
        s.categoryPercentage = value.into();
        s
    }

    /// The field `clip`, to read or to change in place.
    pub fn get_clip(&mut self) -> (r: &mut NumberString)
        ensures
            *r == old(self).clip,
            *final(self) == (XYDataset { clip: *final(r), ..*old(self) }),
    {
        &mut self.clip
    }

    /// Sets `clip`.
    pub fn clip<V: Into<NumberString>>(self, value: V) -> (r: XYDataset)
        ensures
            call_ensures(<V as Into<NumberString>>::into, (value,), r.clip),
            r == (XYDataset { clip: r.clip, ..self }),
    {
        let mut s = self;
        s.clip = value.into();
        s
    }

    /// The field `data`, to read or to change in place.
    pub fn get_data(&mut self) -> (r: &mut DatasetData)
        ensures
            *r == old(self).data,
            *final(self) == (XYDataset { data: *final(r), ..*old(self) }),
    {
        &mut self.data
    }

    /// Sets `data`.
    pub fn data<V: Into<DatasetData>>(self, value: V) -> (r: XYDataset)
        ensures
            call_ensures(<V as Into<DatasetData>>::into, (value,), r.data),
            r == (XYDataset { data: r.data, ..self }),
    {
        let mut s = self;
        s.data = value.into();
        s
    }

    /// The field `datalabels`, to read or to change in place.
    pub fn get_datalabels(&mut self) -> (r: &mut DataLabels)
        ensures
            *r == old(self).datalabels,
            *final(self) == (XYDataset { datalabels: *final(r), ..*old(self) }),
    {
        &mut self.datalabels
    }

    /// Sets `datalabels`.
    pub fn datalabels<V: Into<DataLabels>>(self, value: V) -> (r: XYDataset)
        ensures
            call_ensures(<V as Into<DataLabels>>::into, (value,), r.datalabels),
            r == (XYDataset { datalabels: r.datalabels, ..self }),
    {
        let mut s = self;
        s.datalabels = value.into();
        s
    }

    /// The field `description`, to read or to change in place.
    pub fn get_description(&mut self) -> (r: &mut String)
        ensures
            *r == old(self).description,
            *final(self) == (XYDataset { description: *final(r), ..*old(self) }),
    {
        &mut self.description
    }

    /// Sets `description`.
    pub fn description<V: Into<String>>(self, value: V) -> (r: XYDataset)
        ensures
            call_ensures(<V as Into<String>>::into, (value,), r.description),
            r == (XYDataset { description: r.description, ..self }),
    {
        let mut s = self;
        s.description = value.into();
        s
    }

    /// The field `fill`, to read or to change in place.
    pub fn get_fill(&mut self) -> (r: &mut String)
        ensures
            *r == old(self).fill,
            *final(self) == (XYDataset { fill: *final(r), ..*old(self) }),
    {
        &mut self.fill
    }

    /// Sets `fill`.
    pub fn fill<V: Into<String>>(self, value: V) -> (r: XYDataset)
        ensures
            call_ensures(<V as Into<String>>::into, (value,), r.fill),
            r == (XYDataset { fill: r.fill, ..self }),
    {
        let mut s = self;
        s.fill = value.into();
        s
    }

    /// The field `grouped`, to read or to change in place.
    pub fn get_grouped(&mut self) -> (r: &mut Option<bool>)
        ensures
            *r == old(self).grouped,
            *final(self) == (XYDataset { grouped: *final(r), ..*old(self) }),
    {
        &mut self.grouped
    }

    /// Sets `grouped`.
    pub fn grouped<V: Into<bool>>(self, value: V) -> (r: XYDataset)
        ensures
            r.grouped matches Some(x) && call_ensures(<V as Into<bool>>::into, (value,), x),
            r == (XYDataset { grouped: r.grouped, ..self }),
    {
        let mut s = self;
        s.grouped = Some(value.into());
        s
    }

    /// The field `hitRadius`, to read or to change in place.
    pub fn get_hit_radius(&mut self) -> (r: &mut NumberString)
        ensures
            *r == old(self).hitRadius,
            *final(self) == (XYDataset { hitRadius: *final(r), ..*old(self) }),
    {
        &mut self.hitRadius
    }

    /// Sets `hitRadius`.
    pub fn hit_radius<V: Into<NumberString>>(self, value: V) -> (r: XYDataset)
        ensures
            call_ensures(<V as Into<NumberString>>::into, (value,), r.hitRadius),
            r == (XYDataset { hitRadius: r.hitRadius, ..self }),
    {
        let mut s = self;
        s.hitRadius = value.into();
        s
    }

    /// The field `hoverBackgroundColor`, to read or to change in place.
    pub fn get_hover_background_color(&mut self) -> (r: &mut String)
        ensures
            *r == old(self).hoverBackgroundColor,
            *final(self) == (XYDataset { hoverBackgroundColor: *final(r), ..*old(self) }),
    {
        &mut self.hoverBackgroundColor
    }

    /// Sets `hoverBackgroundColor`.
    pub fn hover_background_color<V: Into<String>>(self, value: V) -> (r: XYDataset)
        ensures
            call_ensures(<V as Into<String>>::into, (value,), r.hoverBackgroundColor),
            r == (XYDataset { hoverBackgroundColor: r.hoverBackgroundColor, ..self }),
    {
        let mut s = self;
        s.hoverBackgroundColor = value.into();
        s
    }

    /// The field `hoverBorderColor`, to read or to change in place.
    pub fn get_hover_border_color(&mut self) -> (r: &mut String)
        ensures
            *r == old(self).hoverBorderColor,
            *final(self) == (XYDataset { hoverBorderColor: *final(r), ..*old(self) }),
    {
        &mut self.hoverBorderColor
    }

    /// Sets `hoverBorderColor`.
    pub fn hover_border_color<V: Into<String>>(self, value: V) -> (r: XYDataset)
        ensures
            call_ensures(<V as Into<String>>::into, (value,), r.hoverBorderColor),
            r == (XYDataset { hoverBorderColor: r.hoverBorderColor, ..self }),
    {
        let mut s = self;
        s.hoverBorderColor = value.into();
        s
    }

    /// The field `hoverBorderRadius`, to read or to change in place.
    pub fn get_hover_border_radius(&mut self) -> (r: &mut NumberString)
        ensures
            *r == old(self).hoverBorderRadius,
            *final(self) == (XYDataset { hoverBorderRadius: *final(r), ..*old(self) }),
    {
        &mut self.hoverBorderRadius
    }

    /// Sets `hoverBorderRadius`.
    pub fn hover_border_radius<V: Into<NumberString>>(self, value: V) -> (r: XYDataset)
        ensures
            call_ensures(<V as Into<NumberString>>::into, (value,), r.hoverBorderRadius),
            r == (XYDataset { hoverBorderRadius: r.hoverBorderRadius, ..self }),
    {
        let mut s = self;
        s.hoverBorderRadius = value.into();
        s
    }

    /// The field `hoverBorderWidth`, to read or to change in place.
    pub fn get_hover_border_width(&mut self) -> (r: &mut NumberString)
        ensures
            *r == old(self).hoverBorderWidth,
            *final(self) == (XYDataset { hoverBorderWidth: *final(r), ..*old(self) }),
    {
        &mut self.hoverBorderWidth
    }

    /// Sets `hoverBorderWidth`.
    pub fn hover_border_width<V: Into<NumberString>>(self, value: V) -> (r: XYDataset)
        ensures
            call_ensures(<V as Into<NumberString>>::into, (value,), r.hoverBorderWidth),
            r == (XYDataset { hoverBorderWidth: r.hoverBorderWidth, ..self }),
    {
        let mut s = self;
        s.hoverBorderWidth = value.into();
        s
    }

    /// The field `axis`, to read or to change in place.
    pub fn get_axis(&mut self) -> (r: &mut String)
        ensures
            *r == old(self).axis,
            *final(self) == (XYDataset { axis: *final(r), ..*old(self) }),
    {
        &mut self.axis
    }

    /// Sets `axis`.
    pub fn axis<V: Into<String>>(self, value: V) -> (r: XYDataset)
        ensures
            call_ensures(<V as Into<String>>::into, (value,), r.axis),
            r == (XYDataset { axis: r.axis, ..self }),
    {
        let mut s = self;
        s.axis = value.into();
        s
    }

    /// The field `inflateAmount`, to read or to change in place.
    pub fn get_inflate_amount(&mut self) -> (r: &mut NumberString)
        ensures
            *r == old(self).inflateAmount,
            *final(self) == (XYDataset { inflateAmount: *final(r), ..*old(self) }),
    {
        &mut self.inflateAmount
    }

    /// Sets `inflateAmount`.
    pub fn inflate_amount<V: Into<NumberString>>(self, value: V) -> (r: XYDataset)
        ensures
            call_ensures(<V as Into<NumberString>>::into, (value,), r.inflateAmount),
            r == (XYDataset { inflateAmount: r.inflateAmount, ..self }),
    {
        let mut s = self;
        s.inflateAmount = value.into();
        s
    }

    /// The field `label`, to read or to change in place.
    pub fn get_label(&mut self) -> (r: &mut String)
        ensures
            *r == old(self).label,
            *final(self) == (XYDataset { label: *final(r), ..*old(self) }),
    {
        &mut self.label
    }

    /// Sets `label`.
    pub fn label<V: Into<String>>(self, value: V) -> (r: XYDataset)
        ensures
            call_ensures(<V as Into<String>>::into, (value,), r.label),
            r == (XYDataset { label: r.label, ..self }),
    {
        let mut s = self;
        s.label = value.into();
        s
    }

    /// The field `maxBarThickness`, to read or to change in place.
    pub fn get_max_bar_thickness(&mut self) -> (r: &mut NumberString)
        ensures
            *r == old(self).maxBarThickness,
            *final(self) == (XYDataset { maxBarThickness: *final(r), ..*old(self) }),
    {
        &mut self.maxBarThickness
    }

    /// Sets `maxBarThickness`.
    pub fn max_bar_thickness<V: Into<NumberString>>(self, value: V) -> (r: XYDataset)
        ensures
            call_ensures(<V as Into<NumberString>>::into, (value,), r.maxBarThickness),
            r == (XYDataset { maxBarThickness: r.maxBarThickness, ..self }),
    {
        let mut s = self;
        s.maxBarThickness = value.into();
        s
    }

    /// The field `minBarLength`, to read or to change in place.
    pub fn get_min_bar_length(&mut self) -> (r: &mut NumberString)
        ensures
            *r == old(self).minBarLength,
            *final(self) == (XYDataset { minBarLength: *final(r), ..*old(self) }),
    {
        &mut self.minBarLength
    }

    /// Sets `minBarLength`.
    pub fn min_bar_length<V: Into<NumberString>>(self, value: V) -> (r: XYDataset)
        ensures
            call_ensures(<V as Into<NumberString>>::into, (value,), r.minBarLength),
            r == (XYDataset { minBarLength: r.minBarLength, ..self }),
    {
        let mut s = self;
        s.minBarLength = value.into();
        s
    }

    /// The field `order`, to read or to change in place.
    pub fn get_order(&mut self) -> (r: &mut NumberString)
        ensures
            *r == old(self).order,
            *final(self) == (XYDataset { order: *final(r), ..*old(self) }),
    {
        &mut self.order
    }

    /// Sets `order`.
    pub fn order<V: Into<NumberString>>(self, value: V) -> (r: XYDataset)
        ensures
            call_ensures(<V as Into<NumberString>>::into, (value,), r.order),
            r == (XYDataset { order: r.order, ..self }),
    {
        let mut s = self;
        s.order = value.into();
        s
    }

    /// The field `pointBackgroundColor`, to read or to change in place.
    pub fn get_point_background_color(&mut self) -> (r: &mut String)
        ensures
            *r == old(self).pointBackgroundColor,
            *final(self) == (XYDataset { pointBackgroundColor: *final(r), ..*old(self) }),
    {
        &mut self.pointBackgroundColor
    }

    /// Sets `pointBackgroundColor`.
    pub fn point_background_color<V: Into<String>>(self, value: V) -> (r: XYDataset)
        ensures
            call_ensures(<V as Into<String>>::into, (value,), r.pointBackgroundColor),
            r == (XYDataset { pointBackgroundColor: r.pointBackgroundColor, ..self }),
    {
        let mut s = self;
        s.pointBackgroundColor = value.into();
        s
    }

    /// The field `pointBorderColor`, to read or to change in place.
    pub fn get_point_border_color(&mut self) -> (r: &mut String)
        ensures
            *r == old(self).pointBorderColor,
            *final(self) == (XYDataset { pointBorderColor: *final(r), ..*old(self) }),
    {
        &mut self.pointBorderColor
    }

    /// Sets `pointBorderColor`.
    pub fn point_border_color<V: Into<String>>(self, value: V) -> (r: XYDataset)
        ensures
            call_ensures(<V as Into<String>>::into, (value,), r.pointBorderColor),
            r == (XYDataset { pointBorderColor: r.pointBorderColor, ..self }),
    {
        let mut s = self;
        s.pointBorderColor = value.into();
        s
    }

    /// The field `pointBorderWidth`, to read or to change in place.
    pub fn get_point_border_width(&mut self) -> (r: &mut NumberString)
        ensures
            *r == old(self).pointBorderWidth,
            *final(self) == (XYDataset { pointBorderWidth: *final(r), ..*old(self) }),
    {
        &mut self.pointBorderWidth
    }

    /// Sets `pointBorderWidth`.
    pub fn point_border_width<V: Into<NumberString>>(self, value: V) -> (r: XYDataset)
        ensures
            call_ensures(<V as Into<NumberString>>::into, (value,), r.pointBorderWidth),
            r == (XYDataset { pointBorderWidth: r.pointBorderWidth, ..self }),
    {
        let mut s = self;
        s.pointBorderWidth = value.into();
        s
    }

    /// The field `pointHitRadius`, to read or to change in place.
    pub fn get_point_hit_radius(&mut self) -> (r: &mut NumberString)
        ensures
            *r == old(self).pointHitRadius,
            *final(self) == (XYDataset { pointHitRadius: *final(r), ..*old(self) }),
    {
        &mut self.pointHitRadius
    }

    /// Sets `pointHitRadius`.
    pub fn point_hit_radius<V: Into<NumberString>>(self, value: V) -> (r: XYDataset)
        ensures
            call_ensures(<V as Into<NumberString>>::into, (value,), r.pointHitRadius),
            r == (XYDataset { pointHitRadius: r.pointHitRadius, ..self }),
    {
        let mut s = self;
        s.pointHitRadius = value.into();
        s
    }

    /// The field `pointHoverBackgroundColor`, to read or to change in place.
    pub fn get_point_hover_background_color(&mut self) -> (r: &mut String)
        ensures
            *r == old(self).pointHoverBackgroundColor,
            *final(self) == (XYDataset { pointHoverBackgroundColor: *final(r), ..*old(self) }),
    {
        &mut self.pointHoverBackgroundColor
    }

    /// Sets `pointHoverBackgroundColor`.
    pub fn point_hover_background_color<V: Into<String>>(self, value: V) -> (r: XYDataset)
        ensures
            call_ensures(<V as Into<String>>::into, (value,), r.pointHoverBackgroundColor),
            r == (XYDataset { pointHoverBackgroundColor: r.pointHoverBackgroundColor, ..self }),
    {
        let mut s = self;
        s.pointHoverBackgroundColor = value.into();
        s
    }

    /// The field `pointHoverBorderWidth`, to read or to change in place.
    pub fn get_point_hover_border_width(&mut self) -> (r: &mut NumberString)
        ensures
            *r == old(self).pointHoverBorderWidth,
            *final(self) == (XYDataset { pointHoverBorderWidth: *final(r), ..*old(self) }),
    {
        &mut self.pointHoverBorderWidth
    }

    /// Sets `pointHoverBorderWidth`.
    pub fn point_hover_border_width<V: Into<NumberString>>(self, value: V) -> (r: XYDataset)
        ensures
            call_ensures(<V as Into<NumberString>>::into, (value,), r.pointHoverBorderWidth),
            r == (XYDataset { pointHoverBorderWidth: r.pointHoverBorderWidth, ..self }),
    {
        let mut s = self;
        s.pointHoverBorderWidth = value.into();
        s
    }

    /// The field `pointHoverRadius`, to read or to change in place.
    pub fn get_point_hover_radius(&mut self) -> (r: &mut NumberOrDateString)
        ensures
            *r == old(self).pointHoverRadius,
            *final(self) == (XYDataset { pointHoverRadius: *final(r), ..*old(self) }),
    {
        &mut self.pointHoverRadius
    }

    /// Sets `pointHoverRadius`.
    pub fn point_hover_radius<V: Into<NumberOrDateString>>(self, value: V) -> (r: XYDataset)
        ensures
            call_ensures(<V as Into<NumberOrDateString>>::into, (value,), r.pointHoverRadius),
            r == (XYDataset { pointHoverRadius: r.pointHoverRadius, ..self }),
    {
        let mut s = self;
        s.pointHoverRadius = value.into();
        s
    }

    /// The field `pointRadius`, to read or to change in place.
    pub fn get_point_radius(&mut self) -> (r: &mut NumberString)
        ensures
            *r == old(self).pointRadius,
            *final(self) == (XYDataset { pointRadius: *final(r), ..*old(self) }),
    {
        &mut self.pointRadius
    }

    /// Sets `pointRadius`.
    pub fn point_radius<V: Into<NumberString>>(self, value: V) -> (r: XYDataset)
        ensures
            call_ensures(<V as Into<NumberString>>::into, (value,), r.pointRadius),
            r == (XYDataset { pointRadius: r.pointRadius, ..self }),
    {
        let mut s = self;
        s.pointRadius = value.into();
        s
    }

    /// The field `pointStyle`, to read or to change in place.
    pub fn get_point_style(&mut self) -> (r: &mut String)
        ensures
            *r == old(self).pointStyle,
            *final(self) == (XYDataset { pointStyle: *final(r), ..*old(self) }),
    {
        &mut self.pointStyle
    }

    /// Sets `pointStyle`.
    pub fn point_style<V: Into<String>>(self, value: V) -> (r: XYDataset)
        ensures
            call_ensures(<V as Into<String>>::into, (value,), r.pointStyle),
            r == (XYDataset { pointStyle: r.pointStyle, ..self }),
    {
        let mut s = self;
        s.pointStyle = value.into();
        s
    }

    /// The field `segment`, to read or to change in place.
    pub fn get_segment(&mut self) -> (r: &mut Option<Segment>)
        ensures
            *r == old(self).segment,
            *final(self) == (XYDataset { segment: *final(r), ..*old(self) }),
    {
        &mut self.segment
    }

    /// Sets `segment`.
    pub fn segment<V: Into<Segment>>(self, value: V) -> (r: XYDataset)
        ensures
            r.segment matches Some(x) && call_ensures(<V as Into<Segment>>::into, (value,), x),
            r == (XYDataset { segment: r.segment, ..self }),
    {
        let mut s = self;
        s.segment = Some(value.into());
        s
    }

    /// The field `skipNull`, to read or to change in place.
    pub fn get_skip_null(&mut self) -> (r: &mut Option<bool>)
        ensures
            *r == old(self).skipNull,
            *final(self) == (XYDataset { skipNull: *final(r), ..*old(self) }),
    {
        &mut self.skipNull
    }

    /// Sets `skipNull`.
    pub fn skip_null<V: Into<bool>>(self, value: V) -> (r: XYDataset)
        ensures
            r.skipNull matches Some(x) && call_ensures(<V as Into<bool>>::into, (value,), x),
            r == (XYDataset { skipNull: r.skipNull, ..self }),
    {
        let mut s = self;
        s.skipNull = Some(value.into());
        s
    }

    /// The field `spanGaps`, to read or to change in place.
    pub fn get_span_gaps(&mut self) -> (r: &mut Option<bool>)
        ensures
            *r == old(self).spanGaps,
            *final(self) == (XYDataset { spanGaps: *final(r), ..*old(self) }),
    {
        &mut self.spanGaps
    }

    /// Sets `spanGaps`.
    pub fn span_gaps<V: Into<bool>>(self, value: V) -> (r: XYDataset)
        ensures
            r.spanGaps matches Some(x) && call_ensures(<V as Into<bool>>::into, (value,), x),
            r == (XYDataset { spanGaps: r.spanGaps, ..self }),
    {
        let mut s = self;
        s.spanGaps = Some(value.into());
        s
    }

    /// The field `stack`, to read or to change in place.
    pub fn get_stack(&mut self) -> (r: &mut String)
        ensures
            *r == old(self).stack,
            *final(self) == (XYDataset { stack: *final(r), ..*old(self) }),
    {
        &mut self.stack
    }

    /// Sets `stack`.
    pub fn stack<V: Into<String>>(self, value: V) -> (r: XYDataset)
        ensures
            call_ensures(<V as Into<String>>::into, (value,), r.stack),
            r == (XYDataset { stack: r.stack, ..self }),
    {
        let mut s = self;
        s.stack = value.into();
        s
    }

    /// The field `stepped`, to read or to change in place.
    pub fn get_stepped(&mut self) -> (r: &mut Option<BoolString>)
        ensures
            *r == old(self).stepped,
            *final(self) == (XYDataset { stepped: *final(r), ..*old(self) }),
    {
        &mut self.stepped
    }

    /// Sets `stepped`.
    pub fn stepped<V: Into<BoolString>>(self, value: V) -> (r: XYDataset)
        ensures
            r.stepped matches Some(x) && call_ensures(<V as Into<BoolString>>::into, (value,), x),
            r == (XYDataset { stepped: r.stepped, ..self }),
    {
        let mut s = self;
        s.stepped = Some(value.into());
        s
    }

    /// The field `tension`, to read or to change in place.
    pub fn get_tension(&mut self) -> (r: &mut NumberString)
        ensures
            *r == old(self).tension,
            *final(self) == (XYDataset { tension: *final(r), ..*old(self) }),
    {
        &mut self.tension
    }

    /// Sets `tension`.
    pub fn tension<V: Into<NumberString>>(self, value: V) -> (r: XYDataset)
        ensures
            call_ensures(<V as Into<NumberString>>::into, (value,), r.tension),
            r == (XYDataset { tension: r.tension, ..self }),
    {
        let mut s = self;
        s.tension = value.into();
        s
    }

    /// The field `type`, to read or to change in place.
    pub fn get_r_type(&mut self) -> (r: &mut String)
        ensures
            *r == old(self).r_type,
            *final(self) == (XYDataset { r_type: *final(r), ..*old(self) }),
    {
        &mut self.r_type
    }

    /// Sets `type`.
    pub fn r_type<V: Into<String>>(self, value: V) -> (r: XYDataset)
        ensures
            call_ensures(<V as Into<String>>::into, (value,), r.r_type),
            r == (XYDataset { r_type: r.r_type, ..self }),
    {
        let mut s = self;
        s.r_type = value.into();
        s
    }

    /// The field `xAxisID`, to read or to change in place.
    pub fn get_x_axis_id(&mut self) -> (r: &mut String)
        ensures
            *r == old(self).xAxisID,
            *final(self) == (XYDataset { xAxisID: *final(r), ..*old(self) }),
    {
        &mut self.xAxisID
    }

    /// Sets `xAxisID`.
    pub fn x_axis_id<V: Into<String>>(self, value: V) -> (r: XYDataset)
        ensures
            call_ensures(<V as Into<String>>::into, (value,), r.xAxisID),
            r == (XYDataset { xAxisID: r.xAxisID, ..self }),
    {
        let mut s = self;
        s.xAxisID = value.into();
        s
    }

    /// The field `yAxisID`, to read or to change in place.
    pub fn get_y_axis_id(&mut self) -> (r: &mut String)
        ensures
            *r == old(self).yAxisID,
            *final(self) == (XYDataset { yAxisID: *final(r), ..*old(self) }),
    {
        &mut self.yAxisID
    }

    /// Sets `yAxisID`.
    pub fn y_axis_id<V: Into<String>>(self, value: V) -> (r: XYDataset)
        ensures
            call_ensures(<V as Into<String>>::into, (value,), r.yAxisID),
            r == (XYDataset { yAxisID: r.yAxisID, ..self }),
    {
        let mut s = self;
        s.yAxisID = value.into();
        s
    }

    /// The field `z`, to read or to change in place.
    pub fn get_z(&mut self) -> (r: &mut NumberString)
        ensures
            *r == old(self).z,
            *final(self) == (XYDataset { z: *final(r), ..*old(self) }),
    {
        &mut self.z
    }

    /// Sets `z`.
    pub fn z<V: Into<NumberString>>(self, value: V) -> (r: XYDataset)
        ensures
            call_ensures(<V as Into<NumberString>>::into, (value,), r.z),
            r == (XYDataset { z: r.z, ..self }),
    {
        let mut s = self;
        s.z = value.into();
        s
    }

    /// Whether a wire value reads as a value of this kind: an object whose
    /// members, where they are there, read as the fields.
    pub open spec fn readable_form(v: JsView) -> bool {
        &&& v is Object
        &&& defaulted_readable::<FnWithArgsOrT<2, String>>(v, "backgroundColor"@)
        &&& defaulted_readable::<Vec<String>>(v, "backgroundColorArray"@)
        &&& defaulted_readable::<NumberString>(v, "barPercentage"@)
        &&& defaulted_readable::<NumberString>(v, "barThickness"@)
        &&& defaulted_readable::<NumberString>(v, "base"@)
        &&& defaulted_readable::<String>(v, "borderColor"@)
        &&& defaulted_readable::<Vec<NumberString>>(v, "borderDash"@)
        &&& defaulted_readable::<String>(v, "borderJoinStyle"@)
        &&& defaulted_readable::<NumberString>(v, "borderRadius"@)
        &&& defaulted_readable::<String>(v, "borderSkipped"@)
        &&& optional_readable::<NumberStringOrT<Border>>(v, "borderWidth"@)
        &&& defaulted_readable::<String>(v, "category_label"@)
        &&& defaulted_readable::<NumberString>(v, "categoryPercentage"@)
        &&& defaulted_readable::<NumberString>(v, "clip"@)
        &&& defaulted_readable::<DatasetData>(v, "data"@)
        &&& required_readable::<DataLabels>(v, "datalabels"@)
        &&& defaulted_readable::<String>(v, "description"@)
        &&& defaulted_readable::<String>(v, "fill"@)
        &&& optional_readable::<bool>(v, "grouped"@)
        &&& defaulted_readable::<NumberString>(v, "hitRadius"@)
        &&& defaulted_readable::<String>(v, "hoverBackgroundColor"@)
        &&& defaulted_readable::<String>(v, "hoverBorderColor"@)
        &&& defaulted_readable::<NumberString>(v, "hoverBorderRadius"@)
        &&& defaulted_readable::<NumberString>(v, "hoverBorderWidth"@)
        &&& defaulted_readable::<String>(v, "axis"@)
        &&& defaulted_readable::<NumberString>(v, "inflateAmount"@)
        &&& defaulted_readable::<String>(v, "label"@)
        &&& defaulted_readable::<NumberString>(v, "maxBarThickness"@)
        &&& defaulted_readable::<NumberString>(v, "minBarLength"@)
        &&& defaulted_readable::<NumberString>(v, "order"@)
        &&& defaulted_readable::<String>(v, "pointBackgroundColor"@)
        &&& defaulted_readable::<String>(v, "pointBorderColor"@)
        &&& defaulted_readable::<NumberString>(v, "pointBorderWidth"@)
        &&& defaulted_readable::<NumberString>(v, "pointHitRadius"@)
        &&& defaulted_readable::<String>(v, "pointHoverBackgroundColor"@)
        &&& defaulted_readable::<NumberString>(v, "pointHoverBorderWidth"@)
        &&& defaulted_readable::<NumberOrDateString>(v, "pointHoverRadius"@)
        &&& defaulted_readable::<NumberString>(v, "pointRadius"@)
        &&& defaulted_readable::<String>(v, "pointStyle"@)
        &&& optional_readable::<Segment>(v, "segment"@)
        &&& optional_readable::<bool>(v, "skipNull"@)
        &&& optional_readable::<bool>(v, "spanGaps"@)
        &&& defaulted_readable::<String>(v, "stack"@)
        &&& optional_readable::<BoolString>(v, "stepped"@)
        &&& defaulted_readable::<NumberString>(v, "tension"@)
        &&& defaulted_readable::<String>(v, "type"@)
        &&& defaulted_readable::<String>(v, "xAxisID"@)
        &&& defaulted_readable::<String>(v, "yAxisID"@)
        &&& defaulted_readable::<NumberString>(v, "z"@)
    }

    /// Whether this value is what a wire value reads as: each field is what
    /// its member reads as, or its default where the member is missing or
    /// the field is never read.
    pub open spec fn reads_form(&self, v: JsView) -> bool {
        &&& defaulted_reads(self.backgroundColor, v, "backgroundColor"@)
        &&& defaulted_reads(self.backgroundColorArray, v, "backgroundColorArray"@)
        &&& defaulted_reads(self.barPercentage, v, "barPercentage"@)
        &&& defaulted_reads(self.barThickness, v, "barThickness"@)
        &&& defaulted_reads(self.base, v, "base"@)
        &&& defaulted_reads(self.borderColor, v, "borderColor"@)
        &&& defaulted_reads(self.borderDash, v, "borderDash"@)
        &&& defaulted_reads(self.borderJoinStyle, v, "borderJoinStyle"@)
        &&& defaulted_reads(self.borderRadius, v, "borderRadius"@)
        &&& defaulted_reads(self.borderSkipped, v, "borderSkipped"@)
        &&& optional_reads(self.borderWidth, v, "borderWidth"@)
        &&& defaulted_reads(self.category_label, v, "category_label"@)
        &&& defaulted_reads(self.categoryPercentage, v, "categoryPercentage"@)
        &&& defaulted_reads(self.clip, v, "clip"@)
        &&& defaulted_reads(self.data, v, "data"@)
        &&& required_reads(self.datalabels, v, "datalabels"@)
        &&& defaulted_reads(self.description, v, "description"@)
        &&& defaulted_reads(self.fill, v, "fill"@)
        &&& optional_reads(self.grouped, v, "grouped"@)
        &&& defaulted_reads(self.hitRadius, v, "hitRadius"@)
        &&& defaulted_reads(self.hoverBackgroundColor, v, "hoverBackgroundColor"@)
        &&& defaulted_reads(self.hoverBorderColor, v, "hoverBorderColor"@)
        &&& defaulted_reads(self.hoverBorderRadius, v, "hoverBorderRadius"@)
        &&& defaulted_reads(self.hoverBorderWidth, v, "hoverBorderWidth"@)
        &&& defaulted_reads(self.axis, v, "axis"@)
        &&& defaulted_reads(self.inflateAmount, v, "inflateAmount"@)
        &&& defaulted_reads(self.label, v, "label"@)
        &&& defaulted_reads(self.maxBarThickness, v, "maxBarThickness"@)
        &&& defaulted_reads(self.minBarLength, v, "minBarLength"@)
        &&& defaulted_reads(self.order, v, "order"@)
        &&& defaulted_reads(self.pointBackgroundColor, v, "pointBackgroundColor"@)
        &&& defaulted_reads(self.pointBorderColor, v, "pointBorderColor"@)
        &&& defaulted_reads(self.pointBorderWidth, v, "pointBorderWidth"@)
        &&& defaulted_reads(self.pointHitRadius, v, "pointHitRadius"@)
        &&& defaulted_reads(self.pointHoverBackgroundColor, v, "pointHoverBackgroundColor"@)
        &&& defaulted_reads(self.pointHoverBorderWidth, v, "pointHoverBorderWidth"@)
        &&& defaulted_reads(self.pointHoverRadius, v, "pointHoverRadius"@)
        &&& defaulted_reads(self.pointRadius, v, "pointRadius"@)
        &&& defaulted_reads(self.pointStyle, v, "pointStyle"@)
        &&& optional_reads(self.segment, v, "segment"@)
        &&& optional_reads(self.skipNull, v, "skipNull"@)
        &&& optional_reads(self.spanGaps, v, "spanGaps"@)
        &&& defaulted_reads(self.stack, v, "stack"@)
        &&& optional_reads(self.stepped, v, "stepped"@)
        &&& defaulted_reads(self.tension, v, "tension"@)
        &&& defaulted_reads(self.r_type, v, "type"@)
        &&& defaulted_reads(self.xAxisID, v, "xAxisID"@)
        &&& defaulted_reads(self.yAxisID, v, "yAxisID"@)
        &&& defaulted_reads(self.z, v, "z"@)
    }

    /// Reads the value off the wire.
    pub fn from_value(v: &JsValue) -> (r: Result<Self, DecodeError>)
        ensures
            match r {
                Ok(x) => Self::readable_form(v@) && x.reads_form(v@),
                Err(_) => !Self::readable_form(v@),
            },
    {
        match v {
            JsValue::Object(_) => {},
            _ => {
                return Err(DecodeError::Shape);
            },
        }
        let backgroundColor = match read_defaulted::<FnWithArgsOrT<2, String>>(v, "backgroundColor") {
            Ok(x) => x,
            Err(e) => {
                return Err(e);
            },
        };
        let backgroundColorArray = match read_defaulted::<Vec<String>>(v, "backgroundColorArray") {
            Ok(x) => x,
            Err(e) => {
                return Err(e);
            },
        };
        let barPercentage = match read_defaulted::<NumberString>(v, "barPercentage") {
            Ok(x) => x,
            Err(e) => {
                return Err(e);
            },
        };
        let barThickness = match read_defaulted::<NumberString>(v, "barThickness") {
            Ok(x) => x,
            Err(e) => {
                return Err(e);
            },
        };
        let base = match read_defaulted::<NumberString>(v, "base") {
            Ok(x) => x,
            Err(e) => {
                return Err(e);
            },
        };
        let borderColor = match read_defaulted::<String>(v, "borderColor") {
            Ok(x) => x,
            Err(e) => {
                return Err(e);
            },
        };
        let borderDash = match read_defaulted::<Vec<NumberString>>(v, "borderDash") {
            Ok(x) => x,
            Err(e) => {
                return Err(e);
            },
        };
        let borderJoinStyle = match read_defaulted::<String>(v, "borderJoinStyle") {
            Ok(x) => x,
            Err(e) => {
                return Err(e);
            },
        };
        let borderRadius = match read_defaulted::<NumberString>(v, "borderRadius") {
            Ok(x) => x,
            Err(e) => {
                return Err(e);
            },
        };
        let borderSkipped = match read_defaulted::<String>(v, "borderSkipped") {
            Ok(x) => x,
            Err(e) => {
                return Err(e);
            },
        };
        let borderWidth = match read_optional::<NumberStringOrT<Border>>(v, "borderWidth") {
            Ok(x) => x,
            Err(e) => {
                return Err(e);
            },
        };
        let category_label = match read_defaulted::<String>(v, "category_label") {
            Ok(x) => x,
            Err(e) => {
                return Err(e);
            },
        };
        let categoryPercentage = match read_defaulted::<NumberString>(v, "categoryPercentage") {
            Ok(x) => x,
            Err(e) => {
                return Err(e);
            },
        };
        let clip = match read_defaulted::<NumberString>(v, "clip") {
            Ok(x) => x,
            Err(e) => {
                return Err(e);
            },
        };
        let data = match read_defaulted::<DatasetData>(v, "data") {
            Ok(x) => x,
            Err(e) => {
                return Err(e);
            },
        };
        let datalabels = match read_required::<DataLabels>(v, "datalabels") {
            Ok(x) => x,
            Err(e) => {
                return Err(e);
            },
        };
        let description = match read_defaulted::<String>(v, "description") {
            Ok(x) => x,
            Err(e) => {
                return Err(e);
            },
        };
        let fill = match read_defaulted::<String>(v, "fill") {
            Ok(x) => x,
            Err(e) => {
                return Err(e);
            },
        };
        let grouped = match read_optional::<bool>(v, "grouped") {
            Ok(x) => x,
            Err(e) => {
                return Err(e);
            },
        };
        let hitRadius = match read_defaulted::<NumberString>(v, "hitRadius") {
            Ok(x) => x,
            Err(e) => {
                return Err(e);
            },
        };
        let hoverBackgroundColor = match read_defaulted::<String>(v, "hoverBackgroundColor") {
            Ok(x) => x,
            Err(e) => {
                return Err(e);
            },
        };
        let hoverBorderColor = match read_defaulted::<String>(v, "hoverBorderColor") {
            Ok(x) => x,
            Err(e) => {
                return Err(e);
            },
        };
        let hoverBorderRadius = match read_defaulted::<NumberString>(v, "hoverBorderRadius") {
            Ok(x) => x,
            Err(e) => {
                return Err(e);
            },
        };
        let hoverBorderWidth = match read_defaulted::<NumberString>(v, "hoverBorderWidth") {
            Ok(x) => x,
            Err(e) => {
                return Err(e);
            },
        };
        let axis = match read_defaulted::<String>(v, "axis") {
            Ok(x) => x,
            Err(e) => {
                return Err(e);
            },
        };
        let inflateAmount = match read_defaulted::<NumberString>(v, "inflateAmount") {
            Ok(x) => x,
            Err(e) => {
                return Err(e);
            },
        };
        let label = match read_defaulted::<String>(v, "label") {
            Ok(x) => x,
            Err(e) => {
                return Err(e);
            },
        };
        let maxBarThickness = match read_defaulted::<NumberString>(v, "maxBarThickness") {
            Ok(x) => x,
            Err(e) => {
                return Err(e);
            },
        };
        let minBarLength = match read_defaulted::<NumberString>(v, "minBarLength") {
            Ok(x) => x,
            Err(e) => {
                return Err(e);
            },
        };
        let order = match read_defaulted::<NumberString>(v, "order") {
            Ok(x) => x,
            Err(e) => {
                return Err(e);
            },
        };
        let pointBackgroundColor = match read_defaulted::<String>(v, "pointBackgroundColor") {
            Ok(x) => x,
            Err(e) => {
                return Err(e);
            },
        };
        let pointBorderColor = match read_defaulted::<String>(v, "pointBorderColor") {
            Ok(x) => x,
            Err(e) => {
                return Err(e);
            },
        };
        let pointBorderWidth = match read_defaulted::<NumberString>(v, "pointBorderWidth") {
            Ok(x) => x,
            Err(e) => {
                return Err(e);
            },
        };
        let pointHitRadius = match read_defaulted::<NumberString>(v, "pointHitRadius") {
            Ok(x) => x,
            Err(e) => {
                return Err(e);
            },
        };
        let pointHoverBackgroundColor = match read_defaulted::<String>(v, "pointHoverBackgroundColor") {
            Ok(x) => x,
            Err(e) => {
                return Err(e);
            },
        };
        let pointHoverBorderWidth = match read_defaulted::<NumberString>(v, "pointHoverBorderWidth") {
            Ok(x) => x,
            Err(e) => {
                return Err(e);
            },
        };
        let pointHoverRadius = match read_defaulted::<NumberOrDateString>(v, "pointHoverRadius") {
            Ok(x) => x,
            Err(e) => {
                return Err(e);
            },
        };
        let pointRadius = match read_defaulted::<NumberString>(v, "pointRadius") {
            Ok(x) => x,
            Err(e) => {
                return Err(e);
            },
        };
        let pointStyle = match read_defaulted::<String>(v, "pointStyle") {
            Ok(x) => x,
            Err(e) => {
                return Err(e);
            },
        };
        let segment = match read_optional::<Segment>(v, "segment") {
            Ok(x) => x,
            Err(e) => {
                return Err(e);
            },
        };
        let skipNull = match read_optional::<bool>(v, "skipNull") {
            Ok(x) => x,
            Err(e) => {
                return Err(e);
            },
        };
        let spanGaps = match read_optional::<bool>(v, "spanGaps") {
            Ok(x) => x,
            Err(e) => {
                return Err(e);
            },
        };
        let stack = match read_defaulted::<String>(v, "stack") {
            Ok(x) => x,
            Err(e) => {
                return Err(e);
            },
        };
        let stepped = match read_optional::<BoolString>(v, "stepped") {
            Ok(x) => x,
            Err(e) => {
                return Err(e);
            },
        };
        let tension = match read_defaulted::<NumberString>(v, "tension") {
            Ok(x) => x,
            Err(e) => {
                return Err(e);
            },
        };
        let r_type = match read_defaulted::<String>(v, "type") {
            Ok(x) => x,
            Err(e) => {
                return Err(e);
            },
        };
        let xAxisID = match read_defaulted::<String>(v, "xAxisID") {
            Ok(x) => x,
            Err(e) => {
                return Err(e);
            },
        };
        let yAxisID = match read_defaulted::<String>(v, "yAxisID") {
            Ok(x) => x,
            Err(e) => {
                return Err(e);
            },
        };
        let z = match read_defaulted::<NumberString>(v, "z") {
            Ok(x) => x,
            Err(e) => {
                return Err(e);
            },
        };
        Ok(XYDataset { backgroundColor, backgroundColorArray, barPercentage, barThickness, base, borderColor, borderDash, borderJoinStyle, borderRadius, borderSkipped, borderWidth, category_label, categoryPercentage, clip, data, datalabels, description, fill, grouped, hitRadius, hoverBackgroundColor, hoverBorderColor, hoverBorderRadius, hoverBorderWidth, axis, inflateAmount, label, maxBarThickness, minBarLength, order, pointBackgroundColor, pointBorderColor, pointBorderWidth, pointHitRadius, pointHoverBackgroundColor, pointHoverBorderWidth, pointHoverRadius, pointRadius, pointStyle, segment, skipNull, spanGaps, stack, stepped, tension, r_type, xAxisID, yAxisID, z })
    }

    /// Writes the value to the wire.
    pub fn to_value(&self) -> (r: JsValue)
        ensures
            r@ == self.wire_form(),
    {
        let mut members: Vec<(String, JsValue)> = Vec::new();
        assert(members_view(members@) =~= Seq::empty());
        put_scalar(&mut members, "backgroundColor", &self.backgroundColor);
        put_list(&mut members, "backgroundColor", &self.backgroundColorArray);
        put_scalar(&mut members, "barPercentage", &self.barPercentage);
        put_scalar(&mut members, "barThickness", &self.barThickness);
        put_scalar(&mut members, "base", &self.base);
        put_scalar(&mut members, "borderColor", &self.borderColor);
        put_list(&mut members, "borderDash", &self.borderDash);
        put_scalar(&mut members, "borderJoinStyle", &self.borderJoinStyle);
        put_scalar(&mut members, "borderRadius", &self.borderRadius);
        put_scalar(&mut members, "borderSkipped", &self.borderSkipped);
        put_option(&mut members, "borderWidth", &self.borderWidth);
        put_scalar(&mut members, "category_label", &self.category_label);
        put_scalar(&mut members, "categoryPercentage", &self.categoryPercentage);
        put_scalar(&mut members, "clip", &self.clip);
        put_scalar(&mut members, "data", &self.data);
        put_always(&mut members, "datalabels", &self.datalabels);
        put_scalar(&mut members, "description", &self.description);
        put_scalar(&mut members, "fill", &self.fill);
        put_option(&mut members, "grouped", &self.grouped);
        put_scalar(&mut members, "hitRadius", &self.hitRadius);
        put_scalar(&mut members, "hoverBackgroundColor", &self.hoverBackgroundColor);
        put_scalar(&mut members, "hoverBorderColor", &self.hoverBorderColor);
        put_scalar(&mut members, "hoverBorderRadius", &self.hoverBorderRadius);
        put_scalar(&mut members, "hoverBorderWidth", &self.hoverBorderWidth);
        put_scalar(&mut members, "axis", &self.axis);
        put_scalar(&mut members, "inflateAmount", &self.inflateAmount);
        put_scalar(&mut members, "label", &self.label);
        put_scalar(&mut members, "maxBarThickness", &self.maxBarThickness);
        put_scalar(&mut members, "minBarLength", &self.minBarLength);
        put_scalar(&mut members, "order", &self.order);
        put_scalar(&mut members, "pointBackgroundColor", &self.pointBackgroundColor);
        put_scalar(&mut members, "pointBorderColor", &self.pointBorderColor);
        put_scalar(&mut members, "pointBorderWidth", &self.pointBorderWidth);
        put_scalar(&mut members, "pointHitRadius", &self.pointHitRadius);
        put_scalar(&mut members, "pointHoverBackgroundColor", &self.pointHoverBackgroundColor);
        put_scalar(&mut members, "pointHoverBorderWidth", &self.pointHoverBorderWidth);
        put_scalar(&mut members, "pointHoverRadius", &self.pointHoverRadius);
        put_scalar(&mut members, "pointRadius", &self.pointRadius);
        put_scalar(&mut members, "pointStyle", &self.pointStyle);
        put_option(&mut members, "segment", &self.segment);
        put_option(&mut members, "skipNull", &self.skipNull);
        put_option(&mut members, "spanGaps", &self.spanGaps);
        put_scalar(&mut members, "stack", &self.stack);
        put_option(&mut members, "stepped", &self.stepped);
        put_scalar(&mut members, "tension", &self.tension);
        put_scalar(&mut members, "type", &self.r_type);
        put_scalar(&mut members, "xAxisID", &self.xAxisID);
        put_scalar(&mut members, "yAxisID", &self.yAxisID);
        put_scalar(&mut members, "z", &self.z);
        finish(members)
    }
}

impl Default for XYDataset {
    fn default() -> (r: Self)
        ensures
            r.is_new(),
    {
        XYDataset::new()
    }
}

impl Serialize for XYDataset {
    open spec fn wire(&self) -> JsView {
        self.wire_form()
    }

    fn serialize(&self) -> (r: JsValue)
        ensures
            r@ == self.wire(),
    {
        self.to_value()
    }
}

impl Deserialize for XYDataset {
    open spec fn readable(v: JsView) -> bool {
        Self::readable_form(v)
    }

    open spec fn reads(&self, v: JsView) -> bool {
        self.reads_form(v)
    }

    fn deserialize(v: &JsValue) -> (r: Result<Self, DecodeError>)
        ensures
            match r {
                Ok(x) => Self::readable(v@) && x.reads(v@),
                Err(_) => !Self::readable(v@),
            },
    {
        XYDataset::from_value(v)
    }
}

/// One point of an [`XYDataset`].
#[derive(Debug, Clone, PartialEq, Eq)]
pub struct XYPoint {
    pub x: NumberOrDateString,
    pub y: NumberString,
    pub description: JsValue,
}

impl XYPoint {
    /// Whether every field is as `new` leaves it: nothing is set.
    pub open spec fn is_new(&self) -> bool {
        &&& self.x@.len() == 0
        &&& self.y@.len() == 0
        &&& self.description@ == JsView::Null
    }

    /// The wire form: an object with one member for each field that is
    /// set, in the order of the fields.
    pub open spec fn wire_form(&self) -> JsView {
        JsView::Object(
            Seq::empty()
                + scalar_entry("x"@, self.x)
                + scalar_entry("y"@, self.y)
                + scalar_entry("description"@, self.description)
        )
    }

    /// The value with nothing set.
    pub fn new() -> (r: Self)
        ensures
            r.is_new(),
    {
        XYPoint {
            x: NumberOrDateString::default(),
            y: NumberString::default(),
            description: JsValue::Null,
        }
    }

    /// The field `x`, to read or to change in place.
    pub fn get_x(&mut self) -> (r: &mut NumberOrDateString)
        ensures
            *r == old(self).x,
            *final(self) == (XYPoint { x: *final(r), ..*old(self) }),
    {
        &mut self.x
    }

    /// Sets `x`.
    pub fn x<V: Into<NumberOrDateString>>(self, value: V) -> (r: XYPoint)
        ensures
            call_ensures(<V as Into<NumberOrDateString>>::into, (value,), r.x),
            r == (XYPoint { x: r.x, ..self }),
    {
        let mut s = self;
        s.x = value.into();
        s
    }

    /// The field `y`, to read or to change in place.
    pub fn get_y(&mut self) -> (r: &mut NumberString)
        ensures
            *r == old(self).y,
            *final(self) == (XYPoint { y: *final(r), ..*old(self) }),
    {
        &mut self.y
    }

    /// Sets `y`.
    pub fn y<V: Into<NumberString>>(self, value: V) -> (r: XYPoint)
        ensures
            call_ensures(<V as Into<NumberString>>::into, (value,), r.y),
            r == (XYPoint { y: r.y, ..self }),
    {
        let mut s = self;
        s.y = value.into();
        s
    }

    /// The field `description`, to read or to change in place.
    pub fn get_description(&mut self) -> (r: &mut JsValue)
        ensures
            *r == old(self).description,
            *final(self) == (XYPoint { description: *final(r), ..*old(self) }),
    {
        &mut self.description
    }

    /// Sets `description`.
    pub fn description<V: Into<JsValue>>(self, value: V) -> (r: XYPoint)
        ensures
            call_ensures(<V as Into<JsValue>>::into, (value,), r.description),
            r == (XYPoint { description: r.description, ..self }),
    {
        let mut s = self;
        s.description = value.into();
        s
    }

    /// Whether a wire value reads as a value of this kind: an object whose
    /// members, where they are there, read as the fields.
    pub open spec fn readable_form(v: JsView) -> bool {
        &&& v is Object
        &&& defaulted_readable::<NumberOrDateString>(v, "x"@)
        &&& defaulted_readable::<NumberString>(v, "y"@)
        &&& defaulted_readable::<JsValue>(v, "description"@)
    }

    /// Whether this value is what a wire value reads as: each field is what
    /// its member reads as, or its default where the member is missing or
    /// the field is never read.
    pub open spec fn reads_form(&self, v: JsView) -> bool {
        &&& defaulted_reads(self.x, v, "x"@)
        &&& defaulted_reads(self.y, v, "y"@)
        &&& defaulted_reads(self.description, v, "description"@)
    }

    /// Reads the value off the wire.
    pub fn from_value(v: &JsValue) -> (r: Result<Self, DecodeError>)
        ensures
            match r {
                Ok(x) => Self::readable_form(v@) && x.reads_form(v@),
                Err(_) => !Self::readable_form(v@),
            },
    {
        match v {
            JsValue::Object(_) => {},
            _ => {
                return Err(DecodeError::Shape);
            },
        }
        let x = match read_defaulted::<NumberOrDateString>(v, "x") {
            Ok(x) => x,
            Err(e) => {
                return Err(e);
            },
        };
        let y = match read_defaulted::<NumberString>(v, "y") {
            Ok(x) => x,
            Err(e) => {
                return Err(e);
            },
        };
        let description = match read_defaulted::<JsValue>(v, "description") {
            Ok(x) => x,
            Err(e) => {
                return Err(e);
            },
        };
        Ok(XYPoint { x, y, description })
    }

    /// Writes the value to the wire.
    pub fn to_value(&self) -> (r: JsValue)
        ensures
            r@ == self.wire_form(),
    {
        let mut members: Vec<(String, JsValue)> = Vec::new();
        assert(members_view(members@) =~= Seq::empty());
        put_scalar(&mut members, "x", &self.x);
        put_scalar(&mut members, "y", &self.y);
        put_scalar(&mut members, "description", &self.description);
        finish(members)
    }
}

impl Default for XYPoint {
    fn default() -> (r: Self)
        ensures
            r.is_new(),
    {
        XYPoint::new()
    }
}

impl Serialize for XYPoint {
    open spec fn wire(&self) -> JsView {
        self.wire_form()
    }

    fn serialize(&self) -> (r: JsValue)
        ensures
            r@ == self.wire(),
    {
        self.to_value()
    }
}

impl Deserialize for XYPoint {
    open spec fn readable(v: JsView) -> bool {
        Self::readable_form(v)
    }

    open spec fn reads(&self, v: JsView) -> bool {
        self.reads_form(v)
    }

    fn deserialize(v: &JsValue) -> (r: Result<Self, DecodeError>)
        ensures
            match r {
                Ok(x) => Self::readable(v@) && x.reads(v@),
                Err(_) => !Self::readable(v@),
            },
    {
        XYPoint::from_value(v)
    }
}
} // verus!
