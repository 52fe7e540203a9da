use vstd::prelude::*;
use std::cmp::Ordering;
use crate::decode::{
    optional_readable, optional_reads, read_optional, read_required, required_readable, required_reads,
};
use crate::entries::{convert_all, wires};
use crate::json::{json_form, json_text};
use crate::order::{order_texts, text_order};
use crate::scalar::{ordering_of, to_ordering, NumberOrDateString, NumberString};
use crate::text::owned;
use crate::value::{items_view, lemma_array_view, lemma_object_view, members_view, JsValue, JsView};
use crate::wire::{ChartJsRsObject, DecodeError, Deserialize, Serialize};

verus! {

/// A kind of annotation that can be drawn over a chart.
pub trait Annotation: Serialize + Deserialize {

}

/// The annotations of a chart that has none.
#[derive(Debug, Clone, Default, PartialEq, Eq)]
pub struct NoAnnotations {}

impl Serialize for NoAnnotations {
    open spec fn wire(&self) -> JsView {
        JsView::Object(Seq::empty())
    }

    fn serialize(&self) -> (r: JsValue)
        ensures
            r@ == self.wire(),
    {
        let members: Vec<(String, JsValue)> = Vec::new();
        proof {
            lemma_object_view(members);
            assert(members_view(members@) =~= Seq::empty());
        }
        JsValue::Object(members)
    }
}

impl Deserialize for NoAnnotations {
    open spec fn readable(v: JsView) -> bool {
        v is Object
    }

    open spec fn reads(&self, v: JsView) -> bool {
        true
    }

    fn deserialize(v: &JsValue) -> (r: Result<Self, DecodeError>)
        ensures
            match r {
                Ok(x) => Self::readable(v@) && x.reads(v@),
                Err(_) => !Self::readable(v@),
            },
    {
        match v {
            JsValue::Object(_) => Ok(NoAnnotations {  }),
            _ => Err(DecodeError::Shape),
        }
    }
}

impl Annotation for NoAnnotations {

}

/// The texts of a list of labels.
pub open spec fn label_texts(labels: Seq<NumberOrDateString>) -> Seq<Seq<char>> {
    Seq::new(labels.len(), |i: int| labels[i]@)
}

/// The datasets of a chart.
pub trait DatasetTrait: Serialize + Deserialize + Default + Clone {
    /// The labels that the datasets bring with them.
    spec fn labels_of(&self) -> Seq<Seq<char>>;

    fn labels(&self) -> (r: Vec<NumberOrDateString>)
        ensures
            label_texts(r@) == self.labels_of(),
    ;
}

/// The datasets of a chart that has none.
#[derive(Debug, Clone, Default, PartialEq, Eq)]
pub struct NoDatasets {}

impl Serialize for NoDatasets {
    open spec fn wire(&self) -> JsView {
        JsView::Object(Seq::empty())
    }

    fn serialize(&self) -> (r: JsValue)
        ensures
            r@ == self.wire(),
    {
        let members: Vec<(String, JsValue)> = Vec::new();
        proof {
            lemma_object_view(members);
            assert(members_view(members@) =~= Seq::empty());
        }
        JsValue::Object(members)
    }
}

impl Deserialize for NoDatasets {
    open spec fn readable(v: JsView) -> bool {
        v is Object
    }

    open spec fn reads(&self, v: JsView) -> bool {
        true
    }

    fn deserialize(v: &JsValue) -> (r: Result<Self, DecodeError>)
        ensures
            match r {
                Ok(x) => Self::readable(v@) && x.reads(v@),
                Err(_) => !Self::readable(v@),
            },
    {
        match v {
            JsValue::Object(_) => Ok(NoDatasets {  }),
            _ => Err(DecodeError::Shape),
        }
    }
}

impl DatasetTrait for NoDatasets {
    open spec fn labels_of(&self) -> Seq<Seq<char>> {
        Seq::empty()
    }

    fn labels(&self) -> (r: Vec<NumberOrDateString>)
        ensures
            label_texts(r@) == self.labels_of(),
    {
        let r: Vec<NumberOrDateString> = Vec::new();
        assert(label_texts(r@) =~= Seq::empty());
        r
    }
}

/// The data of a chart: its datasets and the labels of its points.
#[derive(Debug, Clone, PartialEq, Eq)]
pub struct Dataset<D: DatasetTrait> {
    pub datasets: D,
    pub labels: Option<Vec<NumberOrDateString>>,
}

impl<D: DatasetTrait> Dataset<D> {
    /// The wire form: the datasets, and the labels or null.
    pub open spec fn wire_form(&self) -> JsView {
        JsView::Object(
            seq![
                ("datasets"@, self.datasets.wire()),
                (
                    "labels"@,
                    match self.labels {
                        Some(l) => JsView::Array(wires(l@)),
                        None => JsView::Null,
                    },
                ),
            ],
        )
    }

    /// The data with the datasets that `D` has by default and no labels.
    pub fn new() -> (r: Self)
        ensures
            call_ensures(D::default, (), r.datasets),
            r.labels is None,
    {
        Dataset { datasets: D::default(), labels: None }
    }

    /// The datasets, to read or to change in place.
    pub fn get_datasets(&mut self) -> (r: &mut D)
        ensures
            *r == old(self).datasets,
            *final(self) == (Dataset { datasets: *final(r), ..*old(self) }),
    {
        &mut self.datasets
    }

    /// Sets the datasets, and the labels to those that the datasets bring
    /// with them.
    pub fn datasets<V: Into<D>>(self, datasets: V) -> (r: Self)
        ensures
            call_ensures(<V as Into<D>>::into, (datasets,), r.datasets),
            r.labels matches Some(l) && label_texts(l@) == r.datasets.labels_of(),
    {
        let d: D = datasets.into();
        let labels = d.labels();
        Dataset { datasets: d, labels: Some(labels) }
    }

    /// The labels, to read or to change in place.
    pub fn get_labels(&mut self) -> (r: &mut Option<Vec<NumberOrDateString>>)
        ensures
            *r == old(self).labels,
            *final(self) == (Dataset { labels: *final(r), ..*old(self) }),
    {
        &mut self.labels
    }

    /// Sets the labels: each of the given values, turned into a label.
    pub fn labels<T: Into<NumberOrDateString>>(self, labels: Vec<T>) -> (r: Self)
        ensures
            r.datasets == self.datasets,
            r.labels matches Some(l) && l@.len() == labels@.len() && forall|i: int|
                0 <= i < labels@.len() ==> call_ensures(
                    <T as Into<NumberOrDateString>>::into,
                    (labels@[i],),
                    #[trigger] l@[i],
                ),
    {
        Dataset { datasets: self.datasets, labels: Some(convert_all(labels)) }
    }

    /// Writes the data to the wire.
    pub fn to_value(&self) -> (r: JsValue)
        ensures
            r@ == self.wire_form(),
    {
        let labels = match &self.labels {
            Some(l) => crate::entries::list_value(l),
            None => JsValue::Null,
        };
        let mut members: Vec<(String, JsValue)> = Vec::new();
        members.push((owned("datasets"), self.datasets.serialize()));
        members.push((owned("labels"), labels));
        proof {
            lemma_object_view(members);
            assert(members_view(members@) =~= self.wire_form()->Object_0);
        }
        JsValue::Object(members)
    }
}

impl<D: DatasetTrait> Dataset<D> {
    /// Whether a wire value reads as data: an object with datasets and,
    /// where they are set, labels.
    pub open spec fn readable_form(v: JsView) -> bool {
        &&& v is Object
        &&& required_readable::<D>(v, "datasets"@)
        &&& optional_readable::<Vec<NumberOrDateString>>(v, "labels"@)
    }

    /// Whether this data is what a wire value reads as.
    pub open spec fn reads_form(&self, v: JsView) -> bool {
        &&& required_reads(self.datasets, v, "datasets"@)
        &&& optional_reads(self.labels, v, "labels"@)
    }

    /// Reads the data off the wire.
    pub fn from_value(v: &JsValue) -> (r: Result<Self, DecodeError>)
        ensures
            match r {
                Ok(x) => Self::readable_form(v@) && x.reads_form(v@),
                Err(_) => !Self::readable_form(v@),
            },
    {
        match v {
            JsValue::Object(_) => {},
            _ => {
                return Err(DecodeError::Shape);
            },
        }
        let datasets = match read_required::<D>(v, "datasets") {
            Ok(x) => x,
            Err(e) => {
                return Err(e);
            },
        };
        let labels = match read_optional::<Vec<NumberOrDateString>>(v, "labels") {
            Ok(x) => x,
            Err(e) => {
                return Err(e);
            },
        };
        Ok(Dataset { datasets, labels })
    }
}

impl<D: DatasetTrait> Deserialize for Dataset<D> {
    open spec fn readable(v: JsView) -> bool {
        Self::readable_form(v)
    }

    open spec fn reads(&self, v: JsView) -> bool {
        self.reads_form(v)
    }

    fn deserialize(v: &JsValue) -> (r: Result<Self, DecodeError>)
        ensures
            match r {
                Ok(x) => Self::readable(v@) && x.reads(v@),
                Err(_) => !Self::readable(v@),
            },
    {
        Dataset::from_value(v)
    }
}

impl<D: DatasetTrait> Default for Dataset<D> {
    fn default() -> (r: Self)
        ensures
            call_ensures(D::default, (), r.datasets),
            r.labels is None,
    {
        Dataset::new()
    }
}

impl<D: DatasetTrait> Serialize for Dataset<D> {
    open spec fn wire(&self) -> JsView {
        self.wire_form()
    }

    fn serialize(&self) -> (r: JsValue)
        ensures
            r@ == self.wire(),
    {
        self.to_value()
    }
}

/// The points of a dataset, as they go to the wire.
#[derive(Debug, Clone, PartialEq, Eq)]
pub struct DatasetData(pub JsValue);

/// The wire form of a list of points, each a short list of numbers.
pub open spec fn rows_wire<const K: usize>(rows: Seq<[NumberOrDateString; K]>) -> JsView {
    JsView::Array(Seq::new(rows.len(), |i: int| JsView::Array(wires(rows[i]@))))
}

fn row_value<const K: usize>(row: &[NumberOrDateString; K]) -> (r: JsValue)
    ensures
        r@ == JsView::Array(wires(row@)),
{
    let mut out: Vec<JsValue> = Vec::new();
    let mut i: usize = 0;
    while i < K
        invariant
            i <= K,
            row@.len() == K,
            out@.len() == i,
            forall|j: int| 0 <= j < i ==> (#[trigger] out@[j])@ == row@[j].wire(),
        decreases K - i,
    {
        out.push(row[i].serialize());
        i += 1;
    }
    proof {
        lemma_array_view(out);
        assert(items_view(out@) =~= wires(row@));
    }
    JsValue::Array(out)
}

fn rows_value<const K: usize>(rows: &Vec<[NumberOrDateString; K]>) -> (r: JsValue)
    ensures
        r@ == rows_wire(rows@),
{
    let mut out: Vec<JsValue> = Vec::new();
    let mut i: usize = 0;
    while i < rows.len()
        invariant
            i <= rows.len(),
            out@.len() == i,
            forall|j: int| 0 <= j < i ==> (#[trigger] out@[j])@ == JsView::Array(wires(rows@[j]@)),
        decreases rows.len() - i,
    {
        out.push(row_value(&rows[i]));
        i += 1;
    }
    proof {
        lemma_array_view(out);
        assert(items_view(out@) =~= rows_wire(rows@)->Array_0);
    }
    JsValue::Array(out)
}

impl DatasetData {
    /// Whether the data is a list that holds no point.
    pub fn is_empty(&self) -> (r: bool)
        requires
            self.0@ is Array,
        ensures
            r == (self.0@->Array_0.len() == 0),
    {
        match &self.0 {
            JsValue::Array(items) => {
                proof {
                    lemma_array_view(*items);
                }
                items.len() == 0
            },
            _ => false,
        }
    }

    /// The data of points that are one number each.
    pub fn from_single_point_array(points: Vec<[NumberOrDateString; 1]>) -> (r: Self)
        ensures
            r.0@ == rows_wire(points@),
    {
        DatasetData(rows_value(&points))
    }

    /// The data of points that are a least and a greatest number each.
    pub fn from_minmax_array(points: Vec<[NumberOrDateString; 2]>) -> (r: Self)
        ensures
            r.0@ == rows_wire(points@),
    {
        DatasetData(rows_value(&points))
    }
}

impl DatasetData {
    /// Orders two sets of data by their JSON texts.
    pub fn cmp(&self, other: &Self) -> (r: Ordering)
        ensures
            r == ordering_of(
                text_order(json_text(json_form(self.0@)), json_text(json_form(other.0@))),
            ),
    {
        let mine = self.0.to_json();
        let theirs = other.0.to_json();
        to_ordering(order_texts(mine.as_str(), theirs.as_str()))
    }
}

impl PartialOrd for DatasetData {
    fn partial_cmp(&self, other: &Self) -> (r: Option<Ordering>) {
        Some(self.cmp(other))
    }
}

impl vstd::std_specs::cmp::PartialOrdSpecImpl for DatasetData {
    open spec fn obeys_partial_cmp_spec() -> bool {
        true
    }

    open spec fn partial_cmp_spec(&self, other: &Self) -> Option<Ordering> {
        Some(ordering_of(text_order(json_text(json_form(self.0@)), json_text(json_form(other.0@)))))
    }
}

impl Default for DatasetData {
    fn default() -> (r: Self)
        ensures
            r.0@ == JsView::Null,
    {
        DatasetData(JsValue::Null)
    }
}

impl ChartJsRsObject for DatasetData {
    /// Data that was never set, or is a list without points, is left out of
    /// the wire form.
    open spec fn empty(&self) -> bool {
        match self.0@ {
            JsView::Null => true,
            JsView::Array(items) => items.len() == 0,
            _ => false,
        }
    }

    fn is_empty(&self) -> (r: bool)
        ensures
            r == self.empty(),
    {
        match &self.0 {
            JsValue::Null => true,
            JsValue::Array(items) => {
                proof {
                    lemma_array_view(*items);
                }
                items.len() == 0
            },
            _ => false,
        }
    }
}

impl Deserialize for DatasetData {
    /// Any value reads as data.
    open spec fn readable(v: JsView) -> bool {
        true
    }

    open spec fn reads(&self, v: JsView) -> bool {
        self.0@ == v
    }

    fn deserialize(v: &JsValue) -> (r: Result<Self, DecodeError>)
        ensures
            match r {
                Ok(x) => Self::readable(v@) && x.reads(v@),
                Err(_) => !Self::readable(v@),
            },
    {
        Ok(DatasetData(v.clone()))
    }
}

impl Serialize for DatasetData {
    open spec fn wire(&self) -> JsView {
        self.0@
    }

    fn serialize(&self) -> (r: JsValue)
        ensures
            r@ == self.wire(),
    {
        self.0.clone()
    }
}

impl ChartJsRsObject for JsValue {
    /// A value that is null is left out of the wire form.
    open spec fn empty(&self) -> bool {
        self@ is Null
    }

    fn is_empty(&self) -> (r: bool)
        ensures
            r == self.empty(),
    {
        match self {
            JsValue::Null => true,
            _ => false,
        }
    }
}

/// A field that holds either a number or a value of another kind.
#[derive(Debug, Clone, PartialEq, Eq)]
pub enum NumberStringOrT<T> {
    T(T),
    NumberString(NumberString),
}

impl<T> NumberStringOrT<T> {
    /// Whether the field holds a number that was never set.
    pub fn is_empty(&self) -> (r: bool)
        ensures
            r == (self matches NumberStringOrT::NumberString(ns) && ns@.len() == 0),
    {
        match self {
            NumberStringOrT::T(_t) => false,
            NumberStringOrT::NumberString(ns) => ns.is_empty(),
        }
    }
}

impl<T: Serialize> Serialize for NumberStringOrT<T> {
    open spec fn wire(&self) -> JsView {
        match self {
            NumberStringOrT::T(t) => t.wire(),
            NumberStringOrT::NumberString(ns) => ns.wire(),
        }
    }

    fn serialize(&self) -> (r: JsValue)
        ensures
            r@ == self.wire(),
    {
        match self {
            NumberStringOrT::T(t) => t.serialize(),
            NumberStringOrT::NumberString(ns) => ns.serialize(),
        }
    }
}

impl<T> From<NumberString> for NumberStringOrT<T> {
    fn from(value: NumberString) -> (r: Self) {
        NumberStringOrT::NumberString(value)
    }
}

impl<T> vstd::std_specs::convert::FromSpecImpl<NumberString> for NumberStringOrT<T> {
    open spec fn obeys_from_spec() -> bool {
        true
    }

    open spec fn from_spec(value: NumberString) -> Self {
        NumberStringOrT::NumberString(value)
    }
}

impl<T: Deserialize> Deserialize for NumberStringOrT<T> {
    /// A number or a value of the other kind is looked for, in this
    /// order.
    open spec fn readable(v: JsView) -> bool {
        NumberString::readable(v) || T::readable(v)
    }

    open spec fn reads(&self, v: JsView) -> bool {
        match self {
            NumberStringOrT::NumberString(ns) => NumberString::readable(v) && ns.reads(v),
            NumberStringOrT::T(t) => !NumberString::readable(v) && T::readable(v) && t.reads(v),
        }
    }

    fn deserialize(v: &JsValue) -> (r: Result<Self, DecodeError>)
        ensures
            match r {
                Ok(x) => Self::readable(v@) && x.reads(v@),
                Err(_) => !Self::readable(v@),
            },
    {
        match NumberString::deserialize(v) {
            Ok(ns) => Ok(NumberStringOrT::NumberString(ns)),
            Err(_) => match T::deserialize(v) {
                Ok(t) => Ok(NumberStringOrT::T(t)),
                Err(e) => Err(e),
            },
        }
    }
}

impl DatasetTrait for Vec<crate::objects::datasets::SinglePointDataset> {
    /// Datasets of single points bring no labels with them.
    open spec fn labels_of(&self) -> Seq<Seq<char>> {
        Seq::empty()
    }

    fn labels(&self) -> (r: Vec<NumberOrDateString>)
        ensures
            label_texts(r@) == self.labels_of(),
    {
        let r: Vec<NumberOrDateString> = Vec::new();
        assert(label_texts(r@) =~= Seq::empty());
        r
    }
}

impl DatasetTrait for Vec<crate::objects::datasets::XYDataset> {
    /// Datasets of points with an `x` of their own bring no labels with
    /// them.
    open spec fn labels_of(&self) -> Seq<Seq<char>> {
        Seq::empty()
    }

    fn labels(&self) -> (r: Vec<NumberOrDateString>)
        ensures
            label_texts(r@) == self.labels_of(),
    {
        let r: Vec<NumberOrDateString> = Vec::new();
        assert(label_texts(r@) =~= Seq::empty());
        r
    }
}

} // verus!
