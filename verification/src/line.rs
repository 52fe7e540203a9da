use vstd::prelude::*;
use crate::chart::{Chart, ChartView, WorkerChart};
use crate::dataset::{Dataset, Annotation};
use crate::decode::{read_required, required_readable, required_reads};
use crate::literal::{is_word, is_word_ignoring_case};
use crate::objects::datasets::SinglePointDataset;
use crate::objects::options::ChartOptions;
use crate::text::owned;
use crate::value::{lemma_object_view, members_view, JsValue, JsView};
use crate::wire::{DecodeError, Deserialize, Serialize};

verus! {

/// The kind of a [`Line`] chart: always `line`.
#[derive(Debug, Default, Clone, Copy, PartialEq, Eq)]
pub struct LineString;

impl Serialize for LineString {
    open spec fn wire(&self) -> JsView {
        JsView::Str("line"@)
    }

    fn serialize(&self) -> (r: JsValue)
        ensures
            r@ == self.wire(),
    {
        JsValue::Str(owned("line"))
    }
}

impl Deserialize for LineString {
    /// The kind is read from the text `line`, in any case of its letters.
    open spec fn readable(v: JsView) -> bool {
        v matches JsView::Str(s) && is_word(s, "line"@)
    }

    open spec fn reads(&self, v: JsView) -> bool {
        true
    }

    fn deserialize(v: &JsValue) -> (r: Result<Self, DecodeError>)
        ensures
            match r {
                Ok(x) => Self::readable(v@) && x.reads(v@),
                Err(_) => !Self::readable(v@),
            },
    {
        proof {
            reveal_strlit("line");
        }
        match v {
            JsValue::Str(s) => if is_word_ignoring_case(s.as_str(), "line") {
                Ok(LineString)
            } else {
                Err(DecodeError::Shape)
            },
            _ => Err(DecodeError::Shape),
        }
    }
}

/// A line chart.
#[derive(Debug, Clone, PartialEq, Eq)]
pub struct Line<A: Annotation> {
    pub r_type: LineString,
    pub data: Dataset<Vec<SinglePointDataset>>,
    pub options: ChartOptions<A>,
    pub id: String,
}

impl<A: Annotation> Line<A> {
    /// The wire form: the kind of the chart, its data, its options and the
    /// element that it is drawn into.
    pub open spec fn wire_form(&self) -> JsView {
        JsView::Object(
            seq![
                ("type"@, JsView::Str("line"@)),
                ("data"@, self.data.wire_form()),
                ("options"@, self.options.wire_form()),
                ("id"@, JsView::Str(self.id@)),
            ],
        )
    }

    /// The chart for the element `id`, with no data and no options set.
    pub fn new(id: &str) -> (r: Self)
        ensures
            r.id@ == id@,
            r.data.datasets@.len() == 0,
            r.data.labels is None,
            r.options.is_new(),
    {
        Line { r_type: LineString, data: Dataset::new(), options: ChartOptions::new(), id: owned(id) }
    }

    /// The element that the chart is drawn into.
    pub fn get_id(&self) -> (r: &str)
        ensures
            r@ == self.id@,
    {
        self.id.as_str()
    }

    /// Sets the element that the chart is drawn into.
    pub fn id(self, id: String) -> (r: Self)
        ensures
            r == (Line { id, ..self }),
    {
        let mut s = self;
        s.id = id;
        s
    }

    /// The data, to read or to change in place.
    pub fn get_data(&mut self) -> (r: &mut Dataset<Vec<SinglePointDataset>>)
        ensures
            *r == old(self).data,
            *final(self) == (Line { data: *final(r), ..*old(self) }),
    {
        &mut self.data
    }

    /// Sets the data.
    pub fn data<V: Into<Dataset<Vec<SinglePointDataset>>>>(self, data: V) -> (r: Self)
        ensures
            call_ensures(<V as Into<Dataset<Vec<SinglePointDataset>>>>::into, (data,), r.data),
            r == (Line { data: r.data, ..self }),
    {
        let mut s = self;
        s.data = data.into();
        s
    }

    /// The options, to read or to change in place.
    pub fn get_options(&mut self) -> (r: &mut ChartOptions<A>)
        ensures
            *r == old(self).options,
            *final(self) == (Line { options: *final(r), ..*old(self) }),
    {
        &mut self.options
    }

    /// Sets the options.
    pub fn options<V: Into<ChartOptions<A>>>(self, options: V) -> (r: Self)
        ensures
            call_ensures(<V as Into<ChartOptions<A>>>::into, (options,), r.options),
            r == (Line { options: r.options, ..self }),
    {
        let mut s = self;
        s.options = options.into();
        s
    }

    /// Whether a wire value reads as a chart of this kind.
    pub open spec fn readable_form(v: JsView) -> bool {
        &&& v is Object
        &&& required_readable::<LineString>(v, "type"@)
        &&& required_readable::<Dataset<Vec<SinglePointDataset>>>(v, "data"@)
        &&& required_readable::<ChartOptions<A>>(v, "options"@)
        &&& required_readable::<String>(v, "id"@)
    }

    /// Whether this chart is what a wire value reads as.
    pub open spec fn reads_form(&self, v: JsView) -> bool {
        &&& required_reads(self.data, v, "data"@)
        &&& required_reads(self.options, v, "options"@)
        &&& required_reads(self.id, v, "id"@)
    }

    /// Reads the chart off the wire.
    pub fn from_value(v: &JsValue) -> (r: Result<Self, DecodeError>)
        ensures
            match r {
                Ok(x) => Self::readable_form(v@) && x.reads_form(v@),
                Err(_) => !Self::readable_form(v@),
            },
    {
        match v {
            JsValue::Object(_) => {},
            _ => {
                return Err(DecodeError::Shape);
            },
        }
        let r_type = match read_required::<LineString>(v, "type") {
            Ok(x) => x,
            Err(e) => {
                return Err(e);
            },
        };
        let data = match read_required::<Dataset<Vec<SinglePointDataset>>>(v, "data") {
            Ok(x) => x,
            Err(e) => {
                return Err(e);
            },
        };
        let options = match read_required::<ChartOptions<A>>(v, "options") {
            Ok(x) => x,
            Err(e) => {
                return Err(e);
            },
        };
        let id = match read_required::<String>(v, "id") {
            Ok(x) => x,
            Err(e) => {
                return Err(e);
            },
        };
        Ok(Line { r_type, data, options, id })
    }

    /// Writes the chart to the wire.
    pub fn to_value(&self) -> (r: JsValue)
        ensures
            r@ == self.wire_form(),
    {
        let mut members: Vec<(String, JsValue)> = Vec::new();
        members.push((owned("type"), self.r_type.serialize()));
        members.push((owned("data"), self.data.to_value()));
        members.push((owned("options"), self.options.to_value()));
        members.push((owned("id"), JsValue::Str(self.id.clone())));
        proof {
            lemma_object_view(members);
            assert(members_view(members@) =~= self.wire_form()->Object_0);
        }
        JsValue::Object(members)
    }

    /// The chart that is ready to be drawn: the wire form of this
    /// configuration, for the element that it names.
    pub fn into_chart(self) -> (r: Chart)
        ensures
            r@ == (ChartView {
                obj: self.wire_form(),
                id: self.id@,
                mutate: false,
                plugins: Seq::empty(),
                defaults: Seq::empty(),
            }),
    {
        let obj = self.to_value();
        Chart::new(obj, self.id)
    }

    /// The chart that is ready to be drawn.
    pub fn to_chart(self) -> (r: Chart)
        ensures
            r@ == (ChartView {
                obj: self.wire_form(),
                id: self.id@,
                mutate: false,
                plugins: Seq::empty(),
                defaults: Seq::empty(),
            }),
    {
        self.into_chart()
    }

    /// The chart that is ready to be drawn by a worker.
    pub fn into_worker_chart(self) -> (r: WorkerChart)
        ensures
            r@ == (ChartView {
                obj: self.wire_form(),
                id: self.id@,
                mutate: false,
                plugins: Seq::empty(),
                defaults: Seq::empty(),
            }),
    {
        let obj = self.to_value();
        WorkerChart::new(obj, self.id)
    }
}

impl<A: Annotation> Default for Line<A> {
    fn default() -> (r: Self)
        ensures
            r.id@.len() == 0,
            r.data.datasets@.len() == 0,
            r.data.labels is None,
            r.options.is_new(),
    {
        Line { r_type: LineString, data: Dataset::new(), options: ChartOptions::new(), id: String::new() }
    }
}

impl<A: Annotation> Deserialize for Line<A> {
    open spec fn readable(v: JsView) -> bool {
        Self::readable_form(v)
    }

    open spec fn reads(&self, v: JsView) -> bool {
        self.reads_form(v)
    }

    fn deserialize(v: &JsValue) -> (r: Result<Self, DecodeError>)
        ensures
            match r {
                Ok(x) => Self::readable(v@) && x.reads(v@),
                Err(_) => !Self::readable(v@),
            },
    {
        Line::from_value(v)
    }
}

impl<A: Annotation> Serialize for Line<A> {
    open spec fn wire(&self) -> JsView {
        self.wire_form()
    }

    fn serialize(&self) -> (r: JsValue)
        ensures
            r@ == self.wire(),
    {
        self.to_value()
    }
}

} // verus!
