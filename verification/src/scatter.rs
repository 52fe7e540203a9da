use vstd::prelude::*;
use crate::chart::{ChartExt, WorkerChartExt};
use crate::dataset::{Dataset, NoAnnotations};
use crate::decode::{read_required, required_readable, required_reads};
use crate::literal::{is_word, is_word_ignoring_case};
use crate::objects::datasets::XYDataset;
use crate::objects::options::ChartOptions;
use crate::text::owned;
use crate::value::{lemma_object_view, members_view, JsValue, JsView};
use crate::wire::{DecodeError, Deserialize, Serialize};

verus! {

/// The kind of a [`Scatter`] chart: always `scatter`.
#[derive(Debug, Default, Clone, Copy, PartialEq, Eq)]
pub struct ScatterString;

impl Serialize for ScatterString {
    open spec fn wire(&self) -> JsView {
        JsView::Str("scatter"@)
    }

    fn serialize(&self) -> (r: JsValue)
        ensures
            r@ == self.wire(),
    {
        JsValue::Str(owned("scatter"))
    }
}

impl Deserialize for ScatterString {
    /// The kind is read from the text `scatter`, in any case of its letters.
    open spec fn readable(v: JsView) -> bool {
        v matches JsView::Str(s) && is_word(s, "scatter"@)
    }

    open spec fn reads(&self, v: JsView) -> bool {
        true
    }

    fn deserialize(v: &JsValue) -> (r: Result<Self, DecodeError>)
        ensures
            match r {
                Ok(x) => Self::readable(v@) && x.reads(v@),
                Err(_) => !Self::readable(v@),
            },
    {
        proof {
            reveal_strlit("scatter");
        }
        match v {
            JsValue::Str(s) => if is_word_ignoring_case(s.as_str(), "scatter") {
                Ok(ScatterString)
            } else {
                Err(DecodeError::Shape)
            },
            _ => Err(DecodeError::Shape),
        }
    }
}

/// A scatter chart.
#[derive(Debug, Clone, PartialEq, Eq)]
pub struct Scatter {
    pub r_type: ScatterString,
    pub data: Dataset<Vec<XYDataset>>,
    pub options: ChartOptions<NoAnnotations>,
    pub id: String,
}

impl Scatter {
    /// The wire form: the kind of the chart, its data, its options and the
    /// element that it is drawn into.
    pub open spec fn wire_form(&self) -> JsView {
        JsView::Object(
            seq![
                ("type"@, JsView::Str("scatter"@)),
                ("data"@, self.data.wire_form()),
                ("options"@, self.options.wire_form()),
                ("id"@, JsView::Str(self.id@)),
            ],
        )
    }

    /// Whether a wire value reads as a chart of this kind.
    pub open spec fn readable_form(v: JsView) -> bool {
        &&& v is Object
        &&& required_readable::<ScatterString>(v, "type"@)
        &&& required_readable::<Dataset<Vec<XYDataset>>>(v, "data"@)
        &&& required_readable::<ChartOptions<NoAnnotations>>(v, "options"@)
        &&& required_readable::<String>(v, "id"@)
    }

    /// Whether this chart is what a wire value reads as.
    pub open spec fn reads_form(&self, v: JsView) -> bool {
        &&& required_reads(self.data, v, "data"@)
        &&& required_reads(self.options, v, "options"@)
        &&& required_reads(self.id, v, "id"@)
    }

    /// Reads the chart off the wire.
    pub fn from_value(v: &JsValue) -> (r: Result<Self, DecodeError>)
        ensures
            match r {
                Ok(x) => Self::readable_form(v@) && x.reads_form(v@),
                Err(_) => !Self::readable_form(v@),
            },
    {
        match v {
            JsValue::Object(_) => {},
            _ => {
                return Err(DecodeError::Shape);
            },
        }
        let r_type = match read_required::<ScatterString>(v, "type") {
            Ok(x) => x,
            Err(e) => {
                return Err(e);
            },
        };
        let data = match read_required::<Dataset<Vec<XYDataset>>>(v, "data") {
            Ok(x) => x,
            Err(e) => {
                return Err(e);
            },
        };
        let options = match read_required::<ChartOptions<NoAnnotations>>(v, "options") {
            Ok(x) => x,
            Err(e) => {
                return Err(e);
            },
        };
        let id = match read_required::<String>(v, "id") {
            Ok(x) => x,
            Err(e) => {
                return Err(e);
            },
        };
        Ok(Scatter { r_type, data, options, id })
    }

    /// Writes the chart to the wire.
    pub fn to_value(&self) -> (r: JsValue)
        ensures
            r@ == self.wire_form(),
    {
        let mut members: Vec<(String, JsValue)> = Vec::new();
        members.push((owned("type"), self.r_type.serialize()));
        members.push((owned("data"), self.data.to_value()));
        members.push((owned("options"), self.options.to_value()));
        members.push((owned("id"), JsValue::Str(self.id.clone())));
        proof {
            lemma_object_view(members);
            assert(members_view(members@) =~= self.wire_form()->Object_0);
        }
        JsValue::Object(members)
    }
}

impl ChartExt for Scatter {
    type DS = Dataset<Vec<XYDataset>>;

    open spec fn id_of(&self) -> Seq<char> {
        self.id@
    }

    open spec fn data_of(&self) -> Dataset<Vec<XYDataset>> {
        self.data
    }

    open spec fn options_of(&self) -> ChartOptions<NoAnnotations> {
        self.options
    }

    open spec fn with_id(self, id: String) -> Self {
        Scatter { id, ..self }
    }

    open spec fn with_data(self, data: Dataset<Vec<XYDataset>>) -> Self {
        Scatter { data, ..self }
    }

    open spec fn with_options(self, options: ChartOptions<NoAnnotations>) -> Self {
        Scatter { options, ..self }
    }

    fn get_id(&self) -> (r: &str)
        ensures
            r@ == self.id_of(),
    {
        self.id.as_str()
    }

    fn id(self, id: String) -> (r: Self)
        ensures
            r == self.with_id(id),
    {
        let mut s = self;
        s.id = id;
        s
    }

    fn get_data(&mut self) -> (r: &mut Dataset<Vec<XYDataset>>)
        ensures
            *r == old(self).data_of(),
            *final(self) == old(self).with_data(*final(r)),
    {
        &mut self.data
    }

    fn get_options(&mut self) -> (r: &mut ChartOptions<NoAnnotations>)
        ensures
            *r == old(self).options_of(),
            *final(self) == old(self).with_options(*final(r)),
    {
        &mut self.options
    }
}

impl WorkerChartExt for Scatter {
}

impl Default for Scatter {
    fn default() -> (r: Self)
        ensures
            r.id@.len() == 0,
            r.data.datasets@.len() == 0,
            r.data.labels is None,
            r.options.is_new(),
    {
        Scatter { r_type: ScatterString, data: Dataset::new(), options: ChartOptions::new(), id: String::new() }
    }
}

impl Deserialize for Scatter {
    open spec fn readable(v: JsView) -> bool {
        Self::readable_form(v)
    }

    open spec fn reads(&self, v: JsView) -> bool {
        self.reads_form(v)
    }

    fn deserialize(v: &JsValue) -> (r: Result<Self, DecodeError>)
        ensures
            match r {
                Ok(x) => Self::readable(v@) && x.reads(v@),
                Err(_) => !Self::readable(v@),
            },
    {
        Scatter::from_value(v)
    }
}

impl Serialize for Scatter {
    open spec fn wire(&self) -> JsView {
        self.wire_form()
    }

    fn serialize(&self) -> (r: JsValue)
        ensures
            r@ == self.wire(),
    {
        self.to_value()
    }
}

} // verus!
