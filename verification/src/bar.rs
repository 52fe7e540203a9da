use vstd::prelude::*;
use crate::chart::{ChartExt, WorkerChartExt};
use crate::dataset::{Dataset, DatasetTrait, NoAnnotations};
use crate::decode::{read_required, required_readable, required_reads};
use crate::literal::{is_word, is_word_ignoring_case};
use crate::objects::options::ChartOptions;
use crate::text::owned;
use crate::value::{lemma_object_view, members_view, JsValue, JsView};
use crate::wire::{DecodeError, Deserialize, Serialize};

verus! {

/// The kind of a [`Bar`] chart: always `bar`.
#[derive(Debug, Default, Clone, Copy, PartialEq, Eq)]
pub struct BarString;

impl Serialize for BarString {
    open spec fn wire(&self) -> JsView {
        JsView::Str("bar"@)
    }

    fn serialize(&self) -> (r: JsValue)
        ensures
            r@ == self.wire(),
    {
        JsValue::Str(owned("bar"))
    }
}

impl Deserialize for BarString {
    /// The kind is read from the text `bar`, in any case of its letters.
    open spec fn readable(v: JsView) -> bool {
        v matches JsView::Str(s) && is_word(s, "bar"@)
    }

    open spec fn reads(&self, v: JsView) -> bool {
        true
    }

    fn deserialize(v: &JsValue) -> (r: Result<Self, DecodeError>)
        ensures
            match r {
                Ok(x) => Self::readable(v@) && x.reads(v@),
                Err(_) => !Self::readable(v@),
            },
    {
        proof {
            reveal_strlit("bar");
        }
        match v {
            JsValue::Str(s) => if is_word_ignoring_case(s.as_str(), "bar") {
                Ok(BarString)
            } else {
                Err(DecodeError::Shape)
            },
            _ => Err(DecodeError::Shape),
        }
    }
}

/// A bar chart.
#[derive(Debug, Clone, PartialEq, Eq)]
pub struct Bar<D: DatasetTrait> {
    pub r_type: BarString,
    pub data: Dataset<D>,
    pub options: ChartOptions<NoAnnotations>,
    pub id: String,
}

impl<D: DatasetTrait> Bar<D> {
    /// The wire form: the kind of the chart, its data, its options and the
    /// element that it is drawn into.
    pub open spec fn wire_form(&self) -> JsView {
        JsView::Object(
            seq![
                ("type"@, JsView::Str("bar"@)),
                ("data"@, self.data.wire_form()),
                ("options"@, self.options.wire_form()),
                ("id"@, JsView::Str(self.id@)),
            ],
        )
    }

    /// Whether a wire value reads as a chart of this kind.
    pub open spec fn readable_form(v: JsView) -> bool {
        &&& v is Object
        &&& required_readable::<BarString>(v, "type"@)
        &&& required_readable::<Dataset<D>>(v, "data"@)
        &&& required_readable::<ChartOptions<NoAnnotations>>(v, "options"@)
        &&& required_readable::<String>(v, "id"@)
    }

    /// Whether this chart is what a wire value reads as.
    pub open spec fn reads_form(&self, v: JsView) -> bool {
        &&& required_reads(self.data, v, "data"@)
        &&& required_reads(self.options, v, "options"@)
        &&& required_reads(self.id, v, "id"@)
    }

    /// Reads the chart off the wire.
    pub fn from_value(v: &JsValue) -> (r: Result<Self, DecodeError>)
        ensures
            match r {
                Ok(x) => Self::readable_form(v@) && x.reads_form(v@),
                Err(_) => !Self::readable_form(v@),
            },
    {
        match v {
            JsValue::Object(_) => {},
            _ => {
                return Err(DecodeError::Shape);
            },
        }
        let r_type = match read_required::<BarString>(v, "type") {
            Ok(x) => x,
            Err(e) => {
                return Err(e);
            },
        };
        let data = match read_required::<Dataset<D>>(v, "data") {
            Ok(x) => x,
            Err(e) => {
                return Err(e);
            },
        };
        let options = match read_required::<ChartOptions<NoAnnotations>>(v, "options") {
            Ok(x) => x,
            Err(e) => {
                return Err(e);
            },
        };
        let id = match read_required::<String>(v, "id") {
            Ok(x) => x,
            Err(e) => {
                return Err(e);
            },
        };
        Ok(Bar { r_type, data, options, id })
    }

    /// Writes the chart to the wire.
    pub fn to_value(&self) -> (r: JsValue)
        ensures
            r@ == self.wire_form(),
    {
        let mut members: Vec<(String, JsValue)> = Vec::new();
        members.push((owned("type"), self.r_type.serialize()));
        members.push((owned("data"), self.data.to_value()));
        members.push((owned("options"), self.options.to_value()));
        members.push((owned("id"), JsValue::Str(self.id.clone())));
        proof {
            lemma_object_view(members);
            assert(members_view(members@) =~= self.wire_form()->Object_0);
        }
        JsValue::Object(members)
    }
}

impl<D: DatasetTrait> ChartExt for Bar<D> {
    type DS = Dataset<D>;

    open spec fn id_of(&self) -> Seq<char> {
        self.id@
    }

    open spec fn data_of(&self) -> Dataset<D> {
        self.data
    }

    open spec fn options_of(&self) -> ChartOptions<NoAnnotations> {
        self.options
    }

    open spec fn with_id(self, id: String) -> Self {
        Bar { id, ..self }
    }

    open spec fn with_data(self, data: Dataset<D>) -> Self {
        Bar { data, ..self }
    }

    open spec fn with_options(self, options: ChartOptions<NoAnnotations>) -> Self {
        Bar { options, ..self }
    }

    fn get_id(&self) -> (r: &str)
        ensures
            r@ == self.id_of(),
    {
        self.id.as_str()
    }

    fn id(self, id: String) -> (r: Self)
        ensures
            r == self.with_id(id),
    {
        let mut s = self;
        s.id = id;
        s
    }

    fn get_data(&mut self) -> (r: &mut Dataset<D>)
        ensures
            *r == old(self).data_of(),
            *final(self) == old(self).with_data(*final(r)),
    {
        &mut self.data
    }

    fn get_options(&mut self) -> (r: &mut ChartOptions<NoAnnotations>)
        ensures
            *r == old(self).options_of(),
            *final(self) == old(self).with_options(*final(r)),
    {
        &mut self.options
    }
}

impl<D: DatasetTrait> WorkerChartExt for Bar<D> {
}

impl<D: DatasetTrait> Default for Bar<D> {
    fn default() -> (r: Self)
        ensures
            r.id@.len() == 0,
            call_ensures(D::default, (), r.data.datasets),
            r.data.labels is None,
            r.options.is_new(),
    {
        Bar { r_type: BarString, data: Dataset::new(), options: ChartOptions::new(), id: String::new() }
    }
}

impl<D: DatasetTrait> Deserialize for Bar<D> {
    open spec fn readable(v: JsView) -> bool {
        Self::readable_form(v)
    }

    open spec fn reads(&self, v: JsView) -> bool {
        self.reads_form(v)
    }

    fn deserialize(v: &JsValue) -> (r: Result<Self, DecodeError>)
        ensures
            match r {
                Ok(x) => Self::readable(v@) && x.reads(v@),
                Err(_) => !Self::readable(v@),
            },
    {
        Bar::from_value(v)
    }
}

impl<D: DatasetTrait> Serialize for Bar<D> {
    open spec fn wire(&self) -> JsView {
        self.wire_form()
    }

    fn serialize(&self) -> (r: JsValue)
        ensures
            r@ == self.wire(),
    {
        self.to_value()
    }
}

} // verus!
