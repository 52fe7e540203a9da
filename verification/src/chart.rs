use vstd::prelude::*;
use vstd::string::StringExecFns;
use crate::dataset::NoAnnotations;
use crate::objects::options::ChartOptions;
use crate::rehydrate::{rationalise, rehydrated_chart};
use crate::text::owned;
use crate::value::{JsValue, JsView};
use crate::wire::{Deserialize, Serialize};

verus! {

/// The model of a [`Chart`].
pub struct ChartView {
    pub obj: JsView,
    pub id: Seq<char>,
    pub mutate: bool,
    pub plugins: Seq<char>,
    pub defaults: Seq<char>,
}

/// A chart that is ready to be drawn: its configuration on the wire, the
/// element that it is drawn into, and what the rendering engine is told
/// besides.
#[must_use]
pub struct Chart {
    pub(crate) obj: JsValue,
    pub(crate) id: String,
    pub(crate) mutate: bool,
    pub(crate) plugins: String,
    pub(crate) defaults: String,
}

/// What the rendering engine is handed to draw a chart.
#[derive(Debug, Clone, PartialEq, Eq)]
pub struct RenderCall {
    pub obj: JsValue,
    pub id: String,
    pub mutate: bool,
    pub plugins: String,
    pub defaults: String,
}

/// What the rendering engine is handed to update a chart.
#[derive(Debug, Clone, PartialEq, Eq)]
pub struct UpdateCall {
    pub updated: JsValue,
    pub id: String,
    pub animate: bool,
}

impl View for Chart {
    type V = ChartView;

    closed spec fn view(&self) -> ChartView {
        ChartView {
            obj: self.obj@,
            id: self.id@,
            mutate: self.mutate,
            plugins: self.plugins@,
            defaults: self.defaults@,
        }
    }
}

impl Clone for Chart {
    fn clone(&self) -> (r: Self)
        ensures
            r@ == self@,
    {
        Chart {
            obj: self.obj.clone(),
            id: self.id.clone(),
            mutate: self.mutate,
            plugins: self.plugins.clone(),
            defaults: self.defaults.clone(),
        }
    }
}

impl Chart {
    /// The chart of a configuration for the element `id`, with nothing more
    /// to tell the rendering engine.
    pub fn new(obj: JsValue, id: String) -> (r: Self)
        ensures
            r@ == (ChartView {
                obj: obj@,
                id: id@,
                mutate: false,
                plugins: Seq::empty(),
                defaults: Seq::empty(),
            }),
    {
        Chart { obj, id, mutate: false, plugins: String::new(), defaults: String::new() }
    }

    /// Lets the rendering engine change the configuration that it is
    /// handed.
    #[must_use]
    pub fn mutate(&mut self) -> (r: Self)
        ensures
            final(self)@ == (ChartView { mutate: true, ..old(self)@ }),
            r@ == final(self)@,
    {
        self.mutate = true;
        self.clone()
    }

    /// Sets the code of the plugins that the rendering engine registers.
    #[must_use]
    pub fn plugins(&mut self, plugins: &str) -> (r: Self)
        ensures
            final(self)@ == (ChartView { plugins: plugins@, ..old(self)@ }),
            r@ == final(self)@,
    {
        self.plugins = owned(plugins);
        self.clone()
    }

    /// Adds `defaults` to the code that sets the rendering engine's
    /// defaults, on a line of its own.
    #[must_use]
    pub fn defaults(&mut self, defaults: &str) -> (r: Self)
        ensures
            final(self)@ == (ChartView {
                defaults: old(self)@.defaults + "\n"@ + defaults@,
                ..old(self)@
            }),
            r@ == final(self)@,
    {
        self.defaults.append("\n");
        self.defaults.append(defaults);
        self.clone()
    }

    /// Puts live functions in place of the callback descriptors of the
    /// configuration, at every place where one may stand.
    pub fn rationalise_js(&mut self)
        ensures
            final(self)@ == (ChartView { obj: rehydrated_chart(old(self)@.obj), ..old(self)@ }),
    {
        let mut obj = JsValue::Undefined;
        std::mem::swap(&mut self.obj, &mut obj);
        self.obj = rationalise(obj);
    }

    /// What to hand the rendering engine to draw the chart: the
    /// configuration with its callbacks rehydrated, and the rest as it
    /// was set.
    pub fn render(self) -> (r: RenderCall)
        ensures
            r.obj@ == rehydrated_chart(self@.obj),
            r.id@ == self@.id,
            r.mutate == self@.mutate,
            r.plugins@ == self@.plugins,
            r.defaults@ == self@.defaults,
    {
        let mut chart = self;
        chart.rationalise_js();
        RenderCall {
            obj: chart.obj,
            id: chart.id,
            mutate: chart.mutate,
            plugins: chart.plugins,
            defaults: chart.defaults,
        }
    }

    /// What to hand the rendering engine to update the chart.
    pub fn update(self, animate: bool) -> (r: UpdateCall)
        ensures
            r.updated@ == rehydrated_chart(self@.obj),
            r.id@ == self@.id,
            r.animate == animate,
    {
        let mut chart = self;
        chart.rationalise_js();
        UpdateCall { updated: chart.obj, id: chart.id, animate }
    }
}

/// A chart that is ready to be drawn by a worker.
#[must_use]
pub struct WorkerChart {
    pub(crate) chart: Chart,
}

impl View for WorkerChart {
    type V = ChartView;

    closed spec fn view(&self) -> ChartView {
        self.chart@
    }
}

impl Clone for WorkerChart {
    fn clone(&self) -> (r: Self)
        ensures
            r@ == self@,
    {
        WorkerChart { chart: self.chart.clone() }
    }
}

impl WorkerChart {
    /// The chart of a configuration for the element `id`, with nothing more
    /// to tell the rendering engine.
    pub fn new(obj: JsValue, id: String) -> (r: Self)
        ensures
            r@ == (ChartView {
                obj: obj@,
                id: id@,
                mutate: false,
                plugins: Seq::empty(),
                defaults: Seq::empty(),
            }),
    {
        WorkerChart { chart: Chart::new(obj, id) }
    }

    /// Lets the rendering engine change the configuration that it is
    /// handed.
    #[must_use]
    pub fn mutate(&mut self) -> (r: Self)
        ensures
            final(self)@ == (ChartView { mutate: true, ..old(self)@ }),
            r@ == final(self)@,
    {
        self.chart.mutate = true;
        self.clone()
    }

    /// Sets the code of the plugins that the rendering engine registers.
    #[must_use]
    pub fn plugins(&mut self, plugins: &str) -> (r: Self)
        ensures
            final(self)@ == (ChartView { plugins: plugins@, ..old(self)@ }),
            r@ == final(self)@,
    {
        self.chart.plugins = owned(plugins);
        self.clone()
    }

    /// Adds `defaults` to the code that sets the rendering engine's
    /// defaults, on a line of its own.
    #[must_use]
    pub fn defaults(&mut self, defaults: &str) -> (r: Self)
        ensures
            final(self)@ == (ChartView {
                defaults: old(self)@.defaults + "\n"@ + defaults@,
                ..old(self)@
            }),
            r@ == final(self)@,
    {
        self.chart.defaults.append("\n");
        self.chart.defaults.append(defaults);
        self.clone()
    }

    /// What a worker is handed to draw the chart, besides the canvas
    /// and its size. The configuration goes as it is: the worker
    /// rehydrates it on its side.
    pub fn render(self) -> (r: RenderCall)
        ensures
            r.obj@ == self@.obj,
            r.id@ == self@.id,
            r.mutate == self@.mutate,
            r.plugins@ == self@.plugins,
            r.defaults@ == self@.defaults,
    {
        RenderCall {
            obj: self.chart.obj,
            id: self.chart.id,
            mutate: self.chart.mutate,
            plugins: self.chart.plugins,
            defaults: self.chart.defaults,
        }
    }

    /// What a worker is handed to update the chart.
    pub fn update(self, animate: bool) -> (r: UpdateCall)
        ensures
            r.updated@ == self@.obj,
            r.id@ == self@.id,
            r.animate == animate,
    {
        UpdateCall { updated: self.chart.obj, id: self.chart.id, animate }
    }
}

/// The configuration of a chart of one kind: it names the element that the
/// chart is drawn into, holds the data and the options, and becomes a
/// [`Chart`] that is ready to be drawn.
pub trait ChartExt: Serialize + Deserialize + Default + Sized {
    /// The data that a chart of this kind holds.
    type DS;

    /// The element that the chart is drawn into.
    spec fn id_of(&self) -> Seq<char>;

    /// The data of the chart.
    spec fn data_of(&self) -> Self::DS;

    /// The options of the chart.
    spec fn options_of(&self) -> ChartOptions<NoAnnotations>;

    /// The chart for another element, with all else as it is.
    spec fn with_id(self, id: String) -> Self;

    /// The chart with other data, with all else as it is.
    spec fn with_data(self, data: Self::DS) -> Self;

    /// The chart with other options, with all else as it is.
    spec fn with_options(self, options: ChartOptions<NoAnnotations>) -> Self;

    /// The chart for the element `id`: the default of its kind, drawn into
    /// that element.
    fn new(id: &str) -> (r: Self)
        ensures
            exists|d: Self, s: String|
                call_ensures(Self::default, (), d) && s@ == id@ && r == #[trigger] d.with_id(s),
    {
        Self::default().id(owned(id))
    }

    /// The element that the chart is drawn into.
    fn get_id(&self) -> (r: &str)
        ensures
            r@ == self.id_of(),
    ;

    /// Sets the element that the chart is drawn into.
    fn id(self, id: String) -> (r: Self)
        ensures
            r == self.with_id(id),
    ;

    /// The data, to read or to change in place.
    fn get_data(&mut self) -> (r: &mut Self::DS)
        ensures
            *r == old(self).data_of(),
            *final(self) == old(self).with_data(*final(r)),
    ;

    /// Sets the data.
    fn data<V: Into<Self::DS>>(self, data: V) -> (r: Self)
        ensures
            exists|d: Self::DS|
                call_ensures(<V as Into<Self::DS>>::into, (data,), d) && r == #[trigger] self.with_data(d),
    {
        let mut s = self;
        *s.get_data() = data.into();
        s
    }

    /// The options, to read or to change in place.
    fn get_options(&mut self) -> (r: &mut ChartOptions<NoAnnotations>)
        ensures
            *r == old(self).options_of(),
            *final(self) == old(self).with_options(*final(r)),
    ;

    /// Sets the options.
    fn options<V: Into<ChartOptions<NoAnnotations>>>(self, options: V) -> (r: Self)
        ensures
            exists|o: ChartOptions<NoAnnotations>|
                call_ensures(<V as Into<ChartOptions<NoAnnotations>>>::into, (options,), o)
                    && r == #[trigger] self.with_options(o),
    {
        let mut s = self;
        *s.get_options() = options.into();
        s
    }

    /// The chart that is ready to be drawn: the wire form of this
    /// configuration, for the element that it names.
    fn into_chart(self) -> (r: Chart)
        ensures
            r@ == (ChartView {
                obj: self.wire(),
                id: self.id_of(),
                mutate: false,
                plugins: Seq::empty(),
                defaults: Seq::empty(),
            }),
    {
        let obj = self.serialize();
        let id = owned(self.get_id());
        Chart::new(obj, id)
    }
}

/// The configuration of a chart that a worker can draw.
pub trait WorkerChartExt: ChartExt {
    /// The chart that is ready to be drawn by a worker: the wire form of
    /// this configuration, for the element that it names.
    fn into_worker_chart(self) -> (r: WorkerChart)
        ensures
            r@ == (ChartView {
                obj: self.wire(),
                id: self.id_of(),
                mutate: false,
                plugins: Seq::empty(),
                defaults: Seq::empty(),
            }),
    {
        let obj = self.serialize();
        let id = owned(self.get_id());
        WorkerChart::new(obj, id)
    }
}

} // verus!
