#![allow(non_snake_case)]

pub mod bar;
pub mod callback;
pub mod chart;
pub mod coordinate;
pub mod dataset;
pub mod decode;
pub mod doughnut;
pub mod entries;
pub mod functions;
pub mod json;
pub mod line;
pub mod literal;
pub mod named;
pub mod numeral;
pub mod objects;
pub mod order;
pub mod pie;
pub mod points;
pub mod registry;
pub mod rehydrate;
pub mod scalar;
pub mod scatter;
pub mod text;
pub mod value;
pub mod wire;
pub mod worker;

pub use crate::callback::{FnWithArgs, FnWithArgsOrAny, FnWithArgsOrT, Function};
pub use crate::chart::{Chart, ChartExt, RenderCall, UpdateCall, WorkerChart, WorkerChartExt};
pub use crate::dataset::{
    Annotation, Dataset, DatasetData, DatasetTrait, NoAnnotations, NoDatasets, NumberStringOrT,
};
pub use crate::functions::{single_arg_callback, tick_callback};
pub use crate::json::uncircle_chartjs_value_to_serde_json_value;
pub use crate::named::Named;
pub use crate::objects::annotations::{
    Annotations, AutoColors, BoxAnnotation, BoxAnnotationType, LineAnnotation, LineAnnotationType,
};
pub use crate::objects::datasets::{SinglePointDataset, XYDataset, XYPoint};
pub use crate::objects::elements::{
    BarElementConfiguration, ChartElements, LineElementConfiguration, PointElementConfiguration,
};
pub use crate::objects::labels::{DataLabels, Segment};
pub use crate::objects::legend::{ChartLegend, LegendLabel, PluginLegend};
pub use crate::objects::options::{ChartInteraction, ChartLayout, ChartOptions, ChartPlugins};
pub use crate::objects::scales::{
    ChartScale, DisplayFormats, Grid, ScaleBorder, ScaleTicks, ScaleTime,
};
pub use crate::objects::style::{Animation, Border, Font, Padding, Title};
pub use crate::objects::tooltip::{TooltipCallbacks, TooltipPlugin};
pub use crate::points::{into_data_iter, into_data_iter_with_description, DatasetDataExt};
pub use crate::registry::{CallbackRegistry, MissingCallback};
pub use crate::scalar::{Any, BoolString, NumberOrDateString, NumberString};
pub use crate::value::JsValue;
pub use crate::wire::{ChartJsRsObject, DecodeError, Deserialize, Serialize};
