pub mod annotations;
pub mod datasets;
pub mod elements;
pub mod labels;
pub mod legend;
pub mod options;
pub mod scales;
pub mod style;
pub mod tooltip;
