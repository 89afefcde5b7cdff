//! The decisions behind the widget-catalog screens of the ROSACE showcase
//! app, written as plain values in and plain values out: the unsaved-changes
//! guard, the pull-to-refresh cycle, platform-call status lines, the demo
//! swatches and hero tags, the generated grids, and the small selection and
//! counter updates that the pages' callbacks perform.

pub mod channel;
pub mod grid;
pub mod guard;
pub mod hero;
pub mod palette;
pub mod refresh;
pub mod selection;
pub mod text;
