//! Media detail aggregation: summaries, version lists, playback progress and
//! the nested season and episode views of a media catalog.
pub mod actions;
pub mod detail;
pub mod duration;
pub mod model;
pub mod progress;
pub mod text;
pub mod versions;
