//! Death and boss counters driven by on-screen text recognition.
//!
//! The library holds the decisions: which recognised text announces a death,
//! which boss name is the most credible, how names fold into named counters,
//! and how the detection loop moves between its states.
pub mod app_state;
pub mod candidates;
pub mod chars;
pub mod cleaning;
pub mod detection;
pub mod hotkey;
pub mod i18n;
pub mod list;
pub mod matcher;
pub mod names;
pub mod prefilter;
pub mod quality;
pub mod screens;
pub mod settings;
mod ids;
pub mod recorder;

pub use recorder::{Recorder, RecorderKind, RecorderModel};
