//! A semantic editor's core: decoding of terminal key presses, the
//! drawing model of its user interface, widget layout helpers, terminal
//! raw-mode configuration, build information and update bookkeeping.

pub mod build_info;
pub mod key;
pub mod term;
pub mod text;
pub mod ui;
pub mod update;
pub mod widget;
