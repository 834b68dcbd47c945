//! An interactive quiz of Rust language quirks: a catalog of named
//! demonstrations grouped into categories, driven by a fuzzy-searchable
//! two-level selection menu.
//!
//! This crate holds the verified core: the catalog model, the
//! case-insensitive subsequence filter behind the menu, the selection and
//! dispatch state machine, and the pure compute steps of the individual
//! demonstrations. The terminal front end lives outside the library and
//! consumes these through plain values.

pub mod actions;
pub mod catalog;
pub mod dispatch;
pub mod fuzzy;
