//! Extraction of the latest weather observation from a meteorological
//! service's WFS "simple observation" XML feed.
//!
//! The core is a single-pass, forward-only extractor over the feed's
//! structural events. It tracks the most recent valid sample per parameter
//! kind, converts a wind bearing in degrees to a compass-point name, and
//! localizes the UTC observation instant to Helsinki civil time. A complete
//! observation is returned only when every tracked field resolved.

pub mod compass;
pub mod feed_model;
pub mod fmi_api;
pub mod localtime;
pub mod stations;
pub mod strutil;
pub mod xml_events;
