//! `tsp` — a timestamp interpretation library.
//!
//! The library turns textual timestamp tokens (an optional unit prefix
//! followed by a signed decimal integer) into absolute points in time,
//! and renders those points as human-readable text with a strftime-style
//! pattern, optionally localised to an IANA timezone.
//!
//! The pipeline is: token splitting ([`parse`]), unit resolution
//! ([`unit`]), numeric interpretation ([`number`], [`value`]), rendering
//! ([`render`], [`process`]) and outcome aggregation ([`outcome`],
//! [`process`]). Command-line extraction helpers live in [`args`] and
//! [`usage`], and output-mode selection in [`dump`].

pub mod args;
pub mod dump;
pub mod number;
pub mod outcome;
pub mod parse;
pub mod process;
pub mod render;
pub mod text;
pub mod unit;
pub mod usage;
pub mod value;
