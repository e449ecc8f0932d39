//! A verified marshaling layer between nullable columnar data and a native
//! technical-indicator library that only understands dense, positionally
//! addressed arrays.
//!
//! One indicator call flows strictly downward: each input column becomes a
//! dense sentinel-filled buffer ([`columnar`], [`buffer`]); the shared begin
//! index of the synchronized inputs is resolved ([`begin`]); the call
//! geometry — index translation, warm-up region, whether the native call
//! happens at all — is fixed ([`plan`], [`pipeline`]); the native call runs
//! outside this crate; and its report is validated and reconciled into
//! full-length, sentinel-padded output columns ([`plan::finish_call`],
//! [`pipeline::finish_f64_columns`]). Output columns always keep the input
//! row count; rows the native call never produced stay sentinel.

pub mod begin;
pub mod buffer;
pub mod columnar;
pub mod errors;
pub mod params;
pub mod pipeline;
pub mod plan;
