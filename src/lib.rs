//! Retrieval and charting of inverter power readings.
//!
//! The library holds the decisions of the component: which credentials are
//! used, which pages are requested and in which order their readings are kept,
//! and how the readings become the series of a chart document. Transport,
//! environment access and JSON encoding are left to the caller.
use vstd::prelude::*;

pub mod chart;
pub mod config;
pub mod dates;
pub mod error;
pub mod fetch;

verus! {

/// The text of an optional string.
pub open spec fn opt_view(o: Option<String>) -> Option<Seq<char>> {
    match o {
        Some(s) => Some(s@),
        None => None,
    }
}

} // verus!
