//! The payload combined from the two outside data sources.

use vstd::prelude::*;

verus! {

/// The texts fetched from the two sources, in the order they are asked for.
#[derive(Debug, Clone, PartialEq, Eq)]
pub struct AggregatedData {
    pub data1: String,
    pub data2: String,
}

} // verus!
