//! Filters on the shape of the generated map.

pub mod bottleneck;
