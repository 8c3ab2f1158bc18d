use vstd::prelude::*;

pub mod action;
pub mod batch;
pub mod bridge;
pub mod certs;
pub mod metrics;
pub mod process;
pub mod serializer;

verus! {

} // verus!
