//! Verified core of a small model-serving HTTP front end: request routing,
//! header handling, the probe-report reading and target-dimension arithmetic
//! behind its video-resize endpoint, and the exact texts it sends back.

pub mod command;
pub mod headers;
pub mod ids;
pub mod jsonbody;
pub mod probe;
pub mod resize;
pub mod router;

use vstd::prelude::*;

verus! {

} // verus!
