//! Quarter-car suspension analysis: the verified decision logic.
//!
//! Physical quantities travel through this crate as IEEE-754 binary64 bit
//! patterns (`u64`, as produced by `f64::to_bits`).  The crate compares them
//! with an exact model of IEEE-754 ordering (`ieee`), and on top of that it
//! validates requests, picks defaults and tables, and extracts the Pareto
//! front of a parameter sweep.  Floating-point arithmetic (integration,
//! spectra, square roots) is done by the caller.

pub mod ieee;
pub mod pareto;
pub mod error;
pub mod road;
pub mod params;
pub mod bike;
pub mod request;
pub mod vehicle;
pub mod moto;
pub mod sweep;
pub mod simulation;

use vstd::prelude::*;

verus! {

/// Marker for the cross-origin policy the HTTP layer attaches to every
/// response: any origin, `GET`, `POST` and `OPTIONS`, `Content-Type` header.
pub struct Cors;

impl Cors {
    /// The headers added to every response, as (name, value) pairs.
    pub fn headers(&self) -> (r: [(&'static str, &'static str); 3])
        ensures
            r[0].0@ == "Access-Control-Allow-Origin"@,
            r[0].1@ == "*"@,
            r[1].0@ == "Access-Control-Allow-Methods"@,
            r[1].1@ == "GET, POST, OPTIONS"@,
            r[2].0@ == "Access-Control-Allow-Headers"@,
            r[2].1@ == "Content-Type"@,
    {
        [
            ("Access-Control-Allow-Origin", "*"),
            ("Access-Control-Allow-Methods", "GET, POST, OPTIONS"),
            ("Access-Control-Allow-Headers", "Content-Type"),
        ]
    }
}

} // verus!
