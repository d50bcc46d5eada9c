//! Total linear stopping power of positrons in neutral hydrogen.
//!
//! The pipeline combines a tabulated radiative stopping power (given in
//! mass units) with an analytic collisional approximation, fits a cubic
//! Hermite interpolant with quadratic end conditions over log-energy, and
//! samples it on a dense logarithmic grid. Every double-precision value is
//! carried as its `u64` bit pattern; the arithmetic itself is performed by
//! outside libraries and described by the named operations of [`fp`].

use vstd::prelude::*;

pub mod fp;
pub mod physics;
pub mod output;
pub mod pipeline;
pub mod spline;
pub mod table;

verus! {

/// The error taxonomy of the pipeline. Every error is fatal to a run.
#[derive(Debug, Clone, Copy, PartialEq, Eq, Structural)]
pub enum Error {
    /// The text source is absent and no cache exists.
    InputMissing,
    /// A row of the text source cannot be coerced to the schema.
    ParseError { row: usize },
    /// A cache file exists but cannot be deserialized.
    CacheCorrupt,
    /// A read or write failed.
    IOError,
    /// Non-monotone abscissae or insufficient knots at the fit.
    DomainError { index: usize },
}

} // verus!
