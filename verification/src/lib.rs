//! Form logic and curve bookkeeping for a pointer-acceleration curve
//! converter.
//!
//! The library holds what can be decided without arithmetic on real numbers:
//! the typed parameter bundle and what makes it valid, which form rows belong
//! to which curve family, what a request to the sampler is made of, the
//! lookup-table text format, and the text encodings of an export. Real
//! numbers pass through as bit patterns; evaluating a curve is left to the
//! caller's engine.

pub mod args;
pub mod choices;
pub mod curve;
pub mod export;
pub mod form;
pub mod gui;
pub mod lookup;
pub mod number;
pub mod plot;
pub mod roundtrip;
pub mod sample;
pub mod scalar;
pub mod settings;
pub mod types;
