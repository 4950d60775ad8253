//! Synthesis and elementwise algebra of discretely sampled signals.
//!
//! A signal is a finite sequence of samples taken at [`signal::SAMPLE_RATE`]
//! samples per second.
//!
//! The operators of [`dsp`] are written once for every sample type that has
//! the arithmetic they need. Arithmetic on such a type need not be a function
//! of its operands alone, so a contract says of each output sample that it is
//! an outcome of one operation on given input samples, and never computes a
//! value on its own.
//!
//! [`generate`] holds what the generators decide before any sample is
//! computed, taken from the binary encoding of their parameters, and the loop
//! that fills a signal from a function of the sample index.
pub mod dsp;
pub mod generate;
pub mod signal;
