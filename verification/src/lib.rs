//! Strongly-typed numeric wrappers for physical units used in embedded
//! peripheral configuration: bit rate, frequency (Hz, kHz, MHz) and time
//! duration (ms). Each unit gets its own type, so a raw integer cannot be
//! passed where a frequency of a particular magnitude is expected, and the
//! only conversions offered are the lossless coarse-to-fine ones.

pub mod time;
