//! Artistic audio "oxidation" for interleaved stereo sample streams.
//!
//! The engine owns a working buffer that a caller hands over, runs a
//! sequence of in-place pipeline stages over it, and hands it back.
//! This crate holds the verified core: the buffer lifecycle, the closed
//! set of oxidation levels with its case-insensitive parsing, the
//! algorithm selector, and the error taxonomy. The floating-point
//! filter, noise and normalization arithmetic lives in the application
//! layer built on top of these types.

mod algorithms;
mod casefold;
mod engine;
mod error;
mod levels;

pub use algorithms::OxidationAlgorithm;
pub use casefold::eq_ignore_case;
pub use casefold::lower;
pub use casefold::lower_char;
pub use engine::Oxidizer;
pub use error::OxidizerError;
pub use levels::OxidationLevel;
