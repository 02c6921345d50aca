//! Generation of fallible integer-to-enum conversions for C-like enums.
//!
//! A C-like enum is an enumerated type whose variants carry no payload and
//! whose discriminants are explicit integer literals of one common type.
//! Given a model of such a declaration, the library validates its structure,
//! resolves the source integer type of the conversion, and assembles the
//! conversion routine as data: one match arm per variant and a catch-all
//! that reports the unmatched value through [`TryFromIntError`].
//!
//! Parsing source text into the declaration model and rendering the
//! assembled routine back into source text are left to the host
//! code-generation toolchain.

pub mod ascii;
pub mod decl;
pub mod error;
pub mod generate;
pub mod generated;
pub mod repr;
pub mod try_from_int_error;
pub mod variant;

pub use try_from_int_error::TryFromIntError;
