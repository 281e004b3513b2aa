//! Computation of the Italian fiscal code, the sixteen-character identifier derived from a
//! person's name, surname, sex, birth date and birth place, and of its homocodic variants.

use vstd::prelude::*;

pub mod checksum;
pub mod date;
pub mod db_utils;
pub mod generator;
pub mod homocodic;
pub mod location;
pub mod models;
pub mod names;
pub mod tables;
pub mod text;
pub mod utils;

pub use crate::generator::{generate_code, generate_code_from_parts, generate_codes};
pub use crate::homocodic::generate_homocodic_from_code;

verus! {

/// Represent a person sex
#[derive(Copy, Clone, Debug, PartialEq, Eq, PartialOrd, Ord, Structural)]
pub enum Sex {
    /// Male
    M,
    /// Female
    F,
}

/// Why no code was computed.
#[derive(Copy, Clone, Debug, PartialEq, Eq, Structural)]
pub enum CodeError {
    /// A name, a surname, a birth date or a location code from which no code can be made.
    InvalidInput,
    /// No nation or no city was given to take the location code from.
    LookupNotFound,
    /// A text that was to be a fiscal code and has not the form of one.
    MalformedCode,
}

/// A result with the characters of its code in place of the string.
pub open spec fn code_view(r: Result<String, CodeError>) -> Result<Seq<char>, CodeError> {
    match r {
        Ok(code) => Ok(code@),
        Err(e) => Err(e),
    }
}

} // verus!
