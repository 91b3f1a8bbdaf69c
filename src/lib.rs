//! Validation, classification, formatting and random generation of Saudi
//! Arabian national identifiers: ten decimal digits whose leading digit names
//! the holder's category and whose last digit is a Luhn check digit.
pub mod decimal;
pub mod id;
pub mod laws;
pub mod luhn;

pub use id::{Id, IdType, ParseError};
