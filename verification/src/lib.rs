//! Random password generation with configurable length and character
//! complexity.
//!
//! A password is made of one character from each class its tier makes
//! mandatory, filler drawn from the tier's working alphabet, and a shuffle
//! of the whole. [`generator::generate_password`] states what holds of every
//! password it hands out; [`args::Args::try_parse_from`] reads the command
//! line by a grammar that is stated in full.

pub mod args;
pub mod charset;
pub mod complexity;
pub mod error;
pub mod generator;
pub mod random;
pub mod text;
pub mod update;

pub use crate::args::Args;
pub use crate::complexity::ComplexityEnum;
pub use crate::error::PasswordError;
pub use crate::generator::generate_password;
