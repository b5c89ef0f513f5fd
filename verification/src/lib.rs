//! CO₂: human ciphers.
//!
//! CO₂ is an extensible library for "human ciphers": classical, not
//! cryptographically secure text transformations such as the Caesar or
//! Vigenère cipher. This crate is the generic core that every cipher
//! builds on: the [`traits::Encoder`] and [`traits::Decoder`] contracts, the
//! fluent [`traits::EncDecExt`] call surface available on every value, and
//! the unified [`error::CO2Error`] failure type.

pub mod error;
pub mod prelude;
mod sealed;
pub mod traits;
pub mod util;
