//! The prelude for CO₂. This module re-exports helpful traits and error
//! types.

pub use crate::error::CO2Error;
pub use crate::error::CO2Result;
pub use crate::traits::Decoder;
pub use crate::traits::EncDecExt;
pub use crate::traits::Encoder;
