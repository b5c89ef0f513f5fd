//! The seal for [`crate::traits::EncDecExt`].

use vstd::prelude::*;

verus! {

/// Seals [`crate::traits::EncDecExt`]: because this trait lives in a private
/// module, code outside this crate cannot name it and therefore cannot add
/// its own implementations of the extension trait. The blanket coverage
/// below keeps the capability total: every type qualifies.
pub trait Sealed {

}

impl<T> Sealed for T {

}

} // verus!
