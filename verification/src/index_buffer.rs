use vstd::prelude::*;

verus! {

/// The integer types that index buffers can hold.
pub trait IndexType: Copy {}

impl IndexType for u8 {}

impl IndexType for u16 {}

impl IndexType for u32 {}

} // verus!
