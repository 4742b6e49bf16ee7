use vstd::prelude::*;

use crate::generic::DspGeneric;

verus! {

/// Marker for the integer element types the vector layer works over.
pub trait DspInt: DspGeneric {

}

impl DspInt for u8 {

}

impl DspInt for u16 {

}

impl DspInt for u32 {

}

impl DspInt for u64 {

}

impl DspInt for usize {

}

impl DspInt for i8 {

}

impl DspInt for i16 {

}

impl DspInt for i32 {

}

impl DspInt for i64 {

}

impl DspInt for isize {

}

/// Marker for buffers of an integer element type.
pub trait IntegerVectorMath<T> {

}

impl<T: DspInt> IntegerVectorMath<T> for Vec<T> {

}

} // verus!
