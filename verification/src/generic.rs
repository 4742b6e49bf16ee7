use vstd::prelude::*;

use crate::scalar::Real;

verus! {

/// Marker for every element type the vector layer works over, integer or
/// floating-point.
pub trait DspGeneric {

}

impl DspGeneric for Real {

}

impl DspGeneric for u8 {

}

impl DspGeneric for u16 {

}

impl DspGeneric for u32 {

}

impl DspGeneric for u64 {

}

impl DspGeneric for usize {

}

impl DspGeneric for i8 {

}

impl DspGeneric for i16 {

}

impl DspGeneric for i32 {

}

impl DspGeneric for i64 {

}

impl DspGeneric for isize {

}

} // verus!
