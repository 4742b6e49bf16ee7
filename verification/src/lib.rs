pub mod arithmetic;
pub mod bits;
pub mod complex;
pub mod fft;
pub mod firwin;
pub mod float;
pub mod generic;
pub mod integer;
pub mod scalar;
pub mod sqrt;
pub mod statistics;
pub mod vec_utils;
pub mod windows;
