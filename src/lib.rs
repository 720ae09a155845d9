//! Phase-locked oscilloscope traces for multi-channel audio.
//!
//! Samples are signed fixed-point integers and times are nanoseconds, so that
//! every step from the padded mono buffer to the per-frame window is exact.
use vstd::prelude::*;

pub mod buffer;
pub mod stabilizer;
pub mod channel;
pub mod wave;

verus! {

} // verus!
