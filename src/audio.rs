//! Length rules of the sample-format conversions done before transcription.
//!
//! The conversions themselves are element-wise float arithmetic done by the
//! caller; which inputs they accept, and how long their output is, is fixed here.
use vstd::prelude::*;

use crate::error::WhisperError;

verus! {

/// Length rule of integer-to-float conversion: input and output slices must
/// have the same length.
pub open spec fn conversion_lengths_outcome(input_len: usize, output_len: usize) -> Result<(), WhisperError> {
    if input_len == output_len {
        Ok(())
    } else {
        Err(WhisperError::InputOutputLengthMismatch { input_len, output_len })
    }
}

/// Length rule of stereo-to-mono conversion: an even number of interleaved
/// samples gives half as many mono samples; an odd number is an error, never
/// truncated.
pub open spec fn mono_len_outcome(stereo_len: usize) -> Result<usize, WhisperError> {
    if stereo_len % 2 == 1 {
        Err(WhisperError::HalfSampleMissing(stereo_len))
    } else {
        Ok((stereo_len / 2) as usize)
    }
}

/// Checks the slices of an integer-to-float conversion.
pub fn check_conversion_lengths(input_len: usize, output_len: usize) -> (r: Result<(), WhisperError>)
    ensures
        r == conversion_lengths_outcome(input_len, output_len),
{
    if input_len != output_len {
        Err(WhisperError::InputOutputLengthMismatch { input_len, output_len })
    } else {
        Ok(())
    }
}

/// The mono length of an interleaved stereo buffer.
pub fn mono_len(stereo_len: usize) -> (r: Result<usize, WhisperError>)
    ensures
        r == mono_len_outcome(stereo_len),
{
    if stereo_len % 2 == 1 {
        Err(WhisperError::HalfSampleMissing(stereo_len))
    } else {
        Ok(stereo_len / 2)
    }
}

} // verus!
