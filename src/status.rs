//! Classification of the raw status codes returned by each engine call.
//!
//! Every call site has its own documented meaning for some codes; any other
//! nonzero code degrades to `GenericError` carrying the raw value.
use vstd::prelude::*;

use crate::error::WhisperError;

verus! {

/// Outcome of a spectrogram computation (`pcm_to_mel` and its variants).
pub open spec fn spectrogram_outcome(ret: i32) -> Result<(), WhisperError> {
    if ret == 0 {
        Ok(())
    } else if ret == -1 {
        Err(WhisperError::UnableToCalculateSpectrogram)
    } else {
        Err(WhisperError::GenericError(ret))
    }
}

/// Outcome of installing a caller-supplied spectrogram.
pub open spec fn set_mel_outcome(ret: i32) -> Result<(), WhisperError> {
    if ret == 0 {
        Ok(())
    } else if ret == -1 {
        Err(WhisperError::InvalidMelBands)
    } else {
        Err(WhisperError::GenericError(ret))
    }
}

/// Outcome of one encoder or decoder evaluation.
pub open spec fn evaluation_outcome(ret: i32) -> Result<(), WhisperError> {
    if ret == 0 {
        Ok(())
    } else if ret == -1 {
        Err(WhisperError::UnableToCalculateEvaluation)
    } else {
        Err(WhisperError::GenericError(ret))
    }
}

/// Outcome of the composite transcription call.
pub open spec fn full_outcome(ret: i32) -> Result<i32, WhisperError> {
    if ret == 0 {
        Ok(0)
    } else if ret == -1 {
        Err(WhisperError::UnableToCalculateSpectrogram)
    } else if ret == 7 {
        Err(WhisperError::FailedToEncode)
    } else if ret == 8 {
        Err(WhisperError::FailedToDecode)
    } else {
        Err(WhisperError::GenericError(ret))
    }
}

/// Outcome of language detection: a nonnegative code is the language id.
pub open spec fn lang_detect_outcome(ret: i32) -> Result<i32, WhisperError> {
    if ret >= 0 {
        Ok(ret)
    } else {
        Err(WhisperError::GenericError(ret))
    }
}

/// Outcome of tokenization into a buffer of `max_tokens` slots: a count that
/// fits the buffer is the number of tokens written.
pub open spec fn tokenize_outcome(ret: i32, max_tokens: usize) -> Result<usize, WhisperError> {
    if ret == -1 {
        Err(WhisperError::InvalidText)
    } else if 0 <= ret && ret <= max_tokens {
        Ok(ret as usize)
    } else {
        Err(WhisperError::GenericError(ret))
    }
}

pub fn spectrogram_status(ret: i32) -> (r: Result<(), WhisperError>)
    ensures
        r == spectrogram_outcome(ret),
{
    if ret == 0 {
        Ok(())
    } else if ret == -1 {
        Err(WhisperError::UnableToCalculateSpectrogram)
    } else {
        Err(WhisperError::GenericError(ret))
    }
}

pub fn set_mel_status(ret: i32) -> (r: Result<(), WhisperError>)
    ensures
        r == set_mel_outcome(ret),
{
    if ret == 0 {
        Ok(())
    } else if ret == -1 {
        Err(WhisperError::InvalidMelBands)
    } else {
        Err(WhisperError::GenericError(ret))
    }
}

pub fn evaluation_status(ret: i32) -> (r: Result<(), WhisperError>)
    ensures
        r == evaluation_outcome(ret),
{
    if ret == 0 {
        Ok(())
    } else if ret == -1 {
        Err(WhisperError::UnableToCalculateEvaluation)
    } else {
        Err(WhisperError::GenericError(ret))
    }
}

pub fn full_status(ret: i32) -> (r: Result<i32, WhisperError>)
    ensures
        r == full_outcome(ret),
{
    if ret == 0 {
        Ok(ret)
    } else if ret == -1 {
        Err(WhisperError::UnableToCalculateSpectrogram)
    } else if ret == 7 {
        Err(WhisperError::FailedToEncode)
    } else if ret == 8 {
        Err(WhisperError::FailedToDecode)
    } else {
        Err(WhisperError::GenericError(ret))
    }
}

pub fn lang_detect_status(ret: i32) -> (r: Result<i32, WhisperError>)
    ensures
        r == lang_detect_outcome(ret),
{
    if ret >= 0 {
        Ok(ret)
    } else {
        Err(WhisperError::GenericError(ret))
    }
}

pub fn tokenize_status(ret: i32, max_tokens: usize) -> (r: Result<usize, WhisperError>)
    ensures
        r == tokenize_outcome(ret, max_tokens),
{
    if ret == -1 {
        Err(WhisperError::InvalidText)
    } else if 0 <= ret && (ret as usize) <= max_tokens {
        Ok(ret as usize)
    } else {
        Err(WhisperError::GenericError(ret))
    }
}

/// A null handle from model loading means the model could not be loaded.
pub fn init_status(is_null: bool) -> (r: Result<(), WhisperError>)
    ensures
        r == (if is_null { Err(WhisperError::InitError) } else { Ok(()) }),
{
    if is_null {
        Err(WhisperError::InitError)
    } else {
        Ok(())
    }
}

/// A null handle from state creation means the session could not be created.
pub fn create_state_status(is_null: bool) -> (r: Result<(), WhisperError>)
    ensures
        r == (if is_null { Err(WhisperError::FailedToCreateState) } else { Ok(()) }),
{
    if is_null {
        Err(WhisperError::FailedToCreateState)
    } else {
        Ok(())
    }
}

/// Any other null pointer from the engine is reported, never dereferenced.
pub fn pointer_status(is_null: bool) -> (r: Result<(), WhisperError>)
    ensures
        r == (if is_null { Err(WhisperError::NullPointer) } else { Ok(()) }),
{
    if is_null {
        Err(WhisperError::NullPointer)
    } else {
        Ok(())
    }
}

} // verus!
