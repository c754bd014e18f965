use whisper_rs::status::{
    create_state_status, evaluation_status, full_status, init_status, lang_detect_status,
    pointer_status, set_mel_status, spectrogram_status, tokenize_status,
};
use whisper_rs::WhisperError;

#[test]
fn full_status_codes() {
    assert_eq!(full_status(0), Ok(0));
    assert_eq!(full_status(-1), Err(WhisperError::UnableToCalculateSpectrogram));
    assert_eq!(full_status(7), Err(WhisperError::FailedToEncode));
    assert_eq!(full_status(8), Err(WhisperError::FailedToDecode));
    assert_eq!(full_status(3), Err(WhisperError::GenericError(3)));
    assert_eq!(full_status(-6), Err(WhisperError::GenericError(-6)));
}

#[test]
fn stage_status_codes() {
    assert_eq!(spectrogram_status(0), Ok(()));
    assert_eq!(spectrogram_status(-1), Err(WhisperError::UnableToCalculateSpectrogram));
    assert_eq!(spectrogram_status(2), Err(WhisperError::GenericError(2)));
    assert_eq!(set_mel_status(-1), Err(WhisperError::InvalidMelBands));
    assert_eq!(set_mel_status(0), Ok(()));
    assert_eq!(evaluation_status(-1), Err(WhisperError::UnableToCalculateEvaluation));
    assert_eq!(evaluation_status(5), Err(WhisperError::GenericError(5)));
    assert_eq!(evaluation_status(0), Ok(()));
}

#[test]
fn lang_detect_and_tokenize_status_codes() {
    assert_eq!(lang_detect_status(2), Ok(2));
    assert_eq!(lang_detect_status(-7), Err(WhisperError::GenericError(-7)));
    assert_eq!(tokenize_status(-1, 16), Err(WhisperError::InvalidText));
    assert_eq!(tokenize_status(5, 16), Ok(5));
    assert_eq!(tokenize_status(16, 16), Ok(16));
    assert_eq!(tokenize_status(17, 16), Err(WhisperError::GenericError(17)));
    assert_eq!(tokenize_status(-20, 16), Err(WhisperError::GenericError(-20)));
}

#[test]
fn null_handles() {
    assert_eq!(init_status(true), Err(WhisperError::InitError));
    assert_eq!(init_status(false), Ok(()));
    assert_eq!(create_state_status(true), Err(WhisperError::FailedToCreateState));
    assert_eq!(pointer_status(true), Err(WhisperError::NullPointer));
    assert_eq!(pointer_status(false), Ok(()));
}

#[test]
fn error_messages() {
    assert_eq!(WhisperError::NoSamples.message(), "Input sample buffer was empty.");
    assert_eq!(
        WhisperError::GenericError(-12).message(),
        "Generic whisper error. Varies depending on the function. Error code: -12"
    );
    assert_eq!(
        WhisperError::GenericError(0).message(),
        "Generic whisper error. Varies depending on the function. Error code: 0"
    );
    assert_eq!(
        WhisperError::InvalidUtf8 { error_len: Some(2), valid_up_to: 31 }.message(),
        "Invalid UTF-8 detected in a string from Whisper. Index: 31, Length: 2."
    );
    assert_eq!(
        WhisperError::InvalidUtf8 { error_len: None, valid_up_to: 4 }.message(),
        "Invalid UTF-8 detected in a string from Whisper. Index: 4."
    );
    assert_eq!(
        WhisperError::HalfSampleMissing(usize::MAX).message(),
        format!(
            "Input slice was not an even number of samples, got {}, expected {}",
            usize::MAX,
            usize::MAX as u128 + 1
        )
    );
    assert_eq!(
        WhisperError::InputOutputLengthMismatch { input_len: 3, output_len: 10 }.message(),
        "Input and output slices were not the same length. Input: 3, Output: 10"
    );
    assert_eq!(
        WhisperError::NullByteInString { idx: 5 }.message(),
        "A null byte was detected in a user-provided string. Index: 5"
    );
}
