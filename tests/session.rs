use whisper_rs::session::{check_samples, check_threads, finish_tokenize, mel_frame_count};
use whisper_rs::{DecodePhase, DecodeTracker, WhisperError};

#[test]
fn empty_buffer_never_reaches_the_engine() {
    let tracker = DecodeTracker::new();
    assert_eq!(tracker.begin_full(0), Err(WhisperError::NoSamples));
    assert_eq!(check_samples(0), Err(WhisperError::NoSamples));
    assert_eq!(tracker.begin_full(16000), Ok(16000));
}

#[test]
fn thread_count_below_one_is_refused() {
    assert_eq!(check_threads(0), Err(WhisperError::InvalidThreadCount));
    assert_eq!(check_threads(4), Ok(4));
    let tracker = DecodeTracker::new();
    assert_eq!(tracker.begin_pcm_to_mel(0), Err(WhisperError::InvalidThreadCount));
    assert_eq!(tracker.begin_encode(0), Err(WhisperError::InvalidThreadCount));
}

#[test]
fn stages_must_run_in_order() {
    let mut tracker = DecodeTracker::new();
    assert_eq!(tracker.begin_encode(1), Err(WhisperError::SpectrogramNotInitialized));
    assert_eq!(tracker.begin_lang_detect(1), Err(WhisperError::SpectrogramNotInitialized));
    assert_eq!(tracker.begin_decode(1), Err(WhisperError::EncodeNotComplete));
    assert_eq!(tracker.check_results(), Err(WhisperError::DecodeNotComplete));
    assert_eq!(tracker.finish_pcm_to_mel(0), Ok(()));
    assert_eq!(tracker.phase, DecodePhase::SpectrogramReady);
    assert_eq!(tracker.begin_encode(2), Ok(2));
    assert_eq!(tracker.finish_encode(0), Ok(()));
    assert_eq!(tracker.begin_decode(1), Ok(1));
    assert_eq!(tracker.finish_decode(0), Ok(()));
    assert_eq!(tracker.check_results(), Ok(()));
}

#[test]
fn failed_stages_fall_back() {
    let mut tracker = DecodeTracker::new();
    assert_eq!(tracker.finish_set_mel(-1), Err(WhisperError::InvalidMelBands));
    assert_eq!(tracker.phase, DecodePhase::Empty);
    assert_eq!(tracker.finish_set_mel(0), Ok(()));
    assert_eq!(tracker.finish_encode(-1), Err(WhisperError::UnableToCalculateEvaluation));
    assert_eq!(tracker.phase, DecodePhase::SpectrogramReady);
    assert_eq!(tracker.finish_lang_detect(3), Ok(3));
}

#[test]
fn full_moves_to_decoded_or_back_to_empty() {
    let mut tracker = DecodeTracker::new();
    assert_eq!(tracker.finish_full(0), Ok(0));
    assert_eq!(tracker.phase, DecodePhase::Decoded);
    assert_eq!(tracker.finish_full(8), Err(WhisperError::FailedToDecode));
    assert_eq!(tracker.phase, DecodePhase::Empty);
}

#[test]
fn tokenize_keeps_the_written_prefix() {
    let buffer = [50, 51, 52, 0, 0];
    assert_eq!(finish_tokenize(&buffer, 3), Ok(vec![50, 51, 52]));
    assert_eq!(finish_tokenize(&buffer, -1), Err(WhisperError::InvalidText));
    assert_eq!(finish_tokenize(&buffer, 6), Err(WhisperError::GenericError(6)));
}

#[test]
fn mel_frames_from_data_length() {
    assert_eq!(mel_frame_count(0), 0);
    assert_eq!(mel_frame_count(159), 0);
    assert_eq!(mel_frame_count(320), 4);
}
