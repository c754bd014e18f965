//! The decisions around each call on a decode state.
//!
//! A decode state moves through `Empty -> SpectrogramReady -> Encoded ->
//! Decoded`. Each operation is split in two: `begin_*` validates locally and
//! yields the arguments for the engine call, or the error that stops it before
//! the engine is reached; `finish_*` classifies the engine's status code and
//! moves the state on. The composite transcription runs every stage at once.
use vstd::prelude::*;

use crate::error::WhisperError;
use crate::status::{
    evaluation_outcome, evaluation_status, full_outcome, full_status, lang_detect_outcome,
    lang_detect_status, set_mel_outcome, set_mel_status, spectrogram_outcome, spectrogram_status,
    tokenize_outcome, tokenize_status,
};

verus! {

/// Largest count the engine's C `int` arguments can carry.
pub const MAX_C_INT: usize = 2147483647;

/// Audio samples per spectrogram hop.
pub const HOP_SIZE: usize = 160;

/// Mel bands of a caller-supplied spectrogram.
pub const N_MEL: i32 = 80;

/// Where a decode state stands.
#[derive(Debug, Clone, Copy, PartialEq, Eq, Structural)]
pub enum DecodePhase {
    Empty,
    SpectrogramReady,
    Encoded,
    Decoded,
}

/// Position of a phase in the pipeline.
pub open spec fn rank(p: DecodePhase) -> int {
    match p {
        DecodePhase::Empty => 0,
        DecodePhase::SpectrogramReady => 1,
        DecodePhase::Encoded => 2,
        DecodePhase::Decoded => 3,
    }
}

/// The engine's thread-count argument: at least one thread.
pub open spec fn thread_arg(threads: usize) -> Result<i32, WhisperError> {
    if threads < 1 {
        Err(WhisperError::InvalidThreadCount)
    } else {
        Ok(threads as i32)
    }
}

/// Validates a thread count before any engine call.
pub fn check_threads(threads: usize) -> (r: Result<i32, WhisperError>)
    requires
        threads <= MAX_C_INT,
    ensures
        r == thread_arg(threads),
{
    if threads < 1 {
        Err(WhisperError::InvalidThreadCount)
    } else {
        Ok(threads as i32)
    }
}

/// Validates the sample count of a transcription before the engine call: an
/// empty buffer never reaches the engine.
pub fn check_samples(n_samples: usize) -> (r: Result<i32, WhisperError>)
    requires
        n_samples <= MAX_C_INT,
    ensures
        n_samples == 0 <==> r == Err::<i32, WhisperError>(WhisperError::NoSamples),
        n_samples > 0 <==> r == Ok::<i32, WhisperError>(n_samples as i32),
{
    if n_samples == 0 {
        Err(WhisperError::NoSamples)
    } else {
        Ok(n_samples as i32)
    }
}

/// Frame count handed to the engine for a caller-supplied spectrogram of
/// `data_len` values.
pub fn mel_frame_count(data_len: usize) -> (r: i32)
    requires
        (data_len / HOP_SIZE) * 2 <= MAX_C_INT,
    ensures
        r == (data_len / HOP_SIZE) * 2,
{
    ((data_len / HOP_SIZE) * 2) as i32
}

/// Keeps the first `n` tokens that the engine wrote into `buffer`, where `ret`
/// is the engine's tokenization status.
pub fn finish_tokenize(buffer: &[i32], ret: i32) -> (r: Result<Vec<i32>, WhisperError>)
    ensures
        r is Ok <==> tokenize_outcome(ret, buffer@.len() as usize) is Ok,
        r is Err ==> r == Err::<Vec<i32>, WhisperError>(tokenize_outcome(ret, buffer@.len() as usize)->Err_0),
        r is Ok ==> r->Ok_0@ == buffer@.subrange(0, tokenize_outcome(ret, buffer@.len() as usize)->Ok_0 as int),
{
    match tokenize_status(ret, buffer.len()) {
        Err(e) => Err(e),
        Ok(n) => {
            let mut out: Vec<i32> = Vec::new();
            let mut i: usize = 0;
            while i < n
                invariant
                    n <= buffer@.len(),
                    i <= n,
                    out@ == buffer@.subrange(0, i as int),
                decreases n - i,
            {
                out.push(buffer[i]);
                i = i + 1;
            }
            Ok(out)
        },
    }
}

/// Tracks the phase of one decode state.
#[derive(Debug, Clone, Copy, PartialEq, Eq, Structural)]
pub struct DecodeTracker {
    pub phase: DecodePhase,
}

impl DecodeTracker {
    /// A freshly created state.
    pub fn new() -> (r: Self)
        ensures
            r.phase == DecodePhase::Empty,
    {
        DecodeTracker { phase: DecodePhase::Empty }
    }

    fn rank_of(&self) -> (r: u8)
        ensures
            r == rank(self.phase),
    {
        match self.phase {
            DecodePhase::Empty => 0,
            DecodePhase::SpectrogramReady => 1,
            DecodePhase::Encoded => 2,
            DecodePhase::Decoded => 3,
        }
    }

    /// Before computing a spectrogram from audio.
    pub fn begin_pcm_to_mel(&self, threads: usize) -> (r: Result<i32, WhisperError>)
        requires
            threads <= MAX_C_INT,
        ensures
            r == thread_arg(threads),
    {
        check_threads(threads)
    }

    /// After computing a spectrogram; a failure leaves no usable spectrogram.
    pub fn finish_pcm_to_mel(&mut self, ret: i32) -> (r: Result<(), WhisperError>)
        ensures
            r == spectrogram_outcome(ret),
            final(self).phase == (if r is Ok { DecodePhase::SpectrogramReady } else { DecodePhase::Empty }),
    {
        let r = spectrogram_status(ret);
        self.phase = if r.is_ok() { DecodePhase::SpectrogramReady } else { DecodePhase::Empty };
        r
    }

    /// After installing a caller-supplied spectrogram.
    pub fn finish_set_mel(&mut self, ret: i32) -> (r: Result<(), WhisperError>)
        ensures
            r == set_mel_outcome(ret),
            final(self).phase == (if r is Ok { DecodePhase::SpectrogramReady } else { DecodePhase::Empty }),
    {
        let r = set_mel_status(ret);
        self.phase = if r.is_ok() { DecodePhase::SpectrogramReady } else { DecodePhase::Empty };
        r
    }

    /// Before running the encoder: needs a spectrogram.
    pub fn begin_encode(&self, threads: usize) -> (r: Result<i32, WhisperError>)
        requires
            threads <= MAX_C_INT,
        ensures
            threads < 1 ==> r == Err::<i32, WhisperError>(WhisperError::InvalidThreadCount),
            threads >= 1 && rank(self.phase) < 1 ==> r == Err::<i32, WhisperError>(
                WhisperError::SpectrogramNotInitialized,
            ),
            threads >= 1 && rank(self.phase) >= 1 ==> r == Ok::<i32, WhisperError>(threads as i32),
    {
        let t = check_threads(threads)?;
        if self.rank_of() < 1 {
            Err(WhisperError::SpectrogramNotInitialized)
        } else {
            Ok(t)
        }
    }

    /// After running the encoder; a failure keeps the spectrogram.
    pub fn finish_encode(&mut self, ret: i32) -> (r: Result<(), WhisperError>)
        ensures
            r == evaluation_outcome(ret),
            final(self).phase == (if r is Ok { DecodePhase::Encoded } else { DecodePhase::SpectrogramReady }),
    {
        let r = evaluation_status(ret);
        self.phase = if r.is_ok() { DecodePhase::Encoded } else { DecodePhase::SpectrogramReady };
        r
    }

    /// Before running the decoder: needs an encoded spectrogram.
    pub fn begin_decode(&self, threads: usize) -> (r: Result<i32, WhisperError>)
        requires
            threads <= MAX_C_INT,
        ensures
            threads < 1 ==> r == Err::<i32, WhisperError>(WhisperError::InvalidThreadCount),
            threads >= 1 && rank(self.phase) < 2 ==> r == Err::<i32, WhisperError>(
                WhisperError::EncodeNotComplete,
            ),
            threads >= 1 && rank(self.phase) >= 2 ==> r == Ok::<i32, WhisperError>(threads as i32),
    {
        let t = check_threads(threads)?;
        if self.rank_of() < 2 {
            Err(WhisperError::EncodeNotComplete)
        } else {
            Ok(t)
        }
    }

    /// After running the decoder; a failure keeps the encoder output.
    pub fn finish_decode(&mut self, ret: i32) -> (r: Result<(), WhisperError>)
        ensures
            r == evaluation_outcome(ret),
            final(self).phase == (if r is Ok { DecodePhase::Decoded } else { DecodePhase::Encoded }),
    {
        let r = evaluation_status(ret);
        self.phase = if r.is_ok() { DecodePhase::Decoded } else { DecodePhase::Encoded };
        r
    }

    /// Before detecting the spoken language: needs a spectrogram.
    pub fn begin_lang_detect(&self, threads: usize) -> (r: Result<i32, WhisperError>)
        requires
            threads <= MAX_C_INT,
        ensures
            threads < 1 ==> r == Err::<i32, WhisperError>(WhisperError::InvalidThreadCount),
            threads >= 1 && rank(self.phase) < 1 ==> r == Err::<i32, WhisperError>(
                WhisperError::SpectrogramNotInitialized,
            ),
            threads >= 1 && rank(self.phase) >= 1 ==> r == Ok::<i32, WhisperError>(threads as i32),
    {
        let t = check_threads(threads)?;
        if self.rank_of() < 1 {
            Err(WhisperError::SpectrogramNotInitialized)
        } else {
            Ok(t)
        }
    }

    /// After language detection; the state is not changed by it.
    pub fn finish_lang_detect(&self, ret: i32) -> (r: Result<i32, WhisperError>)
        ensures
            r == lang_detect_outcome(ret),
    {
        lang_detect_status(ret)
    }

    /// Before a transcription: an empty buffer is refused and the engine is
    /// not called.
    pub fn begin_full(&self, n_samples: usize) -> (r: Result<i32, WhisperError>)
        requires
            n_samples <= MAX_C_INT,
        ensures
            n_samples == 0 <==> r == Err::<i32, WhisperError>(WhisperError::NoSamples),
            n_samples > 0 <==> r == Ok::<i32, WhisperError>(n_samples as i32),
    {
        check_samples(n_samples)
    }

    /// After a transcription: success leaves results to read; a failure
    /// leaves none.
    pub fn finish_full(&mut self, ret: i32) -> (r: Result<i32, WhisperError>)
        ensures
            r == full_outcome(ret),
            final(self).phase == (if r is Ok { DecodePhase::Decoded } else { DecodePhase::Empty }),
    {
        let r = full_status(ret);
        self.phase = if r.is_ok() { DecodePhase::Decoded } else { DecodePhase::Empty };
        r
    }

    /// Before reading results (segments, tokens, logits): needs a decode.
    pub fn check_results(&self) -> (r: Result<(), WhisperError>)
        ensures
            r == (if self.phase == DecodePhase::Decoded {
                Ok::<(), WhisperError>(())
            } else {
                Err(WhisperError::DecodeNotComplete)
            }),
    {
        if self.rank_of() == 3 {
            Ok(())
        } else {
            Err(WhisperError::DecodeNotComplete)
        }
    }
}

} // verus!
