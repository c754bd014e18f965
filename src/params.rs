//! The decode configuration record, built by the caller and consumed by one
//! transcription call.
//!
//! Each knob is either left to the engine's own default initializer (`None`)
//! or overridden by a setter (`Some`). Buffers given to the record (prompt
//! tokens, grammar, language, initial prompt) are owned by it, so they stay
//! valid for the whole call that reads them; setting one again replaces it.
//! Host closures are registered in a table held by the caller and named here
//! by their handles.
use vstd::prelude::*;
use vstd::string::StringSliceAdditionalSpecFns;

use crate::grammar::{record_of, engine_grammar, GrammarElementRecord, WhisperGrammarElement};
use crate::text::has_nul;
use vstd::utf8::encode_utf8;

verus! {

/// A 32-bit float carried unchanged as its IEEE-754 bit pattern. The record
/// never computes with it; the engine reads it as a float.
#[derive(Debug, Clone, Copy, PartialEq, Eq, Structural)]
pub struct RawF32 {
    pub bits: u32,
}

/// The decoding algorithm, with its own settings.
#[derive(Debug, Clone, Copy, PartialEq, Eq, Structural)]
pub enum SamplingStrategy {
    Greedy { best_of: i32 },
    BeamSearch { beam_size: i32, patience: RawF32 },
}

impl Default for SamplingStrategy {
    fn default() -> (r: Self)
        ensures
            r == (SamplingStrategy::Greedy { best_of: 1 }),
    {
        SamplingStrategy::Greedy { best_of: 1 }
    }
}

/// What the new-segment callback receives for each newly finalized segment.
#[derive(Debug, Clone)]
pub struct SegmentCallbackData {
    pub segment: i32,
    pub start_timestamp: i64,
    pub end_timestamp: i64,
    pub text: String,
}

/// A host closure registered in the caller's callback table.
#[derive(Debug, Clone, Copy, PartialEq, Eq, Structural)]
pub struct CallbackHandle {
    pub id: u64,
}

/// A registered new-segment closure, and whether invalid UTF-8 in segment
/// text is replaced (`lossy`) or the segment skipped.
#[derive(Debug, Clone, Copy, PartialEq, Eq, Structural)]
pub struct SegmentCallback {
    pub handle: CallbackHandle,
    pub lossy: bool,
}

/// The decode configuration record.
pub struct FullParams {
    /// The decoding algorithm.
    pub strategy: SamplingStrategy,
    /// Number of threads used for decoding.
    pub n_threads: Option<i32>,
    /// Max tokens used from past text as prompt for the decoder.
    pub n_max_text_ctx: Option<i32>,
    /// Start offset in milliseconds.
    pub offset_ms: Option<i32>,
    /// Audio duration to process in milliseconds; 0 means all of it.
    pub duration_ms: Option<i32>,
    /// Max segment length in characters; 0 means no limit.
    pub max_len: Option<i32>,
    /// Max tokens per segment; 0 means no limit.
    pub max_tokens: Option<i32>,
    /// Overwrite the audio context size; 0 means the model's.
    pub audio_ctx: Option<i32>,
    /// Translate to English.
    pub translate: Option<bool>,
    /// Do not use past transcription as the prompt of the next decode.
    pub no_context: Option<bool>,
    /// Do not generate timestamps.
    pub no_timestamps: Option<bool>,
    /// Force single segment output.
    pub single_segment: Option<bool>,
    /// Print special tokens.
    pub print_special: Option<bool>,
    /// Print progress information.
    pub print_progress: Option<bool>,
    /// Print results from within the engine as they are produced.
    pub print_realtime: Option<bool>,
    /// Print timestamps for each text segment.
    pub print_timestamps: Option<bool>,
    /// Experimental token-level timestamps.
    pub token_timestamps: Option<bool>,
    /// Split on word rather than on token.
    pub split_on_word: Option<bool>,
    /// Enable debug mode.
    pub debug_mode: Option<bool>,
    /// Enable speaker-turn detection.
    pub tdrz_enable: Option<bool>,
    /// Detect the language instead of transcribing.
    pub detect_language: Option<bool>,
    /// Suppress blank outputs.
    pub suppress_blank: Option<bool>,
    /// Suppress non-speech tokens.
    pub suppress_nst: Option<bool>,
    /// Timestamp token probability threshold.
    pub thold_pt: Option<RawF32>,
    /// Timestamp token sum probability threshold.
    pub thold_ptsum: Option<RawF32>,
    /// Initial decoding temperature.
    pub temperature: Option<RawF32>,
    /// Max initial timestamp.
    pub max_initial_ts: Option<RawF32>,
    /// Length penalty.
    pub length_penalty: Option<RawF32>,
    /// Temperature increment on fallback.
    pub temperature_inc: Option<RawF32>,
    /// Entropy threshold for fallback.
    pub entropy_thold: Option<RawF32>,
    /// Log-probability threshold for fallback.
    pub logprob_thold: Option<RawF32>,
    /// No-speech threshold.
    pub no_speech_thold: Option<RawF32>,
    /// Penalty applied to tokens outside the grammar.
    pub grammar_penalty: Option<RawF32>,
    /// Prompt tokens prepended to the context of the first decode.
    pub tokens: Option<Vec<i32>>,
    /// Target language; `Some(None)` asks for automatic detection.
    pub language: Option<Option<String>>,
    /// Grammar rules in the engine's layout.
    pub grammar: Option<Vec<GrammarElementRecord>>,
    /// Index of the starting grammar rule.
    pub start_rule: Option<usize>,
    /// Text used as the starting point of decoding.
    pub initial_prompt: Option<String>,
    /// Closure told of progress, in percent.
    pub progress_callback: Option<CallbackHandle>,
    /// Closure polled for cooperative cancellation.
    pub abort_callback: Option<CallbackHandle>,
    /// Closure told of each newly finalized segment.
    pub segment_callback: Option<SegmentCallback>,
}

impl FullParams {
    /// The strings the record hands to the engine as terminated strings hold
    /// no NUL byte.
    pub open spec fn wf(&self) -> bool {
        &&& (self.language matches Some(Some(l)) ==> !has_nul(encode_utf8(l@)))
        &&& (self.initial_prompt matches Some(p) ==> !has_nul(encode_utf8(p@)))
    }
}

/// A record with the given strategy and every other knob at the engine's default.
pub open spec fn fresh_params(strategy: SamplingStrategy) -> FullParams {
    FullParams {
        strategy,
        n_threads: None,
        n_max_text_ctx: None,
        offset_ms: None,
        duration_ms: None,
        max_len: None,
        max_tokens: None,
        audio_ctx: None,
        translate: None,
        no_context: None,
        no_timestamps: None,
        single_segment: None,
        print_special: None,
        print_progress: None,
        print_realtime: None,
        print_timestamps: None,
        token_timestamps: None,
        split_on_word: None,
        debug_mode: None,
        tdrz_enable: None,
        detect_language: None,
        suppress_blank: None,
        suppress_nst: None,
        thold_pt: None,
        thold_ptsum: None,
        temperature: None,
        max_initial_ts: None,
        length_penalty: None,
        temperature_inc: None,
        entropy_thold: None,
        logprob_thold: None,
        no_speech_thold: None,
        grammar_penalty: None,
        tokens: None,
        language: None,
        grammar: None,
        start_rule: None,
        initial_prompt: None,
        progress_callback: None,
        abort_callback: None,
        segment_callback: None,
    }
}

impl FullParams {
    /// A record for the given strategy, every other knob at the engine's default.
    pub fn new(sampling_strategy: SamplingStrategy) -> (r: FullParams)
        ensures
            r == fresh_params(sampling_strategy),
            r.wf(),
    {
        FullParams {
            strategy: sampling_strategy,
            n_threads: None,
            n_max_text_ctx: None,
            offset_ms: None,
            duration_ms: None,
            max_len: None,
            max_tokens: None,
            audio_ctx: None,
            translate: None,
            no_context: None,
            no_timestamps: None,
            single_segment: None,
            print_special: None,
            print_progress: None,
            print_realtime: None,
            print_timestamps: None,
            token_timestamps: None,
            split_on_word: None,
            debug_mode: None,
            tdrz_enable: None,
            detect_language: None,
            suppress_blank: None,
            suppress_nst: None,
            thold_pt: None,
            thold_ptsum: None,
            temperature: None,
            max_initial_ts: None,
            length_penalty: None,
            temperature_inc: None,
            entropy_thold: None,
            logprob_thold: None,
            no_speech_thold: None,
            grammar_penalty: None,
            tokens: None,
            language: None,
            grammar: None,
            start_rule: None,
            initial_prompt: None,
            progress_callback: None,
            abort_callback: None,
            segment_callback: None,
        }
    }

    /// Number of threads used for decoding.
    pub fn set_n_threads(&mut self, n_threads: i32)
        ensures
            *final(self) == (FullParams { n_threads: Some(n_threads), ..*old(self) }),
    {
        self.n_threads = Some(n_threads);
    }

    /// Max tokens used from past text as prompt for the decoder.
    pub fn set_n_max_text_ctx(&mut self, n_max_text_ctx: i32)
        ensures
            *final(self) == (FullParams { n_max_text_ctx: Some(n_max_text_ctx), ..*old(self) }),
    {
        self.n_max_text_ctx = Some(n_max_text_ctx);
    }

    /// Start offset in milliseconds.
    pub fn set_offset_ms(&mut self, offset_ms: i32)
        ensures
            *final(self) == (FullParams { offset_ms: Some(offset_ms), ..*old(self) }),
    {
        self.offset_ms = Some(offset_ms);
    }

    /// Audio duration to process in milliseconds; 0 means all of it.
    pub fn set_duration_ms(&mut self, duration_ms: i32)
        ensures
            *final(self) == (FullParams { duration_ms: Some(duration_ms), ..*old(self) }),
    {
        self.duration_ms = Some(duration_ms);
    }

    /// Max segment length in characters; 0 means no limit.
    pub fn set_max_len(&mut self, max_len: i32)
        ensures
            *final(self) == (FullParams { max_len: Some(max_len), ..*old(self) }),
    {
        self.max_len = Some(max_len);
    }

    /// Max tokens per segment; 0 means no limit.
    pub fn set_max_tokens(&mut self, max_tokens: i32)
        ensures
            *final(self) == (FullParams { max_tokens: Some(max_tokens), ..*old(self) }),
    {
        self.max_tokens = Some(max_tokens);
    }

    /// Overwrite the audio context size; 0 means the model's.
    pub fn set_audio_ctx(&mut self, audio_ctx: i32)
        ensures
            *final(self) == (FullParams { audio_ctx: Some(audio_ctx), ..*old(self) }),
    {
        self.audio_ctx = Some(audio_ctx);
    }

    /// Translate to English.
    pub fn set_translate(&mut self, translate: bool)
        ensures
            *final(self) == (FullParams { translate: Some(translate), ..*old(self) }),
    {
        self.translate = Some(translate);
    }

    /// Do not use past transcription as the prompt of the next decode.
    pub fn set_no_context(&mut self, no_context: bool)
        ensures
            *final(self) == (FullParams { no_context: Some(no_context), ..*old(self) }),
    {
        self.no_context = Some(no_context);
    }

    /// Do not generate timestamps.
    pub fn set_no_timestamps(&mut self, no_timestamps: bool)
        ensures
            *final(self) == (FullParams { no_timestamps: Some(no_timestamps), ..*old(self) }),
    {
        self.no_timestamps = Some(no_timestamps);
    }

    /// Force single segment output.
    pub fn set_single_segment(&mut self, single_segment: bool)
        ensures
            *final(self) == (FullParams { single_segment: Some(single_segment), ..*old(self) }),
    {
        self.single_segment = Some(single_segment);
    }

    /// Print special tokens.
    pub fn set_print_special(&mut self, print_special: bool)
        ensures
            *final(self) == (FullParams { print_special: Some(print_special), ..*old(self) }),
    {
        self.print_special = Some(print_special);
    }

    /// Print progress information.
    pub fn set_print_progress(&mut self, print_progress: bool)
        ensures
            *final(self) == (FullParams { print_progress: Some(print_progress), ..*old(self) }),
    {
        self.print_progress = Some(print_progress);
    }

    /// Print results from within the engine as they are produced.
    pub fn set_print_realtime(&mut self, print_realtime: bool)
        ensures
            *final(self) == (FullParams { print_realtime: Some(print_realtime), ..*old(self) }),
    {
        self.print_realtime = Some(print_realtime);
    }

    /// Print timestamps for each text segment.
    pub fn set_print_timestamps(&mut self, print_timestamps: bool)
        ensures
            *final(self) == (FullParams { print_timestamps: Some(print_timestamps), ..*old(self) }),
    {
        self.print_timestamps = Some(print_timestamps);
    }

    /// Experimental token-level timestamps.
    pub fn set_token_timestamps(&mut self, token_timestamps: bool)
        ensures
            *final(self) == (FullParams { token_timestamps: Some(token_timestamps), ..*old(self) }),
    {
        self.token_timestamps = Some(token_timestamps);
    }

    /// Split on word rather than on token.
    pub fn set_split_on_word(&mut self, split_on_word: bool)
        ensures
            *final(self) == (FullParams { split_on_word: Some(split_on_word), ..*old(self) }),
    {
        self.split_on_word = Some(split_on_word);
    }

    /// Enable debug mode.
    pub fn set_debug_mode(&mut self, debug: bool)
        ensures
            *final(self) == (FullParams { debug_mode: Some(debug), ..*old(self) }),
    {
        self.debug_mode = Some(debug);
    }

    /// Enable speaker-turn detection.
    pub fn set_tdrz_enable(&mut self, tdrz_enable: bool)
        ensures
            *final(self) == (FullParams { tdrz_enable: Some(tdrz_enable), ..*old(self) }),
    {
        self.tdrz_enable = Some(tdrz_enable);
    }

    /// Detect the language instead of transcribing.
    pub fn set_detect_language(&mut self, detect_language: bool)
        ensures
            *final(self) == (FullParams { detect_language: Some(detect_language), ..*old(self) }),
    {
        self.detect_language = Some(detect_language);
    }

    /// Suppress blank outputs.
    pub fn set_suppress_blank(&mut self, suppress_blank: bool)
        ensures
            *final(self) == (FullParams { suppress_blank: Some(suppress_blank), ..*old(self) }),
    {
        self.suppress_blank = Some(suppress_blank);
    }

    /// Suppress non-speech tokens.
    pub fn set_suppress_nst(&mut self, suppress_nst: bool)
        ensures
            *final(self) == (FullParams { suppress_nst: Some(suppress_nst), ..*old(self) }),
    {
        self.suppress_nst = Some(suppress_nst);
    }

    /// Timestamp token probability threshold.
    pub fn set_thold_pt(&mut self, thold_pt: RawF32)
        ensures
            *final(self) == (FullParams { thold_pt: Some(thold_pt), ..*old(self) }),
    {
        self.thold_pt = Some(thold_pt);
    }

    /// Timestamp token sum probability threshold.
    pub fn set_thold_ptsum(&mut self, thold_ptsum: RawF32)
        ensures
            *final(self) == (FullParams { thold_ptsum: Some(thold_ptsum), ..*old(self) }),
    {
        self.thold_ptsum = Some(thold_ptsum);
    }

    /// Initial decoding temperature.
    pub fn set_temperature(&mut self, temperature: RawF32)
        ensures
            *final(self) == (FullParams { temperature: Some(temperature), ..*old(self) }),
    {
        self.temperature = Some(temperature);
    }

    /// Max initial timestamp.
    pub fn set_max_initial_ts(&mut self, max_initial_ts: RawF32)
        ensures
            *final(self) == (FullParams { max_initial_ts: Some(max_initial_ts), ..*old(self) }),
    {
        self.max_initial_ts = Some(max_initial_ts);
    }

    /// Length penalty.
    pub fn set_length_penalty(&mut self, length_penalty: RawF32)
        ensures
            *final(self) == (FullParams { length_penalty: Some(length_penalty), ..*old(self) }),
    {
        self.length_penalty = Some(length_penalty);
    }

    /// Temperature increment on fallback.
    pub fn set_temperature_inc(&mut self, temperature_inc: RawF32)
        ensures
            *final(self) == (FullParams { temperature_inc: Some(temperature_inc), ..*old(self) }),
    {
        self.temperature_inc = Some(temperature_inc);
    }

    /// Entropy threshold for fallback.
    pub fn set_entropy_thold(&mut self, entropy_thold: RawF32)
        ensures
            *final(self) == (FullParams { entropy_thold: Some(entropy_thold), ..*old(self) }),
    {
        self.entropy_thold = Some(entropy_thold);
    }

    /// Log-probability threshold for fallback.
    pub fn set_logprob_thold(&mut self, logprob_thold: RawF32)
        ensures
            *final(self) == (FullParams { logprob_thold: Some(logprob_thold), ..*old(self) }),
    {
        self.logprob_thold = Some(logprob_thold);
    }

    /// No-speech threshold.
    pub fn set_no_speech_thold(&mut self, no_speech_thold: RawF32)
        ensures
            *final(self) == (FullParams { no_speech_thold: Some(no_speech_thold), ..*old(self) }),
    {
        self.no_speech_thold = Some(no_speech_thold);
    }

    /// Penalty applied to tokens outside the grammar.
    pub fn set_grammar_penalty(&mut self, grammar_penalty: RawF32)
        ensures
            *final(self) == (FullParams { grammar_penalty: Some(grammar_penalty), ..*old(self) }),
    {
        self.grammar_penalty = Some(grammar_penalty);
    }
    /// Prompt tokens prepended to any existing context; replaces earlier ones.
    pub fn set_tokens(&mut self, tokens: &[i32])
        ensures
            final(self).tokens is Some,
            final(self).tokens->Some_0@ == tokens@,
            *final(self) == (FullParams { tokens: final(self).tokens, ..*old(self) }),
    {
        let mut owned: Vec<i32> = Vec::new();
        let mut i: usize = 0;
        while i < tokens.len()
            invariant
                i <= tokens@.len(),
                owned@ == tokens@.subrange(0, i as int),
            decreases tokens@.len() - i,
        {
            owned.push(tokens[i]);
            i = i + 1;
        }
        assert(owned@ == tokens@);
        self.tokens = Some(owned);
    }

    /// The target language; `None` (like `"auto"`) asks for detection.
    pub fn set_language(&mut self, language: Option<&str>)
        requires
            language is Some ==> !has_nul(language->Some_0.spec_bytes()),
        ensures
            final(self).language is Some,
            final(self).language->Some_0 is Some <==> language is Some,
            language is Some ==> final(self).language->Some_0->Some_0@ == language->Some_0@,
            old(self).wf() ==> final(self).wf(),
            *final(self) == (FullParams { language: final(self).language, ..*old(self) }),
    {
        match language {
            Some(l) => {
                self.language = Some(Some(l.to_owned()));
            },
            None => {
                self.language = Some(None);
            },
        }
    }

    /// Grammar rules, converted to the engine's layout and kept; `None`
    /// removes the grammar and resets the starting rule.
    pub fn set_grammar(&mut self, grammar: Option<&[WhisperGrammarElement]>)
        ensures
            final(self).grammar is Some <==> grammar is Some,
            grammar is Some ==> final(self).grammar->Some_0@.len() == grammar->Some_0@.len(),
            grammar is Some ==> forall|i: int| 0 <= i < grammar->Some_0@.len()
                ==> final(self).grammar->Some_0@[i] == record_of(#[trigger] grammar->Some_0@[i]),
            final(self).start_rule == (if grammar is Some { old(self).start_rule } else { Some(0usize) }),
            *final(self) == (FullParams {
                grammar: final(self).grammar,
                start_rule: final(self).start_rule,
                ..*old(self)
            }),
    {
        match grammar {
            Some(rules) => {
                self.grammar = Some(engine_grammar(rules));
            },
            None => {
                self.grammar = None;
                self.start_rule = Some(0);
            },
        }
    }

    /// The starting grammar rule; ignored while no grammar is set.
    pub fn set_start_rule(&mut self, start_rule: usize)
        ensures
            old(self).grammar is Some ==> *final(self) == (FullParams { start_rule: Some(start_rule), ..*old(self) }),
            old(self).grammar is None ==> *final(self) == *old(self),
    {
        if self.grammar.is_some() {
            self.start_rule = Some(start_rule);
        }
    }

    /// The initial prompt; replaces an earlier one.
    pub fn set_initial_prompt(&mut self, initial_prompt: &str)
        requires
            !has_nul(initial_prompt.spec_bytes()),
        ensures
            final(self).initial_prompt is Some,
            final(self).initial_prompt->Some_0@ == initial_prompt@,
            old(self).wf() ==> final(self).wf(),
            *final(self) == (FullParams { initial_prompt: final(self).initial_prompt, ..*old(self) }),
    {
        self.initial_prompt = Some(initial_prompt.to_owned());
    }

    /// The initial prompt that was set.
    pub fn get_initial_prompt(&self) -> (r: &str)
        requires
            self.initial_prompt is Some,
        ensures
            r@ == self.initial_prompt->Some_0@,
    {
        match &self.initial_prompt {
            Some(p) => p.as_str(),
            None => "",
        }
    }

    /// Registers (`Some`) or clears (`None`) the progress closure.
    pub fn set_progress_callback_safe(&mut self, callback: Option<CallbackHandle>)
        ensures
            *final(self) == (FullParams { progress_callback: callback, ..*old(self) }),
    {
        self.progress_callback = callback;
    }

    /// Registers (`Some`) or clears (`None`) the abort closure.
    pub fn set_abort_callback_safe(&mut self, callback: Option<CallbackHandle>)
        ensures
            *final(self) == (FullParams { abort_callback: callback, ..*old(self) }),
    {
        self.abort_callback = callback;
    }

    /// Registers (`Some`) or clears (`None`) the new-segment closure; segments
    /// whose text is not valid UTF-8 are skipped.
    pub fn set_segment_callback_safe(&mut self, callback: Option<CallbackHandle>)
        ensures
            *final(self) == (FullParams {
                segment_callback: match callback {
                    Some(handle) => Some(SegmentCallback { handle, lossy: false }),
                    None => None,
                },
                ..*old(self)
            }),
    {
        self.segment_callback = match callback {
            Some(handle) => Some(SegmentCallback { handle, lossy: false }),
            None => None,
        };
    }

    /// Registers (`Some`) or clears (`None`) the new-segment closure; invalid
    /// UTF-8 in segment text is replaced.
    pub fn set_segment_callback_safe_lossy(&mut self, callback: Option<CallbackHandle>)
        ensures
            *final(self) == (FullParams {
                segment_callback: match callback {
                    Some(handle) => Some(SegmentCallback { handle, lossy: true }),
                    None => None,
                },
                ..*old(self)
            }),
    {
        self.segment_callback = match callback {
            Some(handle) => Some(SegmentCallback { handle, lossy: true }),
            None => None,
        };
    }
}

} // verus!
