use whisper_rs::audio::{check_conversion_lengths, mono_len};
use whisper_rs::context_params::AHEADS_CUSTOM;
use whisper_rs::logging::LogSeverity;
use whisper_rs::{
    install_logging_hooks, DecodePhase, DtwAhead, DtwMode, DtwModelPreset, DtwParameters,
    GGMLLogLevel, LoggingHooks, SystemInfo, WhisperContext, WhisperContextParameters,
    WhisperError, WhisperGrammarElement, WhisperGrammarElementType,
};

#[test]
fn odd_stereo_length_is_half_sample_missing() {
    assert_eq!(mono_len(5), Err(WhisperError::HalfSampleMissing(5)));
    assert_eq!(mono_len(1), Err(WhisperError::HalfSampleMissing(1)));
    assert_eq!(mono_len(4), Ok(2));
    assert_eq!(mono_len(0), Ok(0));
}

#[test]
fn conversion_lengths_must_match() {
    assert_eq!(check_conversion_lengths(3, 3), Ok(()));
    assert_eq!(
        check_conversion_lengths(3, 2),
        Err(WhisperError::InputOutputLengthMismatch { input_len: 3, output_len: 2 })
    );
}

#[test]
fn logging_hooks_install_once() {
    let mut hooks = LoggingHooks::new();
    let first = install_logging_hooks(&mut hooks);
    assert!(first.register_whisper && first.register_ggml);
    let second = install_logging_hooks(&mut hooks);
    assert!(!second.register_whisper && !second.register_ggml);
}

#[test]
fn ggml_levels_and_severities() {
    assert_eq!(GGMLLogLevel::from_code(0), GGMLLogLevel::NoLevel);
    assert_eq!(GGMLLogLevel::from_code(4), GGMLLogLevel::Error);
    assert_eq!(GGMLLogLevel::from_code(9), GGMLLogLevel::Unknown(9));
    assert_eq!(GGMLLogLevel::Cont.severity(), LogSeverity::Trace);
    assert_eq!(GGMLLogLevel::Unknown(9).severity(), LogSeverity::Warn);
    assert_eq!(GGMLLogLevel::from_code(2).severity(), LogSeverity::Info);
}

#[test]
fn grammar_kind_codes_round_trip() {
    for code in 0..=6u32 {
        assert_eq!(WhisperGrammarElementType::from_code(code).code(), code);
    }
    let e = WhisperGrammarElement::new(WhisperGrammarElementType::RuleReference, 12);
    let r = e.to_c_type();
    assert_eq!((r.type_, r.value), (2, 12));
}

#[test]
fn context_parameters_defaults_and_dtw_record() {
    let p = WhisperContextParameters::new();
    let r = p.to_c_struct();
    assert!(!r.use_gpu && !r.flash_attn && !r.dtw_token_timestamps);
    assert_eq!(r.dtw_n_top, -1);
    assert_eq!(r.dtw_aheads_preset, 0);
    assert_eq!(r.dtw_mem_size, 1024 * 1024 * 128);

    let mut p = WhisperContextParameters::new();
    p.use_gpu(true).gpu_device(1).dtw_parameters(DtwParameters {
        mode: DtwMode::TopMost { n_top: 3 },
        dtw_mem_size: 64,
    });
    let r = p.to_c_struct();
    assert!(r.use_gpu && r.dtw_token_timestamps);
    assert_eq!((r.gpu_device, r.dtw_n_top, r.dtw_aheads_preset, r.dtw_mem_size), (1, 3, 1, 64));

    let aheads = vec![DtwAhead { n_text_layer: 2, n_head: 5 }];
    p.dtw_parameters(DtwParameters { mode: DtwMode::Custom { aheads: aheads.clone() }, dtw_mem_size: 64 });
    let r = p.to_c_struct();
    assert_eq!(r.dtw_aheads_preset, AHEADS_CUSTOM);
    assert_eq!(r.dtw_aheads, aheads);
    assert_eq!(r.dtw_n_top, -1);

    p.dtw_parameters(DtwParameters {
        mode: DtwMode::ModelPreset { model_preset: DtwModelPreset::LargeV3Turbo },
        dtw_mem_size: 64,
    });
    assert_eq!(p.to_c_struct().dtw_aheads_preset, 14);
    assert_eq!(DtwModelPreset::TinyEn.code(), 3);
}

#[test]
fn system_info_from_flags() {
    let s = SystemInfo::from_flags(1, 0, 2, 0);
    assert!(s.avx && !s.avx2 && s.fma && !s.f16c);
}

#[test]
fn states_keep_the_shared_model() {
    let ctx = WhisperContext::new(String::from("model"));
    let other = ctx.share();
    let state = other.create_state(7u32);
    drop(ctx);
    drop(other);
    assert_eq!(state.model_ref(), "model");
    assert_eq!(*state.session_ref(), 7);
    assert_eq!(state.tracker_ref().phase, DecodePhase::Empty);
}

#[test]
fn state_tracker_moves_with_the_session() {
    let ctx = WhisperContext::new(1u8);
    let mut state = ctx.create_state(());
    assert_eq!(state.tracker_ref().begin_full(0), Err(WhisperError::NoSamples));
    assert_eq!(state.tracker_mut().finish_full(0), Ok(0));
    assert_eq!(state.tracker_ref().phase, DecodePhase::Decoded);
    assert_eq!(*ctx.inner(), 1);
}

#[test]
fn default_context_parameters() {
    let p = WhisperContextParameters::default();
    assert!(!p.use_gpu && !p.flash_attn);
    assert_eq!(p.gpu_device, 0);
    assert!(matches!(p.dtw_parameters.mode, DtwMode::Disabled));
    assert_eq!(DtwParameters::default().dtw_mem_size, 134217728);
}
