use whisper_rs::grammar::GrammarElementRecord;
use whisper_rs::{
    CallbackHandle, FullParams, RawF32, SamplingStrategy, WhisperGrammarElement,
    WhisperGrammarElementType,
};

#[test]
fn test_initial_prompt_normal_usage() {
    let mut params = FullParams::new(SamplingStrategy::default());
    let prompt = "Hello, world!";
    params.set_initial_prompt(prompt);
    assert_eq!(params.get_initial_prompt(), prompt);
}

#[test]
fn test_initial_prompt_empty_string() {
    let mut params = FullParams::new(SamplingStrategy::default());
    let prompt = "";
    params.set_initial_prompt(prompt);

    assert_eq!(
        params.get_initial_prompt(),
        prompt,
        "The initial prompt should be an empty string."
    );
}

#[test]
fn test_initial_prompt_repeated_calls() {
    let mut params = FullParams::new(SamplingStrategy::default());
    params.set_initial_prompt("First prompt");
    assert_eq!(
        params.get_initial_prompt(),
        "First prompt",
        "The initial prompt should be 'First prompt'."
    );

    params.set_initial_prompt("Second prompt");
    assert_eq!(
        params.get_initial_prompt(),
        "Second prompt",
        "The initial prompt should be 'Second prompt' after second set."
    );
}

#[test]
fn test_initial_prompt_long_string() {
    let mut params = FullParams::new(SamplingStrategy::default());
    let long_prompt = "a".repeat(10000);
    params.set_initial_prompt(&long_prompt);

    assert_eq!(
        params.get_initial_prompt(),
        long_prompt.as_str(),
        "The initial prompt should match the long string provided."
    );
}

#[test]
fn default_strategy_is_greedy_best_of_one() {
    assert_eq!(SamplingStrategy::default(), SamplingStrategy::Greedy { best_of: 1 });
}

#[test]
fn new_params_leave_every_knob_to_the_engine() {
    let strategy = SamplingStrategy::BeamSearch {
        beam_size: 5,
        patience: RawF32 { bits: 1.0f32.to_bits() },
    };
    let params = FullParams::new(strategy);
    assert_eq!(params.strategy, strategy);
    assert_eq!(params.n_threads, None);
    assert_eq!(params.temperature, None);
    assert_eq!(params.translate, None);
    assert!(params.tokens.is_none());
    assert!(params.language.is_none());
    assert!(params.grammar.is_none());
    assert!(params.progress_callback.is_none());
}

#[test]
fn scalar_setters_override_one_knob_each() {
    let mut params = FullParams::new(SamplingStrategy::default());
    params.set_n_threads(2);
    params.set_translate(true);
    params.set_debug_mode(true);
    params.set_temperature(RawF32 { bits: 0.4f32.to_bits() });
    assert_eq!(params.n_threads, Some(2));
    assert_eq!(params.translate, Some(true));
    assert_eq!(params.debug_mode, Some(true));
    assert_eq!(f32::from_bits(params.temperature.unwrap().bits), 0.4f32);
    assert_eq!(params.offset_ms, None);
    params.set_n_threads(3);
    assert_eq!(params.n_threads, Some(3));
}

#[test]
fn tokens_are_copied_and_replaced() {
    let mut params = FullParams::new(SamplingStrategy::default());
    let first = vec![1, 2, 3];
    params.set_tokens(&first);
    assert_eq!(params.tokens.as_deref(), Some(&[1, 2, 3][..]));
    params.set_tokens(&[9]);
    assert_eq!(params.tokens.as_deref(), Some(&[9][..]));
}

#[test]
fn language_none_asks_for_detection() {
    let mut params = FullParams::new(SamplingStrategy::default());
    params.set_language(Some("de"));
    assert_eq!(params.language, Some(Some("de".to_string())));
    params.set_language(None);
    assert_eq!(params.language, Some(None));
}

#[test]
fn grammar_is_converted_and_start_rule_needs_grammar() {
    let mut params = FullParams::new(SamplingStrategy::default());
    params.set_start_rule(4);
    assert_eq!(params.start_rule, None);
    let rules = [
        WhisperGrammarElement::new(WhisperGrammarElementType::Character, 'a' as u32),
        WhisperGrammarElement::new(WhisperGrammarElementType::End, 0),
    ];
    params.set_grammar(Some(&rules));
    assert_eq!(
        params.grammar,
        Some(vec![
            GrammarElementRecord { type_: 3, value: 97 },
            GrammarElementRecord { type_: 0, value: 0 },
        ])
    );
    params.set_start_rule(1);
    assert_eq!(params.start_rule, Some(1));
    params.set_grammar(None);
    assert!(params.grammar.is_none());
    assert_eq!(params.start_rule, Some(0));
}

#[test]
fn callbacks_are_set_and_cleared() {
    let mut params = FullParams::new(SamplingStrategy::default());
    params.set_progress_callback_safe(Some(CallbackHandle { id: 7 }));
    assert_eq!(params.progress_callback, Some(CallbackHandle { id: 7 }));
    params.set_progress_callback_safe(None);
    assert_eq!(params.progress_callback, None);
    params.set_segment_callback_safe_lossy(Some(CallbackHandle { id: 2 }));
    assert!(params.segment_callback.unwrap().lossy);
    params.set_segment_callback_safe(Some(CallbackHandle { id: 3 }));
    assert!(!params.segment_callback.unwrap().lossy);
    assert_eq!(params.segment_callback.unwrap().handle, CallbackHandle { id: 3 });
}
