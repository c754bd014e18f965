use whisper_rs::callbacks::{invocations, new_segment_range, segment_data};
use whisper_rs::{CallbackHandle, EngineEvent, FullParams, Invocation, SamplingStrategy};

#[test]
fn cleared_progress_callback_is_never_invoked() {
    let mut params = FullParams::new(SamplingStrategy::default());
    params.set_progress_callback_safe(Some(CallbackHandle { id: 1 }));
    let before = invocations(&params, EngineEvent::Progress { percent: 50 });
    assert_eq!(
        before,
        vec![Invocation::Progress { handle: CallbackHandle { id: 1 }, percent: 50 }]
    );
    params.set_progress_callback_safe(None);
    assert!(invocations(&params, EngineEvent::Progress { percent: 60 }).is_empty());
}

#[test]
fn cleared_abort_and_segment_callbacks_are_never_invoked() {
    let mut params = FullParams::new(SamplingStrategy::default());
    params.set_abort_callback_safe(Some(CallbackHandle { id: 4 }));
    params.set_segment_callback_safe(Some(CallbackHandle { id: 5 }));
    assert_eq!(invocations(&params, EngineEvent::AbortPoll).len(), 1);
    params.set_abort_callback_safe(None);
    params.set_segment_callback_safe(None);
    assert!(invocations(&params, EngineEvent::AbortPoll).is_empty());
    assert!(invocations(&params, EngineEvent::NewSegments { n_segments: 3, n_new: 2 }).is_empty());
}

#[test]
fn one_invocation_per_new_segment() {
    let mut params = FullParams::new(SamplingStrategy::default());
    params.set_segment_callback_safe_lossy(Some(CallbackHandle { id: 9 }));
    let calls = invocations(&params, EngineEvent::NewSegments { n_segments: 5, n_new: 2 });
    let h = CallbackHandle { id: 9 };
    assert_eq!(
        calls,
        vec![
            Invocation::Segment { handle: h, segment: 3, lossy: true },
            Invocation::Segment { handle: h, segment: 4, lossy: true },
        ]
    );
}

#[test]
fn new_segment_range_is_clamped() {
    assert_eq!(new_segment_range(5, 2), (3, 5));
    assert_eq!(new_segment_range(2, 7), (0, 2));
    assert_eq!(new_segment_range(4, 0), (4, 4));
    assert_eq!(new_segment_range(4, -3), (4, 4));
}

#[test]
fn segment_data_strict_skips_invalid_text() {
    let ok = segment_data(1, 10, 20, b" hello", false).unwrap();
    assert_eq!(ok.segment, 1);
    assert_eq!(ok.start_timestamp, 10);
    assert_eq!(ok.end_timestamp, 20);
    assert_eq!(ok.text, " hello");
    assert!(segment_data(1, 10, 20, &[0x68, 0xff], false).is_none());
}

#[test]
fn segment_data_lossy_replaces_invalid_text() {
    let d = segment_data(0, 0, 5, &[0x68, 0xff, 0x69], true).unwrap();
    assert_eq!(d.text, "h\u{FFFD}i");
}
