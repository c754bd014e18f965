//! What the callback trampolines do when the engine calls back.
//!
//! The engine calls one fixed trampoline per category, from inside the
//! transcription call. Each trampoline turns the engine's raw arguments into
//! the list of closure invocations computed here, then runs them through the
//! caller's callback table. A category that was cleared yields no invocation.
use vstd::prelude::*;
use vstd::utf8::{decode_utf8, valid_utf8};

use crate::params::{CallbackHandle, FullParams, SegmentCallbackData};
use crate::text::{decode_text, decode_text_lossy, lossy_text};

verus! {

/// A call that the engine makes into the trampolines.
#[derive(Debug, Clone, Copy, PartialEq, Eq, Structural)]
pub enum EngineEvent {
    /// Progress report, in percent.
    Progress { percent: i32 },
    /// Checkpoint at which the engine polls for cancellation.
    AbortPoll,
    /// `n_new` segments were finalized; the state now holds `n_segments`.
    NewSegments { n_segments: i32, n_new: i32 },
}

/// One invocation of a registered closure.
#[derive(Debug, Clone, Copy, PartialEq, Eq, Structural)]
pub enum Invocation {
    Progress { handle: CallbackHandle, percent: i32 },
    Abort { handle: CallbackHandle },
    Segment { handle: CallbackHandle, segment: i32, lossy: bool },
}

/// First index of the segments finalized since the previous callback.
pub open spec fn new_segment_start(n_segments: i32, n_new: i32) -> int {
    if n_new >= n_segments {
        0
    } else if n_new <= 0 {
        n_segments as int
    } else {
        n_segments - n_new
    }
}

/// The indices of the newly finalized segments, in order.
pub open spec fn new_segment_indices(n_segments: i32, n_new: i32) -> Seq<i32> {
    let s = new_segment_start(n_segments, n_new);
    if s < n_segments {
        Seq::new((n_segments - s) as nat, |k: int| (s + k) as i32)
    } else {
        Seq::empty()
    }
}

/// The invocations that an engine call makes under the given record.
pub open spec fn invocations_for(p: FullParams, e: EngineEvent) -> Seq<Invocation> {
    match e {
        EngineEvent::Progress { percent } => match p.progress_callback {
            Some(handle) => seq![Invocation::Progress { handle, percent }],
            None => Seq::empty(),
        },
        EngineEvent::AbortPoll => match p.abort_callback {
            Some(handle) => seq![Invocation::Abort { handle }],
            None => Seq::empty(),
        },
        EngineEvent::NewSegments { n_segments, n_new } => match p.segment_callback {
            Some(cb) => new_segment_indices(n_segments, n_new).map_values(
                |i: i32| Invocation::Segment { handle: cb.handle, segment: i, lossy: cb.lossy },
            ),
            None => Seq::empty(),
        },
    }
}

/// The range `[start, end)` of segment indices finalized since the previous
/// new-segment callback.
pub fn new_segment_range(n_segments: i32, n_new: i32) -> (r: (i32, i32))
    ensures
        r.0 == new_segment_start(n_segments, n_new),
        r.1 == n_segments,
{
    if n_new >= n_segments {
        (0, n_segments)
    } else if n_new <= 0 {
        (n_segments, n_segments)
    } else {
        (n_segments - n_new, n_segments)
    }
}

/// The closure invocations for one engine call.
pub fn invocations(params: &FullParams, event: EngineEvent) -> (r: Vec<Invocation>)
    ensures
        r@ == invocations_for(*params, event),
{
    let mut out: Vec<Invocation> = Vec::new();
    match event {
        EngineEvent::Progress { percent } => {
            if let Some(handle) = params.progress_callback {
                out.push(Invocation::Progress { handle, percent });
            }
        },
        EngineEvent::AbortPoll => {
            if let Some(handle) = params.abort_callback {
                out.push(Invocation::Abort { handle });
            }
        },
        EngineEvent::NewSegments { n_segments, n_new } => {
            if let Some(cb) = params.segment_callback {
                let (start, end) = new_segment_range(n_segments, n_new);
                let ghost indices = new_segment_indices(n_segments, n_new);
                let mut i: i32 = start;
                while i < end
                    invariant
                        start == new_segment_start(n_segments, n_new),
                        end == n_segments,
                        start <= i <= end || (start >= end && i == start),
                        indices == new_segment_indices(n_segments, n_new),
                        out@.len() == if i >= start { i - start } else { 0 },
                        forall|k: int| 0 <= k < out@.len() ==> #[trigger] out@[k]
                            == (Invocation::Segment { handle: cb.handle, segment: (start + k) as i32, lossy: cb.lossy }),
                    decreases end - i,
                {
                    out.push(Invocation::Segment { handle: cb.handle, segment: i, lossy: cb.lossy });
                    i = i + 1;
                }
                assert(out@ =~= indices.map_values(
                    |j: i32| Invocation::Segment { handle: cb.handle, segment: j, lossy: cb.lossy },
                ));
            }
        },
    }
    out
}

/// What the new-segment closure receives for segment `segment`, given the
/// segment's timestamps and raw text: strict decoding skips a segment whose
/// text is not valid UTF-8; lossy decoding replaces the invalid sequences.
pub fn segment_data(segment: i32, t0: i64, t1: i64, text: &[u8], lossy: bool) -> (r: Option<
    SegmentCallbackData,
>)
    ensures
        r is Some <==> (lossy || valid_utf8(text@)),
        r is Some ==> r->Some_0.segment == segment && r->Some_0.start_timestamp == t0
            && r->Some_0.end_timestamp == t1,
        r is Some && !lossy ==> r->Some_0.text@ == decode_utf8(text@),
        r is Some && lossy ==> r->Some_0.text@ == lossy_text(text@),
{
    if lossy {
        let s = decode_text_lossy(text);
        Some(SegmentCallbackData { segment, start_timestamp: t0, end_timestamp: t1, text: s })
    } else {
        match decode_text(text) {
            Ok(s) => Some(SegmentCallbackData { segment, start_timestamp: t0, end_timestamp: t1, text: s }),
            Err(_) => None,
        }
    }
}

/// Once a category's closure is cleared, no engine call invokes a closure of
/// that category, whatever was registered before and whatever the engine reports.
pub proof fn lemma_cleared_callback_not_invoked(p: FullParams, e: EngineEvent)
    ensures
        forall|k: int| 0 <= k < invocations_for(FullParams { progress_callback: None, ..p }, e).len()
            ==> !(#[trigger] invocations_for(FullParams { progress_callback: None, ..p }, e)[k] is Progress),
        forall|k: int| 0 <= k < invocations_for(FullParams { abort_callback: None, ..p }, e).len()
            ==> !(#[trigger] invocations_for(FullParams { abort_callback: None, ..p }, e)[k] is Abort),
        forall|k: int| 0 <= k < invocations_for(FullParams { segment_callback: None, ..p }, e).len()
            ==> !(#[trigger] invocations_for(FullParams { segment_callback: None, ..p }, e)[k] is Segment),
{
}

/// Each new segment is reported once, in order: the new-segment invocations
/// name exactly the indices from the start of the new range to the segment count.
pub proof fn lemma_one_invocation_per_new_segment(p: FullParams, n_segments: i32, n_new: i32)
    requires
        p.segment_callback is Some,
        0 <= n_new <= n_segments,
    ensures
        invocations_for(p, EngineEvent::NewSegments { n_segments, n_new }).len() == n_new,
        forall|k: int| 0 <= k < n_new ==> #[trigger] invocations_for(
            p,
            EngineEvent::NewSegments { n_segments, n_new },
        )[k] == (Invocation::Segment {
            handle: p.segment_callback->Some_0.handle,
            segment: (n_segments - n_new + k) as i32,
            lossy: p.segment_callback->Some_0.lossy,
        }),
{
}

} // verus!
