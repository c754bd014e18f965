//! Text crossing the boundary: caller strings going in, engine strings coming out.
//!
//! Caller text must not hold a NUL byte, since the engine reads it as a
//! terminated string; that is checked before any call. Text coming back is
//! decoded either strictly, reporting where the invalid sequence starts, or
//! lossily, with replacement characters.
use vstd::prelude::*;
use vstd::utf8::{decode_utf8, valid_utf8};
use vstd::string::StringSliceAdditionalSpecFns;

use crate::error::WhisperError;

verus! {

/// Whether `b` holds a NUL byte.
pub open spec fn has_nul(b: Seq<u8>) -> bool {
    exists|i: int| 0 <= i < b.len() && b[i] == 0
}

/// `i` is the position of the first NUL byte of `b`.
pub open spec fn is_first_nul(b: Seq<u8>, i: int) -> bool {
    &&& 0 <= i < b.len()
    &&& b[i] == 0
    &&& forall|j: int| 0 <= j < i ==> b[j] != 0
}

/// `v` is the length of the longest valid UTF-8 prefix of `b`, and `b` is not
/// valid as a whole.
pub open spec fn is_valid_prefix_len(b: Seq<u8>, v: int) -> bool {
    &&& 0 <= v < b.len()
    &&& valid_utf8(b.subrange(0, v))
    &&& forall|j: int| v < j <= b.len() ==> !valid_utf8(#[trigger] b.subrange(0, j))
}

/// What lossy decoding of `b` yields: invalid sequences become replacement
/// characters.
pub uninterp spec fn lossy_text(b: Seq<u8>) -> Seq<char>;

/// Relies on `std::str::from_utf8`: success exactly on valid UTF-8, with the
/// decoded characters; on failure, the longest valid prefix and the length of
/// the offending sequence (`None` when the input ends inside a sequence).
#[verifier::external_body]
fn utf8_str(b: &[u8]) -> (r: Result<&str, (usize, Option<usize>)>)
    ensures
        r is Ok <==> valid_utf8(b@),
        r is Ok ==> r->Ok_0@ == decode_utf8(b@),
        r is Err ==> is_valid_prefix_len(b@, r->Err_0.0 as int),
        r is Err && r->Err_0.1 is Some ==> 1 <= r->Err_0.1->Some_0 <= 3
            && r->Err_0.0 + r->Err_0.1->Some_0 <= b@.len(),
{
    match std::str::from_utf8(b) {
        Ok(s) => Ok(s),
        Err(e) => Err((e.valid_up_to(), e.error_len())),
    }
}

/// Relies on `String::from_utf8_lossy`, which leaves valid UTF-8 as it is.
#[verifier::external_body]
fn utf8_lossy(b: &[u8]) -> (r: String)
    ensures
        r@ == lossy_text(b@),
        valid_utf8(b@) ==> r@ == decode_utf8(b@),
{
    String::from_utf8_lossy(b).into_owned()
}

/// Strict decoding of engine text.
pub fn decode_text(bytes: &[u8]) -> (r: Result<String, WhisperError>)
    ensures
        r is Ok <==> valid_utf8(bytes@),
        r is Ok ==> r->Ok_0@ == decode_utf8(bytes@),
        r is Err ==> (match r->Err_0 {
            WhisperError::InvalidUtf8 { error_len, valid_up_to } =>
                is_valid_prefix_len(bytes@, valid_up_to as int)
                && (error_len is Some ==> 1 <= error_len->Some_0 <= 3
                    && valid_up_to + error_len->Some_0 <= bytes@.len()),
            _ => false,
        }),
{
    match utf8_str(bytes) {
        Ok(s) => Ok(s.to_owned()),
        Err((valid_up_to, error_len)) => Err(WhisperError::InvalidUtf8 { error_len, valid_up_to }),
    }
}

/// Lossy decoding of engine text; valid UTF-8 decodes exactly.
pub fn decode_text_lossy(bytes: &[u8]) -> (r: String)
    ensures
        r@ == lossy_text(bytes@),
        valid_utf8(bytes@) ==> r@ == decode_utf8(bytes@),
{
    utf8_lossy(bytes)
}

/// The NUL-terminated bytes of caller text, or the position of the first NUL
/// byte inside it.
pub fn c_string(text: &str) -> (r: Result<Vec<u8>, WhisperError>)
    ensures
        r is Ok <==> !has_nul(text.spec_bytes()),
        r is Ok ==> r->Ok_0@ == text.spec_bytes().push(0u8),
        r is Err ==> (match r->Err_0 {
            WhisperError::NullByteInString { idx } => is_first_nul(text.spec_bytes(), idx as int),
            _ => false,
        }),
{
    let b = text.as_bytes();
    let mut out: Vec<u8> = Vec::new();
    let mut i: usize = 0;
    while i < b.len()
        invariant
            b@ == text.spec_bytes(),
            i <= b@.len(),
            out@ == b@.subrange(0, i as int),
            forall|j: int| 0 <= j < i ==> b@[j] != 0,
        decreases b@.len() - i,
    {
        if b[i] == 0 {
            return Err(WhisperError::NullByteInString { idx: i });
        }
        out.push(b[i]);
        i = i + 1;
    }
    assert(out@ == b@);
    out.push(0u8);
    Ok(out)
}

} // verus!
