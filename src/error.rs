//! The closed set of failures and the mapping of raw engine status codes.
use vstd::prelude::*;
use vstd::string::StringExecFns;

verus! {

/// Every failure this layer reports.
#[derive(Debug, Clone, Copy, PartialEq, Eq, Structural)]
pub enum WhisperError {
    /// Failed to create a new context.
    InitError,
    /// The spectrogram was not initialized.
    SpectrogramNotInitialized,
    /// Encode was not called.
    EncodeNotComplete,
    /// Decode was not called.
    DecodeNotComplete,
    /// Failed to calculate the spectrogram.
    UnableToCalculateSpectrogram,
    /// Failed to evaluate the model.
    UnableToCalculateEvaluation,
    /// Failed to run the encoder.
    FailedToEncode,
    /// Failed to run the decoder.
    FailedToDecode,
    /// Invalid number of mel bands.
    InvalidMelBands,
    /// Invalid thread count.
    InvalidThreadCount,
    /// Invalid UTF-8 in a string produced by the engine.
    InvalidUtf8 { error_len: Option<usize>, valid_up_to: usize },
    /// A NUL byte was found in a caller-supplied string.
    NullByteInString { idx: usize },
    /// The engine returned a null pointer.
    NullPointer,
    /// An engine status code with no more specific meaning.
    GenericError(i32),
    /// The engine failed to convert the provided text into tokens.
    InvalidText,
    /// Creating a decode state failed.
    FailedToCreateState,
    /// No samples were provided.
    NoSamples,
    /// Input and output slices were not the same length.
    InputOutputLengthMismatch { input_len: usize, output_len: usize },
    /// Input slice held an odd number of interleaved stereo samples.
    HalfSampleMissing(usize),
}

/// The decimal digit `d`.
pub open spec fn digit_char(d: nat) -> char {
    seq!['0', '1', '2', '3', '4', '5', '6', '7', '8', '9'][d as int]
}

/// Decimal notation of `n`, without leading zeros.
pub open spec fn decimal(n: nat) -> Seq<char>
    decreases n,
{
    if n < 10 {
        seq![digit_char(n)]
    } else {
        decimal(n / 10).push(digit_char(n % 10))
    }
}

/// Decimal notation of `n`, with a leading minus sign when negative.
pub open spec fn signed_decimal(n: int) -> Seq<char> {
    if n < 0 {
        seq!['-'] + decimal((-n) as nat)
    } else {
        decimal(n as nat)
    }
}

/// Relies on the `Display` impl of `u128` (through `to_string`): plain
/// decimal notation.
#[verifier::external_body]
fn decimal_string(n: u128) -> (r: String)
    ensures
        r@ == decimal(n as nat),
{
    n.to_string()
}

fn signed_decimal_string(n: i32) -> (r: String)
    ensures
        r@ == signed_decimal(n as int),
{
    if n < 0 {
        let digits = decimal_string((-(n as i64)) as u128);
        proof {
            reveal_strlit("-");
        }
        String::from_str("-").concat(digits.as_str())
    } else {
        decimal_string(n as u128)
    }
}

/// The human-readable description of an error.
pub open spec fn message_of(e: WhisperError) -> Seq<char> {
    match e {
        WhisperError::InitError => "Failed to create a new whisper context."@,
        WhisperError::SpectrogramNotInitialized => "User didn't initialize spectrogram."@,
        WhisperError::EncodeNotComplete => "Encode was not called."@,
        WhisperError::DecodeNotComplete => "Decode was not called."@,
        WhisperError::UnableToCalculateSpectrogram =>
            "Failed to calculate the spectrogram for some reason."@,
        WhisperError::UnableToCalculateEvaluation => "Failed to evaluate model."@,
        WhisperError::FailedToEncode => "Failed to run the encoder."@,
        WhisperError::FailedToDecode => "Failed to run the decoder."@,
        WhisperError::InvalidMelBands => "Invalid number of mel bands."@,
        WhisperError::InvalidThreadCount => "Invalid thread count."@,
        WhisperError::InvalidUtf8 { error_len, valid_up_to } => match error_len {
            Some(len) => "Invalid UTF-8 detected in a string from Whisper. Index: "@
                + decimal(valid_up_to as nat) + ", Length: "@ + decimal(len as nat) + "."@,
            None => "Invalid UTF-8 detected in a string from Whisper. Index: "@
                + decimal(valid_up_to as nat) + "."@,
        },
        WhisperError::NullByteInString { idx } =>
            "A null byte was detected in a user-provided string. Index: "@ + decimal(idx as nat),
        WhisperError::NullPointer => "Whisper returned a null pointer."@,
        WhisperError::GenericError(code) =>
            "Generic whisper error. Varies depending on the function. Error code: "@
                + signed_decimal(code as int),
        WhisperError::InvalidText => "Whisper failed to convert the provided text into tokens."@,
        WhisperError::FailedToCreateState => "Creating a state pointer failed."@,
        WhisperError::NoSamples => "Input sample buffer was empty."@,
        WhisperError::InputOutputLengthMismatch { input_len, output_len } =>
            "Input and output slices were not the same length. Input: "@ + decimal(input_len as nat)
                + ", Output: "@ + decimal(output_len as nat),
        WhisperError::HalfSampleMissing(size) =>
            "Input slice was not an even number of samples, got "@ + decimal(size as nat)
                + ", expected "@ + decimal(size as nat + 1),
    }
}

impl WhisperError {
    /// The human-readable description of this error.
    pub fn message(&self) -> (r: String)
        ensures
            r@ == message_of(*self),
    {
        match *self {
            WhisperError::InitError => String::from_str("Failed to create a new whisper context."),
            WhisperError::SpectrogramNotInitialized => String::from_str("User didn't initialize spectrogram."),
            WhisperError::EncodeNotComplete => String::from_str("Encode was not called."),
            WhisperError::DecodeNotComplete => String::from_str("Decode was not called."),
            WhisperError::UnableToCalculateSpectrogram => String::from_str(
                "Failed to calculate the spectrogram for some reason.",
            ),
            WhisperError::UnableToCalculateEvaluation => String::from_str("Failed to evaluate model."),
            WhisperError::FailedToEncode => String::from_str("Failed to run the encoder."),
            WhisperError::FailedToDecode => String::from_str("Failed to run the decoder."),
            WhisperError::InvalidMelBands => String::from_str("Invalid number of mel bands."),
            WhisperError::InvalidThreadCount => String::from_str("Invalid thread count."),
            WhisperError::InvalidUtf8 { error_len, valid_up_to } => {
                let head = String::from_str("Invalid UTF-8 detected in a string from Whisper. Index: ")
                    .concat(decimal_string(valid_up_to as u128).as_str());
                match error_len {
                    Some(len) => head.concat(", Length: ").concat(decimal_string(len as u128).as_str()).concat("."),
                    None => head.concat("."),
                }
            },
            WhisperError::NullByteInString { idx } => String::from_str(
                "A null byte was detected in a user-provided string. Index: ",
            ).concat(decimal_string(idx as u128).as_str()),
            WhisperError::NullPointer => String::from_str("Whisper returned a null pointer."),
            WhisperError::GenericError(code) => String::from_str(
                "Generic whisper error. Varies depending on the function. Error code: ",
            ).concat(signed_decimal_string(code).as_str()),
            WhisperError::InvalidText => String::from_str(
                "Whisper failed to convert the provided text into tokens.",
            ),
            WhisperError::FailedToCreateState => String::from_str("Creating a state pointer failed."),
            WhisperError::NoSamples => String::from_str("Input sample buffer was empty."),
            WhisperError::InputOutputLengthMismatch { input_len, output_len } => String::from_str(
                "Input and output slices were not the same length. Input: ",
            ).concat(decimal_string(input_len as u128).as_str()).concat(", Output: ").concat(
                decimal_string(output_len as u128).as_str(),
            ),
            WhisperError::HalfSampleMissing(size) => String::from_str(
                "Input slice was not an even number of samples, got ",
            ).concat(decimal_string(size as u128).as_str()).concat(", expected ").concat(
                decimal_string(size as u128 + 1).as_str(),
            ),
        }
    }
}

} // verus!
