//! What surrounds one call of the PNG optimiser: the fixed settings it is
//! given, and how its result is turned into an outcome.

use vstd::prelude::*;

verus! {

/// The error type of `oxipng`. Nothing is read from a value of it: an
/// optimisation that returns one has failed, whatever the reason.
#[verifier::external_type_specification]
#[verifier::external_body]
pub struct ExPngError(oxipng::PngError);

/// The optimisation preset every file is compressed with.
pub const COMPRESSION_PRESET: u8 = 5;

/// The time, in seconds, that the optimiser may spend on one file.
pub const COMPRESSION_TIMEOUT_SECS: u64 = 2;

/// How the compression of one file ended.
#[derive(Debug, Clone, Copy, PartialEq, Eq, Structural)]
pub enum CompressionOutcome {
    /// The optimiser returned successfully.
    Done,
    /// The optimiser returned an error: the file could not be read, is not a
    /// valid PNG, or could not be written.
    Error,
}

impl CompressionOutcome {
    /// The outcome that a result of the optimiser stands for.
    pub open spec fn of<T>(result: Result<T, oxipng::PngError>) -> CompressionOutcome {
        if result is Ok {
            CompressionOutcome::Done
        } else {
            CompressionOutcome::Error
        }
    }

    /// The text that reports an outcome: `done` or `error`.
    pub open spec fn sentinel_text(self) -> Seq<char> {
        match self {
            CompressionOutcome::Done => "done"@,
            CompressionOutcome::Error => "error"@,
        }
    }

    /// Two runs of the optimiser that agree on success or failure are
    /// reported alike, whatever else their results hold.
    pub proof fn law_same_verdict_same_outcome<T>(
        first: Result<T, oxipng::PngError>,
        second: Result<T, oxipng::PngError>,
    )
        requires
            first is Ok <==> second is Ok,
        ensures
            CompressionOutcome::of(first) == CompressionOutcome::of(second),
            CompressionOutcome::of(first).sentinel_text() == CompressionOutcome::of(
                second,
            ).sentinel_text(),
    {
    }

    /// Turns a result of the optimiser into an outcome. The error, if there
    /// is one, is absorbed: it decides the outcome and goes no further.
    pub fn from_result<T>(result: &Result<T, oxipng::PngError>) -> (outcome: CompressionOutcome)
        ensures
            outcome == CompressionOutcome::of(*result),
    {
        match result {
            Ok(_) => CompressionOutcome::Done,
            Err(_) => CompressionOutcome::Error,
        }
    }

    /// The text that reports this outcome.
    pub fn sentinel(self) -> (text: &'static str)
        ensures
            text@ == self.sentinel_text(),
    {
        match self {
            CompressionOutcome::Done => "done",
            CompressionOutcome::Error => "error",
        }
    }
}

} // verus!
