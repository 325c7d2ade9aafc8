use vstd::prelude::*;

verus! {

/// Which call-site slot a conversion error refers to.
#[derive(Debug, Clone, Copy, PartialEq, Eq, Structural)]
pub enum Position {
    /// The receiver (`self`) slot of a method call.
    Receiver,
    /// A positional argument slot, zero-indexed.
    Index(usize),
}

/// Why a handle failed to convert to the requested native type.
#[derive(Debug, Clone, Copy, PartialEq, Eq, Structural)]
pub enum ConvReason {
    /// The handle's host type is not the one the conversion accepts.
    WrongType,
    /// A numeric handle lies outside the target type's range.
    OutOfRange,
    /// A string handle is not encoded as the conversion requires.
    InvalidEncoding,
    /// An aggregate handle has the wrong number of elements.
    WrongLength,
}

/// Description of a failed conversion: why it failed and what was expected.
/// Conversion contracts state their error cases in terms of this record.
pub struct ConvFail {
    pub reason: ConvReason,
    pub expected: Seq<char>,
}

/// The normalised error of the dispatch core. Every failure funnels into one
/// of these before control returns towards the host; the embedding layer
/// turns the value into a host exception object and raises it.
#[derive(Debug, Clone, PartialEq, Eq)]
pub enum Error {
    /// A call-site handle could not be converted to the requested native
    /// type. Carries the slot that failed (filled in by the adapter that
    /// knows it), why it failed, and a description of what was expected.
    Conversion { position: Option<Position>, reason: ConvReason, expected: String },
    /// The wrapped user function reported a typed failure of its own.
    User { message: String },
    /// A native unwind was intercepted at the boundary; the payload is the
    /// panic message when one could be captured.
    CaughtUnwind { message: Option<String> },
}

impl Error {
    /// A conversion error that has not yet been tied to a call-site slot,
    /// described by the given record.
    pub open spec fn is_conversion_failure(self, f: ConvFail) -> bool {
        self matches Error::Conversion { position, reason, expected } && position is None
            && reason == f.reason && expected@ == f.expected
    }

    /// A conversion error tied to the call-site slot `p`, described by the
    /// given record.
    pub open spec fn is_conversion_failure_at(self, p: Position, f: ConvFail) -> bool {
        self matches Error::Conversion { position, reason, expected } && position == Some(p)
            && reason == f.reason && expected@ == f.expected
    }

    /// Build a conversion error that is not yet tied to a call-site slot.
    pub fn conversion(reason: ConvReason, expected: &str) -> (e: Error)
        ensures
            e.is_conversion_failure(ConvFail { reason, expected: expected@ }),
    {
        Error::Conversion { position: None, reason, expected: expected.to_owned() }
    }

    /// Tie a conversion error to the call-site slot it arose from; any other
    /// error passes through unchanged.
    pub fn at_position(self, p: Position) -> (r: Error)
        ensures
            self matches Error::Conversion { position: _, reason, expected } ==> r
                == (Error::Conversion { position: Some(p), reason, expected }),
            !(self is Conversion) ==> r == self,
    {
        match self {
            Error::Conversion { position: _, reason, expected } => Error::Conversion {
                position: Some(p),
                reason,
                expected,
            },
            other => other,
        }
    }
}

} // verus!
