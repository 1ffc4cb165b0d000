use vstd::prelude::*;

verus! {

/// Every way a decode can fail.  All of these are ordinary return values:
/// a hostile or truncated stream never causes a panic or an out-of-bounds
/// read.
#[derive(Clone, Copy, Debug, PartialEq, Eq, Structural)]
pub enum DecodeError {
    /// A read would have run past the end of the buffer.
    OutOfBounds,
    /// Fewer bytes remain than the fixed-size message header needs.
    TruncatedMessage,
    /// Fewer bytes remain than the fixed-size record header needs.
    TruncatedRecord,
    /// The resource-manager id is outside the closed registry.
    UnknownResourceManager(u8),
    /// A block-id byte is neither an ordinary reference id nor a known
    /// sentinel.
    InvalidBlockId(u8),
    /// A log-position string is not two hex numbers joined by `/`.
    MalformedLogPosition,
}

/// The short description each error reads back as.
pub open spec fn error_text(e: DecodeError) -> Seq<char> {
    match e {
        DecodeError::OutOfBounds => "read out of bounds"@,
        DecodeError::TruncatedMessage => "truncated message header"@,
        DecodeError::TruncatedRecord => "truncated record header"@,
        DecodeError::UnknownResourceManager(_) => "unknown resource manager"@,
        DecodeError::InvalidBlockId(_) => "invalid block id"@,
        DecodeError::MalformedLogPosition => "malformed log position"@,
    }
}

impl DecodeError {
    /// Short human-readable description of the error.
    pub fn describe(&self) -> (r: String)
        ensures
            r@ == error_text(*self),
    {
        match self {
            DecodeError::OutOfBounds => String::from_str("read out of bounds"),
            DecodeError::TruncatedMessage => String::from_str("truncated message header"),
            DecodeError::TruncatedRecord => String::from_str("truncated record header"),
            DecodeError::UnknownResourceManager(_) => String::from_str(
                "unknown resource manager",
            ),
            DecodeError::InvalidBlockId(_) => String::from_str("invalid block id"),
            DecodeError::MalformedLogPosition => String::from_str("malformed log position"),
        }
    }
}

} // verus!
