//! Error kinds of the library: structural decode failures, outcome
//! extraction failures, and rating failures.

use vstd::prelude::*;

verus! {

/// Why a replay byte stream was rejected by the decoder.
#[derive(Debug, Clone, Copy, PartialEq, Eq, Structural)]
pub enum DecodeError {
    /// The stream ended before a mandatory field was complete.
    ShortRead,
    /// A text field did not hold valid UTF-8.
    InvalidUtf8,
    /// A replay block carried a tag outside the documented set.
    UnknownBlockTag,
    /// An action carried a tag outside the documented set.
    UnknownActionTag,
    /// A byte did not name any value of an enumerated type.
    InvalidEnumValue,
    /// A length field was too small for the fields it must cover,
    /// or the actions of a command did not land exactly on its length.
    LengthMismatch,
    /// A chat message did not end in a zero byte.
    MissingTerminator,
    /// A compressed block could not be decompressed.
    Decompress,
}

/// Why no game result could be extracted from a decoded replay.
#[derive(Debug, Clone, Copy, PartialEq, Eq, Structural)]
pub enum ExtractError {
    /// A player record carried the on-wire id zero, which has no slot.
    BadPlayerId,
    /// After replaying the action stream one of the two teams was empty.
    EmptyTeam,
}

/// Why a rating update was refused.
#[derive(Debug, Clone, Copy, PartialEq, Eq, Structural)]
pub enum RatingError {
    /// A side of the match had no players.
    EmptyTeam,
    /// The rater handed back lists whose lengths do not match the
    /// rosters.
    MismatchedRatings,
}

} // verus!
