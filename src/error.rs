//! Errors of the codec.
use vstd::prelude::*;

verus! {

/// What can go wrong while encoding positions or loading the vocabulary.
#[derive(Clone, Copy, Debug, PartialEq, Eq, Structural)]
pub enum MaiaError {
    /// A position text could not be parsed.
    InvalidFen,
    /// A position is not legal for the rules engine.
    InvalidPosition,
    /// Inputs or outputs of a batch do not have the expected lengths.
    ShapeError,
    /// The move vocabulary text is malformed.
    VocabularyError,
}

} // verus!
