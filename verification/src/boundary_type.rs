use vstd::prelude::*;

verus! {

/// SpeechSynthesisBoundaryType defines the boundary type of a speech
/// synthesis boundary event.
#[derive(Debug, Clone, Copy, PartialEq, Eq, Structural)]
pub enum SpeechSynthesisBoundaryType {
    /// WordBoundary indicates word boundary.
    WordBoundary,
    /// PunctuationBoundary indicates punctuation boundary.
    PunctuationBoundary,
    /// SentenceBoundary indicates sentence boundary.
    SentenceBoundary,
}

/// The boundary type the native engine encodes as the given value:
/// zero is a word boundary, one a punctuation boundary, and every
/// other value a sentence boundary.
pub open spec fn boundary_of_u32(value: u32) -> SpeechSynthesisBoundaryType {
    if value == 0 {
        SpeechSynthesisBoundaryType::WordBoundary
    } else if value == 1 {
        SpeechSynthesisBoundaryType::PunctuationBoundary
    } else {
        SpeechSynthesisBoundaryType::SentenceBoundary
    }
}

impl SpeechSynthesisBoundaryType {
    /// Decodes the unsigned event payload value the engine delivers.
    pub fn from_u32(value: u32) -> (r: Self)
        ensures
            r == boundary_of_u32(value),
    {
        match value {
            0 => SpeechSynthesisBoundaryType::WordBoundary,
            1 => SpeechSynthesisBoundaryType::PunctuationBoundary,
            _ => SpeechSynthesisBoundaryType::SentenceBoundary,
        }
    }

    /// Decodes the signed form of the event payload value, reinterpreting
    /// the bits as unsigned as the native layer does.
    pub fn from_i32(value: i32) -> (r: Self)
        ensures
            r == boundary_of_u32(value as u32),
    {
        SpeechSynthesisBoundaryType::from_u32(#[verifier::truncate] (value as u32))
    }
}

} // verus!
