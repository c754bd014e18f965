//! Flattened grammar rules and their conversion to the engine's layout.
use vstd::prelude::*;

verus! {

/// The kind of one element of a flattened grammar rule list.
#[derive(Debug, Clone, Copy, PartialEq, Eq, Hash, Structural)]
pub enum WhisperGrammarElementType {
    /// End of rule definition
    End,
    /// Start of alternate definition for a rule
    Alternate,
    /// Non-terminal element: reference to another rule
    RuleReference,
    /// Terminal element: character (code point)
    Character,
    /// Inverse of a character(s)
    NotCharacter,
    /// Modifies a preceding `Character` to be an inclusive range
    CharacterRangeUpper,
    /// Modifies a preceding `Character` to add an alternate character to match
    CharacterAlternate,
}

/// The engine's numeric code for each element kind.
pub open spec fn kind_code(t: WhisperGrammarElementType) -> u32 {
    match t {
        WhisperGrammarElementType::End => 0,
        WhisperGrammarElementType::Alternate => 1,
        WhisperGrammarElementType::RuleReference => 2,
        WhisperGrammarElementType::Character => 3,
        WhisperGrammarElementType::NotCharacter => 4,
        WhisperGrammarElementType::CharacterRangeUpper => 5,
        WhisperGrammarElementType::CharacterAlternate => 6,
    }
}

/// Largest code that names an element kind.
pub const MAX_GRAMMAR_KIND_CODE: u32 = 6;

impl WhisperGrammarElementType {
    /// The engine's code for this kind.
    pub fn code(self) -> (r: u32)
        ensures
            r == kind_code(self),
            r <= MAX_GRAMMAR_KIND_CODE,
    {
        match self {
            WhisperGrammarElementType::End => 0,
            WhisperGrammarElementType::Alternate => 1,
            WhisperGrammarElementType::RuleReference => 2,
            WhisperGrammarElementType::Character => 3,
            WhisperGrammarElementType::NotCharacter => 4,
            WhisperGrammarElementType::CharacterRangeUpper => 5,
            WhisperGrammarElementType::CharacterAlternate => 6,
        }
    }

    /// The kind that the engine's code names.
    pub fn from_code(value: u32) -> (r: Self)
        requires
            value <= MAX_GRAMMAR_KIND_CODE,
        ensures
            kind_code(r) == value,
    {
        if value == 0 {
            WhisperGrammarElementType::End
        } else if value == 1 {
            WhisperGrammarElementType::Alternate
        } else if value == 2 {
            WhisperGrammarElementType::RuleReference
        } else if value == 3 {
            WhisperGrammarElementType::Character
        } else if value == 4 {
            WhisperGrammarElementType::NotCharacter
        } else if value == 5 {
            WhisperGrammarElementType::CharacterRangeUpper
        } else {
            WhisperGrammarElementType::CharacterAlternate
        }
    }
}

/// One grammar element: a kind and a code point or rule id.
#[derive(Debug, Clone, Copy, PartialEq, Eq, Hash, Structural)]
pub struct WhisperGrammarElement {
    pub element_type: WhisperGrammarElementType,
    pub value: u32,
}

/// A grammar element in the engine's layout: the kind as its numeric code.
#[derive(Debug, Clone, Copy, PartialEq, Eq, Structural)]
pub struct GrammarElementRecord {
    pub type_: u32,
    pub value: u32,
}

/// The engine-layout record of a grammar element.
pub open spec fn record_of(e: WhisperGrammarElement) -> GrammarElementRecord {
    GrammarElementRecord { type_: kind_code(e.element_type), value: e.value }
}

impl WhisperGrammarElement {
    pub fn new(element_type: WhisperGrammarElementType, value: u32) -> (r: Self)
        ensures
            r.element_type == element_type,
            r.value == value,
    {
        WhisperGrammarElement { element_type, value }
    }

    /// Converts this element to the engine's layout.
    pub fn to_c_type(self) -> (r: GrammarElementRecord)
        ensures
            r == record_of(self),
    {
        GrammarElementRecord { type_: self.element_type.code(), value: self.value }
    }
}

/// Converts a whole rule list, element by element, in order.
pub fn engine_grammar(rules: &[WhisperGrammarElement]) -> (r: Vec<GrammarElementRecord>)
    ensures
        r@.len() == rules@.len(),
        forall|i: int| 0 <= i < rules@.len() ==> r@[i] == record_of(#[trigger] rules@[i]),
{
    let mut out: Vec<GrammarElementRecord> = Vec::new();
    let mut i: usize = 0;
    while i < rules.len()
        invariant
            i <= rules@.len(),
            out@.len() == i,
            forall|j: int| 0 <= j < i ==> out@[j] == record_of(#[trigger] rules@[j]),
        decreases rules@.len() - i,
    {
        out.push(rules[i].to_c_type());
        i = i + 1;
    }
    out
}

} // verus!
