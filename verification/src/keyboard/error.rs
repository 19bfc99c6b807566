//! The ways in which a key string can be refused.

use vstd::prelude::*;

verus! {

/// Why a key string, or one part of it, was refused.
#[derive(Debug, PartialEq, Eq)]
pub enum KeyError {
    /// A part of a bracket group is empty.
    EmptyKeyName,
    /// A part is neither a key name, nor an escape name, nor one character.
    UnknownKeyName(String),
    /// The layout has no key that types the character.
    CharResolutionFailed(char),
    /// A `+` or `-` does not follow a key.
    SeparatorWithoutPrecedingKey,
    /// A bracket group holds no key.
    EmptyBracketGroup,
    /// A combination such as `<ctrl+c>` holds a `-`.
    MixedOperatorsInCombination,
    /// The text ends inside a bracket group.
    UnterminatedBracket,
    /// A hotkey names a modifier class twice.
    DuplicateModifier,
    /// A hotkey names more than one key that is no modifier.
    MultipleMainKeys,
    /// A hotkey names no key that is no modifier.
    NoMainKey,
}

/// A `KeyError` as contracts speak of it: the offending name is a sequence
/// of characters.
pub enum KeyFault {
    EmptyKeyName,
    UnknownKeyName(Seq<char>),
    CharResolutionFailed(char),
    SeparatorWithoutPrecedingKey,
    EmptyBracketGroup,
    MixedOperatorsInCombination,
    UnterminatedBracket,
    DuplicateModifier,
    MultipleMainKeys,
    NoMainKey,
}

impl View for KeyError {
    type V = KeyFault;

    open spec fn view(&self) -> KeyFault {
        match self {
            KeyError::EmptyKeyName => KeyFault::EmptyKeyName,
            KeyError::UnknownKeyName(name) => KeyFault::UnknownKeyName(name@),
            KeyError::CharResolutionFailed(c) => KeyFault::CharResolutionFailed(*c),
            KeyError::SeparatorWithoutPrecedingKey => KeyFault::SeparatorWithoutPrecedingKey,
            KeyError::EmptyBracketGroup => KeyFault::EmptyBracketGroup,
            KeyError::MixedOperatorsInCombination => KeyFault::MixedOperatorsInCombination,
            KeyError::UnterminatedBracket => KeyFault::UnterminatedBracket,
            KeyError::DuplicateModifier => KeyFault::DuplicateModifier,
            KeyError::MultipleMainKeys => KeyFault::MultipleMainKeys,
            KeyError::NoMainKey => KeyFault::NoMainKey,
        }
    }
}

} // verus!
