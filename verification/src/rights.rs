//! Opaque bit patterns supplied by the rights- and attribute-encoding
//! collaborator.
//!
//! This layer never interprets these words; it carries them into the request
//! exactly as given.

use vstd::prelude::*;

use crate::Word;

verus! {

/// An already-encoded access-rights pattern, passed through opaquely.
#[derive(Clone, Copy, Debug, PartialEq, Eq, Structural)]
pub struct CapRights {
    /// The encoded pattern as the wire format carries it.
    pub word: Word,
}

impl CapRights {
    /// Wrap an encoded rights pattern; no interpretation.
    pub fn from_word(word: Word) -> (r: CapRights)
        ensures
            r.word == word,
    {
        CapRights { word }
    }

    /// The encoded pattern, for marshaling.
    pub fn into_inner(self) -> (r: Word)
        ensures
            r == self.word,
    {
        self.word
    }
}

/// An already-encoded memory-attribute pattern, passed through opaquely.
#[derive(Clone, Copy, Debug, PartialEq, Eq, Structural)]
pub struct VmAttributes {
    /// The encoded pattern as the wire format carries it.
    pub word: Word,
}

impl VmAttributes {
    /// Wrap an encoded attribute pattern; no interpretation.
    pub fn from_word(word: Word) -> (r: VmAttributes)
        ensures
            r.word == word,
    {
        VmAttributes { word }
    }

    /// The encoded pattern, for marshaling.
    pub fn into_inner(self) -> (r: Word)
        ensures
            r == self.word,
    {
        self.word
    }
}

impl Default for VmAttributes {
    /// The attribute pattern an invocation uses when the caller asks for
    /// nothing special: all bits clear.
    fn default() -> (r: VmAttributes)
        ensures
            r.word == 0,
    {
        VmAttributes { word: 0 }
    }
}

impl Default for CapRights {
    /// The rights pattern conferring nothing: all bits clear.
    fn default() -> (r: CapRights)
        ensures
            r.word == 0,
    {
        CapRights { word: 0 }
    }
}

} // verus!
