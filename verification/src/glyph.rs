//! Hashing of glyph sections, by which a renderer tells whether a section changed.

use vstd::prelude::*;

verus! {

/// A "practically collision free" section hasher.
pub type DefaultSectionHasher = twox_hash::RandomXxHashBuilder;

} // verus!
