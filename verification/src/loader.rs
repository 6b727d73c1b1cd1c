//! The boundary to the loader of effect files.

use vstd::prelude::*;
use vstd::string::*;
use crate::text::owned;

verus! {

/// The loader of effect files. A file holds one effect in a textual form and
/// has the extension `effect`.
#[derive(Clone, Copy, Debug, PartialEq, Eq, Structural, Hash)]
pub struct EffectAssetLoader;

/// Why an effect could not be loaded. Reading and decoding fail apart, so
/// that a caller can tell data that could not be read from data that is
/// wrong.
#[derive(Debug, PartialEq, Eq, Hash)]
pub enum EffectAssetLoaderError {
    /// The source could not be read; the text says why.
    Io(String),
    /// The bytes read are not an effect; the text says where and why.
    Ron(String),
}

impl EffectAssetLoaderError {
    /// What the error says to a user.
    pub open spec fn message_spec(self) -> Seq<char> {
        match self {
            EffectAssetLoaderError::Io(_) => "An IO error occurred during loading of a particle effect"@,
            EffectAssetLoaderError::Ron(_) => "A RON format error occurred during loading of a particle effect"@,
        }
    }

    /// What the error says to a user.
    pub fn message(&self) -> (r: String)
        ensures
            r@ == self.message_spec(),
    {
        match self {
            EffectAssetLoaderError::Io(_) => owned(
                "An IO error occurred during loading of a particle effect",
            ),
            EffectAssetLoaderError::Ron(_) => owned(
                "A RON format error occurred during loading of a particle effect",
            ),
        }
    }

    /// Whether the error came from reading, not from decoding.
    pub fn is_io(&self) -> (r: bool)
        ensures
            r == (*self is Io),
    {
        match self {
            EffectAssetLoaderError::Io(_) => true,
            EffectAssetLoaderError::Ron(_) => false,
        }
    }
}

impl EffectAssetLoader {
    /// The extensions of the files that the loader takes: `effect` alone.
    pub fn extensions(&self) -> (r: Vec<&'static str>)
        ensures
            r@.len() == 1,
            r@[0]@ == "effect"@,
    {
        let mut r: Vec<&'static str> = Vec::new();
        r.push("effect");
        r
    }
}

impl Default for EffectAssetLoader {
    fn default() -> (r: EffectAssetLoader) {
        EffectAssetLoader
    }
}

} // verus!
