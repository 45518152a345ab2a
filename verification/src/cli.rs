//! The operator's options for shaping the generated commit message.

use vstd::prelude::*;

verus! {

/// Tone and structural convention of the generated message.
#[derive(Clone, Copy, Debug, PartialEq, Eq, Structural)]
pub enum Format {
    Casual,
    Formal,
}

/// The recognized message options, fully resolved before any prompt is
/// built: an optional starting word, words to include, the target language,
/// and the format.
#[derive(Clone, Debug)]
pub struct Args {
    pub start: Option<String>,
    pub included: Option<Vec<String>>,
    pub lang: Option<String>,
    pub format: Option<Format>,
}

} // verus!
