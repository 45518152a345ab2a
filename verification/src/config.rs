//! The operator's yes/no/default-yes decision over a drafted commit
//! message.

use vstd::prelude::*;
use vstd::string::*;
use crate::text::{trim_spec, trim_str};

verus! {

/// What `str::to_lowercase` returns for a given string: a function of the
/// characters alone.
pub uninterp spec fn lower_of(s: Seq<char>) -> Seq<char>;

/// Relies on str::to_lowercase for Unicode lowercasing; its result depends
/// on the input characters alone.
#[verifier::external_body]
fn to_lower(s: &str) -> (r: String)
    ensures
        r@ == lower_of(s@),
{
    s.to_lowercase()
}

/// A confirmation line approves the commit when, after trimming, it is
/// empty or lowercases to exactly "y".
pub open spec fn affirmative_spec(s: Seq<char>) -> bool {
    trim_spec(s).len() == 0 || lower_of(trim_spec(s)) == seq!['y']
}

/// Decide the operator's answer: an empty line or a lone "y" (in either
/// case) is affirmative; anything else declines.
pub fn confirm_commit(buffer: &str) -> (r: bool)
    ensures
        r == affirmative_spec(buffer@),
{
    let input = trim_str(buffer);
    if input.unicode_len() == 0 {
        return true;
    }
    let low = to_lower(input);
    let l = low.as_str();
    if l.unicode_len() == 1 && l.get_char(0) == 'y' {
        proof {
            assert(lower_of(trim_spec(buffer@)) =~= seq!['y']);
        }
        true
    } else {
        proof {
            if lower_of(trim_spec(buffer@)) == seq!['y'] {
                assert(l@.len() == 1 && l@[0] == 'y');
            }
        }
        false
    }
}

/// Normalize one line of operator input as the original pipeline presents
/// it: trimmed, then lowercased.
pub fn normalize_input(s: &str) -> (r: String)
    ensures
        r@ == lower_of(trim_spec(s@)),
{
    let t = trim_str(s);
    to_lower(t)
}

} // verus!
