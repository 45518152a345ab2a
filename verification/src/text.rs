//! Character-level text handling: whitespace trimming and the rule that
//! reduces a backend reply to a single commit subject line.

use vstd::prelude::*;
use vstd::string::*;

verus! {

/// The characters with the Unicode `White_Space` property, the ones that
/// trimming removes from either end of a string.
pub open spec fn is_wsp(c: char) -> bool {
    ||| c == ' '
    ||| c == '\t'
    ||| c == '\n'
    ||| c == '\u{0B}'
    ||| c == '\u{0C}'
    ||| c == '\r'
    ||| c == '\u{85}'
    ||| c == '\u{A0}'
    ||| c == '\u{1680}'
    ||| (0x2000 <= c as u32 && c as u32 <= 0x200A)
    ||| c == '\u{2028}'
    ||| c == '\u{2029}'
    ||| c == '\u{202F}'
    ||| c == '\u{205F}'
    ||| c == '\u{3000}'
}

pub open spec fn trim_start_spec(s: Seq<char>) -> Seq<char>
    decreases s.len(),
{
    if s.len() > 0 && is_wsp(s[0]) {
        trim_start_spec(s.drop_first())
    } else {
        s
    }
}

pub open spec fn trim_end_spec(s: Seq<char>) -> Seq<char>
    decreases s.len(),
{
    if s.len() > 0 && is_wsp(s.last()) {
        trim_end_spec(s.drop_last())
    } else {
        s
    }
}

/// What is left of `s` after removing leading and trailing whitespace.
pub open spec fn trim_spec(s: Seq<char>) -> Seq<char> {
    trim_start_spec(trim_end_spec(s))
}

/// The prefix of `s` up to, but not including, its first newline.
pub open spec fn first_line_spec(s: Seq<char>) -> Seq<char>
    decreases s.len(),
{
    if s.len() == 0 {
        s
    } else if s[0] == '\n' {
        Seq::<char>::empty()
    } else {
        seq![s[0]] + first_line_spec(s.drop_first())
    }
}

/// The extraction rule applied to a raw reply: trim both ends, then keep
/// only the first line.
pub open spec fn extract_spec(s: Seq<char>) -> Seq<char> {
    first_line_spec(trim_spec(s))
}

pub fn is_whitespace_char(c: char) -> (r: bool)
    ensures
        r == is_wsp(c),
{
    c == ' ' || c == '\t' || c == '\n' || c == '\u{0B}' || c == '\u{0C}' || c == '\r'
        || c == '\u{85}' || c == '\u{A0}' || c == '\u{1680}'
        || (0x2000 <= c as u32 && c as u32 <= 0x200A) || c == '\u{2028}' || c == '\u{2029}'
        || c == '\u{202F}' || c == '\u{205F}' || c == '\u{3000}'
}

proof fn lemma_trim_start_scan(s: Seq<char>, i: int)
    requires
        0 <= i <= s.len(),
        forall|j: int| 0 <= j < i ==> is_wsp(#[trigger] s[j]),
        i == s.len() || !is_wsp(s[i]),
    ensures
        trim_start_spec(s) == s.subrange(i, s.len() as int),
    decreases i,
{
    if i == 0 {
        assert(s.subrange(0, s.len() as int) =~= s);
    } else {
        assert(is_wsp(s[0]));
        lemma_trim_start_scan(s.drop_first(), i - 1);
        assert(s.drop_first().subrange(i - 1, s.drop_first().len() as int) =~= s.subrange(
            i,
            s.len() as int,
        ));
    }
}

proof fn lemma_trim_end_scan(s: Seq<char>, i: int)
    requires
        0 <= i <= s.len(),
        forall|j: int| i <= j < s.len() ==> is_wsp(#[trigger] s[j]),
        i == 0 || !is_wsp(s[i - 1]),
    ensures
        trim_end_spec(s) == s.subrange(0, i),
    decreases s.len() - i,
{
    if i == s.len() {
        assert(s.subrange(0, s.len() as int) =~= s);
    } else {
        assert(is_wsp(s.last()));
        lemma_trim_end_scan(s.drop_last(), i);
        assert(s.drop_last().subrange(0, i) =~= s.subrange(0, i));
    }
}

proof fn lemma_first_line_scan(s: Seq<char>, i: int)
    requires
        0 <= i <= s.len(),
        forall|j: int| 0 <= j < i ==> #[trigger] s[j] != '\n',
        i == s.len() || s[i] == '\n',
    ensures
        first_line_spec(s) == s.subrange(0, i),
    decreases i,
{
    if i == 0 {
        if s.len() == 0 {
            assert(s.subrange(0, 0) =~= s);
        } else {
            assert(Seq::<char>::empty() =~= s.subrange(0, 0));
        }
    } else {
        lemma_first_line_scan(s.drop_first(), i - 1);
        assert(s.drop_first().subrange(0, i - 1) =~= s.subrange(1, i));
        assert(seq![s[0]] + s.subrange(1, i) =~= s.subrange(0, i));
    }
}

/// Remove leading and trailing whitespace.
pub fn trim_str<'a>(s: &'a str) -> (r: &'a str)
    ensures
        r@ == trim_spec(s@),
{
    let len = s.unicode_len();
    let mut end: usize = len;
    while end > 0 && is_whitespace_char(s.get_char(end - 1))
        invariant
            end <= len,
            len == s@.len(),
            forall|j: int| end <= j < len ==> is_wsp(#[trigger] s@[j]),
        decreases end,
    {
        end = end - 1;
    }
    let mut start: usize = 0;
    while start < end && is_whitespace_char(s.get_char(start))
        invariant
            start <= end <= len,
            len == s@.len(),
            forall|j: int| 0 <= j < start ==> is_wsp(#[trigger] s@[j]),
        decreases end - start,
    {
        start = start + 1;
    }
    proof {
        lemma_trim_end_scan(s@, end as int);
        let t = s@.subrange(0, end as int);
        lemma_trim_start_scan(t, start as int);
        assert(t.subrange(start as int, t.len() as int) =~= s@.subrange(
            start as int,
            end as int,
        ));
    }
    s.substring_char(start, end)
}

/// Keep only the text before the first newline.
pub fn first_line<'a>(s: &'a str) -> (r: &'a str)
    ensures
        r@ == first_line_spec(s@),
{
    let len = s.unicode_len();
    let mut i: usize = 0;
    while i < len && s.get_char(i) != '\n'
        invariant
            i <= len,
            len == s@.len(),
            forall|j: int| 0 <= j < i ==> #[trigger] s@[j] != '\n',
        decreases len - i,
    {
        i = i + 1;
    }
    proof {
        lemma_first_line_scan(s@, i as int);
    }
    s.substring_char(0, i)
}

/// Reduce a raw reply to a commit subject: trim both ends, keep the first
/// line only.
pub fn extract_message(s: &str) -> (r: String)
    ensures
        r@ == extract_spec(s@),
{
    let t = trim_str(s);
    let l = first_line(t);
    String::from_str(l)
}

/// The extraction rule gives back unchanged any reply that is already a
/// single line with no whitespace at either end.
pub proof fn lemma_extract_stable(s: Seq<char>)
    requires
        forall|i: int| 0 <= i < s.len() ==> #[trigger] s[i] != '\n',
        s.len() == 0 || (!is_wsp(s[0]) && !is_wsp(s[s.len() - 1])),
    ensures
        extract_spec(s) == s,
{
    lemma_trim_end_scan(s, s.len() as int);
    assert(s.subrange(0, s.len() as int) =~= s);
    lemma_trim_start_scan(s, 0);
    lemma_first_line_scan(s, s.len() as int);
}

} // verus!
