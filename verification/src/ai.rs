//! The wire contract with the text-generation backend: the request URL and
//! JSON body built from a prompt, and the extraction of a commit subject
//! from the backend's structured reply.

use vstd::prelude::*;
use vstd::string::*;
use crate::error::PipelineError;
use crate::text::{extract_message, extract_spec};

verus! {

pub const ENDPOINT: &'static str = "https://generativelanguage.googleapis.com/v1beta/models/gemini-2.0-flash:generateContent?key=";

/// The request URL: the fixed generation endpoint with the credential as
/// its query parameter.
pub open spec fn request_url_spec(key: Seq<char>) -> Seq<char> {
    ENDPOINT@ + key
}

pub fn request_url(api_key: &str) -> (r: String)
    ensures
        r@ == request_url_spec(api_key@),
{
    let mut r: String = String::from_str(ENDPOINT);
    r.append(api_key);
    r
}

pub open spec fn hex_digit_spec(n: int) -> char {
    if n == 0 {
        '0'
    } else if n == 1 {
        '1'
    } else if n == 2 {
        '2'
    } else if n == 3 {
        '3'
    } else if n == 4 {
        '4'
    } else if n == 5 {
        '5'
    } else if n == 6 {
        '6'
    } else if n == 7 {
        '7'
    } else if n == 8 {
        '8'
    } else if n == 9 {
        '9'
    } else if n == 10 {
        'a'
    } else if n == 11 {
        'b'
    } else if n == 12 {
        'c'
    } else if n == 13 {
        'd'
    } else if n == 14 {
        'e'
    } else if n == 15 {
        'f'
    } else {
        '0'
    }
}

/// How one character stands inside a JSON string literal: quotes and
/// backslashes escaped, control characters as their short escapes or as
/// `\u00..`, every other character as itself.
pub open spec fn escape_char_spec(c: char) -> Seq<char> {
    if c == '"' {
        seq!['\\', '"']
    } else if c == '\\' {
        seq!['\\', '\\']
    } else if c == '\u{8}' {
        seq!['\\', 'b']
    } else if c == '\t' {
        seq!['\\', 't']
    } else if c == '\n' {
        seq!['\\', 'n']
    } else if c == '\u{C}' {
        seq!['\\', 'f']
    } else if c == '\r' {
        seq!['\\', 'r']
    } else if (c as u32) < 0x20 {
        seq!['\\', 'u', '0', '0', hex_digit_spec(c as u32 as int / 16), hex_digit_spec(
            c as u32 as int % 16,
        )]
    } else {
        seq![c]
    }
}

pub open spec fn json_escape_spec(s: Seq<char>) -> Seq<char>
    decreases s.len(),
{
    if s.len() == 0 {
        Seq::<char>::empty()
    } else {
        escape_char_spec(s[0]) + json_escape_spec(s.drop_first())
    }
}

/// The request body around an escaped prompt, in the backend's shape:
/// a single content with a single text part.
pub open spec fn request_body_spec(prompt: Seq<char>) -> Seq<char> {
    "{\"contents\":[{\"parts\":[{\"text\":\""@ + json_escape_spec(prompt) + "\"}]}]}"@
}

/// Relies on String::push: it appends exactly the one given character.
#[verifier::external_body]
fn push_char(s: &mut String, c: char)
    ensures
        final(s)@ == old(s)@ + seq![c],
{
    s.push(c);
}

fn hex_digit(n: u8) -> (c: char)
    ensures
        c == hex_digit_spec(n as int),
{
    if n == 0 {
        '0'
    } else if n == 1 {
        '1'
    } else if n == 2 {
        '2'
    } else if n == 3 {
        '3'
    } else if n == 4 {
        '4'
    } else if n == 5 {
        '5'
    } else if n == 6 {
        '6'
    } else if n == 7 {
        '7'
    } else if n == 8 {
        '8'
    } else if n == 9 {
        '9'
    } else if n == 10 {
        'a'
    } else if n == 11 {
        'b'
    } else if n == 12 {
        'c'
    } else if n == 13 {
        'd'
    } else if n == 14 {
        'e'
    } else if n == 15 {
        'f'
    } else {
        '0'
    }
}

proof fn lemma_json_escape_snoc(s: Seq<char>, i: int)
    requires
        0 <= i < s.len(),
    ensures
        json_escape_spec(s.subrange(0, i + 1)) == json_escape_spec(s.subrange(0, i))
            + escape_char_spec(s[i]),
    decreases i,
{
    let a = s.subrange(0, i + 1);
    if i == 0 {
        assert(a.drop_first() =~= Seq::<char>::empty());
        assert(s.subrange(0, 0) =~= Seq::<char>::empty());
        assert(Seq::<char>::empty() + escape_char_spec(s[0]) =~= escape_char_spec(s[0]));
        assert(escape_char_spec(a[0]) + json_escape_spec(a.drop_first()) =~= escape_char_spec(
            s[0],
        ));
    } else {
        lemma_json_escape_snoc(s.drop_first(), i - 1);
        let b = s.subrange(0, i);
        assert(a.drop_first() =~= s.drop_first().subrange(0, i));
        assert(b.drop_first() =~= s.drop_first().subrange(0, i - 1));
        assert(s.drop_first()[i - 1] == s[i]);
        assert(escape_char_spec(b[0]) + (json_escape_spec(b.drop_first()) + escape_char_spec(
            s[i],
        )) =~= (escape_char_spec(b[0]) + json_escape_spec(b.drop_first())) + escape_char_spec(
            s[i],
        ));
    }
}

/// Escape a prompt for inclusion in a JSON string literal.
pub fn json_escape(s: &str) -> (r: String)
    ensures
        r@ == json_escape_spec(s@),
{
    let len = s.unicode_len();
    let mut r: String = String::new();
    let mut i: usize = 0;
    while i < len
        invariant
            i <= len,
            len == s@.len(),
            r@ == json_escape_spec(s@.subrange(0, i as int)),
        decreases len - i,
    {
        proof {
            reveal_strlit("\\\"");
            reveal_strlit("\\\\");
            reveal_strlit("\\b");
            reveal_strlit("\\t");
            reveal_strlit("\\n");
            reveal_strlit("\\f");
            reveal_strlit("\\r");
            reveal_strlit("\\u00");
        }
        let c = s.get_char(i);
        if c == '"' {
            r.append("\\\"");
        } else if c == '\\' {
            r.append("\\\\");
        } else if c == '\u{8}' {
            r.append("\\b");
        } else if c == '\t' {
            r.append("\\t");
        } else if c == '\n' {
            r.append("\\n");
        } else if c == '\u{C}' {
            r.append("\\f");
        } else if c == '\r' {
            r.append("\\r");
        } else if (c as u32) < 0x20 {
            r.append("\\u00");
            let n: u32 = c as u32;
            let hi = hex_digit((n / 16) as u8);
            let lo = hex_digit((n % 16) as u8);
            push_char(&mut r, hi);
            push_char(&mut r, lo);
        } else {
            push_char(&mut r, c);
        }
        proof {
            lemma_json_escape_snoc(s@, i as int);
            assert(r@ =~= json_escape_spec(s@.subrange(0, i as int)) + escape_char_spec(
                s@[i as int],
            ));
        }
        i = i + 1;
    }
    proof {
        assert(s@.subrange(0, len as int) =~= s@);
    }
    r
}

/// Build the JSON request body that embeds the prompt as the sole content
/// part.
pub fn request_body(prompt: &str) -> (r: String)
    ensures
        r@ == request_body_spec(prompt@),
{
    let mut r: String = String::from_str("{\"contents\":[{\"parts\":[{\"text\":\"");
    let escaped = json_escape(prompt);
    r.append(escaped.as_str());
    r.append("\"}]}]}");
    proof {
        assert(r@ =~= request_body_spec(prompt@));
    }
    r
}

/// Whether a reply body parses as JSON at all: a function of the text
/// alone.
pub uninterp spec fn is_json(s: Seq<char>) -> bool;

/// The text of the first candidate's first content part in a parsed reply,
/// if that path exists: a function of the reply text alone.
pub uninterp spec fn json_reply_text(s: Seq<char>) -> Option<Seq<char>>;

/// Relies on serde_json::from_str for parsing, and on serde_json::Value's
/// index operator, as_array, get and as_str for the field walk: whether the
/// body parses, and what text stands at the first candidate's first part,
/// depend on the body text alone.
#[verifier::external_body]
fn reply_first_text(body: &str) -> (r: Result<Option<String>, ()>)
    ensures
        r is Ok <==> is_json(body@),
        (r matches Ok(t) ==> t.deep_view() == json_reply_text(body@)),
{
    let v: serde_json::Value = match serde_json::from_str(body) {
        Ok(v) => v,
        Err(_) => {
            return Err(());
        },
    };
    let t = v["candidates"]
        .as_array()
        .and_then(|candidates| candidates.get(0))
        .and_then(|candidate| candidate["content"]["parts"].as_array())
        .and_then(|parts| parts.get(0))
        .and_then(|part| part["text"].as_str());
    Ok(t.map(|s| s.to_string()))
}

/// The sentinel presented when a structurally valid reply holds no text.
pub open spec fn sentinel_spec() -> Seq<char> {
    "No response from AI"@
}

/// The raw text a reply yields before extraction: the first candidate's
/// first part, or the sentinel when the reply holds none.
pub open spec fn raw_reply_spec(body: Seq<char>) -> Seq<char> {
    match json_reply_text(body) {
        Option::Some(t) => t,
        Option::None => sentinel_spec(),
    }
}

/// The commit subject a reply yields: the raw text trimmed and cut at its
/// first newline.
pub open spec fn message_spec(body: Seq<char>) -> Seq<char> {
    extract_spec(raw_reply_spec(body))
}

/// Take the first candidate's first text part out of a reply body, or the
/// sentinel when a well-formed reply holds no such part. Only a body that
/// is not JSON at all is an error.
pub fn parse_response(body: &str) -> (r: Result<String, PipelineError>)
    ensures
        r is Ok <==> is_json(body@),
        (r matches Ok(m) ==> m@ == raw_reply_spec(body@)),
        (r matches Err(e) ==> e == PipelineError::MalformedReply),
{
    match reply_first_text(body) {
        Result::Ok(Option::Some(t)) => Result::Ok(t),
        Result::Ok(Option::None) => Result::Ok(String::from_str("No response from AI")),
        Result::Err(()) => Result::Err(PipelineError::MalformedReply),
    }
}

/// The whole reply-side contract: parse the body, fall back to the
/// sentinel on an empty result, and reduce the text to one trimmed line.
pub fn reply_to_message(body: &str) -> (r: Result<String, PipelineError>)
    ensures
        r is Ok <==> is_json(body@),
        (r matches Ok(m) ==> m@ == message_spec(body@)),
        (r matches Err(e) ==> e == PipelineError::MalformedReply),
{
    match parse_response(body) {
        Result::Ok(t) => Result::Ok(extract_message(t.as_str())),
        Result::Err(e) => Result::Err(e),
    }
}

} // verus!
