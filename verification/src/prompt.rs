//! Assembling the instruction text sent to the generation backend: the
//! base template, one clause per present option in a fixed order, then the
//! staged diff behind a marker line.

use vstd::prelude::*;
use vstd::string::*;
use crate::cli::{Args, Format};

verus! {

pub const FORMAL_CLAUSE: &'static str = "\n - Write a concise and formal Git commit message. Adhere to the Conventional Commits specification.

                Structure: <type>(<scope>): <description>

                Examples:
                - feat(authentication): Add user login feature
                - fix(deps): Update lodash to fix security vulnerability
                - docs: Update README with installation instructions
                - chore: Refactor build script

                Start with a type (feat, fix, docs, chore, style, refactor, test, build, ci, perf, revert) followed by an optional scope in parentheses, a colon, and a space. The description should be a short, imperative sentence. Use a blank line between the subject and body if a body is needed.\n";

pub const CASUAL_CLAUSE: &'static str = "\n - Write a brief and clear commit message that summarizes your changes. There are no strict format rules, but aim for readability.

                Examples:
                - Added login screen
                - Fixed a bug on the user profile page
                - Updated documentation
                - Small refactorings

                Just describe what you did in a straightforward way. Keep it short if possible.\n";

pub open spec fn format_clause_spec(f: Option<Format>) -> Seq<char> {
    match f {
        Option::None => Seq::<char>::empty(),
        Option::Some(Format::Formal) => FORMAL_CLAUSE@,
        Option::Some(Format::Casual) => CASUAL_CLAUSE@,
    }
}

pub open spec fn start_clause_spec(start: Option<Seq<char>>) -> Seq<char> {
    match start {
        Option::None => Seq::<char>::empty(),
        Option::Some(w) => "\n - start with "@ + w + "\n"@,
    }
}

/// The words of the include option joined with single commas, no spaces.
pub open spec fn join_words_spec(ws: Seq<Seq<char>>) -> Seq<char>
    decreases ws.len(),
{
    if ws.len() == 0 {
        Seq::<char>::empty()
    } else if ws.len() == 1 {
        ws[0]
    } else {
        ws[0] + ","@ + join_words_spec(ws.drop_first())
    }
}

pub open spec fn include_clause_spec(ws: Option<Seq<Seq<char>>>) -> Seq<char> {
    match ws {
        Option::None => Seq::<char>::empty(),
        Option::Some(words) => "\n - include the following words properly: "@ + join_words_spec(
            words,
        ) + "\n"@,
    }
}

pub open spec fn lang_clause_spec(lang: Option<Seq<char>>) -> Seq<char> {
    match lang {
        Option::None => Seq::<char>::empty(),
        Option::Some(l) => "\n - write the commit message in the following language: "@ + l
            + ". If it's not a natural language, please write in English \n"@,
    }
}

/// The marker line that introduces the diff payload.
pub open spec fn diff_marker_spec() -> Seq<char> {
    "--- \n Below are the staged modifications\n "@
}

/// The whole prompt: template, then one clause per present option in the
/// fixed order format, start, include, language, then the marked diff.
pub open spec fn prompt_spec(template: Seq<char>, args: Args, diff: Seq<char>) -> Seq<char> {
    template + format_clause_spec(args.format) + start_clause_spec(args.start.deep_view())
        + include_clause_spec(args.included.deep_view()) + lang_clause_spec(args.lang.deep_view())
        + diff_marker_spec() + diff
}

proof fn lemma_join_words_snoc(ws: Seq<Seq<char>>, i: int)
    requires
        1 <= i < ws.len(),
    ensures
        join_words_spec(ws.subrange(0, i + 1)) == join_words_spec(ws.subrange(0, i)) + ","@
            + ws[i],
    decreases i,
{
    let a = ws.subrange(0, i + 1);
    let b = ws.subrange(0, i);
    if i == 1 {
        assert(a.drop_first() =~= seq![ws[1]]);
        assert(join_words_spec(a) == a[0] + ","@ + join_words_spec(a.drop_first()));
        assert(b =~= seq![ws[0]]);
    } else {
        lemma_join_words_snoc(ws.drop_first(), i - 1);
        assert(a.drop_first() =~= ws.drop_first().subrange(0, i));
        assert(b.drop_first() =~= ws.drop_first().subrange(0, i - 1));
        assert(join_words_spec(a) == a[0] + ","@ + join_words_spec(a.drop_first()));
        assert(join_words_spec(b) == b[0] + ","@ + join_words_spec(b.drop_first()));
        assert(ws.drop_first()[i - 1] == ws[i]);
        assert(b[0] + ","@ + (join_words_spec(b.drop_first()) + ","@ + ws[i]) =~= (b[0] + ","@
            + join_words_spec(b.drop_first())) + ","@ + ws[i]);
    }
}

/// Join words with a comma separator and no spaces.
pub fn join_words(words: &Vec<String>) -> (r: String)
    ensures
        r@ == join_words_spec(words.deep_view()),
{
    if words.len() == 0 {
        return String::new();
    }
    let mut r: String = words[0].clone();
    assert(words.deep_view().subrange(0, 1) =~= seq![words.deep_view()[0]]);
    let mut i: usize = 1;
    while i < words.len()
        invariant
            1 <= i <= words.len(),
            words.deep_view().len() == words.len(),
            r@ == join_words_spec(words.deep_view().subrange(0, i as int)),
        decreases words.len() - i,
    {
        r.append(",");
        r.append(words[i].as_str());
        proof {
            lemma_join_words_snoc(words.deep_view(), i as int);
        }
        i = i + 1;
    }
    proof {
        assert(words.deep_view().subrange(0, words.deep_view().len() as int)
            =~= words.deep_view());
    }
    r
}

/// Assemble the full prompt from the template, the present options and the
/// staged diff. Pure: the result is a function of the inputs alone.
#[verifier::rlimit(30)]
pub fn create_prompt(diff: &str, template: &String, args: &Args) -> (r: String)
    ensures
        r@ == prompt_spec(template@, *args, diff@),
{
    let ghost fc = format_clause_spec(args.format);
    let ghost sc = start_clause_spec(args.start.deep_view());
    let ghost ic = include_clause_spec(args.included.deep_view());
    let ghost lc = lang_clause_spec(args.lang.deep_view());
    let mut prompt: String = template.clone();
    match &args.format {
        Option::Some(Format::Formal) => prompt.append(FORMAL_CLAUSE),
        Option::Some(Format::Casual) => prompt.append(CASUAL_CLAUSE),
        Option::None => (),
    }
    proof {
        assert(prompt@ =~= template@ + fc);
    }
    match &args.start {
        Option::Some(start) => {
            prompt.append("\n - start with ");
            prompt.append(start.as_str());
            prompt.append("\n");
        },
        Option::None => (),
    }
    proof {
        assert(prompt@ =~= template@ + fc + sc);
    }
    match &args.included {
        Option::Some(words) => {
            let joined = join_words(words);
            prompt.append("\n - include the following words properly: ");
            prompt.append(joined.as_str());
            prompt.append("\n");
        },
        Option::None => (),
    }
    proof {
        assert(prompt@ =~= template@ + fc + sc + ic);
    }
    match &args.lang {
        Option::Some(lang) => {
            prompt.append("\n - write the commit message in the following language: ");
            prompt.append(lang.as_str());
            prompt.append(". If it's not a natural language, please write in English \n");
        },
        Option::None => (),
    }
    proof {
        assert(prompt@ =~= template@ + fc + sc + ic + lc);
    }
    prompt.append("--- \n Below are the staged modifications\n ");
    prompt.append(diff);
    proof {
        assert(prompt@ =~= prompt_spec(template@, *args, diff@));
    }
    prompt
}

/// Every built prompt carries the template first, then each present
/// option's clause exactly where the fixed order format, start, include,
/// language puts it, and ends with the diff text as a trailing substring.
pub proof fn lemma_prompt_structure(template: Seq<char>, args: Args, diff: Seq<char>)
    ensures
        ({
            let p = prompt_spec(template, args, diff);
            let fc = format_clause_spec(args.format);
            let sc = start_clause_spec(args.start.deep_view());
            let ic = include_clause_spec(args.included.deep_view());
            let lc = lang_clause_spec(args.lang.deep_view());
            let o0 = template.len() as int;
            let o1 = o0 + fc.len();
            let o2 = o1 + sc.len();
            let o3 = o2 + ic.len();
            let o4 = o3 + lc.len();
            &&& p.len() == o4 + diff_marker_spec().len() + diff.len()
            &&& p.subrange(0, o0) == template
            &&& p.subrange(o0, o1) == fc
            &&& p.subrange(o1, o2) == sc
            &&& p.subrange(o2, o3) == ic
            &&& p.subrange(o3, o4) == lc
            &&& p.subrange(p.len() - diff.len(), p.len() as int) == diff
        }),
{
    let p = prompt_spec(template, args, diff);
    let fc = format_clause_spec(args.format);
    let sc = start_clause_spec(args.start.deep_view());
    let ic = include_clause_spec(args.included.deep_view());
    let lc = lang_clause_spec(args.lang.deep_view());
    let o0 = template.len() as int;
    let o1 = o0 + fc.len();
    let o2 = o1 + sc.len();
    let o3 = o2 + ic.len();
    let o4 = o3 + lc.len();
    assert(p.subrange(0, o0) =~= template);
    assert(p.subrange(o0, o1) =~= fc);
    assert(p.subrange(o1, o2) =~= sc);
    assert(p.subrange(o2, o3) =~= ic);
    assert(p.subrange(o3, o4) =~= lc);
    assert(p.subrange(p.len() - diff.len(), p.len() as int) =~= diff);
}

/// Prompt building is deterministic: any two results obtained for the same
/// template, options and diff are byte-identical.
pub proof fn lemma_prompt_deterministic(
    r1: Seq<char>,
    r2: Seq<char>,
    template: Seq<char>,
    args: Args,
    diff: Seq<char>,
)
    requires
        r1 == prompt_spec(template, args, diff),
        r2 == prompt_spec(template, args, diff),
    ensures
        r1 == r2,
{
}

} // verus!
