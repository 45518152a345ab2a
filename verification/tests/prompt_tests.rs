use commit_gen::cli::{Args, Format};
use commit_gen::prompt::{create_prompt, join_words, CASUAL_CLAUSE, FORMAL_CLAUSE};

fn no_options() -> Args {
    Args { start: None, included: None, lang: None, format: None }
}

fn all_options() -> Args {
    Args {
        start: Some("feat".to_string()),
        included: Some(vec!["parser".to_string(), "cache".to_string()]),
        lang: Some("English".to_string()),
        format: Some(Format::Formal),
    }
}

#[test]
fn prompt_without_options_is_template_marker_diff() {
    let p = create_prompt("DIFF", &"TEMPLATE".to_string(), &no_options());
    assert_eq!(p, "TEMPLATE--- \n Below are the staged modifications\n DIFF");
}

#[test]
fn prompt_ends_with_the_diff_text() {
    let diff = "diff --git a/x b/x\n+line";
    let p = create_prompt(diff, &"base".to_string(), &all_options());
    assert!(p.ends_with(diff));
}

#[test]
fn prompt_holds_each_clause_once_in_fixed_order() {
    let template = "base instructions";
    let p = create_prompt("DIFF", &template.to_string(), &all_options());
    let format_at = p.find(FORMAL_CLAUSE).unwrap();
    let start_at = p.find("\n - start with feat\n").unwrap();
    let included_at = p.find("\n - include the following words properly: parser,cache\n").unwrap();
    let lang_at = p
        .find(
            "\n - write the commit message in the following language: English. If it's not a natural language, please write in English \n",
        )
        .unwrap();
    let marker_at = p.find("--- \n Below are the staged modifications\n ").unwrap();
    assert_eq!(format_at, template.len());
    assert!(format_at < start_at);
    assert!(start_at < included_at);
    assert!(included_at < lang_at);
    assert!(lang_at < marker_at);
    assert_eq!(p.find(FORMAL_CLAUSE), p.rfind(FORMAL_CLAUSE));
    assert_eq!(p.find("\n - start with "), p.rfind("\n - start with "));
    assert_eq!(p.find("\n - include the "), p.rfind("\n - include the "));
    assert_eq!(p.find("\n - write the commit "), p.rfind("\n - write the commit "));
}

#[test]
fn prompt_is_deterministic() {
    let a = create_prompt("same diff", &"same template".to_string(), &all_options());
    let b = create_prompt("same diff", &"same template".to_string(), &all_options());
    assert_eq!(a, b);
}

#[test]
fn prompt_exact_with_start_and_lang() {
    let args = Args {
        start: Some("fix".to_string()),
        included: None,
        lang: Some("French".to_string()),
        format: None,
    };
    let p = create_prompt("D", &"T".to_string(), &args);
    let expected = format!(
        "T\n - start with fix\n\n - write the commit message in the following language: French. If it's not a natural language, please write in English \n--- \n Below are the staged modifications\n D"
    );
    assert_eq!(p, expected);
}

#[test]
fn prompt_uses_casual_clause_for_casual_format() {
    let args = Args { start: None, included: None, lang: None, format: Some(Format::Casual) };
    let p = create_prompt("D", &"T".to_string(), &args);
    assert!(p.contains(CASUAL_CLAUSE));
    assert!(!p.contains(FORMAL_CLAUSE));
}

#[test]
fn join_words_uses_single_commas() {
    let words = vec!["a".to_string(), "b".to_string(), "c".to_string()];
    assert_eq!(join_words(&words), "a,b,c");
    assert_eq!(join_words(&vec!["solo".to_string()]), "solo");
    assert_eq!(join_words(&Vec::new()), "");
}
