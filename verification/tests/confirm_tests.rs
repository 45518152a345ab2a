use commit_gen::config::{confirm_commit, normalize_input};

#[test]
fn empty_input_is_affirmative() {
    assert!(confirm_commit(""));
    assert!(confirm_commit("\n"));
    assert!(confirm_commit("   "));
}

#[test]
fn lone_y_is_affirmative_in_either_case() {
    assert!(confirm_commit("y"));
    assert!(confirm_commit("Y"));
    assert!(confirm_commit(" y \n"));
}

#[test]
fn anything_else_declines() {
    assert!(!confirm_commit("n"));
    assert!(!confirm_commit("whatever"));
    assert!(!confirm_commit("No"));
    assert!(!confirm_commit("yes"));
    assert!(!confirm_commit("y y"));
}

#[test]
fn normalization_trims_and_lowercases() {
    assert_eq!(normalize_input("  YeS\n"), "yes");
    assert_eq!(normalize_input(""), "");
}
