use tasksai::errors::AppError;
use tasksai::file_utils::{
    check_paths, combine_inputs, extract_files, plan_prompt, sanitize_path, trim_str, validate_files,
};

fn s(x: &str) -> String {
    x.to_string()
}

#[test]
fn no_tokens_gives_trimmed_text_and_no_paths() {
    let (clean, paths) = extract_files("  write a parser \t\n");
    assert_eq!(clean, "write a parser");
    assert!(paths.is_empty());
}

#[test]
fn tokens_are_removed_and_listed_in_order() {
    let (clean, paths) = extract_files("refactor @src/a.rs and @docs then stop");
    assert_eq!(clean, "refactor  and  then stop");
    assert_eq!(paths, vec![s("src/a.rs"), s("docs")]);
}

#[test]
fn token_content_does_not_change_clean_text() {
    let (c1, _) = extract_files("fix @x.rs now");
    let (c2, p2) = extract_files("fix @some/much/longer/path.rs now");
    assert_eq!(c1, c2);
    assert_eq!(p2, vec![s("some/much/longer/path.rs")]);
}

#[test]
fn lone_at_sign_is_kept() {
    let (clean, paths) = extract_files("mail me @ home @");
    assert_eq!(clean, "mail me @ home @");
    assert!(paths.is_empty());
}

#[test]
fn token_runs_to_white_space_and_swallows_further_at_signs() {
    let (clean, paths) = extract_files("@a@b c\u{3000}@d");
    assert_eq!(clean, "c");
    assert_eq!(paths, vec![s("a@b"), s("d")]);
}

#[test]
fn only_tokens_give_empty_text() {
    let (clean, paths) = extract_files("@one @two");
    assert_eq!(clean, "");
    assert_eq!(paths, vec![s("one"), s("two")]);
}

#[test]
fn trim_removes_unicode_white_space() {
    assert_eq!(trim_str("\u{a0} x y \u{2028}"), "x y");
    assert_eq!(trim_str("   "), "");
}

#[test]
fn parent_segments_are_rejected() {
    for p in ["..", "../a", "a/../b", "a/..", "/x/../../y"] {
        match sanitize_path(p) {
            Err(AppError::PathError(q)) => assert_eq!(q, p),
            _ => panic!("accepted {}", p),
        }
    }
}

#[test]
fn dotted_names_are_accepted() {
    for p in ["a..b", "...", "./a", ".hidden/x", "a/b.rs", "x../y", "", "/"] {
        assert!(sanitize_path(p).is_ok(), "rejected {}", p);
    }
}

#[test]
fn all_existing_paths_pass() {
    assert!(validate_files(&[s("a"), s("b")], &[true, true]).is_ok());
    assert!(validate_files(&[], &[]).is_ok());
}

#[test]
fn first_missing_path_is_reported() {
    match validate_files(&[s("a"), s("b"), s("c")], &[true, false, false]) {
        Err(AppError::NotFound(p)) => assert_eq!(p, "b"),
        _ => panic!("missing path not reported"),
    }
    match validate_files(&[s("a"), s("b")], &[false, true]) {
        Err(AppError::NotFound(p)) => assert_eq!(p, "a"),
        _ => panic!("missing path not reported"),
    }
}

#[test]
fn combined_input_has_a_header_per_file() {
    let files = vec![(s("a.rs"), s("fn a() {}")), (s("dir/b.rs"), s("fn b() {}"))];
    assert_eq!(
        combine_inputs(&files),
        "\n\n----- File: a.rs -----\nfn a() {}\n\n\n----- File: dir/b.rs -----\nfn b() {}\n"
    );
    assert_eq!(combine_inputs(&[]), "");
}

#[test]
fn plan_prompt_appends_contents_after_blank_line() {
    assert_eq!(plan_prompt("task", ""), "task");
    assert_eq!(plan_prompt("task", "body"), "task\n\nbody");
}

#[test]
fn error_messages_name_the_cause() {
    assert_eq!(
        AppError::PathError(s("../x")).message(),
        "Path error: Directory traversal detected in path: ../x"
    );
    assert_eq!(
        AppError::NotFound(s("a.rs")).message(),
        "File processing error: Path does not exist: a.rs"
    );
    assert_eq!(AppError::MissingApiKey.message(), "Missing API key in environment");
}

#[test]
fn guard_runs_before_existence_checks() {
    match check_paths(&[s("a"), s("../b")], &[false, true]) {
        Err(AppError::PathError(p)) => assert_eq!(p, "../b"),
        _ => panic!("unsafe path not reported"),
    }
    match check_paths(&[s("a"), s("b")], &[true, false]) {
        Err(AppError::NotFound(p)) => assert_eq!(p, "b"),
        _ => panic!("missing path not reported"),
    }
    assert!(check_paths(&[s("a/b"), s("./c")], &[true, true]).is_ok());
}

#[test]
fn clean_text_ignores_content_of_every_token() {
    let (c1, p1) = extract_files("see @a and @b, then @c done");
    let (c2, p2) = extract_files("see @src/x.rs and @dir/, then @@y done");
    assert_eq!(c1, c2);
    assert_eq!(c1, "see  and  then  done");
    assert_eq!(p1, vec![s("a"), s("b,"), s("c")]);
    assert_eq!(p2, vec![s("src/x.rs"), s("dir/,"), s("@y")]);
}
