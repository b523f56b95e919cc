use workflow::git::to_branch_name;
use workflow::git::GitError;
use workflow::git::GitRepository;
use workflow::command::default_branch_name;

#[test]
fn test_branch_name_convertion() {
    let input = "This is a string";
    let expected = "this-is-a-string";
    assert_eq!(to_branch_name(input), expected);
}

#[test]
fn test_branch_name_remove_non_letter() {
    let input = "This is a string on fðŸ”¥re";
    let expected = "this-is-a-string-on-f-re";
    assert_eq!(to_branch_name(input), expected);
}

#[test]
fn test_branch_name_keep_number() {
    let input = "This is a string with a 9";
    let expected = "this-is-a-string-with-a-9";
    assert_eq!(to_branch_name(input), expected);
}

#[test]
fn test_branch_name_strip_dash() {
    let input = "This is a string with a     big space";
    let expected = "this-is-a-string-with-a-big-space";
    assert_eq!(to_branch_name(input), expected);
}

#[test]
fn test_branch_name_only_allowed_characters() {
    let out = to_branch_name("Mixed: CASE, d1g1ts & sym~bols!");
    assert!(out.chars().all(|c| c.is_ascii_lowercase() || c.is_ascii_digit() || c == '-'));
    assert!(!out.contains("--"));
}

#[test]
fn test_branch_name_keeps_edge_hyphens() {
    assert_eq!(to_branch_name("  leading and trailing  "), "-leading-and-trailing-");
}

#[test]
fn test_branch_name_deterministic() {
    let input = "Same input, twice";
    assert_eq!(to_branch_name(input), to_branch_name(input));
}

#[test]
fn test_branch_name_empty() {
    assert_eq!(to_branch_name(""), "");
}

#[test]
fn test_default_branch_name_format() {
    assert_eq!(default_branch_name("ABC-1", "This is a string"), "ABC-1-this-is-a-string");
}

#[test]
fn test_discover_outside_any_repository() {
    let found = GitRepository::discover();
    assert!(matches!(found, Err(GitError::CannotOpenRepository)));
}
