use workflow::init::sort_branches;
use workflow::init::UrlValidator;

fn names(list: &[&str]) -> Vec<String> {
    list.iter().map(|s| s.to_string()).collect()
}

#[test]
fn test_sort_branch() {
    let branches = names(&["d", "b", "a", "c"]);
    let result = sort_branches(&branches);

    assert_eq!(result, vec!["a", "b", "c", "d"]);
}

#[test]
fn test_sort_branch_master_first() {
    let branches = names(&["d", "master", "a", "c"]);
    let result = sort_branches(&branches);

    assert_eq!(result, vec!["master", "a", "c", "d"]);
}

#[test]
fn test_sort_branch_main_first() {
    let branches = names(&["d", "main", "a", "c"]);
    let result = sort_branches(&branches);

    assert_eq!(result, vec!["main", "a", "c", "d"]);
}

#[test]
fn test_sort_branch_dev_main_first() {
    let branches = names(&["main", "develop", "a", "c"]);
    let result = sort_branches(&branches);

    assert_eq!(result, vec!["develop", "main", "a", "c"]);
}

#[test]
fn test_sort_branch_empty() {
    let branches: Vec<String> = Vec::new();
    let result = sort_branches(&branches);
    assert!(result.is_empty());
}

#[test]
fn test_sort_branch_duplicates_kept() {
    let branches = names(&["b", "a", "b"]);
    let result = sort_branches(&branches);
    assert_eq!(result, vec!["a", "b", "b"]);
}

#[test]
fn test_url_validator_accepts_url() {
    let validator = UrlValidator::default();
    assert!(validator.validate("https://example.atlassian.net"));
}

#[test]
fn test_url_validator_rejects_plain_text() {
    let validator = UrlValidator::default();
    assert!(!validator.validate("not a url at all"));
}

#[test]
fn test_sort_branch_all_special_names() {
    let branches = names(&["master", "main", "develop"]);
    let result = sort_branches(&branches);
    assert_eq!(result, vec!["develop", "main", "master"]);
}

#[test]
fn test_sort_branch_is_a_permutation() {
    let branches = names(&["zeta", "alpha", "develop", "alpha"]);
    let result = sort_branches(&branches);
    assert_eq!(result.len(), branches.len());
    assert_eq!(result, vec!["develop", "alpha", "alpha", "zeta"]);
}
