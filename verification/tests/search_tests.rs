use jpass::model::{Vault, VaultEntry};
use jpass::search::{contains_str, entry_is_listed};

fn entry(title: &str, user: &str, url: &str) -> VaultEntry {
    VaultEntry::new(
        title.to_string(),
        user.to_string(),
        "pw".to_string(),
        url.to_string(),
        "notes mention github".to_string(),
    )
}

#[test]
fn contains_str_finds_substrings() {
    assert!(contains_str("hello world", "lo w"));
    assert!(contains_str("abc", ""));
    assert!(!contains_str("abc", "abcd"));
    assert!(!contains_str("abc", "ac"));
    assert!(contains_str("aaab", "aab"));
}

#[test]
fn search_matches_title_username_or_url_ignoring_case() {
    let vault = Vault::default();
    let e = entry("GitHub", "Alice", "https://Example.org");
    assert!(entry_is_listed(&vault, &e, "", None));
    assert!(entry_is_listed(&vault, &e, "github", None));
    assert!(entry_is_listed(&vault, &e, "ALICE", None));
    assert!(entry_is_listed(&vault, &e, "example", None));
    // Notes and passwords are not searched.
    assert!(!entry_is_listed(&vault, &e, "notes", None));
    assert!(!entry_is_listed(&vault, &e, "bank", None));
}

#[test]
fn selected_folder_lists_entries_below_it_only() {
    let mut vault = Vault::default();
    let work = vault.create_folder("Work", None).unwrap();
    let team = vault.create_folder("Team", Some(work.id)).unwrap();
    let home = vault.create_folder("Home", None).unwrap();
    let mut filed = entry("Jira", "bob", "https://jira");
    filed.folder_id = Some(team.id);
    let unfiled = entry("Mail", "bob", "https://mail");
    assert!(entry_is_listed(&vault, &filed, "", Some(work.id)));
    assert!(entry_is_listed(&vault, &filed, "jira", Some(team.id)));
    assert!(!entry_is_listed(&vault, &filed, "", Some(home.id)));
    assert!(!entry_is_listed(&vault, &unfiled, "", Some(work.id)));
    assert!(entry_is_listed(&vault, &unfiled, "", None));
}
