use jpass::editing::{move_entry, new_folder_request, save_entry};
use jpass::model::{Vault, VaultEntry};

fn entry(title: &str) -> VaultEntry {
    VaultEntry::new(
        title.to_string(),
        "u".to_string(),
        "p".to_string(),
        "https://x".to_string(),
        String::new(),
    )
}

#[test]
fn save_entry_adds_new_and_replaces_existing() {
    let mut v = Vault::default();
    let e = entry("Mail");
    save_entry(&mut v, e.clone(), None, None).unwrap();
    assert_eq!(v.entries.len(), 1);
    let mut changed = e.clone();
    changed.title = "Webmail".to_string();
    save_entry(&mut v, changed, None, None).unwrap();
    assert_eq!(v.entries.len(), 1);
    assert_eq!(v.entries[0].title, "Webmail");
}

#[test]
fn save_entry_files_into_a_new_folder() {
    let mut v = Vault::default();
    let parent = v.create_folder("Work", None).unwrap();
    let e = entry("Jira");
    save_entry(&mut v, e, Some(" Team ".to_string()), Some(parent.id)).unwrap();
    assert_eq!(v.folders.len(), 2);
    assert_eq!(v.folders[1].name, "Team");
    assert_eq!(v.folders[1].parent_id, Some(parent.id));
    assert_eq!(v.entries[0].folder_id, Some(v.folders[1].id));
}

#[test]
fn save_entry_refused_folder_changes_nothing() {
    let mut v = Vault::default();
    v.create_folder("Work", None).unwrap();
    let err = save_entry(&mut v, entry("Jira"), Some("work".to_string()), None).unwrap_err();
    assert_eq!(err, "A folder with that name already exists here.");
    assert_eq!(v.folders.len(), 1);
    assert!(v.entries.is_empty());
}

#[test]
fn move_entry_into_existing_or_new_folder() {
    let mut v = Vault::default();
    let work = v.create_folder("Work", None).unwrap();
    let e = entry("Jira");
    let id = e.id;
    v.add_entry(e);
    assert_eq!(move_entry(&mut v, id, Some(work.id), None), Ok(true));
    assert_eq!(v.entries[0].folder_id, Some(work.id));
    assert_eq!(move_entry(&mut v, id, Some(work.id), Some("Team".to_string())), Ok(true));
    assert_eq!(v.folders.len(), 2);
    assert_eq!(v.folders[1].parent_id, Some(work.id));
    assert_eq!(v.entries[0].folder_id, Some(v.folders[1].id));
    assert_eq!(move_entry(&mut v, id, Some(12345), None), Ok(false));
}

#[test]
fn moving_a_missing_entry_keeps_no_new_folder() {
    let mut v = Vault::default();
    assert_eq!(move_entry(&mut v, 7, None, Some("Fresh".to_string())), Ok(false));
    assert!(v.folders.is_empty());
    assert_eq!(
        move_entry(&mut v, 7, None, Some("   ".to_string())),
        Err("Folder name cannot be empty.".to_string())
    );
}

#[test]
fn new_folder_requests_are_trimmed() {
    assert_eq!(new_folder_request("  Bills "), Some("Bills".to_string()));
    assert_eq!(new_folder_request(" \t"), None);
}
