use jpass::folder_tree::folder_ancestors;
use jpass::model::{Vault, VaultEntry, VaultFolder};

fn entry(title: &str) -> VaultEntry {
    VaultEntry::new(
        title.to_string(),
        "alice".to_string(),
        "secret".to_string(),
        "https://example.com".to_string(),
        String::new(),
    )
}

#[test]
fn vault_can_create_and_move_folders() {
    let mut vault = Vault::default();
    let first = VaultEntry::new(
        "GitHub".into(),
        "alice".into(),
        "secret".into(),
        "https://github.com".into(),
        "work".into(),
    );
    let second = VaultEntry::new(
        "Bank".into(),
        "alice".into(),
        "secret2".into(),
        "https://bank.example".into(),
        "finance".into(),
    );
    let id = first.id;
    vault.add_entry(first);
    vault.add_entry(second);

    let folder = vault.create_folder("Work", None).unwrap();
    assert!(vault.move_entry_to_folder(id, Some(folder.id)));
    assert_eq!(vault.entries[0].folder_id, Some(folder.id));

    let moved = vault.entries.iter().find(|e| e.id == id).unwrap();
    assert_eq!(moved.folder_id, Some(folder.id));
}

#[test]
fn vault_supports_nested_folders_and_sibling_names() {
    let mut vault = Vault::default();
    let personal = vault.create_folder("Personal", None).unwrap();
    let finances = vault.create_folder("Finances", Some(personal.id)).unwrap();

    assert_eq!(finances.parent_id, Some(personal.id));
    assert!(vault.folder_is_in_subtree(finances.id, personal.id));
    assert!(vault.create_folder("Finances", Some(personal.id)).is_err());
    assert!(vault.create_folder("Finances", None).is_ok());
}

#[test]
fn new_folder_and_entry_start_unfiled_with_equal_stamps() {
    let folder = VaultFolder::new("Top".to_string());
    assert_eq!(folder.name, "Top");
    assert_eq!(folder.parent_id, None);
    assert_eq!(folder.created_at, folder.updated_at);

    let e = entry("Mail");
    assert_eq!(e.title, "Mail");
    assert_eq!(e.folder_id, None);
    assert_eq!(e.created_at, e.updated_at);
    assert_ne!(e.id, entry("Mail").id);
}

#[test]
fn create_folder_trims_the_name() {
    let mut vault = Vault::default();
    let folder = vault.create_folder("  Travel \t", None).unwrap();
    assert_eq!(folder.name, "Travel");
    assert_eq!(vault.folders.len(), 1);
    assert_eq!(vault.folders[0].id, folder.id);
}

#[test]
fn create_folder_refuses_a_blank_name() {
    let mut vault = Vault::default();
    let err = vault.create_folder("   ", None).unwrap_err();
    assert_eq!(err, "Folder name cannot be empty.");
    assert!(vault.folders.is_empty());
}

#[test]
fn create_folder_refuses_a_sibling_name_in_any_ascii_case() {
    let mut vault = Vault::default();
    vault.create_folder("Work", None).unwrap();
    let err = vault.create_folder("wORK", None).unwrap_err();
    assert_eq!(err, "A folder with that name already exists here.");
    assert_eq!(vault.folders.len(), 1);
}

#[test]
fn create_folder_refuses_a_missing_parent() {
    let mut vault = Vault::default();
    let err = vault.create_folder("Child", Some(42)).unwrap_err();
    assert_eq!(err, "Parent folder does not exist.");
    assert!(vault.folders.is_empty());
}

#[test]
fn created_folder_is_listed_under_its_parent() {
    let mut vault = Vault::default();
    let root = vault.create_folder("Root", None).unwrap();
    let child = vault.create_folder("Child", Some(root.id)).unwrap();
    assert!(vault.folder_is_in_subtree(child.id, root.id));
    assert!(vault.folder_is_in_subtree(child.id, child.id));
    assert!(!vault.folder_is_in_subtree(root.id, child.id));
}

#[test]
fn move_entry_refuses_missing_entry_or_folder() {
    let mut vault = Vault::default();
    let e = entry("Mail");
    let id = e.id;
    vault.add_entry(e);
    assert!(!vault.move_entry_to_folder(id, Some(7)));
    assert_eq!(vault.entries[0].folder_id, None);
    assert!(!vault.move_entry_to_folder(id.wrapping_add(1), None));
    assert!(vault.move_entry_to_folder(id, None));
    assert_eq!(vault.entries[0].folder_id, None);
}

#[test]
fn update_entry_replaces_the_entry_with_the_same_id() {
    let mut vault = Vault::default();
    let e = entry("Mail");
    let mut changed = e.clone();
    changed.title = "Webmail".to_string();
    vault.add_entry(e);
    vault.add_entry(entry("Bank"));
    vault.update_entry(changed.clone());
    assert_eq!(vault.entries.len(), 2);
    assert_eq!(vault.entries[0].title, "Webmail");
    assert_eq!(vault.entries[1].title, "Bank");

    let stranger = entry("Unknown");
    vault.update_entry(stranger);
    assert_eq!(vault.entries.len(), 2);
    assert_eq!(vault.entries[0].title, "Webmail");
}

#[test]
fn remove_entry_keeps_the_others_in_order() {
    let mut vault = Vault::default();
    let a = entry("A");
    let b = entry("B");
    let c = entry("C");
    let b_id = b.id;
    vault.add_entry(a);
    vault.add_entry(b);
    vault.add_entry(c);
    vault.remove_entry(b_id);
    let titles: Vec<&str> = vault.entries.iter().map(|e| e.title.as_str()).collect();
    assert_eq!(titles, vec!["A", "C"]);
    vault.remove_entry(b_id);
    assert_eq!(vault.entries.len(), 2);
}

#[test]
fn folders_made_by_create_folder_form_a_tree() {
    let mut vault = Vault::default();
    let a = vault.create_folder("A", None).unwrap();
    let b = vault.create_folder("B", Some(a.id)).unwrap();
    let c = vault.create_folder("C", Some(b.id)).unwrap();
    assert_eq!(folder_ancestors(&vault.folders, c.id), vec![b.id, a.id]);
    assert!(vault.folder_is_in_subtree(c.id, a.id));
}

#[test]
fn sample_vault_holds_one_entry() {
    let v = jpass::model::sample_vault();
    assert!(v.folders.is_empty());
    assert_eq!(v.entries.len(), 1);
    assert_eq!(v.entries[0].title, "GitHub");
    assert_eq!(v.entries[0].username, "alice@example.com");
    assert_eq!(v.entries[0].password, "super-secret");
    assert_eq!(v.entries[0].url, "https://github.com");
    assert_eq!(v.entries[0].notes, "Primary development account");
    assert_eq!(v.entries[0].folder_id, None);
}
