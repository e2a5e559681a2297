use std::collections::HashSet;

use jpass::folder_tree::{
    flatten_folder_tree, folder_ancestors, folder_has_children, folder_is_visible, folder_path,
    move_destinations, TreeView,
};
use jpass::model::VaultFolder;

#[test]
fn folder_ancestors_include_parents_in_order() {
    let root = VaultFolder::new_in_parent("Root".to_string(), None);
    let child = VaultFolder::new_in_parent("Child".to_string(), Some(root.id));
    let grandchild = VaultFolder::new_in_parent("Grandchild".to_string(), Some(child.id));
    let folders = vec![root.clone(), child.clone(), grandchild.clone()];

    let ancestors = folder_ancestors(&folders, grandchild.id);
    assert_eq!(ancestors, vec![child.id, root.id]);
}

fn sample() -> (Vec<VaultFolder>, VaultFolder, VaultFolder, VaultFolder, VaultFolder) {
    let work = VaultFolder::new_in_parent("Work".to_string(), None);
    let home = VaultFolder::new_in_parent("Home".to_string(), None);
    let projects = VaultFolder::new_in_parent("Projects".to_string(), Some(work.id));
    let bills = VaultFolder::new_in_parent("Bills".to_string(), Some(home.id));
    // Listed out of tree order on purpose.
    let folders = vec![bills.clone(), work.clone(), projects.clone(), home.clone()];
    (folders, work, home, projects, bills)
}

#[test]
fn flatten_lists_each_parent_before_its_children() {
    let (folders, work, home, projects, bills) = sample();
    let rows = flatten_folder_tree(&folders);
    let listed: Vec<(u128, usize)> = rows.iter().map(|(f, d)| (f.id, *d)).collect();
    assert_eq!(
        listed,
        vec![(work.id, 0), (projects.id, 1), (home.id, 0), (bills.id, 1)]
    );
}

#[test]
fn flatten_skips_folders_whose_parent_is_missing() {
    let orphan = VaultFolder::new_in_parent("Orphan".to_string(), Some(99));
    let top = VaultFolder::new("Top".to_string());
    let rows = flatten_folder_tree(&[orphan, top.clone()]);
    assert_eq!(rows.len(), 1);
    assert_eq!(rows[0].0.id, top.id);
    assert_eq!(rows[0].1, 0);
}

#[test]
fn folder_path_joins_names_from_the_top() {
    let (folders, work, _home, projects, _bills) = sample();
    assert_eq!(folder_path(&folders, projects.id), "Work / Projects");
    assert_eq!(folder_path(&folders, work.id), "Work");
    assert_eq!(folder_path(&folders, 12345), "");
}

#[test]
fn folder_path_stops_on_a_cycle() {
    let mut a = VaultFolder::new("A".to_string());
    let b = VaultFolder::new_in_parent("B".to_string(), Some(a.id));
    a.parent_id = Some(b.id);
    let folders = vec![a.clone(), b.clone()];
    // One more name than there are folders.
    assert_eq!(folder_path(&folders, a.id), "A / B / A");
}

#[test]
fn folder_has_children_checks_parents() {
    let (folders, work, _home, projects, _bills) = sample();
    assert!(folder_has_children(&folders, work.id));
    assert!(!folder_has_children(&folders, projects.id));
}

#[test]
fn folder_ancestors_of_top_level_or_unknown_folder_is_empty() {
    let (folders, work, _home, _projects, _bills) = sample();
    assert!(folder_ancestors(&folders, work.id).is_empty());
    assert!(folder_ancestors(&folders, 777).is_empty());
}

#[test]
fn folder_is_visible_when_every_parent_is_expanded() {
    let (folders, work, home, projects, bills) = sample();
    let mut expanded = HashSet::new();
    assert!(folder_is_visible(&folders, work.id, &expanded));
    assert!(!folder_is_visible(&folders, projects.id, &expanded));
    expanded.insert(work.id);
    assert!(folder_is_visible(&folders, projects.id, &expanded));
    assert!(!folder_is_visible(&folders, bills.id, &expanded));
    expanded.insert(home.id);
    assert!(folder_is_visible(&folders, bills.id, &expanded));
    assert!(!folder_is_visible(&folders, 4242, &expanded));
}

#[test]
fn move_destinations_exclude_the_folder_and_paths_under_its_name() {
    let (folders, work, home, projects, bills) = sample();
    let ids: Vec<u128> = move_destinations(&folders, &work).iter().map(|(f, _)| f.id).collect();
    assert_eq!(ids, vec![home.id, bills.id]);
    let ids: Vec<u128> = move_destinations(&folders, &bills).iter().map(|(f, _)| f.id).collect();
    assert_eq!(ids, vec![work.id, projects.id, home.id]);
}

#[test]
fn tree_view_expands_everything_first_then_ancestors_of_the_selection() {
    let (folders, work, _home, projects, _bills) = sample();
    let mut view = TreeView::new();
    view.sync(&[]);
    assert!(!view.initialized);
    view.sync(&folders);
    assert!(view.initialized);
    assert_eq!(view.expanded.len(), 4);
    view.expanded.clear();
    view.selected = Some(projects.id);
    view.sync(&folders);
    assert_eq!(view.selected, Some(projects.id));
    assert!(view.expanded.contains(&work.id));
    assert_eq!(view.expanded.len(), 1);
    view.selected = Some(999);
    view.sync(&folders);
    assert_eq!(view.selected, None);
}

#[test]
fn move_destinations_go_by_the_path_prefix_of_the_name() {
    let (mut folders, work, home, projects, bills) = sample();
    let archive = VaultFolder::new_in_parent("Archive".to_string(), Some(projects.id));
    let other = VaultFolder::new_in_parent("Old".to_string(), Some(home.id));
    let projects_top = VaultFolder::new_in_parent("Projects".to_string(), None);
    let under_top = VaultFolder::new_in_parent("Docs".to_string(), Some(projects_top.id));
    folders.push(archive.clone());
    folders.push(other.clone());
    folders.push(projects_top.clone());
    folders.push(under_top.clone());
    // Moving the nested "Projects": its path is "Work / Projects", so its own
    // child stays offered, while everything under a top-level "Projects" is left out.
    let ids: Vec<u128> = move_destinations(&folders, &projects).iter().map(|(f, _)| f.id).collect();
    assert_eq!(
        ids,
        vec![work.id, archive.id, home.id, bills.id, other.id, projects_top.id]
    );
}

#[test]
fn folder_path_is_the_ancestors_reversed_then_the_folder() {
    let (mut folders, _work, _home, projects, _bills) = sample();
    let archive = VaultFolder::new_in_parent("Archive".to_string(), Some(projects.id));
    folders.push(archive.clone());
    let mut names: Vec<String> = folder_ancestors(&folders, archive.id)
        .iter()
        .map(|id| folders.iter().find(|f| f.id == *id).unwrap().name.clone())
        .collect();
    names.reverse();
    names.push(archive.name.clone());
    assert_eq!(folder_path(&folders, archive.id), names.join(" / "));
    assert_eq!(folder_path(&folders, archive.id), "Work / Projects / Archive");
}
