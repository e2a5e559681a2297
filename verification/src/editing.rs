//! Changes the vault screen makes on behalf of its dialogs: saving an edited
//! entry and moving an entry, each optionally into a folder created on the
//! way. Writing the changed vault back is the caller's.
use vstd::prelude::*;
use crate::text::{trim, trimmed};
use crate::model::{
    Vault, VaultEntry, VaultFolder, can_move, create_folder_refusal, entry_ids, find_entry,
    first_index, made_folder, moved_entries,
};

verus! {

/// The entries after saving `e`: it replaces the first entry with its id, or
/// is appended when there is none.
pub open spec fn upserted(entries: Seq<VaultEntry>, e: VaultEntry) -> Seq<VaultEntry> {
    match first_index(entry_ids(entries), e.id) {
        Some(i) => entries.update(i, e),
        None => entries.push(e),
    }
}

/// `after` is `before` with one folder `f` made for `name` under `parent_id`
/// appended, and the entries saved with `e` filed in that folder.
pub open spec fn saved_into_new_folder(
    before: Vault,
    after: Vault,
    e: VaultEntry,
    name: Seq<char>,
    parent_id: Option<u128>,
) -> bool {
    exists|f: VaultFolder|
        #![trigger made_folder(f, name, parent_id)]
        made_folder(f, name, parent_id) && after.folders@ == before.folders@.push(f)
            && after.entries@ == upserted(before.entries@, VaultEntry { folder_id: Some(f.id), ..e })
}

/// `after` is `before` with one folder `f` made for `name` under `parent_id`
/// appended, and the entry `entry_id` moved into it.
pub open spec fn moved_into_new_folder(
    before: Vault,
    after: Vault,
    entry_id: u128,
    name: Seq<char>,
    parent_id: Option<u128>,
) -> bool {
    exists|f: VaultFolder|
        #![trigger made_folder(f, name, parent_id)]
        made_folder(f, name, parent_id) && after.folders@ == before.folders@.push(f)
            && moved_entries(before.entries@, after.entries@, entry_id, Some(f.id))
}

fn upsert_entry(vault: &mut Vault, e: VaultEntry)
    ensures
        final(vault).folders@ == old(vault).folders@,
        final(vault).entries@ == upserted(old(vault).entries@, e),
{
    match find_entry(&vault.entries, e.id) {
        Some(i) => vault.entries.set(i, e),
        None => vault.entries.push(e),
    }
}

/// Saves an edited or new entry. When `new_folder` names a folder, it is
/// created under `new_folder_parent` first and the entry is filed in it; if
/// that folder is refused, nothing changes and the refusal is returned.
pub fn save_entry(
    vault: &mut Vault,
    updated: VaultEntry,
    new_folder: Option<String>,
    new_folder_parent: Option<u128>,
) -> (r: Result<(), String>)
    ensures
        match new_folder {
            None => {
                &&& r is Ok
                &&& final(vault).folders@ == old(vault).folders@
                &&& final(vault).entries@ == upserted(old(vault).entries@, updated)
            },
            Some(name) => match create_folder_refusal(old(vault).folders@, name@, new_folder_parent) {
                Some(m) => {
                    &&& r matches Err(e) && e@ == m
                    &&& final(vault).folders@ == old(vault).folders@
                    &&& final(vault).entries@ == old(vault).entries@
                },
                None => r is Ok && saved_into_new_folder(
                    *old(vault),
                    *final(vault),
                    updated,
                    name@,
                    new_folder_parent,
                ),
            },
        },
{
    let mut entry = updated;
    match new_folder {
        Some(name) => {
            match vault.create_folder(name.as_str(), new_folder_parent) {
                Ok(folder) => {
                    entry.folder_id = Some(folder.id);
                    upsert_entry(vault, entry);
                    assert(made_folder(folder, name@, new_folder_parent));
                    Ok(())
                },
                Err(e) => Err(e),
            }
        },
        None => {
            upsert_entry(vault, entry);
            Ok(())
        },
    }
}

/// Moves the entry `entry_id` into `folder_id` (`None` unfiles it) and says
/// whether it moved. When `new_folder` names a folder, it is created under
/// `folder_id` and the entry goes there instead; a refused folder is
/// returned as the error. Nothing changes unless the entry moves.
pub fn move_entry(
    vault: &mut Vault,
    entry_id: u128,
    folder_id: Option<u128>,
    new_folder: Option<String>,
) -> (r: Result<bool, String>)
    ensures
        match new_folder {
            None => {
                &&& r == Ok::<bool, String>(
                    can_move(old(vault).entries@, old(vault).folders@, entry_id, folder_id),
                )
                &&& final(vault).folders@ == old(vault).folders@
                &&& r == Ok::<bool, String>(false) ==> final(vault).entries@ == old(vault).entries@
                &&& r == Ok::<bool, String>(true) ==> moved_entries(
                    old(vault).entries@,
                    final(vault).entries@,
                    entry_id,
                    folder_id,
                )
            },
            Some(name) => match create_folder_refusal(old(vault).folders@, name@, folder_id) {
                Some(m) => {
                    &&& r matches Err(e) && e@ == m
                    &&& final(vault).folders@ == old(vault).folders@
                    &&& final(vault).entries@ == old(vault).entries@
                },
                None => if first_index(entry_ids(old(vault).entries@), entry_id) is None {
                    &&& r == Ok::<bool, String>(false)
                    &&& final(vault).folders@ == old(vault).folders@
                    &&& final(vault).entries@ == old(vault).entries@
                } else {
                    r == Ok::<bool, String>(true) && moved_into_new_folder(
                        *old(vault),
                        *final(vault),
                        entry_id,
                        name@,
                        folder_id,
                    )
                },
            },
        },
{
    match new_folder {
        None => Ok(vault.move_entry_to_folder(entry_id, folder_id)),
        Some(name) => {
            let ghost before = *vault;
            let folder = match vault.create_folder(name.as_str(), folder_id) {
                Ok(f) => f,
                Err(e) => return Err(e),
            };
            if find_entry(&vault.entries, entry_id).is_none() {
                // The move fails, so the folder made for it is not kept.
                vault.folders.pop();
                assert(vault.folders@ =~= before.folders@);
                return Ok(false);
            }
            assert(vault.folders@[vault.folders@.len() - 1] == folder);
            let moved = vault.move_entry_to_folder(entry_id, Some(folder.id));
            assert(made_folder(folder, name@, folder_id));
            Ok(moved)
        },
    }
}

/// The folder a dialog asks to create: its trimmed name, or none when the
/// name is blank.
pub fn new_folder_request(name: &str) -> (r: Option<String>)
    ensures
        match r {
            None => trimmed(name@).len() == 0,
            Some(s) => trimmed(name@).len() > 0 && s@ == trimmed(name@),
        },
{
    let t = trim(name);
    if t.as_str().is_empty() {
        None
    } else {
        Some(t)
    }
}

} // verus!
