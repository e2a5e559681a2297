//! The decrypted vault: folders (which may nest) and entries.
use vstd::prelude::*;
use crate::ids::{Timestamp, now, new_uuid};
use crate::text::{trim, trimmed, eq_ignore_ascii_case, eq_ignore_ascii_case_str};

verus! {

broadcast use vstd::string::group_string_axioms;

/// A folder of the vault; `parent_id` is `None` for a top-level folder.
#[derive(Debug, Clone)]
pub struct VaultFolder {
    pub id: u128,
    pub name: String,
    pub parent_id: Option<u128>,
    pub created_at: Timestamp,
    pub updated_at: Timestamp,
}

/// A stored credential; `folder_id` is `None` for an unfiled entry.
#[derive(Debug, Clone)]
pub struct VaultEntry {
    pub id: u128,
    pub title: String,
    pub username: String,
    pub password: String,
    pub url: String,
    pub notes: String,
    pub folder_id: Option<u128>,
    pub created_at: Timestamp,
    pub updated_at: Timestamp,
}

/// The decrypted, in-memory contents of the password vault.
#[derive(Debug, Clone)]
pub struct Vault {
    pub folders: Vec<VaultFolder>,
    pub entries: Vec<VaultEntry>,
}

/// The first position at or after `start` where `ids` holds `id`.
pub open spec fn first_index_from(ids: Seq<u128>, id: u128, start: int) -> Option<int>
    decreases ids.len() - start,
{
    if start < 0 || start >= ids.len() {
        None
    } else if ids[start] == id {
        Some(start)
    } else {
        first_index_from(ids, id, start + 1)
    }
}

/// The first position where `ids` holds `id` (what `iter().find` stops at).
pub open spec fn first_index(ids: Seq<u128>, id: u128) -> Option<int> {
    first_index_from(ids, id, 0)
}

/// The ids of the folders, in order.
pub open spec fn folder_ids(folders: Seq<VaultFolder>) -> Seq<u128> {
    folders.map_values(|f: VaultFolder| f.id)
}

/// The ids of the entries, in order.
pub open spec fn entry_ids(entries: Seq<VaultEntry>) -> Seq<u128> {
    entries.map_values(|e: VaultEntry| e.id)
}

/// Some folder has this id.
pub open spec fn has_folder(folders: Seq<VaultFolder>, id: u128) -> bool {
    exists|i: int| 0 <= i < folders.len() && #[trigger] folders[i].id == id
}

/// The parent of the first folder with id `id`; `None` when that folder is
/// top-level or no folder has that id.
pub open spec fn parent_of(folders: Seq<VaultFolder>, id: u128) -> Option<u128> {
    match first_index(folder_ids(folders), id) {
        Some(i) => folders[i].parent_id,
        None => None,
    }
}

/// The walk up the folder tree: `walk(id, 0)` is `id`, and each step moves to
/// the parent of the folder reached; `None` once a top-level folder or an
/// unknown id has been passed.
pub open spec fn walk(folders: Seq<VaultFolder>, id: u128, k: nat) -> Option<u128>
    decreases k,
{
    if k == 0 {
        Some(id)
    } else {
        match walk(folders, id, (k - 1) as nat) {
            Some(x) => parent_of(folders, x),
            None => None,
        }
    }
}

/// The walk from `id` ends after finitely many steps (the folders above `id`
/// form no cycle).
pub open spec fn walk_ends(folders: Seq<VaultFolder>, id: u128) -> bool {
    exists|k: nat| #[trigger] walk(folders, id, k) is None
}

/// `ancestor` is `id` itself or a folder above it.
pub open spec fn in_subtree(folders: Seq<VaultFolder>, id: u128, ancestor: u128) -> bool {
    exists|k: nat| #[trigger] walk(folders, id, k) == Some(ancestor)
}

/// Once the walk has ended it stays ended.
pub proof fn lemma_walk_stays_ended(folders: Seq<VaultFolder>, id: u128, a: nat, b: nat)
    requires
        a <= b,
        walk(folders, id, a) is None,
    ensures
        walk(folders, id, b) is None,
    decreases b - a,
{
    if a < b {
        lemma_walk_stays_ended(folders, id, a, (b - 1) as nat);
    }
}

/// A folder name is already used by a folder under the same parent, ignoring
/// ASCII case.
pub open spec fn sibling_name_taken(folders: Seq<VaultFolder>, parent_id: Option<u128>, name: Seq<
    char,
>) -> bool {
    exists|i: int|
        0 <= i < folders.len() && #[trigger] folders[i].parent_id == parent_id
            && eq_ignore_ascii_case(folders[i].name@, name)
}

/// Why `create_folder` refuses a name under a parent, or `None` when it
/// accepts: an empty (trimmed) name, a name taken by a sibling, or a parent
/// that does not exist, checked in that order.
pub open spec fn create_folder_refusal(
    folders: Seq<VaultFolder>,
    name: Seq<char>,
    parent_id: Option<u128>,
) -> Option<Seq<char>> {
    if trimmed(name).len() == 0 {
        Some("Folder name cannot be empty."@)
    } else if sibling_name_taken(folders, parent_id, trimmed(name)) {
        Some("A folder with that name already exists here."@)
    } else if parent_id matches Some(p) && !has_folder(folders, p) {
        Some("Parent folder does not exist."@)
    } else {
        None
    }
}

/// `f` is a folder as `create_folder` makes it for this name and parent.
pub open spec fn made_folder(f: VaultFolder, name: Seq<char>, parent_id: Option<u128>) -> bool {
    &&& f.name@ == trimmed(name)
    &&& f.parent_id == parent_id
    &&& f.created_at == f.updated_at
}

/// Some entry has the id, and the destination is no folder or an existing one.
pub open spec fn can_move(
    entries: Seq<VaultEntry>,
    folders: Seq<VaultFolder>,
    entry_id: u128,
    folder_id: Option<u128>,
) -> bool {
    &&& first_index(entry_ids(entries), entry_id) is Some
    &&& (folder_id matches Some(f) ==> has_folder(folders, f))
}

/// `after` is `before` with the first entry of id `entry_id` filed under
/// `folder_id`; only its folder and its update time may differ.
pub open spec fn moved_entries(
    before: Seq<VaultEntry>,
    after: Seq<VaultEntry>,
    entry_id: u128,
    folder_id: Option<u128>,
) -> bool {
    let i = first_index(entry_ids(before), entry_id)->0;
    let was = before[i];
    let now = after[i];
    &&& after.len() == before.len()
    &&& forall|j: int| 0 <= j < before.len() && j != i ==> after[j] == before[j]
    &&& now.folder_id == folder_id
    &&& now.id == was.id
    &&& now.title == was.title
    &&& now.username == was.username
    &&& now.password == was.password
    &&& now.url == was.url
    &&& now.notes == was.notes
    &&& now.created_at == was.created_at
}

/// A field-by-field copy of a folder, equal to it.
pub(crate) fn copy_folder(f: &VaultFolder) -> (r: VaultFolder)
    ensures
        r == *f,
{
    VaultFolder {
        id: f.id,
        name: f.name.clone(),
        parent_id: f.parent_id,
        created_at: f.created_at,
        updated_at: f.updated_at,
    }
}

/// A field-by-field copy of an entry, equal to it.
fn copy_entry(e: &VaultEntry) -> (r: VaultEntry)
    ensures
        r == *e,
{
    VaultEntry {
        id: e.id,
        title: e.title.clone(),
        username: e.username.clone(),
        password: e.password.clone(),
        url: e.url.clone(),
        notes: e.notes.clone(),
        folder_id: e.folder_id,
        created_at: e.created_at,
        updated_at: e.updated_at,
    }
}

/// Equality of optional ids.
pub fn same_option(a: Option<u128>, b: Option<u128>) -> (r: bool)
    ensures
        r == (a == b),
{
    match (a, b) {
        (Some(x), Some(y)) => x == y,
        (None, None) => true,
        _ => false,
    }
}

/// The position of the first folder with id `id`.
pub fn find_folder(folders: &[VaultFolder], id: u128) -> (r: Option<usize>)
    ensures
        r matches Some(i) ==> first_index(folder_ids(folders@), id) == Some(i as int) && i
            < folders@.len() && folders@[i as int].id == id,
        r is None ==> first_index(folder_ids(folders@), id) is None,
        r is None <==> !has_folder(folders@, id),
{
    let ghost ids = folder_ids(folders@);
    let mut i: usize = 0;
    while i < folders.len()
        invariant
            i <= folders@.len(),
            ids == folder_ids(folders@),
            ids.len() == folders@.len(),
            first_index(ids, id) == first_index_from(ids, id, i as int),
            forall|j: int| 0 <= j < i ==> folders@[j].id != id,
        decreases folders@.len() - i,
    {
        if folders[i].id == id {
            return Some(i);
        }
        assert(ids[i as int] == folders@[i as int].id);
        i += 1;
    }
    None
}

/// The position of the first entry with id `id`.
pub fn find_entry(entries: &Vec<VaultEntry>, id: u128) -> (r: Option<usize>)
    ensures
        r matches Some(i) ==> first_index(entry_ids(entries@), id) == Some(i as int) && i
            < entries@.len() && entries@[i as int].id == id,
        r is None ==> first_index(entry_ids(entries@), id) is None,
{
    let ghost ids = entry_ids(entries@);
    let mut i: usize = 0;
    while i < entries.len()
        invariant
            i <= entries@.len(),
            ids == entry_ids(entries@),
            ids.len() == entries@.len(),
            first_index(ids, id) == first_index_from(ids, id, i as int),
        decreases entries@.len() - i,
    {
        if entries[i].id == id {
            return Some(i);
        }
        assert(ids[i as int] == entries@[i as int].id);
        i += 1;
    }
    None
}

/// A first index found is a real position holding the id.
pub proof fn lemma_first_index_from(ids: Seq<u128>, id: u128, start: int)
    requires
        0 <= start,
    ensures
        first_index_from(ids, id, start) matches Some(i) ==> start <= i < ids.len() && ids[i]
            == id && forall|j: int| start <= j < i ==> ids[j] != id,
        first_index_from(ids, id, start) is None ==> forall|j: int|
            start <= j < ids.len() ==> ids[j] != id,
    decreases ids.len() - start,
{
    if start < ids.len() && ids[start] != id {
        lemma_first_index_from(ids, id, start + 1);
    }
}

impl VaultFolder {
    /// A new top-level folder with a fresh id, created and updated now.
    pub fn new(name: String) -> (f: Self)
        ensures
            f.name == name,
            f.parent_id is None,
            f.created_at == f.updated_at,
    {
        Self::new_in_parent(name, None)
    }

    /// A new folder under `parent_id` with a fresh id, created and updated now.
    pub fn new_in_parent(name: String, parent_id: Option<u128>) -> (f: Self)
        ensures
            f.name == name,
            f.parent_id == parent_id,
            f.created_at == f.updated_at,
    {
        let now = now();
        Self { id: new_uuid(), name, parent_id, created_at: now, updated_at: now }
    }
}

impl VaultEntry {
    /// A new unfiled entry with a fresh id, created and updated now.
    pub fn new(title: String, username: String, password: String, url: String, notes: String) -> (e:
        Self)
        ensures
            e.title == title,
            e.username == username,
            e.password == password,
            e.url == url,
            e.notes == notes,
            e.folder_id is None,
            e.created_at == e.updated_at,
    {
        let now = now();
        Self {
            id: new_uuid(),
            title,
            username,
            password,
            url,
            notes,
            folder_id: None,
            created_at: now,
            updated_at: now,
        }
    }
}

impl Default for Vault {
    /// An empty vault.
    fn default() -> (v: Self)
        ensures
            v.folders@.len() == 0,
            v.entries@.len() == 0,
    {
        Vault { folders: Vec::new(), entries: Vec::new() }
    }
}

impl Vault {

    /// Appends an entry.
    pub fn add_entry(&mut self, entry: VaultEntry)
        ensures
            final(self).entries@ == old(self).entries@.push(entry),
            final(self).folders@ == old(self).folders@,
    {
        self.entries.push(entry);
    }

    /// Replaces the first entry that has the id of `updated`; does nothing when
    /// no entry has it.
    pub fn update_entry(&mut self, updated: VaultEntry)
        ensures
            final(self).folders@ == old(self).folders@,
            match first_index(entry_ids(old(self).entries@), updated.id) {
                Some(i) => final(self).entries@ == old(self).entries@.update(i, updated),
                None => final(self).entries@ == old(self).entries@,
            },
    {
        let found = find_entry(&self.entries, updated.id);
        if let Some(i) = found {
            self.entries.set(i, updated);
        }
    }

    /// Removes every entry with id `id`, keeping the others in order.
    pub fn remove_entry(&mut self, id: u128)
        ensures
            final(self).folders@ == old(self).folders@,
            final(self).entries@ == old(self).entries@.filter(|e: VaultEntry| e.id != id),
    {
        let mut kept: Vec<VaultEntry> = Vec::new();
        let mut i: usize = 0;
        while i < self.entries.len()
            invariant
                i <= self.entries@.len(),
                kept@ == self.entries@.take(i as int).filter(|e: VaultEntry| e.id != id),
            decreases self.entries@.len() - i,
        {
            reveal_with_fuel(Seq::<_>::filter, 1);
            assert(self.entries@.take(i + 1).drop_last() =~= self.entries@.take(i as int));
            if self.entries[i].id != id {
                kept.push(copy_entry(&self.entries[i]));
            }
            i += 1;
        }
        assert(self.entries@.take(self.entries@.len() as int) =~= self.entries@);
        self.entries = kept;
    }

    /// Creates a folder named `name` (trimmed) under `parent_id`. Refuses an
    /// empty name, a name already used under the same parent (ignoring ASCII
    /// case), and a parent that does not exist.
    pub fn create_folder(&mut self, name: &str, parent_id: Option<u128>) -> (r: Result<
        VaultFolder,
        String,
    >)
        ensures
            final(self).entries@ == old(self).entries@,
            match create_folder_refusal(old(self).folders@, name@, parent_id) {
                Some(m) => r matches Err(e) && e@ == m && final(self).folders@ == old(self).folders@,
                None => r matches Ok(f) && made_folder(f, name@, parent_id) && final(self).folders@
                    == old(self).folders@.push(f),
            },
    {
        let clean = trim(name);
        if clean.as_str().is_empty() {
            return Err("Folder name cannot be empty.".to_string());
        }
        let mut i: usize = 0;
        while i < self.folders.len()
            invariant
                i <= self.folders@.len(),
                clean@ == trimmed(name@),
                clean@.len() != 0,
                self.folders@ == old(self).folders@,
                forall|j: int|
                    0 <= j < i ==> !(#[trigger] self.folders@[j].parent_id == parent_id
                        && eq_ignore_ascii_case(self.folders@[j].name@, clean@)),
            decreases self.folders@.len() - i,
        {
            if same_option(self.folders[i].parent_id, parent_id) && eq_ignore_ascii_case_str(
                self.folders[i].name.as_str(),
                clean.as_str(),
            ) {
                return Err("A folder with that name already exists here.".to_string());
            }
            i += 1;
        }
        if let Some(p) = parent_id {
            if find_folder(&self.folders, p).is_none() {
                return Err("Parent folder does not exist.".to_string());
            }
        }
        let folder = VaultFolder::new_in_parent(clean, parent_id);
        self.folders.push(copy_folder(&folder));
        Ok(folder)
    }

    /// Whether `ancestor_id` is `folder_id` or lies above it in the folder tree.
    pub fn folder_is_in_subtree(&self, folder_id: u128, ancestor_id: u128) -> (r: bool)
        requires
            exists|k: nat|
                #![trigger walk(self.folders@, folder_id, k)]
                walk(self.folders@, folder_id, k) is None || walk(self.folders@, folder_id, k)
                    == Some(ancestor_id),
        ensures
            r == in_subtree(self.folders@, folder_id, ancestor_id),
    {
        let ghost fs = self.folders@;
        let ghost bound = choose|k: nat|
            #![trigger walk(fs, folder_id, k)]
            walk(fs, folder_id, k) is None || walk(fs, folder_id, k) == Some(ancestor_id);
        let mut current: Option<u128> = Some(folder_id);
        let ghost mut steps: nat = 0;
        while current.is_some()
            invariant
                fs == self.folders@,
                current == walk(fs, folder_id, steps),
                walk(fs, folder_id, bound) is None || walk(fs, folder_id, bound) == Some(
                    ancestor_id,
                ),
                forall|j: nat| j < steps ==> #[trigger] walk(fs, folder_id, j) != Some(ancestor_id),
                forall|j: nat| j < steps ==> #[trigger] walk(fs, folder_id, j) is Some,
                steps <= bound,
            decreases bound - steps,
        {
            let id = current.unwrap();
            if id == ancestor_id {
                return true;
            }
            let found = find_folder(&self.folders, id);
            current = match found {
                Some(i) => self.folders[i].parent_id,
                None => None,
            };
            proof {
                assert(walk(fs, folder_id, steps + 1) == current);
                steps = steps + 1;
                if steps > bound {
                    assert(walk(fs, folder_id, bound) is Some);
                }
            }
        }
        proof {
            assert forall|k: nat| #[trigger] walk(fs, folder_id, k) != Some(ancestor_id) by {
                if k >= steps {
                    lemma_walk_stays_ended(fs, folder_id, steps, k);
                }
            }
        }
        false
    }

    /// Files the entry `entry_id` under `folder_id` (`None` unfiles it) and
    /// stamps it as updated now. Returns false, changing nothing, when no entry
    /// has that id or the folder does not exist.
    pub fn move_entry_to_folder(&mut self, entry_id: u128, folder_id: Option<u128>) -> (r: bool)
        ensures
            final(self).folders@ == old(self).folders@,
            r == can_move(old(self).entries@, old(self).folders@, entry_id, folder_id),
            !r ==> final(self).entries@ == old(self).entries@,
            r ==> moved_entries(old(self).entries@, final(self).entries@, entry_id, folder_id),
    {
        let found = find_entry(&self.entries, entry_id);
        let i = match found {
            Some(i) => i,
            None => return false,
        };
        if let Some(f) = folder_id {
            if find_folder(&self.folders, f).is_none() {
                return false;
            }
        }
        let stamp = now();
        let mut entry = copy_entry(&self.entries[i]);
        entry.folder_id = folder_id;
        entry.updated_at = stamp;
        self.entries.set(i, entry);
        true
    }
}

/// A vault holding one example entry, for demonstrations: a GitHub login of
/// `alice@example.com`, unfiled, and no folders.
pub fn sample_vault() -> (v: Vault)
    ensures
        v.folders@.len() == 0,
        v.entries@.len() == 1,
        v.entries@[0].title@ == "GitHub"@,
        v.entries@[0].username@ == "alice@example.com"@,
        v.entries@[0].password@ == "super-secret"@,
        v.entries@[0].url@ == "https://github.com"@,
        v.entries@[0].notes@ == "Primary development account"@,
        v.entries@[0].folder_id is None,
        v.entries@[0].created_at == v.entries@[0].updated_at,
{
    let mut vault = Vault::default();
    vault.add_entry(
        VaultEntry::new(
            "GitHub".to_string(),
            "alice@example.com".to_string(),
            "super-secret".to_string(),
            "https://github.com".to_string(),
            "Primary development account".to_string(),
        ),
    );
    vault
}

} // verus!
