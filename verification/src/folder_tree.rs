//! Navigation over the folder tree: the indented listing, the display path of
//! a folder, its ancestors, and which folders an expanded/collapsed tree shows.
use vstd::prelude::*;
use std::collections::HashSet;
use vstd::string::StringExecFns;
use crate::model::{
    VaultFolder, copy_folder, find_folder, first_index, folder_ids, has_folder, parent_of, same_option,
    walk, walk_ends, lemma_walk_stays_ended,
};
use crate::text::{chars_of, joined};

verus! {

broadcast use vstd::std_specs::hash::group_hash_axioms;

/// Rows of the listing below `parent` at `depth`: each folder whose parent is
/// `parent`, in order, followed by its own subtree one level deeper. `fuel`
/// bounds the depth that is still listed.
pub open spec fn tree_rows(folders: Seq<VaultFolder>, parent: Option<u128>, depth: nat, fuel: nat) -> Seq<
    (VaultFolder, nat),
>
    decreases fuel, folders.len() + 1,
{
    child_rows(folders, parent, depth, fuel, 0)
}

/// Rows contributed by the folders from position `i` on.
pub open spec fn child_rows(
    folders: Seq<VaultFolder>,
    parent: Option<u128>,
    depth: nat,
    fuel: nat,
    i: int,
) -> Seq<(VaultFolder, nat)>
    decreases fuel, folders.len() - i,
{
    if fuel == 0 || i < 0 || i >= folders.len() {
        Seq::empty()
    } else {
        let rest = child_rows(folders, parent, depth, fuel, i + 1);
        if folders[i].parent_id == parent {
            seq![(folders[i], depth)] + tree_rows(
                folders,
                Some(folders[i].id),
                depth + 1,
                (fuel - 1) as nat,
            ) + rest
        } else {
            rest
        }
    }
}

/// The depth-first listing of the whole tree, top-level folders first. No
/// folder of a tree of `n` folders lies deeper than `n - 1`.
pub open spec fn folder_listing(folders: Seq<VaultFolder>) -> Seq<(VaultFolder, nat)> {
    tree_rows(folders, None, 0, folders.len())
}

/// Rows with their depth as a mathematical integer.
pub open spec fn rows_view(rows: Seq<(VaultFolder, usize)>) -> Seq<(VaultFolder, nat)> {
    rows.map_values(|r: (VaultFolder, usize)| (r.0, r.1 as nat))
}

fn append_children(
    folders: &[VaultFolder],
    parent_id: Option<u128>,
    depth: usize,
    result: &mut Vec<(VaultFolder, usize)>,
)
    requires
        depth <= folders@.len(),
    ensures
        rows_view(final(result)@) == rows_view(old(result)@) + tree_rows(
            folders@,
            parent_id,
            depth as nat,
            (folders@.len() - depth) as nat,
        ),
    decreases folders@.len() - depth,
{
    let ghost fuel = (folders@.len() - depth) as nat;
    let ghost start = rows_view(result@);
    if depth >= folders.len() {
        assert(rows_view(result@) =~= start + tree_rows(folders@, parent_id, depth as nat, fuel));
        return;
    }
    let mut i: usize = 0;
    while i < folders.len()
        invariant
            0 < fuel == folders@.len() - depth,
            depth < folders@.len(),
            i <= folders@.len(),
            rows_view(result@) + child_rows(folders@, parent_id, depth as nat, fuel, i as int)
                == start + tree_rows(folders@, parent_id, depth as nat, fuel),
        decreases folders@.len() - i,
    {
        let ghost before = rows_view(result@);
        let ghost rest = child_rows(folders@, parent_id, depth as nat, fuel, i + 1);
        if same_option(folders[i].parent_id, parent_id) {
            let row = (copy_folder(&folders[i]), depth);
            result.push(row);
            assert(rows_view(result@) =~= before + seq![(folders@[i as int], depth as nat)]);
            append_children(folders, Some(folders[i].id), depth + 1, result);
            assert(rows_view(result@) + rest =~= before + child_rows(
                folders@,
                parent_id,
                depth as nat,
                fuel,
                i as int,
            ));
        }
        i += 1;
    }
    assert(rows_view(result@) =~= start + tree_rows(folders@, parent_id, depth as nat, fuel));
}

/// The folders in tree order, each with its depth (0 for top-level folders).
pub fn flatten_folder_tree(folders: &[VaultFolder]) -> (r: Vec<(VaultFolder, usize)>)
    ensures
        rows_view(r@) == folder_listing(folders@),
{
    let mut result: Vec<(VaultFolder, usize)> = Vec::new();
    assert(rows_view(result@) =~= Seq::empty());
    append_children(folders, None, 0, &mut result);
    assert(rows_view(result@) =~= folder_listing(folders@));
    result
}

/// Names met on the way up from `id`: the folder's own name, its parent's, and
/// so on, stopping at a top-level folder, an unknown id, or after `fuel` names.
pub open spec fn path_names(folders: Seq<VaultFolder>, id: u128, fuel: nat) -> Seq<Seq<char>>
    decreases fuel,
{
    if fuel == 0 {
        Seq::empty()
    } else {
        match first_index(folder_ids(folders), id) {
            None => Seq::empty(),
            Some(i) => seq![folders[i].name@] + match folders[i].parent_id {
                None => Seq::empty(),
                Some(p) => path_names(folders, p, (fuel - 1) as nat),
            },
        }
    }
}

/// The display path of a folder: names from the top down, joined with " / ".
/// At most one more name than there are folders is shown.
pub open spec fn folder_path_text(folders: Seq<VaultFolder>, id: u128) -> Seq<char> {
    joined(path_names(folders, id, folders.len() + 1).reverse(), " / "@)
}

/// The display path of a folder, such as `Personal / Finances`.
pub fn folder_path(folders: &[VaultFolder], folder_id: u128) -> (r: String)
    ensures
        r@ == folder_path_text(folders@, folder_id),
{
    let ghost n = folders@.len();
    let mut names: Vec<String> = Vec::new();
    let mut current_id: Option<u128> = Some(folder_id);
    let mut guard: usize = 0;
    let ghost total = path_names(folders@, folder_id, n + 1);
    loop
        invariant_except_break
            n == folders@.len(),
            guard <= n,
            names@.len() == guard,
            names@.map_values(|s: String| s@) + match current_id {
                None => Seq::<Seq<char>>::empty(),
                Some(c) => path_names(folders@, c, (n + 1 - guard) as nat),
            } == total,
        ensures
            names@.map_values(|s: String| s@) == total,
        decreases n + 1 - guard,
    {
        let ghost views = names@.map_values(|s: String| s@);
        let id = match current_id {
            Some(id) => id,
            None => {
                assert(views + Seq::<Seq<char>>::empty() =~= views);
                break;
            },
        };
        let found = find_folder(folders, id);
        match found {
            None => {
                assert(path_names(folders@, id, (n + 1 - guard) as nat) =~= Seq::empty());
                assert(views + Seq::<Seq<char>>::empty() =~= views);
                break;
            },
            Some(i) => {
                let name = folders[i].name.clone();
                names.push(name);
                current_id = folders[i].parent_id;
                assert(names@.map_values(|s: String| s@) =~= views.push(folders@[i as int].name@));
                if guard >= folders.len() {
                    assert(path_names(folders@, id, 1) =~= seq![folders@[i as int].name@] + match folders@[i as int].parent_id {
                        None => Seq::<Seq<char>>::empty(),
                        Some(p) => path_names(folders@, p, 0),
                    });
                    assert(names@.map_values(|s: String| s@) =~= total);
                    break;
                }
                guard += 1;
                assert(names@.map_values(|s: String| s@) + match current_id {
                    None => Seq::<Seq<char>>::empty(),
                    Some(c) => path_names(folders@, c, (n + 1 - guard) as nat),
                } =~= views + path_names(folders@, id, (n + 1 - (guard - 1)) as nat));
            },
        }
    }
    let ghost pieces = names@.map_values(|s: String| s@);
    let ghost rev = pieces.reverse();
    let m = names.len();
    let mut out = String::new();
    let mut k: usize = 0;
    while k < m
        invariant
            m == names@.len(),
            pieces == names@.map_values(|s: String| s@),
            rev == pieces.reverse(),
            k <= m,
            out@ == joined(rev.take(k as int), " / "@),
        decreases m - k,
    {
        assert(rev.take(k + 1).drop_last() =~= rev.take(k as int));
        assert(rev[k as int] == names@[m - 1 - k]@);
        if k > 0 {
            out.append(" / ");
        } else {
            assert(rev.take(1) =~= seq![rev[0]]);
        }
        out.append(names[m - 1 - k].as_str());
        k += 1;
    }
    assert(rev.take(m as int) =~= rev);
    out
}

/// `prefix` begins `s`.
pub open spec fn begins_with(s: Seq<char>, prefix: Seq<char>) -> bool {
    prefix.len() <= s.len() && s.subrange(0, prefix.len() as int) == prefix
}

fn text_begins_with(s: &str, prefix: &str) -> (r: bool)
    ensures
        r == begins_with(s@, prefix@),
{
    let sv = chars_of(s);
    let pv = chars_of(prefix);
    if pv.len() > sv.len() {
        return false;
    }
    let mut i: usize = 0;
    while i < pv.len()
        invariant
            sv@ == s@,
            pv@ == prefix@,
            pv@.len() <= sv@.len(),
            i <= pv@.len(),
            forall|k: int| 0 <= k < i ==> sv@[k] == pv@[k],
        decreases pv@.len() - i,
    {
        if sv[i] != pv[i] {
            assert(s@.subrange(0, prefix@.len() as int)[i as int] != prefix@[i as int]);
            return false;
        }
        i += 1;
    }
    assert(s@.subrange(0, prefix@.len() as int) =~= prefix@);
    true
}

/// A row the move dialog offers as the new parent of `moving`: any folder but
/// `moving` itself and those whose display path begins with its name and
/// " / ". (For a top-level folder that leaves out exactly the folders below
/// it; a nested folder's own subtree is not recognised this way.)
pub open spec fn is_move_destination(
    folders: Seq<VaultFolder>,
    moving: VaultFolder,
    row: (VaultFolder, nat),
) -> bool {
    row.0.id != moving.id && !begins_with(folder_path_text(folders, row.0.id), moving.name@ + " / "@)
}

/// The folders a folder may be moved under, in tree order with their depth.
pub fn move_destinations(folders: &[VaultFolder], moving: &VaultFolder) -> (r: Vec<(VaultFolder, usize)>)
    ensures
        rows_view(r@) == folder_listing(folders@).filter(
            |row: (VaultFolder, nat)| is_move_destination(folders@, *moving, row),
        ),
{
    let rows = flatten_folder_tree(folders);
    let mut prefix = moving.name.clone();
    prefix.append(" / ");
    let ghost listing = rows_view(rows@);
    let mut out: Vec<(VaultFolder, usize)> = Vec::new();
    let mut i: usize = 0;
    while i < rows.len()
        invariant
            i <= rows@.len(),
            listing == rows_view(rows@),
            listing == folder_listing(folders@),
            prefix@ == moving.name@ + " / "@,
            rows_view(out@) == listing.take(i as int).filter(
                |row: (VaultFolder, nat)| is_move_destination(folders@, *moving, row),
            ),
        decreases rows@.len() - i,
    {
        reveal_with_fuel(Seq::<_>::filter, 1);
        assert(listing.take(i + 1).drop_last() =~= listing.take(i as int));
        let id = rows[i].0.id;
        let path = folder_path(folders, id);
        if id != moving.id && !text_begins_with(path.as_str(), prefix.as_str()) {
            let ghost before = rows_view(out@);
            let row = (copy_folder(&rows[i].0), rows[i].1);
            out.push(row);
            assert(rows_view(out@) =~= before.push(listing[i as int]));
        } else {
            assert(!is_move_destination(folders@, *moving, listing[i as int]));
        }
        i += 1;
    }
    assert(listing.take(rows@.len() as int) =~= listing);
    out
}

/// Some folder has `folder_id` as its parent.
pub fn folder_has_children(folders: &[VaultFolder], folder_id: u128) -> (r: bool)
    ensures
        r == exists|i: int| 0 <= i < folders@.len() && #[trigger] folders@[i].parent_id == Some(folder_id),
{
    let mut i: usize = 0;
    while i < folders.len()
        invariant
            i <= folders@.len(),
            forall|j: int| 0 <= j < i ==> #[trigger] folders@[j].parent_id != Some(folder_id),
        decreases folders@.len() - i,
    {
        if same_option(folders[i].parent_id, Some(folder_id)) {
            return true;
        }
        i += 1;
    }
    false
}

/// The folders above `folder_id`, nearest first: its parent, the parent's
/// parent, and so on up to a top-level folder (or an id that names no folder).
pub fn folder_ancestors(folders: &[VaultFolder], folder_id: u128) -> (r: Vec<u128>)
    requires
        crate::model::walk_ends(folders@, folder_id),
    ensures
        walk(folders@, folder_id, (r@.len() + 1) as nat) is None,
        forall|j: int| 0 <= j < r@.len() ==> walk(folders@, folder_id, (j + 1) as nat) == Some(#[trigger] r@[j]),
{
    let ghost fs = folders@;
    let ghost bound = choose|k: nat| #[trigger] walk(fs, folder_id, k) is None;
    let mut ancestors: Vec<u128> = Vec::new();
    let mut current: u128 = folder_id;
    loop
        invariant_except_break
            fs == folders@,
            walk(fs, folder_id, bound) is None,
            walk(fs, folder_id, ancestors@.len() as nat) == Some(current),
            forall|j: int| 0 <= j < ancestors@.len() ==> walk(fs, folder_id, (j + 1) as nat) == Some(#[trigger] ancestors@[j]),
            ancestors@.len() < bound,
        ensures
            walk(fs, folder_id, (ancestors@.len() + 1) as nat) is None,
            forall|j: int| 0 <= j < ancestors@.len() ==> walk(fs, folder_id, (j + 1) as nat) == Some(#[trigger] ancestors@[j]),
        decreases bound - ancestors@.len(),
    {
        let found = find_folder(folders, current);
        match found {
            None => {
                assert(parent_of(fs, current) is None);
                break;
            },
            Some(i) => {
                match folders[i].parent_id {
                    Some(parent_id) => {
                        let ghost len = ancestors@.len();
                        ancestors.push(parent_id);
                        current = parent_id;
                        assert(walk(fs, folder_id, (len + 1) as nat) == Some(parent_id));
                        proof {
                            if bound <= len + 1 {
                                lemma_walk_stays_ended(fs, folder_id, bound, (len + 1) as nat);
                            }
                        }
                    },
                    None => {
                        break;
                    },
                }
            },
        }
    }
    ancestors
}

/// Whether a folder shows in the tree: it exists and every folder above it is
/// expanded. `None` when `fuel` runs out before the answer is known.
pub open spec fn visible_with(
    folders: Seq<VaultFolder>,
    id: u128,
    expanded: Set<u128>,
    fuel: nat,
) -> Option<bool>
    decreases fuel,
{
    if fuel == 0 {
        None
    } else {
        match first_index(folder_ids(folders), id) {
            None => Some(false),
            Some(i) => match folders[i].parent_id {
                None => Some(true),
                Some(p) => if !expanded.contains(p) {
                    Some(false)
                } else {
                    visible_with(folders, p, expanded, (fuel - 1) as nat)
                },
            },
        }
    }
}

/// More fuel does not change an answer once one is known.
pub proof fn lemma_visible_more_fuel(
    folders: Seq<VaultFolder>,
    id: u128,
    expanded: Set<u128>,
    a: nat,
    b: nat,
)
    requires
        a <= b,
        visible_with(folders, id, expanded, a) is Some,
    ensures
        visible_with(folders, id, expanded, b) == visible_with(folders, id, expanded, a),
    decreases a,
{
    match first_index(folder_ids(folders), id) {
        None => {},
        Some(i) => match folders[i].parent_id {
            None => {},
            Some(p) => if expanded.contains(p) {
                lemma_visible_more_fuel(folders, p, expanded, (a - 1) as nat, (b - 1) as nat);
            },
        },
    }
}

/// A folder is shown when it exists and every folder above it exists and is
/// expanded.
pub open spec fn shown_by_ancestors(folders: Seq<VaultFolder>, id: u128, expanded: Set<u128>) -> bool {
    &&& has_folder(folders, id)
    &&& forall|j: nat|
        1 <= j && #[trigger] walk(folders, id, j) is Some ==> expanded.contains(walk(folders, id, j)->0)
            && has_folder(folders, walk(folders, id, j)->0)
}

fn visible_rec(
    folders: &[VaultFolder],
    folder_id: u128,
    expanded: &HashSet<u128>,
    Ghost(fuel): Ghost<nat>,
) -> (r: bool)
    requires
        visible_with(folders@, folder_id, expanded@, fuel) is Some,
    ensures
        visible_with(folders@, folder_id, expanded@, fuel) == Some(r),
    decreases fuel,
{
    let found = find_folder(folders, folder_id);
    let i = match found {
        Some(i) => i,
        None => return false,
    };
    let parent_id = match folders[i].parent_id {
        Some(p) => p,
        None => return true,
    };
    expanded.contains(&parent_id) && visible_rec(folders, parent_id, expanded, Ghost((fuel - 1) as nat))
}

/// Whether a folder is shown in the tree: it exists, and each folder above it
/// is in `expanded`.
pub fn folder_is_visible(folders: &[VaultFolder], folder_id: u128, expanded: &HashSet<u128>) -> (r: bool)
    requires
        exists|k: nat| #[trigger] visible_with(folders@, folder_id, expanded@, k) is Some,
    ensures
        forall|k: nat| #[trigger] visible_with(folders@, folder_id, expanded@, k) matches Some(b) ==> b == r,
        r == shown_by_ancestors(folders@, folder_id, expanded@),
{
    let ghost fuel = choose|k: nat| #[trigger] visible_with(folders@, folder_id, expanded@, k) is Some;
    let r = visible_rec(folders, folder_id, expanded, Ghost(fuel));
    proof {
        crate::laws::law_folder_shown_when_ancestors_expanded(folders@, folder_id, expanded@, fuel);
        assert forall|k: nat| #[trigger] visible_with(folders@, folder_id, expanded@, k) is Some implies visible_with(folders@, folder_id, expanded@, k) == Some(r) by {
            if k <= fuel {
                lemma_visible_more_fuel(folders@, folder_id, expanded@, k, fuel);
            } else {
                lemma_visible_more_fuel(folders@, folder_id, expanded@, fuel, k);
            }
        }
    }
    r
}

/// The folders above `id`: its parent, the parent's parent, and so on.
pub open spec fn ancestor_set(folders: Seq<VaultFolder>, id: u128) -> Set<u128> {
    Set::new(|a: u128| exists|j: nat| 1 <= j && #[trigger] walk(folders, id, j) == Some(a))
}

/// The ids of all folders.
pub open spec fn folder_id_set(folders: Seq<VaultFolder>) -> Set<u128> {
    Set::new(|a: u128| has_folder(folders, a))
}

/// The folder tree as the vault screen shows it: the selected folder, the
/// expanded folders, and whether the expanded set has been filled yet.
pub struct TreeView {
    pub selected: Option<u128>,
    pub expanded: HashSet<u128>,
    pub initialized: bool,
}

/// The expanded set a sync starts from: every folder the first time there
/// are folders, else the current set.
pub open spec fn expanded_base(initialized: bool, expanded: Set<u128>, folders: Seq<VaultFolder>) -> Set<
    u128,
> {
    if !initialized && folders.len() > 0 {
        folder_id_set(folders)
    } else {
        expanded
    }
}

impl TreeView {
    /// Nothing selected or expanded yet.
    pub fn new() -> (v: Self)
        ensures
            v.selected is None,
            v.expanded@ == Set::<u128>::empty(),
            !v.initialized,
    {
        TreeView { selected: None, expanded: HashSet::new(), initialized: false }
    }

    /// Brings the view in line with the folders: the first time there are
    /// folders, all of them start expanded; a selected folder that no longer
    /// exists is deselected; the folders above the selected one are expanded.
    pub fn sync(&mut self, folders: &[VaultFolder])
        requires
            old(self).selected matches Some(f) ==> walk_ends(folders@, f),
        ensures
            final(self).initialized == (old(self).initialized || folders@.len() > 0),
            match old(self).selected {
                Some(f) if has_folder(folders@, f) => {
                    &&& final(self).selected == Some(f)
                    &&& final(self).expanded@ == expanded_base(
                        old(self).initialized,
                        old(self).expanded@,
                        folders@,
                    ) + ancestor_set(folders@, f)
                },
                _ => {
                    &&& final(self).selected is None
                    &&& final(self).expanded@ == expanded_base(
                        old(self).initialized,
                        old(self).expanded@,
                        folders@,
                    )
                },
            },
    {
        if !self.initialized && folders.len() > 0 {
            let mut all: HashSet<u128> = HashSet::new();
            let mut i: usize = 0;
            while i < folders.len()
                invariant
                    i <= folders@.len(),
                    all@ == Set::new(|a: u128| exists|j: int| 0 <= j < i && #[trigger] folders@[j].id == a),
                decreases folders@.len() - i,
            {
                let ghost prev = all@;
                all.insert(folders[i].id);
                assert(all@ =~= Set::new(|a: u128| exists|j: int| 0 <= j < i + 1 && #[trigger] folders@[j].id == a)) by {
                    assert forall|a: u128| all@.contains(a) implies exists|j: int| 0 <= j < i + 1 && #[trigger] folders@[j].id == a by {
                        if a == folders@[i as int].id {
                        } else {
                            assert(prev.contains(a));
                        }
                    }
                }
                i += 1;
            }
            assert(all@ =~= folder_id_set(folders@));
            self.expanded = all;
            self.initialized = true;
        }
        let ghost base = self.expanded@;
        let fid = match self.selected {
            Some(f) => f,
            None => return,
        };
        if find_folder(folders, fid).is_none() {
            self.selected = None;
            return;
        }
        let ancestors = folder_ancestors(folders, fid);
        let ghost init_after = self.initialized;
        let mut k: usize = 0;
        while k < ancestors.len()
            invariant
                k <= ancestors@.len(),
                self.initialized == init_after,
                self.selected == Some(fid),
                self.expanded@ == base + Set::new(
                    |a: u128| exists|j: int| 0 <= j < k && #[trigger] ancestors@[j] == a,
                ),
            decreases ancestors@.len() - k,
        {
            let ghost prev = self.expanded@;
            self.expanded.insert(ancestors[k]);
            assert(self.expanded@ =~= base + Set::new(
                |a: u128| exists|j: int| 0 <= j < k + 1 && #[trigger] ancestors@[j] == a,
            )) by {
                assert forall|a: u128| self.expanded@.contains(a) && !base.contains(a) implies exists|j: int|
                    0 <= j < k + 1 && #[trigger] ancestors@[j] == a by {
                    if a != ancestors@[k as int] {
                        assert(prev.contains(a));
                    }
                }
            }
            k += 1;
        }
        assert(Set::new(|a: u128| exists|j: int| 0 <= j < ancestors@.len() && #[trigger] ancestors@[j] == a)
            =~= ancestor_set(folders@, fid)) by {
            assert forall|a: u128| ancestor_set(folders@, fid).contains(a) implies exists|j: int|
                0 <= j < ancestors@.len() && #[trigger] ancestors@[j] == a by {
                let j = choose|j: nat| 1 <= j && #[trigger] walk(folders@, fid, j) == Some(a);
                if j > ancestors@.len() {
                    lemma_walk_stays_ended(folders@, fid, (ancestors@.len() + 1) as nat, j);
                }
                assert(walk(folders@, fid, ((j - 1) + 1) as nat) == Some(ancestors@[j - 1]));
            }
            assert forall|a: u128| (exists|j: int| 0 <= j < ancestors@.len() && #[trigger] ancestors@[j] == a) implies ancestor_set(folders@, fid).contains(a) by {
                let j = choose|j: int| 0 <= j < ancestors@.len() && #[trigger] ancestors@[j] == a;
                assert(walk(folders@, fid, (j + 1) as nat) == Some(ancestors@[j]));
            }
        }
    }
}

} // verus!
