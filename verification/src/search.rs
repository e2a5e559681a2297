//! Which entries the vault screen lists: those in the selected folder (or any
//! folder below it) whose title, username or URL contains the search text,
//! ignoring case.
use vstd::prelude::*;
use crate::model::{Vault, VaultEntry, VaultFolder, in_subtree, walk};
use crate::text::chars_of;

verus! {

/// The Unicode lowercase form of a text (`str::to_lowercase`).
pub uninterp spec fn unicode_lowercase(s: Seq<char>) -> Seq<char>;

/// `str::to_lowercase`: documented as the Unicode `Lowercase` mapping of every
/// character, a function of the text alone; named by `unicode_lowercase`.
#[verifier::external_body]
fn to_lowercase(s: &str) -> (r: String)
    ensures
        r@ == unicode_lowercase(s@),
{
    s.to_lowercase()
}

/// `needle` occurs in `hay` as a run of consecutive characters.
pub open spec fn contains_text(hay: Seq<char>, needle: Seq<char>) -> bool {
    exists|i: int| 0 <= i <= hay.len() - needle.len() && #[trigger] hay.subrange(i, i + needle.len()) == needle
}

fn matches_at(hay: &Vec<char>, needle: &Vec<char>, i: usize) -> (r: bool)
    requires
        i + needle@.len() <= hay@.len(),
    ensures
        r == (hay@.subrange(i as int, i + needle@.len()) == needle@),
{
    let hay_len = hay.len();
    let mut j: usize = 0;
    while j < needle.len()
        invariant
            hay_len == hay@.len(),
            j <= needle@.len(),
            i + needle@.len() <= hay@.len(),
            forall|k: int| 0 <= k < j ==> hay@[i + k] == needle@[k],
        decreases needle@.len() - j,
    {
        if hay[i + j] != needle[j] {
            assert(hay@.subrange(i as int, i + needle@.len())[j as int] != needle@[j as int]);
            return false;
        }
        j += 1;
    }
    assert(hay@.subrange(i as int, i + needle@.len()) =~= needle@);
    true
}

/// Whether `needle` occurs in `hay` (`str::contains` with a string pattern).
pub fn contains_str(hay: &str, needle: &str) -> (r: bool)
    ensures
        r == contains_text(hay@, needle@),
{
    let h = chars_of(hay);
    let n = chars_of(needle);
    if n.len() > h.len() {
        return false;
    }
    let last = h.len() - n.len();
    let mut i: usize = 0;
    loop
        invariant
            h@ == hay@,
            n@ == needle@,
            last == h@.len() - n@.len(),
            i <= last,
            forall|k: int| 0 <= k < i ==> #[trigger] h@.subrange(k, k + n@.len()) != n@,
        decreases last - i,
    {
        if matches_at(&h, &n, i) {
            return true;
        }
        if i == last {
            return false;
        }
        i += 1;
    }
}

/// The entry sits in the selected folder or below it; everything counts when
/// no folder is selected, and unfiled entries only then.
pub open spec fn in_selected_folder(
    folders: Seq<VaultFolder>,
    entry: VaultEntry,
    selected: Option<u128>,
) -> bool {
    match selected {
        None => true,
        Some(f) => match entry.folder_id {
            None => false,
            Some(ef) => in_subtree(folders, ef, f),
        },
    }
}

/// The lowercase query occurs in the lowercase title, username or URL, or
/// the query is empty.
pub open spec fn matches_query(entry: VaultEntry, query: Seq<char>) -> bool {
    let q = unicode_lowercase(query);
    ||| q.len() == 0
    ||| contains_text(unicode_lowercase(entry.title@), q)
    ||| contains_text(unicode_lowercase(entry.username@), q)
    ||| contains_text(unicode_lowercase(entry.url@), q)
}

/// The walk up from the entry's folder stops, so the folder test terminates.
pub open spec fn folder_test_terminates(
    folders: Seq<VaultFolder>,
    entry: VaultEntry,
    selected: Option<u128>,
) -> bool {
    selected matches Some(f) && entry.folder_id matches Some(ef) ==> exists|k: nat|
        #![trigger walk(folders, ef, k)]
        walk(folders, ef, k) is None || walk(folders, ef, k) == Some(f)
}

/// Whether the vault screen lists `entry` for this search text and folder.
pub fn entry_is_listed(vault: &Vault, entry: &VaultEntry, query: &str, selected: Option<u128>) -> (r:
    bool)
    requires
        folder_test_terminates(vault.folders@, *entry, selected),
    ensures
        r == (in_selected_folder(vault.folders@, *entry, selected) && matches_query(*entry, query@)),
{
    let q = to_lowercase(query);
    let matches_folder = match selected {
        Some(folder_id) => match entry.folder_id {
            Some(entry_folder_id) => vault.folder_is_in_subtree(entry_folder_id, folder_id),
            None => false,
        },
        None => true,
    };
    if !matches_folder {
        return false;
    }
    if q.as_str().is_empty() {
        return true;
    }
    contains_str(to_lowercase(entry.title.as_str()).as_str(), q.as_str()) || contains_str(
        to_lowercase(entry.username.as_str()).as_str(),
        q.as_str(),
    ) || contains_str(to_lowercase(entry.url.as_str()).as_str(), q.as_str())
}

} // verus!
