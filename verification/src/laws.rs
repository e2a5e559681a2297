//! Properties that relate several operations of the vault.
use vstd::prelude::*;
use crate::model::{
    VaultFolder, VaultEntry, first_index, first_index_from, folder_ids, parent_of, walk, walk_ends,
    in_subtree, sibling_name_taken, lemma_first_index_from, has_folder,
};
use crate::folder_tree::{path_names, folder_path_text, visible_with, shown_by_ancestors};
use crate::session::new_vault_check;
use crate::crypto::{argon2id_key, aes256gcm_seal, password_bytes};
use crate::settings::{AppSettings, sync_target};
use crate::text::trimmed;
use crate::text::joined;
use crate::search::in_selected_folder;
use crate::text::eq_ignore_ascii_case;
use crate::crypto::{
    EncryptedBlob, blob_decrypts_to, base64_decode, argon2_inputs_valid, aes256gcm_open,
    current_key, legacy_key, NONCE_LEN, seals,
};
use crate::toast::{ToastState, max_toast_id};
use crate::settings::{AppTheme, ToastPosition};
use crate::model::lemma_walk_stays_ended;
use crate::settings_form::{theme_text, theme_of, position_text, position_of};

verus! {

/// No folder has this id and no folder refers to it as its parent.
pub open spec fn id_unused(folders: Seq<VaultFolder>, id: u128) -> bool {
    forall|i: int|
        0 <= i < folders.len() ==> #[trigger] folders[i].id != id && folders[i].parent_id != Some(id)
}

/// One step of the walk from `id` is the walk from its parent.
pub proof fn lemma_walk_shift(folders: Seq<VaultFolder>, id: u128, k: nat)
    ensures
        walk(folders, id, k + 1) == match parent_of(folders, id) {
            Some(p) => walk(folders, p, k),
            None => None,
        },
    decreases k,
{
    reveal_with_fuel(walk, 2);
    if k > 0 {
        lemma_walk_shift(folders, id, (k - 1) as nat);
        assert(walk(folders, id, k + 1) == match walk(folders, id, k) {
            Some(x) => parent_of(folders, x),
            None => None,
        });
    }
}

/// Appending a folder leaves the first position of every other id unchanged.
proof fn lemma_first_index_push(ids: Seq<u128>, new_id: u128, id: u128, start: int)
    requires
        0 <= start <= ids.len(),
    ensures
        first_index_from(ids.push(new_id), id, start) == if first_index_from(ids, id, start) is Some {
            first_index_from(ids, id, start)
        } else if id == new_id {
            Some(ids.len() as int)
        } else {
            None
        },
    decreases ids.len() - start,
{
    assert(ids.push(new_id)[ids.len() as int] == new_id);
    if start < ids.len() {
        assert(ids.push(new_id)[start] == ids[start]);
        lemma_first_index_push(ids, new_id, id, start + 1);
    } else {
        assert(first_index_from(ids.push(new_id), id, start + 1) is None);
    }
}

/// Parents as seen after appending `f`.
proof fn lemma_parent_after_push(folders: Seq<VaultFolder>, f: VaultFolder, id: u128)
    ensures
        parent_of(folders.push(f), id) == if first_index(folder_ids(folders), id) is Some {
            parent_of(folders, id)
        } else if id == f.id {
            f.parent_id
        } else {
            None
        },
{
    assert(folder_ids(folders.push(f)) =~= folder_ids(folders).push(f.id));
    lemma_first_index_push(folder_ids(folders), f.id, id, 0);
    lemma_first_index_from(folder_ids(folders), id, 0);
}

/// Walks that start elsewhere never reach an unused id, so appending a folder
/// with that id does not change them.
proof fn lemma_walk_unchanged(folders: Seq<VaultFolder>, f: VaultFolder, id: u128, k: nat)
    requires
        id_unused(folders, f.id),
        id != f.id,
    ensures
        walk(folders.push(f), id, k) == walk(folders, id, k),
        walk(folders, id, k) != Some(f.id),
    decreases k,
{
    if k > 0 {
        lemma_walk_unchanged(folders, f, id, (k - 1) as nat);
        match walk(folders, id, (k - 1) as nat) {
            Some(x) => {
                lemma_parent_after_push(folders, f, x);
                lemma_first_index_from(folder_ids(folders), x, 0);
                match first_index(folder_ids(folders), x) {
                    Some(i) => {
                        assert(folders[i].id == folder_ids(folders)[i]);
                    },
                    None => {},
                }
            },
            None => {},
        }
    }
}

/// A folder created under `parent` with a fresh id lies in the subtree of
/// that parent, and in its own.
pub proof fn law_new_folder_is_under_its_parent(
    folders: Seq<VaultFolder>,
    f: VaultFolder,
    parent: u128,
)
    requires
        id_unused(folders, f.id),
        f.parent_id == Some(parent),
    ensures
        in_subtree(folders.push(f), f.id, parent),
        in_subtree(folders.push(f), f.id, f.id),
{
    lemma_parent_after_push(folders, f, f.id);
    lemma_first_index_from(folder_ids(folders), f.id, 0);
    assert(walk(folders.push(f), f.id, 1) == Some(parent));
    assert(walk(folders.push(f), f.id, 0) == Some(f.id));
}

/// Creating a folder with a fresh id under an existing parent (or at the top)
/// keeps every walk up the tree finite: no cycle appears.
pub proof fn law_create_folder_keeps_tree_acyclic(folders: Seq<VaultFolder>, f: VaultFolder)
    requires
        forall|id: u128| #[trigger] walk_ends(folders, id),
        id_unused(folders, f.id),
        f.parent_id matches Some(p) ==> crate::model::has_folder(folders, p),
    ensures
        forall|id: u128| #[trigger] walk_ends(folders.push(f), id),
{
    assert forall|id: u128| #[trigger] walk_ends(folders.push(f), id) by {
        if id != f.id {
            assert(walk_ends(folders, id));
            let k = choose|k: nat| #[trigger] walk(folders, id, k) is None;
            lemma_walk_unchanged(folders, f, id, k);
        } else {
            lemma_parent_after_push(folders, f, f.id);
            lemma_first_index_from(folder_ids(folders), f.id, 0);
            match f.parent_id {
                None => {
                    lemma_walk_shift(folders.push(f), f.id, 0);
                    assert(walk(folders.push(f), id, 1) is None);
                },
                Some(p) => {
                    assert(walk_ends(folders, p));
                    let k = choose|k: nat| #[trigger] walk(folders, p, k) is None;
                    assert(folders.push(f)[folders.len() as int] == f);
                    let j = choose|j: int| 0 <= j < folders.len() && #[trigger] folders[j].id == p;
                    assert(folders[j].id != f.id);
                    lemma_walk_unchanged(folders, f, p, k);
                    lemma_walk_shift(folders.push(f), f.id, k);
                    assert(walk(folders.push(f), id, k + 1) is None);
                }
            }
        }
    }
}

/// ASCII case-insensitive equality is reflexive and symmetric.
pub proof fn law_eq_ignore_ascii_case_reflexive_symmetric(a: Seq<char>, b: Seq<char>)
    ensures
        eq_ignore_ascii_case(a, a),
        eq_ignore_ascii_case(a, b) == eq_ignore_ascii_case(b, a),
{
}

/// Once a folder exists, its name (in any ASCII case) is taken under its
/// parent, so creating a sibling with that name is refused.
pub proof fn law_created_name_is_taken(folders: Seq<VaultFolder>, f: VaultFolder, name: Seq<char>)
    requires
        eq_ignore_ascii_case(f.name@, name),
    ensures
        sibling_name_taken(folders.push(f), f.parent_id, name),
{
    assert(folders.push(f)[folders.len() as int] == f);
}

/// An entry filed in a folder is listed when that folder is selected.
pub proof fn law_filed_entry_listed_in_its_folder(
    folders: Seq<VaultFolder>,
    entry: VaultEntry,
    folder: u128,
)
    requires
        entry.folder_id == Some(folder),
    ensures
        in_selected_folder(folders, entry, Some(folder)),
{
    assert(walk(folders, folder, 0) == Some(folder));
}

/// No two folders under the same parent have names equal up to ASCII case.
pub open spec fn sibling_names_distinct(folders: Seq<VaultFolder>) -> bool {
    forall|i: int, j: int|
        0 <= i < j < folders.len() && #[trigger] folders[i].parent_id == #[trigger] folders[j].parent_id
            ==> !eq_ignore_ascii_case(folders[i].name@, folders[j].name@)
}

/// Adding a folder whose name is not taken under its parent (what
/// `create_folder` checks before it adds one) keeps sibling names distinct.
pub proof fn law_create_folder_keeps_sibling_names_distinct(folders: Seq<VaultFolder>, f: VaultFolder)
    requires
        sibling_names_distinct(folders),
        !sibling_name_taken(folders, f.parent_id, f.name@),
    ensures
        sibling_names_distinct(folders.push(f)),
{
    let all = folders.push(f);
    assert forall|i: int, j: int|
        0 <= i < j < all.len() && #[trigger] all[i].parent_id == #[trigger] all[j].parent_id implies !eq_ignore_ascii_case(
        all[i].name@,
        all[j].name@,
    ) by {
        if j == folders.len() {
            assert(all[i] == folders[i]);
            assert(all[j] == f);
            if eq_ignore_ascii_case(folders[i].name@, f.name@) {
                assert(folders[i].parent_id == f.parent_id);
                assert(sibling_name_taken(folders, f.parent_id, f.name@));
            }
        } else {
            assert(all[i] == folders[i]);
            assert(all[j] == folders[j]);
        }
    }
}

/// A vault sealed under the key of the older Argon2 costs still decrypts: to
/// its plaintext, unless the current key happens to open it too.
pub proof fn law_legacy_vault_stays_readable(
    blob: EncryptedBlob,
    password: Seq<u8>,
    salt: Seq<u8>,
    nonce: Seq<u8>,
    ciphertext: Seq<u8>,
    plaintext: Seq<u8>,
)
    requires
        base64_decode(blob.salt@) == Some(salt),
        base64_decode(blob.nonce@) == Some(nonce),
        base64_decode(blob.ciphertext@) == Some(ciphertext),
        nonce.len() == NONCE_LEN,
        argon2_inputs_valid(password, salt),
        aes256gcm_open(legacy_key(password, salt), nonce, ciphertext) == Some(plaintext),
    ensures
        blob_decrypts_to(blob, password) is Ok,
        aes256gcm_open(current_key(password, salt), nonce, ciphertext) is None ==> blob_decrypts_to(
            blob,
            password,
        ) == Ok::<Seq<u8>, crate::crypto::CryptoError>(plaintext),
{
}

/// Every toast id is at most the largest one.
proof fn lemma_max_toast_id_bounds(toasts: Seq<ToastState>)
    ensures
        forall|i: int| 0 <= i < toasts.len() ==> #[trigger] toasts[i].id <= max_toast_id(toasts),
    decreases toasts.len(),
{
    if toasts.len() > 0 {
        lemma_max_toast_id_bounds(toasts.drop_last());
        assert forall|i: int| 0 <= i < toasts.len() implies #[trigger] toasts[i].id <= max_toast_id(
            toasts,
        ) by {
            if i < toasts.len() - 1 {
                assert(toasts.drop_last()[i] == toasts[i]);
            }
        }
    }
}

/// No two toasts share an id.
pub open spec fn toast_ids_distinct(toasts: Seq<ToastState>) -> bool {
    forall|i: int, j: int| 0 <= i < j < toasts.len() ==> #[trigger] toasts[i].id != #[trigger] toasts[j].id
}

/// Showing a toast (which gets an id one past the largest) keeps toast ids
/// distinct, so cancelling one never removes another.
pub proof fn law_show_keeps_toast_ids_distinct(toasts: Seq<ToastState>, t: ToastState)
    requires
        toast_ids_distinct(toasts),
        max_toast_id(toasts) < u64::MAX,
    ensures
        toast_ids_distinct(toasts.push(ToastState { id: (max_toast_id(toasts) + 1) as u64, ..t })),
{
    lemma_max_toast_id_bounds(toasts);
    let shown = ToastState { id: (max_toast_id(toasts) + 1) as u64, ..t };
    let all = toasts.push(shown);
    assert forall|i: int, j: int| 0 <= i < j < all.len() implies #[trigger] all[i].id != #[trigger] all[j].id by {
        assert(all[i] == toasts[i]);
        if j < toasts.len() {
            assert(all[j] == toasts[j]);
        } else {
            assert(toasts[i].id <= max_toast_id(toasts));
        }
    }
}

/// A setting shown in the settings form reads back as the same setting when
/// the form is submitted unchanged.
pub proof fn law_form_values_read_back(theme: AppTheme, position: ToastPosition)
    ensures
        theme_of(theme_text(theme)) == theme,
        position_of(position_text(position)) == position,
{
    reveal_strlit("dark");
    assert("dark"@.len() == 4 && "dark"@[0] == 'd');
    reveal_strlit("light");
    assert("light"@.len() == 5 && "light"@[0] == 'l');
    reveal_strlit("system");
    assert("system"@.len() == 6 && "system"@[0] == 's');
    reveal_strlit("top-left");
    assert("top-left"@.len() == 8 && "top-left"@[0] == 't');
    reveal_strlit("top-center");
    assert("top-center"@.len() == 10 && "top-center"@[0] == 't');
    reveal_strlit("top-right");
    assert("top-right"@.len() == 9 && "top-right"@[0] == 't');
    reveal_strlit("center-left");
    assert("center-left"@.len() == 11 && "center-left"@[0] == 'c');
    reveal_strlit("center");
    assert("center"@.len() == 6 && "center"@[0] == 'c');
    reveal_strlit("center-right");
    assert("center-right"@.len() == 12 && "center-right"@[0] == 'c');
    reveal_strlit("bottom-left");
    assert("bottom-left"@.len() == 11 && "bottom-left"@[0] == 'b');
    reveal_strlit("bottom-center");
    assert("bottom-center"@.len() == 13 && "bottom-center"@[0] == 'b');
    reveal_strlit("bottom-right");
    assert("bottom-right"@.len() == 12 && "bottom-right"@[0] == 'b');
}

/// The name of the first folder with this id (empty when there is none).
pub open spec fn name_of(folders: Seq<VaultFolder>, id: u128) -> Seq<char> {
    match first_index(folder_ids(folders), id) {
        Some(i) => folders[i].name@,
        None => Seq::empty(),
    }
}

/// Two equal points of a walk stay equal the same number of steps later.
proof fn lemma_walk_equal_later(folders: Seq<VaultFolder>, id: u128, a: nat, b: nat, t: nat)
    requires
        walk(folders, id, a) == walk(folders, id, b),
    ensures
        walk(folders, id, a + t) == walk(folders, id, b + t),
    decreases t,
{
    if t > 0 {
        lemma_walk_equal_later(folders, id, a, b, (t - 1) as nat);
        assert(walk(folders, id, a + t) == match walk(folders, id, (a + t - 1) as nat) {
            Some(x) => parent_of(folders, x),
            None => None,
        });
        assert(walk(folders, id, b + t) == match walk(folders, id, (b + t - 1) as nat) {
            Some(x) => parent_of(folders, x),
            None => None,
        });
    }
}

/// An id of an existing folder has a first position.
proof fn lemma_has_folder_first_index(folders: Seq<VaultFolder>, id: u128)
    requires
        has_folder(folders, id),
    ensures
        first_index(folder_ids(folders), id) is Some,
{
    lemma_first_index_from(folder_ids(folders), id, 0);
    let i = choose|i: int| 0 <= i < folders.len() && #[trigger] folders[i].id == id;
    assert(folder_ids(folders)[i] == id);
}

/// The names met walking up a chain of existing folders that ends at a
/// top-level folder, when the fuel covers the whole chain.
proof fn lemma_path_names_of_chain(folders: Seq<VaultFolder>, chain: Seq<u128>, fuel: nat)
    requires
        0 < chain.len() <= fuel,
        forall|i: int| 0 <= i < chain.len() ==> has_folder(folders, #[trigger] chain[i]),
        forall|i: int| 0 <= i < chain.len() - 1 ==> parent_of(folders, #[trigger] chain[i]) == Some(chain[i + 1]),
        parent_of(folders, chain.last()) is None,
    ensures
        path_names(folders, chain[0], fuel) == chain.map_values(|x: u128| name_of(folders, x)),
    decreases chain.len(),
{
    let x = chain[0];
    assert(has_folder(folders, chain[0]));
    lemma_has_folder_first_index(folders, x);
    if chain.len() == 1 {
        assert(parent_of(folders, chain[0]) is None);
        assert(path_names(folders, x, fuel) =~= chain.map_values(|y: u128| name_of(folders, y)));
    } else {
        let rest = chain.drop_first();
        assert forall|i: int| 0 <= i < rest.len() implies has_folder(folders, #[trigger] rest[i]) by {
            assert(rest[i] == chain[i + 1]);
        }
        assert forall|i: int| 0 <= i < rest.len() - 1 implies parent_of(folders, #[trigger] rest[i]) == Some(rest[i + 1]) by {
            assert(rest[i] == chain[i + 1]);
        }
        assert(rest.last() == chain.last());
        lemma_path_names_of_chain(folders, rest, (fuel - 1) as nat);
        assert(parent_of(folders, chain[0]) == Some(chain[1]));
        assert(path_names(folders, x, fuel) =~= chain.map_values(|y: u128| name_of(folders, y)));
    }
}

/// What `folder_path` shows (`folder_path_text`) is the names along what
/// `folder_ancestors` returns: the ancestors' names (listed nearest first)
/// reversed so that the top-level folder comes first, then the folder's own
/// name, joined with " / ". `ancestors` is described exactly as
/// `folder_ancestors` ensures its result; the law holds when the folder and
/// each ancestor exist.
pub proof fn law_folder_path_follows_ancestors(folders: Seq<VaultFolder>, id: u128, ancestors: Seq<u128>)
    requires
        has_folder(folders, id),
        forall|j: int| 0 <= j < ancestors.len() ==> walk(folders, id, (j + 1) as nat) == Some(#[trigger] ancestors[j]),
        forall|j: int| 0 <= j < ancestors.len() ==> has_folder(folders, #[trigger] ancestors[j]),
        walk(folders, id, (ancestors.len() + 1) as nat) is None,
    ensures
        path_names(folders, id, folders.len() + 1) == (seq![id] + ancestors).map_values(|x: u128| name_of(folders, x)),
        folder_path_text(folders, id) == joined(
            (seq![id] + ancestors).map_values(|x: u128| name_of(folders, x)).reverse(),
            " / "@,
        ),
        folder_path_text(folders, id) == joined(
            ancestors.reverse().map_values(|x: u128| name_of(folders, x)).push(name_of(folders, id)),
            " / "@,
        ),
{
    let chain = seq![id] + ancestors;
    assert((seq![id] + ancestors).map_values(|x: u128| name_of(folders, x)).reverse()
        =~= ancestors.reverse().map_values(|x: u128| name_of(folders, x)).push(name_of(folders, id)));
    let m = ancestors.len();
    assert forall|k: int| 0 <= k <= m implies walk(folders, id, k as nat) == Some(#[trigger] chain[k]) by {
        if k > 0 {
            assert(chain[k] == ancestors[k - 1]);
        }
    }
    assert forall|i: int| 0 <= i < chain.len() implies has_folder(folders, #[trigger] chain[i]) by {
        if 0 < i < chain.len() {
            assert(chain[i] == ancestors[i - 1]);
        }
    }
    assert forall|i: int| 0 <= i < chain.len() - 1 implies parent_of(folders, #[trigger] chain[i]) == Some(chain[i + 1]) by {
        assert(walk(folders, id, i as nat) == Some(chain[i]));
        assert(walk(folders, id, (i + 1) as nat) == Some(chain[i + 1]));
    }
    assert(walk(folders, id, m as nat) == Some(chain.last()));
    assert(parent_of(folders, chain.last()) is None) by {
        assert(walk(folders, id, (m + 1) as nat) is None);
    }
    // No id repeats on the way up: a repeat would make the walk periodic.
    assert(chain.no_duplicates()) by {
        assert forall|a: int, b: int| 0 <= a < chain.len() && 0 <= b < chain.len() && a != b implies chain[a] != chain[b] by {
            if chain[a] == chain[b] {
                let (lo, hi) = if a < b { (a, b) } else { (b, a) };
                assert(walk(folders, id, lo as nat) == walk(folders, id, hi as nat));
                let t = (m + 1 - hi) as nat;
                lemma_walk_equal_later(folders, id, lo as nat, hi as nat, t);
                assert(walk(folders, id, (lo + t) as nat) == Some(chain[lo + t]));
            }
        }
    }
    // So the chain has at most as many ids as there are folders.
    assert(chain.len() <= folders.len()) by {
        let ids = folder_ids(folders);
        assert(chain.to_set().subset_of(ids.to_set())) by {
            assert forall|x: u128| chain.to_set().contains(x) implies ids.to_set().contains(x) by {
                let i = choose|i: int| 0 <= i < chain.len() && chain[i] == x;
                assert(has_folder(folders, chain[i]));
                let j = choose|j: int| 0 <= j < folders.len() && #[trigger] folders[j].id == x;
                assert(ids[j] == x);
            }
        }
        chain.unique_seq_to_set();
        ids.lemma_cardinality_of_set();
        vstd::set_lib::lemma_len_subset(chain.to_set(), ids.to_set());
    }
    lemma_path_names_of_chain(folders, chain, (folders.len() + 1) as nat);
}

/// Two encryptions of equally long plaintexts give Base64 fields of equal
/// lengths, whatever the passwords, salts and nonces: the blob's size shows
/// only the plaintext's length.
pub proof fn law_blob_size_follows_plaintext_length(
    b1: EncryptedBlob,
    p1: Seq<u8>,
    pw1: Seq<u8>,
    s1: Seq<u8>,
    n1: Seq<u8>,
    b2: EncryptedBlob,
    p2: Seq<u8>,
    pw2: Seq<u8>,
    s2: Seq<u8>,
    n2: Seq<u8>,
)
    requires
        seals(b1, p1, pw1, s1, n1),
        seals(b2, p2, pw2, s2, n2),
        p1.len() == p2.len(),
    ensures
        b1.salt@.len() == b2.salt@.len(),
        b1.nonce@.len() == b2.nonce@.len(),
        b1.ciphertext@.len() == b2.ciphertext@.len(),
{
}

/// New vaults are keyed with Argon2id (version 0x13) at 64 MiB of memory,
/// three passes and one lane.
pub proof fn law_current_key_costs(password: Seq<u8>, salt: Seq<u8>)
    ensures
        current_key(password, salt) == argon2id_key(password, salt, 65536, 3, 1),
{
}

/// What `encrypt` writes is sealed under that key: the ciphertext field
/// decodes to the AES-256-GCM sealing of the plaintext under the Argon2id key
/// at 64 MiB, three passes, one lane.
pub proof fn law_new_vaults_use_current_costs(
    blob: EncryptedBlob,
    plaintext: Seq<u8>,
    password: Seq<u8>,
    salt: Seq<u8>,
    nonce: Seq<u8>,
)
    requires
        seals(blob, plaintext, password, salt, nonce),
    ensures
        base64_decode(blob.salt@) == Some(salt),
        base64_decode(blob.nonce@) == Some(nonce),
        base64_decode(blob.ciphertext@) == Some(
            aes256gcm_seal(argon2id_key(password, salt, 65536, 3, 1), nonce, plaintext),
        ),
{
}

/// A blob whose ciphertext opens under the Argon2id key at 64 MiB, three
/// passes, one lane decrypts to that plaintext with the right password.
pub proof fn law_current_key_opens_vaults(
    blob: EncryptedBlob,
    password: Seq<u8>,
    salt: Seq<u8>,
    nonce: Seq<u8>,
    ciphertext: Seq<u8>,
    plaintext: Seq<u8>,
)
    requires
        base64_decode(blob.salt@) == Some(salt),
        base64_decode(blob.nonce@) == Some(nonce),
        base64_decode(blob.ciphertext@) == Some(ciphertext),
        nonce.len() == 12,
        argon2_inputs_valid(password, salt),
        aes256gcm_open(argon2id_key(password, salt, 65536, 3, 1), nonce, ciphertext) == Some(plaintext),
    ensures
        blob_decrypts_to(blob, password) == Ok::<Seq<u8>, crate::crypto::CryptoError>(plaintext),
{
}

/// A folder shows in the tree exactly when it exists and every folder above
/// it exists and is expanded (whenever the answer is known at all, that is
/// when the walk up ends or meets a collapsed folder).
pub proof fn law_folder_shown_when_ancestors_expanded(
    folders: Seq<VaultFolder>,
    id: u128,
    expanded: Set<u128>,
    fuel: nat,
)
    requires
        visible_with(folders, id, expanded, fuel) is Some,
    ensures
        visible_with(folders, id, expanded, fuel) == Some(shown_by_ancestors(folders, id, expanded)),
    decreases fuel,
{
    lemma_first_index_from(folder_ids(folders), id, 0);
    match first_index(folder_ids(folders), id) {
        None => {
            if has_folder(folders, id) {
                lemma_has_folder_first_index(folders, id);
            }
        },
        Some(i) => {
            assert(folder_ids(folders)[i] == id);
            assert(has_folder(folders, id));
            assert(walk(folders, id, 0) == Some(id));
            assert(walk(folders, id, 1) == parent_of(folders, id));
            match folders[i].parent_id {
                None => {
                    assert forall|j: nat| 1 <= j && #[trigger] walk(folders, id, j) is Some implies expanded.contains(
                        walk(folders, id, j)->0,
                    ) && has_folder(folders, walk(folders, id, j)->0) by {
                        lemma_walk_stays_ended(folders, id, 1, j);
                    }
                },
                Some(p) => {
                    assert(walk(folders, id, 1) == Some(p));
                    if expanded.contains(p) {
                        law_folder_shown_when_ancestors_expanded(folders, p, expanded, (fuel - 1) as nat);
                        if shown_by_ancestors(folders, p, expanded) {
                            assert forall|j: nat| 1 <= j && #[trigger] walk(folders, id, j) is Some implies expanded.contains(
                                walk(folders, id, j)->0,
                            ) && has_folder(folders, walk(folders, id, j)->0) by {
                                if j > 1 {
                                    lemma_walk_shift(folders, id, (j - 1) as nat);
                                    assert(walk(folders, id, j) == walk(folders, p, (j - 1) as nat));
                                }
                            }
                        }
                        if shown_by_ancestors(folders, id, expanded) {
                            assert(has_folder(folders, p));
                            assert forall|j: nat| 1 <= j && #[trigger] walk(folders, p, j) is Some implies expanded.contains(
                                walk(folders, p, j)->0,
                            ) && has_folder(folders, walk(folders, p, j)->0) by {
                                lemma_walk_shift(folders, id, j);
                                assert(walk(folders, id, j + 1) == walk(folders, p, j));
                            }
                        }
                    }
                },
            }
        },
    }
}

/// A new vault is only created when the confirmation equals the master
/// password (which has at least 8 bytes) and the name is not blank; a long
/// enough password with a different confirmation is always refused as not
/// matching.
pub proof fn law_new_vault_needs_matching_confirmation(password: &str, confirm: &str, name: Seq<char>)
    ensures
        new_vault_check(password, confirm, name) is Ok ==> confirm@ == password@ && password_bytes(
            password,
        ).len() >= 8 && trimmed(name).len() > 0,
        password_bytes(password).len() >= 8 && confirm@ != password@ ==> new_vault_check(
            password,
            confirm,
            name,
        ) == Err::<Seq<char>, Seq<char>>("Passwords do not match."@),
{
}

/// Sync only runs when it is enabled: with sync off the answer is always the
/// refusal, whatever folder is configured; an answer of a folder means sync
/// is on and that folder is the configured one.
pub proof fn law_sync_needs_sync_enabled(s: AppSettings)
    ensures
        !s.sync_enabled ==> sync_target(s) == Err::<Seq<char>, Seq<char>>(
            "Sync is disabled in Settings."@,
        ),
        sync_target(s) is Ok ==> s.sync_enabled && s.sync_folder is Some && sync_target(s)
            == Ok::<Seq<char>, Seq<char>>(s.sync_folder->0@),
{
}

} // verus!
