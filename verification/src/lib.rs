//! JPass: a password vault whose data model, folder tree, encryption
//! pipeline, password generator and platform rules are verified with Verus.
use vstd::prelude::*;

pub mod crypto;
pub mod desktop;
pub mod editing;
pub mod folder_tree;
pub mod ids;
pub mod laws;
pub mod model;
pub mod password_gen;
pub mod platform;
pub mod search;
pub mod session;
pub mod settings;
pub mod settings_form;
pub mod startup;
pub mod storage;
pub mod text;
pub mod toast;

verus! {

} // verus!
