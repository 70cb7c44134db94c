//! Named deployment-backend profiles and the switching of the active one.
//!
//! The library holds the decisions: how the profile list changes under
//! add, edit and delete, which shell grammar a shell name selects, the
//! exact command text for each grammar, and what activating or
//! deactivating a profile does in each mode. Reading and writing files,
//! JSON encoding and prompting are left to the program around it.

mod error;
mod profile;
mod store;
mod laws;
mod shell;
mod selector;
mod activation;

pub use error::ProfileError;
pub use profile::{Profile, ProfileModel, model_of};
pub use store::{has_name, is_first_match, other_than, without, names_unique, count_named, find_profile, add_profile, edit_profile, delete_profile};
pub use laws::{lemma_add_lists_once, lemma_edit_changes_only_backend, lemma_delete_removes_one};
pub use shell::{ShellKind, contains_text, shell_kind_of, export_text, unset_text, contains_str, detect_shell, shell_command_with_backend, exported_for_name, shell_command};
pub use selector::{display_text, is_first_label, has_label, format_profile_display, Selection, ProfileSelector};
pub use activation::{Mode, Effect, activate, activate_new, deactivate};
