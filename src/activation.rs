use vstd::prelude::*;
use crate::profile::Profile;
use crate::shell::{shell_kind_of, export_text, unset_text, exported_for_name, shell_command_with_backend, shell_command};

verus! {

/// Where a change of the active profile goes.
#[derive(Debug, Clone, Copy, PartialEq, Eq)]
pub enum Mode {
    /// Into the marker file, which holds the active profile's name.
    File,
    /// Onto standard output, as a command for the invoking shell to evaluate.
    Shell,
}

/// What the caller has to do to carry out an activation or deactivation.
#[derive(Debug, Clone, PartialEq, Eq)]
pub enum Effect {
    /// Write this text as the whole contents of the marker file, creating
    /// its directory where needed.
    WriteMarker(String),
    /// Delete the marker file.
    RemoveMarker,
    /// Nothing is to be done: there is no active profile to clear.
    Nothing,
    /// Print this command, without a trailing newline.
    Print(String),
}

/// Makes the stored profile `name` with backend `backend` the active one:
/// its name goes into the marker file, or its backend into a shell command.
pub fn activate(name: String, backend: &str, mode: Mode, shell: &str) -> (r: Effect)
    ensures
        mode is File ==> (r matches Effect::WriteMarker(c) && c@ == name@),
        mode is Shell ==> (r matches Effect::Print(c) && c@ == export_text(
            shell_kind_of(shell@),
            backend@,
        )),
{
    match mode {
        Mode::File => Effect::WriteMarker(name),
        Mode::Shell => Effect::Print(shell_command_with_backend(Some(backend), shell)),
    }
}

/// Makes `name` the active profile although it need not be stored: the name
/// goes into the marker file; a shell command exports the stored backend of
/// that name where `profiles` holds one, and the name itself otherwise.
pub fn activate_new(name: String, profiles: Option<&Vec<Profile>>, mode: Mode, shell: &str) -> (r:
    Effect)
    ensures
        mode is File ==> (r matches Effect::WriteMarker(c) && c@ == name@),
        mode is Shell ==> (r matches Effect::Print(c) && c@ == export_text(
            shell_kind_of(shell@),
            exported_for_name(
                match profiles {
                    Some(ps) => Some(ps@),
                    None => None,
                },
                name@,
            ),
        )),
{
    match mode {
        Mode::File => Effect::WriteMarker(name),
        Mode::Shell => Effect::Print(shell_command(Some(name.as_str()), profiles, shell)),
    }
}

/// Clears the active profile: the marker file is deleted where it exists,
/// or a shell command unsets the variable.
pub fn deactivate(mode: Mode, shell: &str, marker_exists: bool) -> (r: Effect)
    ensures
        mode is File && marker_exists ==> r is RemoveMarker,
        mode is File && !marker_exists ==> r is Nothing,
        mode is Shell ==> (r matches Effect::Print(c) && c@ == unset_text(shell_kind_of(shell@))),
{
    match mode {
        Mode::File => if marker_exists {
            Effect::RemoveMarker
        } else {
            Effect::Nothing
        },
        Mode::Shell => Effect::Print(shell_command_with_backend(None, shell)),
    }
}

} // verus!
