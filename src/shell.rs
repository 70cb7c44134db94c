use vstd::prelude::*;
use vstd::string::*;
use crate::profile::{Profile, model_of};
use crate::store::{has_name, is_first_match, find_profile};

verus! {

/// The command grammar of the shell that will evaluate the output.
#[derive(Debug, Clone, Copy, PartialEq, Eq)]
pub enum ShellKind {
    Nushell,
    Fish,
    Posix,
}

/// `needle` occurs in `hay` as a contiguous run of characters.
pub open spec fn contains_text(hay: Seq<char>, needle: Seq<char>) -> bool {
    exists|i: int|
        0 <= i && i + needle.len() <= hay.len() && #[trigger] hay.subrange(i, i + needle.len())
            == needle
}

/// The grammar selected by the shell's name: Nushell where it mentions `nu`
/// or `nushell`, fish where it mentions `fish`, POSIX otherwise.
pub open spec fn shell_kind_of(shell: Seq<char>) -> ShellKind {
    if contains_text(shell, "nu"@) || contains_text(shell, "nushell"@) {
        ShellKind::Nushell
    } else if contains_text(shell, "fish"@) {
        ShellKind::Fish
    } else {
        ShellKind::Posix
    }
}

/// The command that exports `value` as the backend URL variable.
pub open spec fn export_text(kind: ShellKind, value: Seq<char>) -> Seq<char> {
    match kind {
        ShellKind::Nushell => "$env.PULUMI_BACKEND_URL = \""@ + value + "\""@,
        ShellKind::Fish => "set -gx PULUMI_BACKEND_URL \""@ + value + "\""@,
        ShellKind::Posix => "export PULUMI_BACKEND_URL=\""@ + value + "\""@,
    }
}

/// The command that removes the backend URL variable.
pub open spec fn unset_text(kind: ShellKind) -> Seq<char> {
    match kind {
        ShellKind::Nushell => "hide-env PULUMI_BACKEND_URL"@,
        ShellKind::Fish => "set -e PULUMI_BACKEND_URL"@,
        ShellKind::Posix => "unset PULUMI_BACKEND_URL"@,
    }
}

/// Whether `needle` occurs in `hay`.
pub fn contains_str(hay: &str, needle: &str) -> (r: bool)
    ensures
        r == contains_text(hay@, needle@),
{
    let n = hay.unicode_len();
    let m = needle.unicode_len();
    if m > n {
        proof {
            assert forall|i: int|
                0 <= i && i + needle@.len() <= hay@.len() implies #[trigger] hay@.subrange(
                i,
                i + needle@.len(),
            ) != needle@ by {}
        }
        return false;
    }
    let mut i: usize = 0;
    while i <= n - m
        invariant
            n == hay@.len(),
            m == needle@.len(),
            m <= n,
            0 <= i <= n - m + 1,
            forall|k: int| 0 <= k < i ==> #[trigger] hay@.subrange(k, k + m) != needle@,
        decreases n - m + 1 - i,
    {
        let mut j: usize = 0;
        let mut same = true;
        while j < m
            invariant
                n == hay@.len(),
                m == needle@.len(),
                i + m <= n,
                0 <= j <= m,
                same == forall|t: int| 0 <= t < j ==> hay@[i + t] == #[trigger] needle@[t],
            decreases m - j,
        {
            if hay.get_char(i + j) != needle.get_char(j) {
                same = false;
            }
            j = j + 1;
        }
        if same {
            assert(hay@.subrange(i as int, i + m) =~= needle@);
            return true;
        }
        assert(hay@.subrange(i as int, i + m) != needle@) by {
            let t = choose|t: int| 0 <= t < m && hay@[i + t] != #[trigger] needle@[t];
            assert(hay@.subrange(i as int, i + m)[t] == hay@[i + t]);
        }
        i = i + 1;
    }
    false
}

/// The grammar that the shell named `shell` understands.
pub fn detect_shell(shell: &str) -> (r: ShellKind)
    ensures
        r == shell_kind_of(shell@),
{
    if contains_str(shell, "nu") || contains_str(shell, "nushell") {
        ShellKind::Nushell
    } else if contains_str(shell, "fish") {
        ShellKind::Fish
    } else {
        ShellKind::Posix
    }
}

/// The command that exports `value`, or that unsets the variable where there
/// is no value, in the grammar of the shell named `shell`.
pub fn shell_command_with_backend(backend_url: Option<&str>, shell: &str) -> (r: String)
    ensures
        r@ == match backend_url {
            Some(url) => export_text(shell_kind_of(shell@), url@),
            None => unset_text(shell_kind_of(shell@)),
        },
{
    let kind = detect_shell(shell);
    match backend_url {
        Some(url) => {
            let mut r = match kind {
                ShellKind::Nushell => String::from_str("$env.PULUMI_BACKEND_URL = \""),
                ShellKind::Fish => String::from_str("set -gx PULUMI_BACKEND_URL \""),
                ShellKind::Posix => String::from_str("export PULUMI_BACKEND_URL=\""),
            };
            r.append(url);
            r.append("\"");
            r
        },
        None => match kind {
            ShellKind::Nushell => String::from_str("hide-env PULUMI_BACKEND_URL"),
            ShellKind::Fish => String::from_str("set -e PULUMI_BACKEND_URL"),
            ShellKind::Posix => String::from_str("unset PULUMI_BACKEND_URL"),
        },
    }
}

/// The value exported for a profile given by name alone: the backend of the
/// first stored profile of that name where the list is known and holds one,
/// the name itself otherwise.
pub open spec fn exported_for_name(profiles: Option<Seq<Profile>>, name: Seq<char>) -> Seq<char> {
    match profiles {
        Some(ps) => if has_name(model_of(ps), name) {
            model_of(ps)[choose|i: int| is_first_match(model_of(ps), name, i)].backend
        } else {
            name
        },
        None => name,
    }
}

/// The command for a profile given by name (`None`: the command that
/// unsets the variable). `profiles` is the stored list, where it could be read.
pub fn shell_command(profile_name: Option<&str>, profiles: Option<&Vec<Profile>>, shell: &str) -> (r:
    String)
    ensures
        r@ == match profile_name {
            Some(name) => export_text(
                shell_kind_of(shell@),
                exported_for_name(
                    match profiles {
                        Some(ps) => Some(ps@),
                        None => None,
                    },
                    name@,
                ),
            ),
            None => unset_text(shell_kind_of(shell@)),
        },
{
    match profile_name {
        Some(name) => {
            if let Some(ps) = profiles {
                if let Some(i) = find_profile(ps, name) {
                    let ghost m = model_of(ps@);
                    proof {
                        let c = choose|k: int| is_first_match(m, name@, k);
                        assert(is_first_match(m, name@, c));
                        if c < i {
                            assert(m[c].name != name@);
                        } else if i < c {
                            assert(m[i as int].name != name@);
                        }
                    }
                    return shell_command_with_backend(Some(ps[i].backend.as_str()), shell);
                }
            }
            shell_command_with_backend(Some(name), shell)
        },
        None => shell_command_with_backend(None, shell),
    }
}

} // verus!
