use vstd::prelude::*;

use crate::shell::Shell;

verus! {

/// Where an install path is rooted.
#[derive(Debug, Clone, Copy, PartialEq, Eq, Structural)]
pub enum InstallBase {
    /// An absolute path on the system.
    System,
    /// A path under the user's configuration directory.
    UserConfig,
}

/// The file that a completion script is installed into.
pub struct InstallTarget {
    pub base: InstallBase,
    pub path: String,
}

/// The install location of a shell's completion script for a program, where
/// the shell has one: Fish under the user's configuration, Bash and Zsh in
/// fixed system directories.
pub open spec fn install_location(shell: Shell, bin_name: Seq<char>) -> Option<(InstallBase, Seq<char>)> {
    match shell {
        Shell::Fish => Some((InstallBase::UserConfig, "fish/completions/"@ + bin_name + ".fish"@)),
        Shell::Bash => Some((InstallBase::System, "/usr/share/bash-completion/completions/"@ + bin_name)),
        Shell::Zsh => Some((InstallBase::System, "/usr/share/zsh/functions/Completion/Base/_"@ + bin_name)),
        Shell::PowerShell | Shell::Elvish => None,
    }
}

/// The view of an optional install target.
pub open spec fn target_view(t: Option<InstallTarget>) -> Option<(InstallBase, Seq<char>)> {
    match t {
        Some(t) => Some((t.base, t.path@)),
        None => None,
    }
}

/// The install target of `shell`'s completion script for `bin_name`, or
/// `None` for a shell without an install convention.
pub fn install_target(shell: Shell, bin_name: &str) -> (r: Option<InstallTarget>)
    ensures
        target_view(r) == install_location(shell, bin_name@),
{
    match shell {
        Shell::Fish => {
            let mut path = String::from_str("fish/completions/");
            path.append(bin_name);
            path.append(".fish");
            Some(InstallTarget { base: InstallBase::UserConfig, path })
        },
        Shell::Bash => {
            let mut path = String::from_str("/usr/share/bash-completion/completions/");
            path.append(bin_name);
            Some(InstallTarget { base: InstallBase::System, path })
        },
        Shell::Zsh => {
            let mut path = String::from_str("/usr/share/zsh/functions/Completion/Base/_");
            path.append(bin_name);
            Some(InstallTarget { base: InstallBase::System, path })
        },
        Shell::PowerShell | Shell::Elvish => None,
    }
}

/// The message for a failed install: a denied permission gets a message of
/// its own, any other error is reported with its description.
pub open spec fn write_error_text(permission_denied: bool, detail: Seq<char>) -> Seq<char> {
    if permission_denied {
        "Failed to write shell. Permission denied."@
    } else {
        "Failed to write shell: "@ + detail
    }
}

/// The message reported when writing the completion script fails.
pub fn write_error_message(permission_denied: bool, detail: &str) -> (r: String)
    ensures
        r@ == write_error_text(permission_denied, detail@),
{
    if permission_denied {
        String::from_str("Failed to write shell. Permission denied.")
    } else {
        let mut r = String::from_str("Failed to write shell: ");
        r.append(detail);
        r
    }
}

} // verus!
