use vstd::prelude::*;

use clap::Command;

use crate::grammar::{
    builds_cleanly, completion_script, generate_script, get_program_name, program_name,
};
use crate::install::{install_location, install_target, target_view, InstallBase, InstallTarget};
use crate::request::{opt_view, CompleteRequest};
use crate::shell::{has_install_location, installable, parse_shell, shell_named, Shell};

verus! {

/// Why the `complete` subcommand could not choose a shell.
#[derive(Debug, Clone, Copy, PartialEq, Eq, Structural)]
pub enum CompletionError {
    /// The shell name given is not one this library knows.
    UnsupportedShell,
    /// No shell was given, and the running shell could not be found.
    DetectionFailed,
}

/// The text shown to the user for each error.
pub open spec fn error_text(e: CompletionError) -> Seq<char> {
    match e {
        CompletionError::UnsupportedShell => "unsupported explicit shell"@,
        CompletionError::DetectionFailed => "failed to detect shell, please explicitly supply it"@,
    }
}

impl CompletionError {
    /// The text shown to the user for this error.
    pub fn message(&self) -> (r: String)
        ensures
            r@ == error_text(*self),
    {
        match self {
            CompletionError::UnsupportedShell => String::from_str("unsupported explicit shell"),
            CompletionError::DetectionFailed => String::from_str(
                "failed to detect shell, please explicitly supply it",
            ),
        }
    }
}

/// The shell named by `name`, or `UnsupportedShell`.
pub open spec fn shell_or_error(name: Seq<char>) -> Result<Shell, CompletionError> {
    match shell_named(name) {
        Some(s) => Ok(s),
        None => Err(CompletionError::UnsupportedShell),
    }
}

/// The shell chosen from an explicit name, else from the name of the shell
/// that was detected.
pub open spec fn chosen_shell(explicit: Option<Seq<char>>, detected: Option<Seq<char>>) -> Result<
    Shell,
    CompletionError,
> {
    match explicit {
        Some(name) => shell_or_error(name),
        None => match detected {
            Some(name) => shell_or_error(name),
            None => Err(CompletionError::DetectionFailed),
        },
    }
}

/// Chooses the shell: the explicit name where one is given, else the
/// detected one. A name that no shell goes by is an error, never a default.
pub fn choose_shell(explicit: &Option<String>, detected: &Option<String>) -> (r: Result<
    Shell,
    CompletionError,
>)
    ensures
        r == chosen_shell(opt_view(*explicit), opt_view(*detected)),
{
    let name = match explicit {
        Some(s) => s,
        None => match detected {
            Some(s) => s,
            None => {
                return Err(CompletionError::DetectionFailed);
            },
        },
    };
    match parse_shell(name.as_str()) {
        Some(s) => Ok(s),
        None => Err(CompletionError::UnsupportedShell),
    }
}

/// Whether the script is installed rather than printed: printing was not
/// asked for, the platform installs completions, and the shell has an
/// install location.
pub open spec fn installs(shell: Shell, print: bool, installable_platform: bool) -> bool {
    !print && installable_platform && installable(shell)
}

/// Where the script goes: `None` for standard output, else its install
/// location.
pub open spec fn planned_target(
    shell: Shell,
    print: bool,
    installable_platform: bool,
    bin_name: Seq<char>,
) -> Option<(InstallBase, Seq<char>)> {
    if installs(shell, print, installable_platform) {
        install_location(shell, bin_name)
    } else {
        None
    }
}

/// A generated completion script and where it is to go.
pub struct Completion {
    pub shell: Shell,
    /// The program name the script completes.
    pub bin_name: String,
    /// The script itself.
    pub script: Vec<u8>,
    /// The file to install the script into; `None` means standard output.
    pub target: Option<InstallTarget>,
}

/// Chooses the shell, generates its completion script for `command`, and
/// decides whether it is printed or installed, and where. The grammar must
/// pass clap's own checks, as one that has parsed arguments does.
pub fn prepare_completion(
    request: &CompleteRequest,
    detected: &Option<String>,
    command: Command,
    installable_platform: bool,
) -> (r: Result<Completion, CompletionError>)
    requires
        builds_cleanly(command),
    ensures
        match chosen_shell(opt_view(request.shell), opt_view(*detected)) {
            Err(e) => r == Err::<Completion, CompletionError>(e),
            Ok(shell) => r is Ok && {
                let c = r->Ok_0;
                let bin = program_name(command);
                &&& c.shell == shell
                &&& c.bin_name@ == bin
                &&& c.script@ == completion_script(shell, command, bin)
                &&& target_view(c.target) == planned_target(
                    shell,
                    request.print,
                    installable_platform,
                    bin,
                )
            },
        },
{
    let shell = match choose_shell(&request.shell, detected) {
        Ok(s) => s,
        Err(e) => {
            return Err(e);
        },
    };
    let bin_name = get_program_name(&command);
    let target = if !request.print && installable_platform && has_install_location(shell) {
        install_target(shell, bin_name.as_str())
    } else {
        None
    };
    let mut command = command;
    let script = generate_script(shell, &mut command, bin_name.as_str());
    Ok(Completion { shell, bin_name, script, target })
}

/// With printing asked for, nothing is installed, whatever the shell.
pub proof fn lemma_print_never_installs(
    shell: Shell,
    installable_platform: bool,
    bin_name: Seq<char>,
)
    ensures
        planned_target(shell, true, installable_platform, bin_name) is None,
{
}

/// For a shell without an install location the print flag changes nothing:
/// the script goes to standard output either way.
pub proof fn lemma_no_location_prints(shell: Shell, installable_platform: bool, bin_name: Seq<char>)
    requires
        shell == Shell::PowerShell || shell == Shell::Elvish,
    ensures
        planned_target(shell, false, installable_platform, bin_name) == planned_target(
            shell,
            true,
            installable_platform,
            bin_name,
        ),
        planned_target(shell, false, installable_platform, bin_name) is None,
{
}

/// A name that no shell goes by is refused, given explicitly or detected,
/// and no script is made for it.
pub proof fn lemma_unknown_name_refused(name: Seq<char>, detected: Option<Seq<char>>)
    requires
        shell_named(name) is None,
    ensures
        chosen_shell(Some(name), detected) == Err::<Shell, CompletionError>(
            CompletionError::UnsupportedShell,
        ),
        chosen_shell(None, Some(name)) == Err::<Shell, CompletionError>(
            CompletionError::UnsupportedShell,
        ),
{
}

/// The script is a function of the shell, the grammar and the program name:
/// generating it twice gives the same bytes.
pub proof fn lemma_script_deterministic(
    shell: Shell,
    command: Command,
    bin_name: Seq<char>,
    first: Seq<u8>,
    second: Seq<u8>,
)
    requires
        first == completion_script(shell, command, bin_name),
        second == completion_script(shell, command, bin_name),
    ensures
        first == second,
{
}

/// Installing for Bash writes to the fixed Bash completion directory, to a
/// file named after the program.
pub proof fn lemma_bash_install_path(bin_name: Seq<char>)
    ensures
        planned_target(Shell::Bash, false, true, bin_name) == Some(
            (InstallBase::System, "/usr/share/bash-completion/completions/"@ + bin_name),
        ),
{
}

} // verus!
