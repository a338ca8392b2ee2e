//! Shell completion for command-line programs built on clap: a `complete`
//! subcommand that chooses the user's shell and prints the completion script
//! or places it where that shell loads completions from.
pub mod grammar;
pub mod install;
pub mod request;
pub mod resolve;
pub mod shell;

pub use grammar::{add_subcommand, add_subcommand_for, get_program_name};
pub use install::{install_target, write_error_message, InstallBase, InstallTarget};
pub use request::{complete_request, CompleteRequest};
pub use resolve::{choose_shell, prepare_completion, Completion, CompletionError};
pub use shell::{has_install_location, parse_shell, Shell};
