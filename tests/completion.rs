use clap::{Arg, Command};
use clap_autocomplete::{
    add_subcommand, add_subcommand_for, choose_shell, complete_request, get_program_name,
    has_install_location, install_target, parse_shell, prepare_completion, write_error_message,
    CompleteRequest, CompletionError, InstallBase, Shell,
};

fn grammar() -> Command {
    Command::new("mytool").arg(Arg::new("verbose").short('v').long("verbose").action(clap::ArgAction::SetTrue))
}

fn request(shell: &str, print: bool) -> CompleteRequest {
    CompleteRequest { shell: Some(shell.to_owned()), print }
}

fn reference_script(shell: clap_complete::Shell, mut command: Command, bin: &str) -> Vec<u8> {
    let mut buffer = Vec::new();
    clap_complete::generate(shell, &mut command, bin, &mut buffer);
    buffer
}

#[test]
fn shell_names_in_any_case() {
    for name in ["bash", "BASH", "Bash", "bAsH"] {
        assert_eq!(parse_shell(name), Some(Shell::Bash));
    }
    for name in ["zsh", "ZSH", "Zsh"] {
        assert_eq!(parse_shell(name), Some(Shell::Zsh));
    }
    for name in ["fish", "FISH", "Fish"] {
        assert_eq!(parse_shell(name), Some(Shell::Fish));
    }
    for name in ["pwsh", "PWSH", "powershell", "PowerShell", "POWERSHELL"] {
        assert_eq!(parse_shell(name), Some(Shell::PowerShell));
    }
    for name in ["elvish", "ELVISH", "Elvish"] {
        assert_eq!(parse_shell(name), Some(Shell::Elvish));
    }
}

#[test]
fn unknown_shell_names_are_refused() {
    for name in ["", "sh", "bash ", " bash", "nu", "xonsh", "bashh", "power shell", "fis", "bashe"] {
        assert_eq!(parse_shell(name), None);
        assert_eq!(choose_shell(&Some(name.to_owned()), &None), Err(CompletionError::UnsupportedShell));
    }
}

#[test]
fn explicit_shell_wins_over_detected() {
    let r = choose_shell(&Some("Zsh".to_owned()), &Some("fish".to_owned()));
    assert_eq!(r, Ok(Shell::Zsh));
    let r = choose_shell(&Some("cmd".to_owned()), &Some("fish".to_owned()));
    assert_eq!(r, Err(CompletionError::UnsupportedShell));
}

#[test]
fn detected_shell_is_used_without_explicit() {
    assert_eq!(choose_shell(&None, &Some("fish".to_owned())), Ok(Shell::Fish));
    assert_eq!(choose_shell(&None, &Some("nu".to_owned())), Err(CompletionError::UnsupportedShell));
    assert_eq!(choose_shell(&None, &None), Err(CompletionError::DetectionFailed));
}

#[test]
fn error_messages() {
    assert_eq!(CompletionError::UnsupportedShell.message(), "unsupported explicit shell");
    assert_eq!(
        CompletionError::DetectionFailed.message(),
        "failed to detect shell, please explicitly supply it"
    );
    assert_eq!(write_error_message(true, "os error 13"), "Failed to write shell. Permission denied.");
    assert_eq!(
        write_error_message(false, "No space left on device"),
        "Failed to write shell: No space left on device"
    );
}

#[test]
fn install_locations() {
    assert!(has_install_location(Shell::Bash));
    assert!(has_install_location(Shell::Zsh));
    assert!(has_install_location(Shell::Fish));
    assert!(!has_install_location(Shell::PowerShell));
    assert!(!has_install_location(Shell::Elvish));
    let t = install_target(Shell::Bash, "mytool").unwrap();
    assert_eq!(t.base, InstallBase::System);
    assert_eq!(t.path, "/usr/share/bash-completion/completions/mytool");
    let t = install_target(Shell::Zsh, "mytool").unwrap();
    assert_eq!(t.base, InstallBase::System);
    assert_eq!(t.path, "/usr/share/zsh/functions/Completion/Base/_mytool");
    let t = install_target(Shell::Fish, "mytool").unwrap();
    assert_eq!(t.base, InstallBase::UserConfig);
    assert_eq!(t.path, "fish/completions/mytool.fish");
    assert!(install_target(Shell::PowerShell, "mytool").is_none());
    assert!(install_target(Shell::Elvish, "mytool").is_none());
}

#[test]
fn registrar_adds_one_complete_subcommand() {
    let base = grammar().subcommand(Command::new("run"));
    let first = add_subcommand(base.clone());
    let second = add_subcommand(base.clone());
    assert_eq!(base.get_subcommands().count(), 1);
    for g in [&first, &second] {
        assert_eq!(g.get_name(), "mytool");
        let names: Vec<&str> = g.get_subcommands().map(|s| s.get_name()).collect();
        assert_eq!(names, vec!["run", "complete"]);
        let complete = g.find_subcommand("complete").unwrap();
        let ids: Vec<&str> = complete.get_arguments().map(|a| a.get_id().as_str()).collect();
        assert_eq!(ids, vec!["shell", "print"]);
        let shell = complete.get_arguments().next().unwrap();
        assert_eq!(shell.get_short(), Some('s'));
        assert_eq!(shell.get_long(), Some("shell"));
        assert_eq!(shell.get_value_hint(), clap::ValueHint::Other);
        assert_eq!(shell.get_num_args(), Some(1.into()));
        assert!(!shell.is_required_set());
        let print = complete.get_arguments().nth(1).unwrap();
        assert_eq!(print.get_short(), Some('p'));
        assert_eq!(print.get_long(), Some("print"));
        assert!(matches!(print.get_action(), clap::ArgAction::SetTrue));
        assert!(!print.is_required_set());
        assert!(complete.get_subcommands().next().is_none());
    }
}

#[test]
fn registrar_without_install_has_no_print_flag() {
    let g = add_subcommand_for(grammar(), false);
    let complete = g.find_subcommand("complete").unwrap();
    let ids: Vec<&str> = complete.get_arguments().map(|a| a.get_id().as_str()).collect();
    assert_eq!(ids, vec!["shell"]);
    let shell = complete.get_arguments().next().unwrap();
    assert_eq!(shell.get_short(), Some('s'));
    assert_eq!(shell.get_long(), Some("shell"));
}

#[test]
fn not_invoked_gives_none() {
    let g = add_subcommand(grammar());
    let m = g.try_get_matches_from(["mytool", "-v"]).unwrap();
    assert!(complete_request(&m).is_none());
}

#[test]
fn invoked_reads_options() {
    let g = add_subcommand(grammar());
    let m = g.clone().try_get_matches_from(["mytool", "complete", "--shell", "BASH", "-p"]).unwrap();
    let r = complete_request(&m).unwrap();
    assert_eq!(r.shell.as_deref(), Some("BASH"));
    assert!(r.print);
    let m = g.try_get_matches_from(["mytool", "complete"]).unwrap();
    let r = complete_request(&m).unwrap();
    assert_eq!(r.shell, None);
    assert!(!r.print);
}

#[test]
fn print_with_bash_installs_nothing() {
    let c = prepare_completion(&request("bash", true), &None, grammar(), true).unwrap();
    assert_eq!(c.shell, Shell::Bash);
    assert!(c.target.is_none());
    assert_eq!(c.script, reference_script(clap_complete::Shell::Bash, grammar(), "mytool"));
}

#[test]
fn shells_without_location_always_print() {
    for (name, shell) in [("pwsh", Shell::PowerShell), ("elvish", Shell::Elvish)] {
        let installed = prepare_completion(&request(name, false), &None, grammar(), true).unwrap();
        let printed = prepare_completion(&request(name, true), &None, grammar(), true).unwrap();
        assert_eq!(installed.shell, shell);
        assert!(installed.target.is_none());
        assert!(printed.target.is_none());
        assert_eq!(installed.script, printed.script);
    }
}

#[test]
fn bash_install_for_mytool() {
    let c = prepare_completion(&request("bash", false), &None, grammar(), true).unwrap();
    let t = c.target.unwrap();
    assert_eq!(t.base, InstallBase::System);
    assert_eq!(t.path, "/usr/share/bash-completion/completions/mytool");
    assert_eq!(c.bin_name, "mytool");
    assert!(!c.script.is_empty());
    assert_eq!(c.script, reference_script(clap_complete::Shell::Bash, grammar(), "mytool"));
}

#[test]
fn fish_install_goes_under_user_config() {
    let c = prepare_completion(&request("Fish", false), &None, grammar(), true).unwrap();
    let t = c.target.unwrap();
    assert_eq!(t.base, InstallBase::UserConfig);
    assert_eq!(t.path, "fish/completions/mytool.fish");
}

#[test]
fn platform_without_install_prints() {
    let c = prepare_completion(&request("zsh", false), &None, grammar(), false).unwrap();
    assert!(c.target.is_none());
}

#[test]
fn unknown_shell_makes_no_script() {
    let r = prepare_completion(&request("tcsh", false), &None, grammar(), true);
    assert!(matches!(r, Err(CompletionError::UnsupportedShell)));
    let r = prepare_completion(&CompleteRequest { shell: None, print: false }, &None, grammar(), true);
    assert!(matches!(r, Err(CompletionError::DetectionFailed)));
}

#[test]
fn generation_is_repeatable() {
    for name in ["bash", "zsh", "fish", "pwsh", "elvish"] {
        let a = prepare_completion(&request(name, true), &None, grammar(), true).unwrap();
        let b = prepare_completion(&request(name, true), &None, grammar(), true).unwrap();
        assert_eq!(a.script, b.script);
        assert!(!a.script.is_empty());
    }
}

#[test]
fn bin_name_preferred_over_name() {
    let mut g = grammar();
    assert_eq!(get_program_name(&g), "mytool");
    g.set_bin_name("mt");
    assert_eq!(get_program_name(&g), "mt");
    let c = prepare_completion(&request("bash", false), &None, g, true).unwrap();
    assert_eq!(c.bin_name, "mt");
    assert_eq!(c.target.unwrap().path, "/usr/share/bash-completion/completions/mt");
}

#[test]
fn other_subcommand_is_not_complete() {
    let g = add_subcommand(grammar().subcommand(Command::new("run")));
    let m = g.try_get_matches_from(["mytool", "run"]).unwrap();
    assert!(complete_request(&m).is_none());
}

#[test]
fn grammar_without_complete_gives_none() {
    let g = grammar().subcommand(Command::new("run"));
    let m = g.try_get_matches_from(["mytool", "run"]).unwrap();
    assert!(complete_request(&m).is_none());
}
