use vstd::prelude::*;

use clap::{Arg, ArgAction, Command, ValueHint};

use crate::shell::Shell;

verus! {

#[verifier::external_type_specification]
#[verifier::external_body]
pub struct ExCommand(clap::Command);

#[verifier::external_type_specification]
#[verifier::external_body]
pub struct ExArg(clap::Arg);

/// The name a command was created with (`Command::get_name`).
pub uninterp spec fn command_name(c: Command) -> Seq<char>;

/// The binary name set on a command, if any (`Command::get_bin_name`).
pub uninterp spec fn bin_name_of(c: Command) -> Option<Seq<char>>;

/// The subcommands a command holds, in the order they were added
/// (`Command::get_subcommands`).
pub uninterp spec fn subcommands_of(c: Command) -> Seq<Command>;

/// The arguments a command holds, in the order they were added
/// (`Command::get_arguments`).
pub uninterp spec fn args_of(c: Command) -> Seq<Arg>;

/// The id an argument was created with (`Arg::get_id`).
pub uninterp spec fn arg_id(a: Arg) -> Seq<char>;

/// The short flag of an argument, if any (`Arg::get_short`).
pub uninterp spec fn arg_short_of(a: Arg) -> Option<char>;

/// The long flag of an argument, if any (`Arg::get_long`).
pub uninterp spec fn arg_long_of(a: Arg) -> Option<Seq<char>>;

/// The least and greatest number of values an argument takes, where set
/// (`Arg::get_num_args`).
pub uninterp spec fn arg_value_range(a: Arg) -> Option<(nat, nat)>;

/// Whether an argument's value hint is `ValueHint::Other` (`Arg::get_value_hint`).
pub uninterp spec fn arg_hint_other(a: Arg) -> bool;

/// Whether an argument's action is `ArgAction::SetTrue` (`Arg::get_action`).
pub uninterp spec fn arg_sets_true(a: Arg) -> bool;

/// Whether an argument is required (`Arg::is_required_set`).
pub uninterp spec fn arg_required(a: Arg) -> bool;

/// Whether `Command::build` returns on a command: clap's own checks of the
/// grammar, which debug builds run there, accept it.
pub uninterp spec fn builds_cleanly(c: Command) -> bool;

/// The completion script that clap_complete writes for a shell, a grammar
/// and a program name.
pub uninterp spec fn completion_script(shell: Shell, c: Command, bin_name: Seq<char>) -> Seq<u8>;

/// The name a program is invoked by: its binary name where one is set, else
/// the command's own name.
pub open spec fn program_name(c: Command) -> Seq<char> {
    match bin_name_of(c) {
        Some(b) => b,
        None => command_name(c),
    }
}

/// The number of commands in `s` with the given name.
pub open spec fn count_named(s: Seq<Command>, name: Seq<char>) -> nat
    decreases s.len(),
{
    if s.len() == 0 {
        0
    } else {
        count_named(s.drop_last(), name) + if command_name(s.last()) == name {
            1nat
        } else {
            0nat
        }
    }
}

/// The name of the subcommand that this library adds.
pub open spec fn complete_name() -> Seq<char> {
    seq!['c', 'o', 'm', 'p', 'l', 'e', 't', 'e']
}

/// The optional `-s`/`--shell` option: one value, hinted as opaque text.
pub open spec fn is_shell_option(a: Arg) -> bool {
    &&& arg_id(a) == seq!['s', 'h', 'e', 'l', 'l']
    &&& arg_short_of(a) == Some('s')
    &&& arg_long_of(a) == Some(seq!['s', 'h', 'e', 'l', 'l'])
    &&& arg_value_range(a) == Some((1nat, 1nat))
    &&& arg_hint_other(a)
    &&& !arg_sets_true(a)
    &&& !arg_required(a)
}

/// The optional `-p`/`--print` flag, true when given.
pub open spec fn is_print_flag(a: Arg) -> bool {
    &&& arg_id(a) == seq!['p', 'r', 'i', 'n', 't']
    &&& arg_short_of(a) == Some('p')
    &&& arg_long_of(a) == Some(seq!['p', 'r', 'i', 'n', 't'])
    &&& arg_value_range(a) == None::<(nat, nat)>
    &&& arg_sets_true(a)
    &&& !arg_required(a)
}

/// The arguments of the `complete` subcommand: the shell option, and the
/// print flag where asked for.
pub open spec fn complete_args(args: Seq<Arg>, with_print: bool) -> bool {
    if with_print {
        args.len() == 2 && is_shell_option(args[0]) && is_print_flag(args[1])
    } else {
        args.len() == 1 && is_shell_option(args[0])
    }
}

/// Relies on `Command::new`: a command with the given name, no binary name,
/// no arguments and no subcommands.
#[verifier::external_body]
fn new_command(name: &'static str) -> (r: Command)
    ensures
        command_name(r) == name@,
        bin_name_of(r) == None::<Seq<char>>,
        subcommands_of(r) == Seq::<Command>::empty(),
        args_of(r) == Seq::<Arg>::empty(),
{
    Command::new(name)
}

/// Relies on `Command::arg`: the argument is appended to the command's own.
/// Its display order and help heading may be filled in; its flags are kept.
#[verifier::external_body]
fn with_arg(c: Command, a: Arg) -> (r: Command)
    ensures
        command_name(r) == command_name(c),
        bin_name_of(r) == bin_name_of(c),
        subcommands_of(r) == subcommands_of(c),
        args_of(r).len() == args_of(c).len() + 1,
        args_of(r).drop_last() == args_of(c),
        arg_id(args_of(r).last()) == arg_id(a),
        arg_short_of(args_of(r).last()) == arg_short_of(a),
        arg_long_of(args_of(r).last()) == arg_long_of(a),
        arg_value_range(args_of(r).last()) == arg_value_range(a),
        arg_hint_other(args_of(r).last()) == arg_hint_other(a),
        arg_sets_true(args_of(r).last()) == arg_sets_true(a),
        arg_required(args_of(r).last()) == arg_required(a),
{
    c.arg(a)
}

/// Relies on `Command::subcommand`: the subcommand is appended to the
/// command's own. Its display order may be filled in; its name, binary name,
/// arguments and subcommands are kept.
#[verifier::external_body]
fn with_subcommand(c: Command, sub: Command) -> (r: Command)
    ensures
        command_name(r) == command_name(c),
        bin_name_of(r) == bin_name_of(c),
        args_of(r) == args_of(c),
        subcommands_of(r).len() == subcommands_of(c).len() + 1,
        subcommands_of(r).drop_last() == subcommands_of(c),
        command_name(subcommands_of(r).last()) == command_name(sub),
        bin_name_of(subcommands_of(r).last()) == bin_name_of(sub),
        args_of(subcommands_of(r).last()) == args_of(sub),
        subcommands_of(subcommands_of(r).last()) == subcommands_of(sub),
{
    c.subcommand(sub)
}

/// Relies on `Command::about`: sets the description and nothing else.
#[verifier::external_body]
fn with_about(c: Command, text: &'static str) -> (r: Command)
    ensures
        command_name(r) == command_name(c),
        bin_name_of(r) == bin_name_of(c),
        subcommands_of(r) == subcommands_of(c),
        args_of(r) == args_of(c),
{
    c.about(text)
}

/// Relies on `Command::get_name`.
#[verifier::external_body]
fn get_name(c: &Command) -> (r: String)
    ensures
        r@ == command_name(*c),
{
    c.get_name().to_owned()
}

/// Relies on `Command::get_bin_name`.
#[verifier::external_body]
fn get_bin_name(c: &Command) -> (r: Option<String>)
    ensures
        match r {
            Some(s) => bin_name_of(*c) == Some(s@),
            None => bin_name_of(*c) == None::<Seq<char>>,
        },
{
    c.get_bin_name().map(|s| s.to_owned())
}

/// Relies on `Arg::new`: an argument with the given id, no flags, no value
/// count, the default action, and not required.
#[verifier::external_body]
fn new_arg(id: &'static str) -> (r: Arg)
    ensures
        arg_id(r) == id@,
        arg_short_of(r) == None::<char>,
        arg_long_of(r) == None::<Seq<char>>,
        arg_value_range(r) == None::<(nat, nat)>,
        !arg_sets_true(r),
        !arg_required(r),
{
    Arg::new(id)
}

/// Relies on `Arg::short`: sets the short flag and keeps the rest. A debug
/// assertion there refuses `-`.
#[verifier::external_body]
fn arg_short(a: Arg, c: char) -> (r: Arg)
    requires
        c != '-',
    ensures
        arg_short_of(r) == Some(c),
        arg_id(r) == arg_id(a),
        arg_long_of(r) == arg_long_of(a),
        arg_value_range(r) == arg_value_range(a),
        arg_sets_true(r) == arg_sets_true(a),
        arg_required(r) == arg_required(a),
{
    a.short(c)
}

/// Relies on `Arg::long`: sets the long flag and keeps the rest.
#[verifier::external_body]
fn arg_long(a: Arg, name: &'static str) -> (r: Arg)
    ensures
        arg_long_of(r) == Some(name@),
        arg_id(r) == arg_id(a),
        arg_short_of(r) == arg_short_of(a),
        arg_value_range(r) == arg_value_range(a),
        arg_sets_true(r) == arg_sets_true(a),
        arg_required(r) == arg_required(a),
{
    a.long(name)
}

/// Relies on `Arg::help`: sets the help text and keeps the rest.
#[verifier::external_body]
fn arg_help(a: Arg, text: &'static str) -> (r: Arg)
    ensures
        arg_id(r) == arg_id(a),
        arg_short_of(r) == arg_short_of(a),
        arg_long_of(r) == arg_long_of(a),
        arg_value_range(r) == arg_value_range(a),
        arg_hint_other(r) == arg_hint_other(a),
        arg_sets_true(r) == arg_sets_true(a),
        arg_required(r) == arg_required(a),
{
    a.help(text)
}

/// Relies on `Arg::num_args` with a fixed count: exactly `n` values; the
/// id, flags, action and requirement are kept.
#[verifier::external_body]
fn arg_num_args(a: Arg, n: usize) -> (r: Arg)
    ensures
        arg_value_range(r) == Some((n as nat, n as nat)),
        arg_id(r) == arg_id(a),
        arg_short_of(r) == arg_short_of(a),
        arg_long_of(r) == arg_long_of(a),
        arg_sets_true(r) == arg_sets_true(a),
        arg_required(r) == arg_required(a),
{
    a.num_args(n)
}

/// Relies on `Arg::value_hint` with `ValueHint::Other`: marks the value as
/// opaque text and keeps the rest.
#[verifier::external_body]
fn arg_hint_opaque(a: Arg) -> (r: Arg)
    ensures
        arg_hint_other(r),
        arg_id(r) == arg_id(a),
        arg_short_of(r) == arg_short_of(a),
        arg_long_of(r) == arg_long_of(a),
        arg_value_range(r) == arg_value_range(a),
        arg_sets_true(r) == arg_sets_true(a),
        arg_required(r) == arg_required(a),
{
    a.value_hint(ValueHint::Other)
}

/// Relies on `Arg::action` with `ArgAction::SetTrue`: makes the argument a
/// flag and keeps its id, flags, value count and requirement.
#[verifier::external_body]
fn arg_set_true(a: Arg) -> (r: Arg)
    ensures
        arg_sets_true(r),
        arg_id(r) == arg_id(a),
        arg_short_of(r) == arg_short_of(a),
        arg_long_of(r) == arg_long_of(a),
        arg_value_range(r) == arg_value_range(a),
        arg_required(r) == arg_required(a),
{
    a.action(ArgAction::SetTrue)
}

/// Relies on `clap_complete::generate`, writing into a buffer: the script
/// for the shell, the grammar and the program name. It sets the binary name
/// and builds the grammar; a built grammar is not checked again, so its
/// build returns once more.
#[verifier::external_body]
pub(crate) fn generate_script(shell: Shell, c: &mut Command, bin_name: &str) -> (r: Vec<u8>)
    requires
        builds_cleanly(*old(c)),
    ensures
        r@ == completion_script(shell, *old(c), bin_name@),
        builds_cleanly(*final(c)),
{
    let target = match shell {
        Shell::Bash => clap_complete::Shell::Bash,
        Shell::Zsh => clap_complete::Shell::Zsh,
        Shell::Fish => clap_complete::Shell::Fish,
        Shell::PowerShell => clap_complete::Shell::PowerShell,
        Shell::Elvish => clap_complete::Shell::Elvish,
    };
    let mut buffer = Vec::new();
    clap_complete::generate(target, c, bin_name, &mut buffer);
    buffer
}

/// `after` is `before` with one more subcommand, `complete`, at the end:
/// its arguments are the shell option and, where asked for, the print flag;
/// it has no subcommands of its own.
pub open spec fn adds_complete(before: Command, after: Command, with_print: bool) -> bool {
    let subs = subcommands_of(after);
    &&& command_name(after) == command_name(before)
    &&& bin_name_of(after) == bin_name_of(before)
    &&& args_of(after) == args_of(before)
    &&& subs.len() == subcommands_of(before).len() + 1
    &&& subs.drop_last() == subcommands_of(before)
    &&& command_name(subs.last()) == complete_name()
    &&& complete_args(args_of(subs.last()), with_print)
    &&& subcommands_of(subs.last()) == Seq::<Command>::empty()
}

/// Adds the `complete` subcommand to `command`. It takes the option
/// `-s`/`--shell`, a single value hinted as opaque text, and, where
/// `installable_platform` holds, the flag `-p`/`--print`.
pub fn add_subcommand_for(command: Command, installable_platform: bool) -> (r: Command)
    ensures
        adds_complete(command, r, installable_platform),
{
    proof {
        reveal_strlit("complete");
        reveal_strlit("shell");
        reveal_strlit("print");
        assert("complete"@ =~= complete_name());
        assert("shell"@ =~= seq!['s', 'h', 'e', 'l', 'l']);
        assert("print"@ =~= seq!['p', 'r', 'i', 'n', 't']);
    }
    let shell_arg = arg_hint_opaque(
        arg_help(
            arg_long(arg_short(arg_num_args(new_arg("shell"), 1), 's'), "shell"),
            "Explicitly choose which shell to output.",
        ),
    );
    let sub = with_arg(new_command("complete"), shell_arg);
    let sub = if installable_platform {
        let print_arg = arg_help(
            arg_set_true(arg_long(arg_short(new_arg("print"), 'p'), "print")),
            "Print the shell completion to stdout instead of writing to default file.\n\
            Does nothing when using shells for which \
            the installation location isn't implemented.",
        );
        with_about(
            with_arg(sub, print_arg),
            "Generate completions for the detected/selected shell and \
            put the completions in appropriate directories.\n\
            Currently supports Fish, Bash, Zsh, Elvish, and PowerShell. \
            Fish, Bash, and Zsh are installed \
            automatically (when not using the --print flag).",
        )
    } else {
        with_about(
            sub,
            "Generate completions for the detected/selected shell. \
            Currently supports Fish, Bash, Zsh, Elvish, and PowerShell.",
        )
    };
    let r = with_subcommand(command, sub);
    assert(subcommands_of(r).drop_last() =~= subcommands_of(command));
    r
}

/// Adds the `complete` subcommand to `command`, with the `--print` flag, as
/// on systems where completions are installed into the shell's own
/// directories.
pub fn add_subcommand(command: Command) -> (r: Command)
    ensures
        adds_complete(command, r, true),
{
    add_subcommand_for(command, true)
}

/// A grammar that had no `complete` subcommand has exactly one once the
/// subcommand is added. The grammar is taken by value, so no other copy of
/// it is touched.
pub proof fn lemma_single_complete_subcommand(before: Command, after: Command, with_print: bool)
    requires
        count_named(subcommands_of(before), complete_name()) == 0,
        adds_complete(before, after, with_print),
    ensures
        count_named(subcommands_of(after), complete_name()) == 1,
{
    let subs = subcommands_of(after);
    assert(subs.len() > 0);
    assert(count_named(subs, complete_name()) == count_named(subs.drop_last(), complete_name()) + 1);
}

/// The program name of a grammar: its binary name where one is set, else
/// its own name.
pub fn get_program_name(command: &Command) -> (r: String)
    ensures
        r@ == program_name(*command),
{
    match get_bin_name(command) {
        Some(b) => b,
        None => get_name(command),
    }
}

} // verus!
