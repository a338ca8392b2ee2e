use vstd::prelude::*;

use clap::ArgMatches;

verus! {

#[verifier::external_type_specification]
#[verifier::external_body]
pub struct ExArgMatches(clap::ArgMatches);

/// The subcommand that was invoked, by name, with its matches
/// (`ArgMatches::subcommand`).
pub uninterp spec fn invoked_subcommand(m: ArgMatches) -> Option<(Seq<char>, ArgMatches)>;

/// The string value given for an argument, where there is one
/// (`ArgMatches::try_get_one::<String>`).
pub uninterp spec fn string_value_of(m: ArgMatches, id: Seq<char>) -> Option<Seq<char>>;

/// The boolean value held for an argument, where there is one
/// (`ArgMatches::try_get_one::<bool>`).
pub uninterp spec fn bool_value_of(m: ArgMatches, id: Seq<char>) -> Option<bool>;

/// The options given to the `complete` subcommand.
pub struct CompleteRequest {
    /// The shell named with `--shell`, if any.
    pub shell: Option<String>,
    /// Whether `--print` was given.
    pub print: bool,
}

/// The view of an optional string.
pub open spec fn opt_view(o: Option<String>) -> Option<Seq<char>> {
    match o {
        Some(s) => Some(s@),
        None => None,
    }
}

/// Relies on `ArgMatches::subcommand`; the name and matches are copied.
#[verifier::external_body]
fn current_subcommand(m: &ArgMatches) -> (r: Option<(String, ArgMatches)>)
    ensures
        match r {
            Some((name, sm)) => invoked_subcommand(*m) == Some((name@, sm)),
            None => invoked_subcommand(*m) is None,
        },
{
    m.subcommand().map(|(name, sm)| (name.to_owned(), sm.clone()))
}

/// Whether two texts are equal.
fn same_text(a: &str, b: &str) -> (r: bool)
    ensures
        r == (a@ == b@),
{
    let n = a.unicode_len();
    if n != b.unicode_len() {
        return false;
    }
    let mut i: usize = 0;
    while i < n
        invariant
            n == a@.len(),
            n == b@.len(),
            i <= n,
            a@.subrange(0, i as int) == b@.subrange(0, i as int),
        decreases n - i,
    {
        if a.get_char(i) != b.get_char(i) {
            return false;
        }
        assert(a@.subrange(0, i + 1) =~= a@.subrange(0, i as int).push(a@[i as int]));
        assert(b@.subrange(0, i + 1) =~= b@.subrange(0, i as int).push(b@[i as int]));
        i = i + 1;
    }
    assert(a@ =~= a@.subrange(0, n as int));
    assert(b@ =~= b@.subrange(0, n as int));
    true
}

/// Relies on `ArgMatches::try_get_one::<String>`; an id that is not defined,
/// or not a string, gives `None`.
#[verifier::external_body]
fn string_value(m: &ArgMatches, id: &str) -> (r: Option<String>)
    ensures
        opt_view(r) == string_value_of(*m, id@),
{
    m.try_get_one::<String>(id).ok().flatten().cloned()
}

/// Relies on `ArgMatches::try_get_one::<bool>`; an id that is not defined,
/// or not a flag, gives `None`.
#[verifier::external_body]
fn bool_value(m: &ArgMatches, id: &str) -> (r: Option<bool>)
    ensures
        r == bool_value_of(*m, id@),
{
    m.try_get_one::<bool>(id).ok().flatten().copied()
}

/// The options of the `complete` subcommand, or `None` where another
/// subcommand or none was invoked. A missing print flag reads as not set.
pub fn complete_request(matches: &ArgMatches) -> (r: Option<CompleteRequest>)
    ensures
        match invoked_subcommand(*matches) {
            Some((name, sm)) => if name == seq!['c', 'o', 'm', 'p', 'l', 'e', 't', 'e'] {
                r is Some && opt_view(r->Some_0.shell) == string_value_of(
                    sm,
                    seq!['s', 'h', 'e', 'l', 'l'],
                ) && r->Some_0.print == (bool_value_of(sm, seq!['p', 'r', 'i', 'n', 't']) == Some(
                    true,
                ))
            } else {
                r is None
            },
            None => r is None,
        },
{
    proof {
        reveal_strlit("complete");
        reveal_strlit("shell");
        reveal_strlit("print");
        assert("complete"@ =~= seq!['c', 'o', 'm', 'p', 'l', 'e', 't', 'e']);
        assert("shell"@ =~= seq!['s', 'h', 'e', 'l', 'l']);
        assert("print"@ =~= seq!['p', 'r', 'i', 'n', 't']);
    }
    match current_subcommand(matches) {
        None => None,
        Some((name, sm)) => {
            if !same_text(name.as_str(), "complete") {
                return None;
            }
            let shell = string_value(&sm, "shell");
            let print = match bool_value(&sm, "print") {
                Some(b) => b,
                None => false,
            };
            Some(CompleteRequest { shell, print })
        },
    }
}

} // verus!
