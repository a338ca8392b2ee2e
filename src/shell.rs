use vstd::prelude::*;

verus! {

/// The shells that completion scripts can be generated for.
#[derive(Debug, Clone, Copy, PartialEq, Eq, Structural)]
pub enum Shell {
    Bash,
    Zsh,
    Fish,
    PowerShell,
    Elvish,
}

/// A character code with ASCII upper-case letters taken to lower case.
pub open spec fn fold_code(c: char) -> u32 {
    let v = c as u32;
    if 65 <= v && v <= 90 {
        (v + 32) as u32
    } else {
        v
    }
}

/// A name with its ASCII letters taken to lower case, as codes.
pub open spec fn folded(s: Seq<char>) -> Seq<u32> {
    s.map_values(|c: char| fold_code(c))
}

/// Two names that are equal once ASCII letters are taken to lower case.
pub open spec fn same_ignoring_case(a: Seq<char>, b: Seq<char>) -> bool {
    folded(a) == folded(b)
}

/// The shell that a name stands for, ignoring ASCII case, if any.
pub open spec fn shell_named(s: Seq<char>) -> Option<Shell> {
    if same_ignoring_case(s, seq!['b', 'a', 's', 'h']) {
        Some(Shell::Bash)
    } else if same_ignoring_case(s, seq!['f', 'i', 's', 'h']) {
        Some(Shell::Fish)
    } else if same_ignoring_case(s, seq!['z', 's', 'h']) {
        Some(Shell::Zsh)
    } else if same_ignoring_case(s, seq!['p', 'w', 's', 'h'])
        || same_ignoring_case(s, seq!['p', 'o', 'w', 'e', 'r', 's', 'h', 'e', 'l', 'l']) {
        Some(Shell::PowerShell)
    } else if same_ignoring_case(s, seq!['e', 'l', 'v', 'i', 's', 'h']) {
        Some(Shell::Elvish)
    } else {
        None
    }
}

/// Whether a shell has a known place to install completion scripts into.
pub open spec fn installable(shell: Shell) -> bool {
    shell == Shell::Bash || shell == Shell::Zsh || shell == Shell::Fish
}

fn fold_char(c: char) -> (r: u32)
    ensures
        r == fold_code(c),
{
    let v = c as u32;
    if 65 <= v && v <= 90 {
        v + 32
    } else {
        v
    }
}

/// Whether `name` equals the lower-case name `target` once ASCII case is ignored.
fn matches_ignoring_case(name: &str, target: &str) -> (r: bool)
    ensures
        r == same_ignoring_case(name@, target@),
{
    let n = name.unicode_len();
    let m = target.unicode_len();
    if n != m {
        proof {
            if same_ignoring_case(name@, target@) {
                assert(folded(name@).len() == folded(target@).len());
            }
        }
        return false;
    }
    let mut i: usize = 0;
    while i < n
        invariant
            n == name@.len(),
            n == target@.len(),
            i <= n,
            forall|j: int| 0 <= j < i ==> fold_code(name@[j]) == fold_code(target@[j]),
        decreases n - i,
    {
        let a = fold_char(name.get_char(i));
        let b = fold_char(target.get_char(i));
        if a != b {
            proof {
                if same_ignoring_case(name@, target@) {
                    assert(folded(name@)[i as int] == folded(target@)[i as int]);
                }
            }
            return false;
        }
        i = i + 1;
    }
    assert(folded(name@) =~= folded(target@));
    true
}

/// The shell that `name` stands for, ignoring ASCII case: `bash`, `fish`,
/// `zsh`, `pwsh` or `powershell`, and `elvish`.
pub fn parse_shell(name: &str) -> (r: Option<Shell>)
    ensures
        r == shell_named(name@),
{
    proof {
        reveal_strlit("bash");
        reveal_strlit("fish");
        reveal_strlit("zsh");
        reveal_strlit("pwsh");
        reveal_strlit("powershell");
        reveal_strlit("elvish");
        assert("bash"@ =~= seq!['b', 'a', 's', 'h']);
        assert("fish"@ =~= seq!['f', 'i', 's', 'h']);
        assert("zsh"@ =~= seq!['z', 's', 'h']);
        assert("pwsh"@ =~= seq!['p', 'w', 's', 'h']);
        assert("powershell"@ =~= seq!['p', 'o', 'w', 'e', 'r', 's', 'h', 'e', 'l', 'l']);
        assert("elvish"@ =~= seq!['e', 'l', 'v', 'i', 's', 'h']);
    }
    if matches_ignoring_case(name, "bash") {
        Some(Shell::Bash)
    } else if matches_ignoring_case(name, "fish") {
        Some(Shell::Fish)
    } else if matches_ignoring_case(name, "zsh") {
        Some(Shell::Zsh)
    } else if matches_ignoring_case(name, "pwsh") || matches_ignoring_case(name, "powershell") {
        Some(Shell::PowerShell)
    } else if matches_ignoring_case(name, "elvish") {
        Some(Shell::Elvish)
    } else {
        None
    }
}

/// Whether completion scripts for `shell` have a conventional install location.
pub fn has_install_location(shell: Shell) -> (r: bool)
    ensures
        r == installable(shell),
{
    match shell {
        Shell::Bash | Shell::Zsh | Shell::Fish => true,
        Shell::PowerShell | Shell::Elvish => false,
    }
}

/// Names that differ only in the case of ASCII letters stand for the same shell.
pub proof fn lemma_shell_name_ignores_case(a: Seq<char>, b: Seq<char>)
    requires
        same_ignoring_case(a, b),
    ensures
        shell_named(a) == shell_named(b),
{
}

} // verus!
