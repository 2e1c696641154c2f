//! Which shell a new session runs.
//!
//! The candidates are configuration: an ordered list of executables, each with
//! whether the host found it on disk, so that the choice can be exercised
//! without a real filesystem.
use vstd::prelude::*;

verus! {

/// A shell executable the host may start, and whether it is installed.
pub struct ShellCandidate {
    pub path: String,
    pub present: bool,
}

/// The shell a Windows host starts.
pub const WINDOWS_SHELL: &'static str = "cmd";

/// The terminal type announced to the shell through `TERM`.
pub const TERM_TYPE: &'static str = "xterm-256color";

/// The shell chosen from `c`: the first installed candidate, else the last
/// one as the unconditional fallback; none from an empty list.
pub open spec fn pick_candidate(c: Seq<ShellCandidate>) -> Option<Seq<char>>
    decreases c.len(),
{
    if c.len() == 0 {
        None
    } else if c[0].present || c.len() == 1 {
        Some(c[0].path@)
    } else {
        pick_candidate(c.drop_first())
    }
}

/// The shell a session runs: the caller's override if any, else the
/// platform's default.
pub open spec fn shell_choice(
    shell_override: Option<Seq<char>>,
    windows: bool,
    candidates: Seq<ShellCandidate>,
) -> Option<Seq<char>> {
    match shell_override {
        Some(s) => Some(s),
        None => if windows {
            Some(WINDOWS_SHELL@)
        } else {
            pick_candidate(candidates)
        },
    }
}

/// The POSIX candidates, in order of preference: zsh, then bash.
pub fn default_shell_candidates(zsh_present: bool, bash_present: bool) -> (r: Vec<ShellCandidate>)
    ensures
        r@.len() == 2,
        r@[0].path@ == "/bin/zsh"@,
        r@[0].present == zsh_present,
        r@[1].path@ == "/bin/bash"@,
        r@[1].present == bash_present,
{
    let mut r: Vec<ShellCandidate> = Vec::new();
    r.push(ShellCandidate { path: "/bin/zsh".to_owned(), present: zsh_present });
    r.push(ShellCandidate { path: "/bin/bash".to_owned(), present: bash_present });
    r
}

/// Picks the executable for a new session.
pub fn select_shell(
    shell_override: Option<String>,
    windows: bool,
    candidates: &Vec<ShellCandidate>,
) -> (r: Option<String>)
    ensures
        (match r {
            Some(s) => Some(s@),
            None => None::<Seq<char>>,
        }) == shell_choice(
            match shell_override {
                Some(s) => Some(s@),
                None => None::<Seq<char>>,
            },
            windows,
            candidates@,
        ),
{
    match shell_override {
        Some(s) => Some(s),
        None => {
            if windows {
                Some(WINDOWS_SHELL.to_owned())
            } else {
                pick_from(candidates)
            }
        },
    }
}

fn pick_from(candidates: &Vec<ShellCandidate>) -> (r: Option<String>)
    ensures
        (match r {
            Some(s) => Some(s@),
            None => None::<Seq<char>>,
        }) == pick_candidate(candidates@),
{
    let n = candidates.len();
    if n == 0 {
        return None;
    }
    let mut i: usize = 0;
    assert(candidates@.subrange(0, n as int) =~= candidates@);
    while i < n
        invariant
            n == candidates@.len(),
            0 <= i < n,
            pick_candidate(candidates@) == pick_candidate(candidates@.subrange(i as int, n as int)),
        decreases n - i,
    {
        let c = &candidates[i];
        if c.present || i + 1 == n {
            return Some(c.path.clone());
        }
        assert(candidates@.subrange(i as int, n as int).drop_first() =~= candidates@.subrange(
            i + 1,
            n as int,
        ));
        i = i + 1;
    }
    None
}

} // verus!
