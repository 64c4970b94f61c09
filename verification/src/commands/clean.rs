//! `castle clean`: remove `build/` and `compile_commands.json`, after
//! confirmation unless forced.

use vstd::prelude::*;
use crate::text::{is_ws, str_eq, trim, trimmed};
use crate::toolchain::ascii_lower;

verus! {

/// What `castle clean` does before removing anything.
#[derive(Debug, Clone, Copy, PartialEq, Eq, Structural)]
pub enum CleanAction {
    /// Remove without asking (`--force`).
    Remove,
    /// Refuse with a warning: not forced and nobody at a terminal to ask.
    Refuse,
    /// Ask for confirmation on the terminal.
    Ask,
}

/// The warning `castle clean` gives when it refuses.
pub const REFUSAL: &'static str = "refusing to clean in a non-interactive context without --force";

/// With `--force`, remove; otherwise ask where standard input is a terminal,
/// and refuse where it is not.
pub fn clean_action(force: bool, stdin_is_terminal: bool) -> (r: CleanAction)
    ensures
        r == (if force {
            CleanAction::Remove
        } else if !stdin_is_terminal {
            CleanAction::Refuse
        } else {
            CleanAction::Ask
        }),
{
    if force {
        CleanAction::Remove
    } else if !stdin_is_terminal {
        CleanAction::Refuse
    } else {
        CleanAction::Ask
    }
}

/// `s` with ASCII letters in lower case: `str::to_ascii_lowercase`.
pub open spec fn lower(s: Seq<char>) -> Seq<char> {
    Seq::new(s.len(), |i: int| ascii_lower(s[i]))
}

/// An answer to the confirmation prompt agrees: trimmed and lower-cased, it
/// reads `y` or `yes`.
pub open spec fn confirms_spec(answer: Seq<char>) -> bool {
    lower(trimmed(answer)) == "y"@ || lower(trimmed(answer)) == "yes"@
}

/// Whether an answer to the confirmation prompt agrees to the removal.
pub fn confirms(answer: &str) -> (r: bool)
    ensures
        r == confirms_spec(answer@),
{
    let t = trim(answer);
    let n = t.unicode_len();
    let mut low = String::new();
    let mut i: usize = 0;
    while i < n
        invariant
            i <= n,
            n == t@.len(),
            low@ == lower(t@).take(i as int),
        decreases n - i,
    {
        let c = t.as_str().get_char(i);
        let l = if 'A' <= c && c <= 'Z' {
            ((c as u32 + 32) as u8) as char
        } else {
            c
        };
        crate::text::push_char(&mut low, l);
        assert(low@ =~= lower(t@).take(i + 1));
        i = i + 1;
    }
    assert(lower(t@).take(n as int) =~= lower(t@));
    str_eq(low.as_str(), "y") || str_eq(low.as_str(), "yes")
}

} // verus!
