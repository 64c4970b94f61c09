//! Terminal output: the `Castle:`-prefixed lines that commands print, with
//! ANSI color when it is enabled.
//!
//! Color is used only when it is safe: not when the `NO_COLOR` environment
//! variable is set (<https://no-color.org/>), not when `CI` is set, not with
//! `TERM=dumb`, and only when the stream is a terminal ([`color_wanted`]). The
//! front end reads those facts, builds the [`Printer`] with the decision for
//! each stream, and writes the lines it composes.

use vstd::prelude::*;

verus! {

/// Resets all attributes.
pub const RESET: &'static str = "\x1b[0m";
/// Bold text.
pub const BOLD: &'static str = "\x1b[1m";
/// Dimmed text.
pub const DIM: &'static str = "\x1b[2m";
/// Red text.
pub const RED: &'static str = "\x1b[31m";
/// Green text.
pub const GREEN: &'static str = "\x1b[32m";
/// Yellow text.
pub const YELLOW: &'static str = "\x1b[33m";
/// Cyan text.
pub const CYAN: &'static str = "\x1b[36m";

/// Shared terminal output for Castle commands: whether standard output and
/// standard error get color.
#[derive(Debug, Default, Clone, Copy)]
pub struct Printer {
    /// Color lines written to standard output.
    pub color_stdout: bool,
    /// Color lines written to standard error.
    pub color_stderr: bool,
}

/// The color rule for a stream: `NO_COLOR` unset, `CI` unset, `TERM` not
/// `dumb`, and the stream a terminal.
pub open spec fn color_rule(no_color_set: bool, ci_set: bool, term: Option<Seq<char>>, is_terminal: bool) -> bool {
    !no_color_set && !ci_set && term != Some("dumb"@) && is_terminal
}

/// The text of an optional string slice.
pub open spec fn opt_text(s: Option<&str>) -> Option<Seq<char>> {
    match s {
        Some(t) => Some(t@),
        None => None,
    }
}

/// Whether a stream gets color: `NO_COLOR` unset, `CI` unset, `TERM` not
/// `dumb`, and the stream a terminal.
pub fn color_wanted(no_color_set: bool, ci_set: bool, term: Option<&str>, is_terminal: bool) -> (r:
    bool)
    ensures
        r == (!no_color_set && !ci_set && !(term matches Some(t) && t@ == "dumb"@) && is_terminal),
{
    if no_color_set || ci_set {
        return false;
    }
    if let Some(t) = term {
        if crate::text::str_eq(t, "dumb") {
            return false;
        }
    }
    is_terminal
}

/// The codes of a list, run together.
pub open spec fn codes_text(codes: Seq<Seq<char>>) -> Seq<char>
    decreases codes.len(),
{
    if codes.len() == 0 {
        Seq::empty()
    } else {
        codes_text(codes.drop_last()) + codes.last()
    }
}

/// The model of a list of string slices.
pub open spec fn strs_model(codes: &[&str]) -> Seq<Seq<char>> {
    Seq::new(codes@.len(), |i: int| codes@[i]@)
}

/// `msg` wrapped in the codes and a reset where color is on; `msg` as it is
/// otherwise.
pub open spec fn painted(color: bool, codes: Seq<Seq<char>>, msg: Seq<char>) -> Seq<char> {
    if color {
        codes_text(codes) + msg + RESET@
    } else {
        msg
    }
}

impl Printer {
    /// Whether lines for the stream (`err` for standard error) are colored.
    pub open spec fn colors(self, err: bool) -> bool {
        if err {
            self.color_stderr
        } else {
            self.color_stdout
        }
    }

    /// A [`Printer`] that writes plain text on both streams.
    pub fn new() -> (p: Self)
        ensures
            !p.color_stdout,
            !p.color_stderr,
    {
        Printer { color_stdout: false, color_stderr: false }
    }

    /// A [`Printer`] with the given color decisions for standard output and
    /// standard error.
    pub fn with_color(color_stdout: bool, color_stderr: bool) -> (p: Self)
        ensures
            p.color_stdout == color_stdout,
            p.color_stderr == color_stderr,
    {
        Printer { color_stdout, color_stderr }
    }

    /// The [`Printer`] for an environment: `NO_COLOR` and `CI` set or not,
    /// the value of `TERM`, and whether standard output and standard error
    /// are terminals; each stream gets color as [`color_wanted`] decides.
    pub fn for_environment(
        no_color_set: bool,
        ci_set: bool,
        term: Option<&str>,
        stdout_is_terminal: bool,
        stderr_is_terminal: bool,
    ) -> (p: Self)
        ensures
            p.color_stdout == (!no_color_set && !ci_set && !(term matches Some(t) && t@ == "dumb"@)
                && stdout_is_terminal),
            p.color_stderr == (!no_color_set && !ci_set && !(term matches Some(t) && t@ == "dumb"@)
                && stderr_is_terminal),
            p.color_stdout == color_rule(no_color_set, ci_set, opt_text(term), stdout_is_terminal),
            p.color_stderr == color_rule(no_color_set, ci_set, opt_text(term), stderr_is_terminal),
    {
        Printer {
            color_stdout: color_wanted(no_color_set, ci_set, term, stdout_is_terminal),
            color_stderr: color_wanted(no_color_set, ci_set, term, stderr_is_terminal),
        }
    }

    /// Wrap `msg` in the given ANSI codes when color is enabled for the stream
    /// (`err` for standard error).
    pub fn paint(&self, err: bool, codes: &[&str], msg: &str) -> (r: String)
        ensures
            r@ == painted(self.colors(err), strs_model(codes), msg@),
    {
        let color = if err {
            self.color_stderr
        } else {
            self.color_stdout
        };
        if !color {
            return msg.to_owned();
        }
        let mut s = String::new();
        let mut i: usize = 0;
        while i < codes.len()
            invariant
                i <= codes.len(),
                s@ == codes_text(strs_model(codes).take(i as int)),
            decreases codes.len() - i,
        {
            assert(strs_model(codes).take(i + 1).drop_last() =~= strs_model(codes).take(i as int));
            s.append(codes[i]);
            i = i + 1;
        }
        assert(strs_model(codes).take(codes.len() as int) =~= strs_model(codes));
        s.append(msg);
        s.append(RESET);
        s
    }

    /// `Castle: <label>` for a build step in progress (standard error).
    pub fn step_line(&self, label: &str) -> (r: String)
        ensures
            r@ == painted(self.color_stderr, seq![BOLD@, CYAN@], "Castle:"@) + " "@ + label@,
    {
        let mut s = self.paint(true, &[BOLD, CYAN], "Castle:");
        assert(strs_model(&[BOLD, CYAN]) =~= seq![BOLD@, CYAN@]);
        s.append(" ");
        s.append(label);
        s
    }

    /// `Castle: <msg>` for a successful outcome (standard output).
    pub fn success_line(&self, msg: &str) -> (r: String)
        ensures
            r@ == painted(self.color_stdout, seq![BOLD@, GREEN@], "Castle:"@) + " "@ + msg@,
    {
        let mut s = self.paint(false, &[BOLD, GREEN], "Castle:");
        assert(strs_model(&[BOLD, GREEN]) =~= seq![BOLD@, GREEN@]);
        s.append(" ");
        s.append(msg);
        s
    }

    /// `Castle: <msg>` for a neutral message (standard output).
    pub fn info_line(&self, msg: &str) -> (r: String)
        ensures
            r@ == painted(self.color_stdout, seq![BOLD@], "Castle:"@) + " "@ + msg@,
    {
        let mut s = self.paint(false, &[BOLD], "Castle:");
        assert(strs_model(&[BOLD]) =~= seq![BOLD@]);
        s.append(" ");
        s.append(msg);
        s
    }

    /// `Castle: warning: <msg>` (standard error).
    pub fn warn_line(&self, msg: &str) -> (r: String)
        ensures
            r@ == painted(self.color_stderr, seq![BOLD@, YELLOW@], "Castle:"@) + " "@ + painted(
                self.color_stderr,
                seq![YELLOW@],
                "warning:"@,
            ) + " "@ + msg@,
    {
        let mut s = self.paint(true, &[BOLD, YELLOW], "Castle:");
        assert(strs_model(&[BOLD, YELLOW]) =~= seq![BOLD@, YELLOW@]);
        s.append(" ");
        let label = self.paint(true, &[YELLOW], "warning:");
        assert(strs_model(&[YELLOW]) =~= seq![YELLOW@]);
        s.append(label.as_str());
        s.append(" ");
        s.append(msg);
        s
    }

    /// `Castle: error: <msg>` (standard error).
    pub fn error_line(&self, msg: &str) -> (r: String)
        ensures
            r@ == painted(self.color_stderr, seq![BOLD@, RED@], "Castle:"@) + " "@ + painted(
                self.color_stderr,
                seq![RED@],
                "error:"@,
            ) + " "@ + msg@,
    {
        let mut s = self.paint(true, &[BOLD, RED], "Castle:");
        assert(strs_model(&[BOLD, RED]) =~= seq![BOLD@, RED@]);
        s.append(" ");
        let label = self.paint(true, &[RED], "error:");
        assert(strs_model(&[RED]) =~= seq![RED@]);
        s.append(label.as_str());
        s.append(" ");
        s.append(msg);
        s
    }

    /// `  hint: <msg>`, dimmed label (standard error).
    pub fn hint_line(&self, msg: &str) -> (r: String)
        ensures
            r@ == "  "@ + painted(self.color_stderr, seq![DIM@], "hint:"@) + " "@ + msg@,
    {
        let mut s = "  ".to_owned();
        let label = self.paint(true, &[DIM], "hint:");
        assert(strs_model(&[DIM]) =~= seq![DIM@]);
        s.append(label.as_str());
        s.append(" ");
        s.append(msg);
        s
    }
}

} // verus!
