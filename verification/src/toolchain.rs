//! Toolchain detection: reading clang's version banner and checking that the
//! toolchain is recent enough.
//!
//! Running `clang --version` and searching `PATH` are done by the front end,
//! which hands the results to the functions here.

use vstd::prelude::*;
use crate::error::{CastleError, ErrorModel};
use crate::text::{
    all_digits, is_digit, is_whitespace, is_ws, parse_u32, parse_u32_spec, push_char, trim,
    trimmed,
};

verus! {

/// Information about the located `clang`.
#[derive(Debug, Clone)]
pub struct ClangInfo {
    /// The major version number, e.g. `21` for `clang 21.0.0`.
    pub major: u32,
    /// The full `clang --version` output, for display.
    pub raw: String,
}

/// Position of the first `\n` in `s`, or -1.
pub open spec fn first_newline(s: Seq<char>) -> int
    decreases s.len(),
{
    if s.len() == 0 {
        -1
    } else if s[0] == '\n' {
        0
    } else if first_newline(s.skip(1)) < 0 {
        -1
    } else {
        1 + first_newline(s.skip(1))
    }
}

/// The first of `str::lines`: the text before the first `\n` (without a `\r`
/// that ends it), or the whole text where there is no `\n`; none for an empty
/// text.
pub open spec fn first_line(s: Seq<char>) -> Option<Seq<char>> {
    if s.len() == 0 {
        None
    } else if first_newline(s) < 0 {
        Some(s)
    } else {
        let l = s.take(first_newline(s));
        if l.len() > 0 && l.last() == '\r' {
            Some(l.drop_last())
        } else {
            Some(l)
        }
    }
}

/// Length of the run of non-whitespace characters that starts `s`.
pub open spec fn word_end(s: Seq<char>) -> int
    decreases s.len(),
{
    if s.len() == 0 || is_ws(s[0]) {
        0
    } else {
        1 + word_end(s.skip(1))
    }
}

/// A leading run is no longer than the text.
pub proof fn lemma_word_end_bounds(s: Seq<char>)
    ensures
        0 <= word_end(s) <= s.len(),
        s.len() > 0 && !is_ws(s[0]) ==> word_end(s) >= 1,
    decreases s.len(),
{
    if s.len() > 0 && !is_ws(s[0]) {
        lemma_word_end_bounds(s.skip(1));
    }
}

/// The words of `s` as `str::split_whitespace` yields them.
pub open spec fn words(s: Seq<char>) -> Seq<Seq<char>>
    decreases s.len(),
{
    if s.len() == 0 {
        Seq::empty()
    } else if is_ws(s[0]) {
        words(s.skip(1))
    } else {
        proof {
            lemma_word_end_bounds(s);
        }
        seq![s.take(word_end(s))] + words(s.skip(word_end(s)))
    }
}

/// ASCII lower-casing of a character.
pub open spec fn ascii_lower(c: char) -> char {
    if 'A' <= c && c <= 'Z' {
        (c as int + 32) as char
    } else {
        c
    }
}

/// `w` equals `"version"` ignoring ASCII case.
pub open spec fn is_version_word(w: Seq<char>) -> bool {
    w.len() == 7 && forall|i: int| 0 <= i < 7 ==> ascii_lower(#[trigger] w[i]) == "version"@[i]
}

/// Length of the run of digits that starts `s`.
pub open spec fn digit_run(s: Seq<char>) -> int
    decreases s.len(),
{
    if s.len() == 0 || !is_digit(s[0]) {
        0
    } else {
        1 + digit_run(s.skip(1))
    }
}

/// The major version a version token gives: its leading digits as a `u32`,
/// where there are some, they fit, and they are not zero.
pub open spec fn token_major(tok: Seq<char>) -> Option<u32> {
    match parse_u32_spec(tok.take(digit_run(tok))) {
        Some(n) => if n > 0 {
            Some(n)
        } else {
            None
        },
        None => None,
    }
}

/// The major version in a list of words: the token after the first word
/// that reads `version`, once `saw` says that word has been passed.
pub open spec fn major_in_words(ws: Seq<Seq<char>>, saw: bool) -> Option<u32>
    decreases ws.len(),
{
    if ws.len() == 0 {
        None
    } else if saw {
        token_major(ws[0])
    } else {
        major_in_words(ws.skip(1), is_version_word(ws[0]))
    }
}

/// What `parse_major` gives for a `clang --version` output.
pub open spec fn parse_major_spec(stdout: Seq<char>) -> Option<u32> {
    match first_line(stdout) {
        None => None,
        Some(line) => major_in_words(words(line), false),
    }
}

/// Where the run of digits starting `s` ends.
proof fn lemma_digit_run_at(s: Seq<char>, k: int)
    requires
        0 <= k <= s.len(),
        forall|i: int| 0 <= i < k ==> is_digit(#[trigger] s[i]),
        k == s.len() || !is_digit(s[k]),
    ensures
        digit_run(s) == k,
    decreases k,
{
    if k > 0 {
        let t = s.skip(1);
        assert forall|i: int| 0 <= i < k - 1 implies is_digit(#[trigger] t[i]) by {
            assert(t[i] == s[i + 1]);
        }
        lemma_digit_run_at(t, k - 1);
    }
}

/// Where the word starting `s` ends.
proof fn lemma_word_end_at(s: Seq<char>, k: int)
    requires
        0 <= k <= s.len(),
        forall|i: int| 0 <= i < k ==> !is_ws(#[trigger] s[i]),
        k == s.len() || is_ws(s[k]),
    ensures
        word_end(s) == k,
    decreases k,
{
    if k > 0 {
        let t = s.skip(1);
        assert forall|i: int| 0 <= i < k - 1 implies !is_ws(#[trigger] t[i]) by {
            assert(t[i] == s[i + 1]);
        }
        lemma_word_end_at(t, k - 1);
    }
}

/// Where `s` has its first `\n`.
proof fn lemma_first_newline_at(s: Seq<char>, k: int)
    requires
        0 <= k <= s.len(),
        forall|i: int| 0 <= i < k ==> #[trigger] s[i] != '\n',
        k == s.len() || s[k] == '\n',
    ensures
        k < s.len() ==> first_newline(s) == k,
        k == s.len() ==> first_newline(s) == -1,
    decreases k,
{
    if k > 0 {
        let t = s.skip(1);
        assert forall|i: int| 0 <= i < k - 1 implies #[trigger] t[i] != '\n' by {
            assert(t[i] == s[i + 1]);
        }
        lemma_first_newline_at(t, k - 1);
    }
}

/// The first line of a text, by the position of its end.
pub fn first_line_end(s: &str) -> (r: Option<usize>)
    ensures
        match r {
            None => first_line(s@) is None,
            Some(k) => k <= s@.len() && first_line(s@) == Some(s@.take(k as int)),
        },
{
    let n = s.unicode_len();
    if n == 0 {
        return None;
    }
    let mut i: usize = 0;
    while i < n && s.get_char(i) != '\n'
        invariant
            i <= n,
            n == s@.len(),
            forall|j: int| 0 <= j < i ==> #[trigger] s@[j] != '\n',
        decreases n - i,
    {
        i = i + 1;
    }
    proof {
        lemma_first_newline_at(s@, i as int);
    }
    if i == n {
        assert(s@.take(n as int) =~= s@);
        return Some(n);
    }
    if i > 0 && s.get_char(i - 1) == '\r' {
        assert(s@.take(i as int).drop_last() =~= s@.take(i - 1));
        Some(i - 1)
    } else {
        Some(i)
    }
}

/// Whether the characters `s[from..to]` read `version`, ignoring ASCII case.
fn reads_version(s: &str, from: usize, to: usize) -> (r: bool)
    requires
        from <= to <= s@.len(),
    ensures
        r == is_version_word(s@.subrange(from as int, to as int)),
{
    let ghost w = s@.subrange(from as int, to as int);
    if to - from != 7 {
        return false;
    }
    let target = "version";
    proof {
        reveal_strlit("version");
    }
    let mut i: usize = 0;
    while i < 7
        invariant
            i <= 7,
            to - from == 7,
            from <= to <= s@.len(),
            w == s@.subrange(from as int, to as int),
            target@ == "version"@,
            target@.len() == 7,
            forall|j: int| 0 <= j < i ==> ascii_lower(#[trigger] w[j]) == "version"@[j],
        decreases 7 - i,
    {
        let c = s.get_char(from + i);
        let lower = if 'A' <= c && c <= 'Z' {
            ((c as u32 + 32) as u8) as char
        } else {
            c
        };
        assert(w[i as int] == c);
        assert(lower == ascii_lower(c));
        if lower != target.get_char(i) {
            return false;
        }
        i = i + 1;
    }
    true
}

/// The major version that the token `s[from..to]` gives.
fn major_of_token(s: &str, from: usize, to: usize) -> (r: Option<u32>)
    requires
        from <= to <= s@.len(),
    ensures
        r == token_major(s@.subrange(from as int, to as int)),
{
    let ghost tok = s@.subrange(from as int, to as int);
    let mut k: usize = from;
    while k < to && crate::text::is_ascii_digit(s.get_char(k))
        invariant
            from <= k <= to,
            to <= s@.len(),
            tok == s@.subrange(from as int, to as int),
            forall|j: int| from <= j < k ==> is_digit(#[trigger] s@[j]),
        decreases to - k,
    {
        k = k + 1;
    }
    proof {
        assert forall|j: int| 0 <= j < k - from implies is_digit(#[trigger] tok[j]) by {
            assert(tok[j] == s@[j + from]);
        }
        if k < to {
            assert(tok[k - from] == s@[k as int]);
        }
        lemma_digit_run_at(tok, k - from);
        assert(tok.take(k - from) =~= s@.subrange(from as int, k as int));
    }
    let digits = s.substring_char(from, k);
    match parse_u32(digits) {
        Some(n) => if n > 0 {
            Some(n)
        } else {
            None
        },
        None => None,
    }
}

/// Unfolds `words` at a whitespace character.
proof fn lemma_words_ws(s: Seq<char>, i: int)
    requires
        0 <= i < s.len(),
        is_ws(s[i]),
    ensures
        words(s.skip(i)) == words(s.skip(i + 1)),
{
    assert(s.skip(i).skip(1) =~= s.skip(i + 1));
}

/// Unfolds `words` at a word `s[i..j]`.
proof fn lemma_words_word(s: Seq<char>, i: int, j: int)
    requires
        0 <= i < j <= s.len(),
        forall|k: int| i <= k < j ==> !is_ws(#[trigger] s[k]),
        j == s.len() || is_ws(s[j]),
    ensures
        words(s.skip(i)) == seq![s.subrange(i, j)] + words(s.skip(j)),
{
    let t = s.skip(i);
    assert forall|k: int| 0 <= k < j - i implies !is_ws(#[trigger] t[k]) by {
        assert(t[k] == s[k + i]);
    }
    if j < s.len() {
        assert(t[j - i] == s[j]);
    }
    lemma_word_end_at(t, j - i);
    assert(t.take(j - i) =~= s.subrange(i, j));
    assert(t.skip(j - i) =~= s.skip(j));
    assert(!is_ws(t[0]));
}

/// Parse the major version out of a `clang --version`-style text: the
/// numeric token that follows the word `version` on the first line, as in
/// `clang version 18.1.0` and `Apple clang version 21.0.0`.
pub fn parse_major(stdout: &str) -> (r: Option<u32>)
    ensures
        r == parse_major_spec(stdout@),
{
    let end = match first_line_end(stdout) {
        None => return None,
        Some(e) => e,
    };
    let ghost line = stdout@.take(end as int);
    assert(parse_major_spec(stdout@) == major_in_words(words(line), false));
    let mut i: usize = 0;
    let mut saw = false;
    assert(line.skip(0) =~= line);
    while i < end
        invariant
            i <= end <= stdout@.len(),
            line == stdout@.take(end as int),
            major_in_words(words(line), false) == major_in_words(words(line.skip(i as int)), saw),
            parse_major_spec(stdout@) == major_in_words(words(line), false),
        decreases end - i,
    {
        let c = stdout.get_char(i);
        assert(line[i as int] == c);
        if is_whitespace(c) {
            proof {
                lemma_words_ws(line, i as int);
            }
            i = i + 1;
        } else {
            let mut j: usize = i + 1;
            while j < end && !is_whitespace(stdout.get_char(j))
                invariant
                    i < j <= end <= stdout@.len(),
                    line == stdout@.take(end as int),
                    forall|k: int| i <= k < j ==> !is_ws(#[trigger] line[k]),
                decreases end - j,
            {
                assert(line[j as int] == stdout@[j as int]);
                j = j + 1;
            }
            proof {
                if j < end {
                    assert(line[j as int] == stdout@[j as int]);
                }
                lemma_words_word(line, i as int, j as int);
                assert(line.subrange(i as int, j as int) =~= stdout@.subrange(i as int, j as int));
                let ws = words(line.skip(i as int));
                assert(ws.skip(1) =~= words(line.skip(j as int)));
            }
            if saw {
                proof {
                    let ws = words(line.skip(i as int));
                    assert(ws[0] == stdout@.subrange(i as int, j as int));
                    assert(major_in_words(ws, true) == token_major(ws[0]));
                }
                return major_of_token(stdout, i, j);
            }
            saw = reads_version(stdout, i, j);
            i = j;
        }
    }
    assert(line.skip(end as int) =~= Seq::<char>::empty());
    None
}

/// What reading a `clang --version` output gives: the clang found, or an
/// error holding the trimmed output where no major version can be read.
pub open spec fn clang_info_spec(stdout: Seq<char>) -> Result<(u32, Seq<char>), ErrorModel> {
    match parse_major_spec(stdout) {
        Some(major) => Ok((major, stdout)),
        None => Err(ErrorModel::ClangVersionParse(trimmed(stdout))),
    }
}

/// The model of a clang-information result.
pub open spec fn clang_result(r: Result<ClangInfo, CastleError>) -> Result<
    (u32, Seq<char>),
    ErrorModel,
> {
    match r {
        Ok(info) => Ok((info.major, info.raw@)),
        Err(e) => Err(e@),
    }
}

/// Read the output of `clang --version` into a [`ClangInfo`].
pub fn clang_info_from_output(stdout: String) -> (r: Result<ClangInfo, CastleError>)
    ensures
        clang_result(r) == clang_info_spec(stdout@),
{
    match parse_major(stdout.as_str()) {
        Some(major) => Ok(ClangInfo { major, raw: stdout }),
        None => Err(CastleError::ClangVersionParse(trim(stdout.as_str()))),
    }
}

/// What `require_clang` gives: a detection error as it is, then a clang older
/// than `min_major`, then a missing `clang++`; otherwise the clang found.
pub open spec fn require_clang_spec(
    detected: Result<(u32, Seq<char>), ErrorModel>,
    min_major: u32,
    clangxx_on_path: bool,
) -> Result<(u32, Seq<char>), ErrorModel> {
    match detected {
        Err(e) => Err(e),
        Ok((major, raw)) => if major < min_major {
            Err(ErrorModel::ClangTooOld { found: major, required: min_major })
        } else if !clangxx_on_path {
            Err(ErrorModel::ToolMissing { tool: "clang++"@ })
        } else {
            Ok((major, raw))
        },
    }
}

/// Enforce a minimum clang major version on a detected clang, and that the
/// C++ driver `clang++` is on `PATH` (Castle compiles and links through
/// `clang++`, so that the C++ standard library is linked).
pub fn require_clang(
    detected: Result<ClangInfo, CastleError>,
    min_major: u32,
    clangxx_on_path: bool,
) -> (r: Result<ClangInfo, CastleError>)
    ensures
        clang_result(r) == require_clang_spec(clang_result(detected), min_major, clangxx_on_path),
{
    let info = match detected {
        Ok(info) => info,
        Err(e) => return Err(e),
    };
    if info.major < min_major {
        return Err(CastleError::ClangTooOld { found: info.major, required: min_major });
    }
    if !clangxx_on_path {
        return Err(CastleError::ToolMissing { tool: "clang++".to_owned() });
    }
    Ok(info)
}

} // verus!
