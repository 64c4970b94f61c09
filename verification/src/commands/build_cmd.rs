//! `castle build`: what the library decides around compiling and linking.

use vstd::prelude::*;
use crate::backend::{
    backend_label, backend_label_spec, strip_text_prefix, Backend, Flags, FlagsModel,
};
use crate::commands::common::{min_clang_for, min_clang_spec};
use crate::text::{decimal, parse_u32, parse_u32_spec, push_decimal, str_eq};

verus! {

/// Build options lifted from the CLI.
#[derive(Debug, Clone)]
pub struct BuildOpts {
    /// `Some("release")` for `--release`; the debug profile otherwise.
    pub profile: Option<String>,
    /// `--cxx-standard` override.
    pub cxx_standard: Option<u32>,
    /// `--backend` override.
    pub backend: Option<String>,
    /// The sanitizer chosen on the command line.
    pub sanitizer: Option<String>,
    /// `Some(true)` for `--pedantic`; absence keeps the manifest's setting.
    pub pedantic: Option<bool>,
}

/// The standard a `-std=c++NN` flag names (23 where it names none).
pub open spec fn flag_standard(std_flag: Seq<char>) -> u32 {
    match strip_text_prefix(std_flag, "-std=c++"@) {
        Some(s) => match parse_u32_spec(s) {
            Some(n) => n,
            None => 23,
        },
        None => 23,
    }
}

/// The minimum clang major version the flags' standard needs.
pub open spec fn required_clang_spec(flags: FlagsModel) -> u32 {
    min_clang_spec(flag_standard(flags.std_flag))
}

/// The standard a `-std=c++NN` flag names.
pub fn standard_from_flag(std_flag: &str) -> (r: u32)
    ensures
        r == flag_standard(std_flag@),
{
    proof {
        reveal_strlit("-std=c++");
    }
    let n = std_flag.unicode_len();
    if n >= 8 && str_eq(std_flag.substring_char(0, 8), "-std=c++") {
        assert(std_flag@.subrange(0, 8) =~= std_flag@.take(8));
        let rest = std_flag.substring_char(8, n);
        assert(rest@ =~= std_flag@.skip(8));
        match parse_u32(rest) {
            Some(v) => v,
            None => 23,
        }
    } else {
        proof {
            if 8 <= std_flag@.len() {
                assert(std_flag@.subrange(0, 8) =~= std_flag@.take(8));
            }
        }
        23
    }
}

/// The minimum clang major version for the standard that `flags` target.
pub fn required_clang(flags: &Flags) -> (r: u32)
    ensures
        r == required_clang_spec(flags@),
{
    min_clang_for(standard_from_flag(flags.std_flag.as_str()))
}

/// `s` with every leading repetition of the non-empty `p` removed:
/// `str::trim_start_matches`.
pub open spec fn trim_start_matches(s: Seq<char>, p: Seq<char>) -> Seq<char>
    decreases s.len(),
{
    if p.len() > 0 && p.len() <= s.len() && s.take(p.len() as int) == p {
        trim_start_matches(s.skip(p.len() as int), p)
    } else {
        s
    }
}

/// The line that opens a build: clang's major version, the standard, the
/// profile (debug unless given) and the backend.
pub open spec fn summary_spec(
    clang_major: u32,
    flags: FlagsModel,
    profile: Option<Seq<char>>,
    backend: Backend,
) -> Seq<char> {
    "clang "@ + decimal(clang_major as nat) + ", "@ + trim_start_matches(flags.std_flag, "-std="@)
        + ", "@ + match profile {
        Some(p) => p,
        None => "debug"@,
    } + ", "@ + backend_label_spec(backend) + " backend"@
}

/// `std_flag` without its leading `-std=` repetitions.
fn standard_label(std_flag: &str) -> (r: String)
    ensures
        r@ == trim_start_matches(std_flag@, "-std="@),
{
    proof {
        reveal_strlit("-std=");
    }
    let n = std_flag.unicode_len();
    let mut i: usize = 0;
    assert(std_flag@.skip(0) =~= std_flag@);
    while n - i >= 5 && str_eq(std_flag.substring_char(i, i + 5), "-std=")
        invariant
            i <= n,
            n == std_flag@.len(),
            trim_start_matches(std_flag@, "-std="@) == trim_start_matches(
                std_flag@.skip(i as int),
                "-std="@,
            ),
        decreases n - i,
    {
        assert(std_flag@.skip(i as int).take(5) =~= std_flag@.subrange(i as int, i + 5));
        assert(std_flag@.skip(i as int).skip(5) =~= std_flag@.skip(i + 5));
        i = i + 5;
    }
    proof {
        if n - i >= 5 {
            assert(std_flag@.skip(i as int).take(5) =~= std_flag@.subrange(i as int, i + 5));
        }
    }
    let r = std_flag.substring_char(i, n).to_owned();
    assert(r@ =~= std_flag@.skip(i as int));
    r
}

/// The line that opens a build.
pub fn summary(clang_major: u32, flags: &Flags, profile: Option<&str>, backend: Backend) -> (r:
    String)
    ensures
        r@ == summary_spec(
            clang_major,
            flags@,
            match profile {
                Some(p) => Some(p@),
                None => None,
            },
            backend,
        ),
{
    let mut s = "clang ".to_owned();
    push_decimal(&mut s, clang_major as u64);
    s.append(", ");
    let standard = standard_label(flags.std_flag.as_str());
    s.append(standard.as_str());
    s.append(", ");
    match profile {
        Some(p) => s.append(p),
        None => s.append("debug"),
    }
    s.append(", ");
    s.append(backend_label(backend));
    s.append(" backend");
    s
}

/// Whether to point out that ccache would need the CMake backend: ccache is
/// installed and the build used the clang backend.
pub fn wants_ccache_hint(ccache_on_path: bool, backend: Backend) -> (r: bool)
    ensures
        r == (ccache_on_path && backend == Backend::Clang),
{
    ccache_on_path && backend == Backend::Clang
}

} // verus!
