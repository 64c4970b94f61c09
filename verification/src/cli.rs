//! The command surface: the commands and flags Castle accepts, and how a
//! parsed command is routed to its handler.
//!
//! Parsing the command line is the front end's job; it fills a [`Cli`].

use vstd::prelude::*;
use crate::commands::build_cmd::BuildOpts;
use crate::commands::run::RunOpts;
use crate::error::{CastleError, ErrorModel};
use crate::text::str_eq;

verus! {

/// The parsed command line.
#[derive(Debug, Clone)]
pub struct Cli {
    /// The subcommand.
    pub command: Command,
}

/// Every Castle subcommand with its flags.
#[derive(Debug, Clone)]
pub enum Command {
    /// Create a new Castle project in a new directory.
    New { name: String, cmake: bool },
    /// Create a new Castle project in the current directory.
    Init { name: Option<String>, cmake: bool },
    /// Build the project.
    Build {
        release: bool,
        cxx_standard: Option<u32>,
        backend: Option<String>,
        asan: bool,
        tsan: bool,
        ubsan: bool,
        msan: bool,
        pedantic: bool,
    },
    /// Build and run the project.
    Run {
        release: bool,
        cxx_standard: Option<u32>,
        backend: Option<String>,
        asan: bool,
        tsan: bool,
        ubsan: bool,
        msan: bool,
        watch: bool,
        args: Vec<String>,
    },
    /// Run a fast type/syntax check without linking.
    Check { cxx_standard: Option<u32> },
    /// Remove build artifacts.
    Clean { force: bool },
    /// Build and run the project's tests (the `tests/` directory).
    Test { cxx_standard: Option<u32> },
    /// Run clang-format on the project's sources.
    Fmt,
    /// Run clang-tidy on the project's sources.
    Tidy,
    /// Print version and detected toolchain information.
    Version,
}

/// The sanitizer that the flags select, in priority order: address, thread,
/// undefined, memory.
pub open spec fn pick_sanitizer(asan: bool, tsan: bool, ubsan: bool, msan: bool) -> Option<
    Seq<char>,
> {
    if asan {
        Some("address"@)
    } else if tsan {
        Some("thread"@)
    } else if ubsan {
        Some("undefined"@)
    } else if msan {
        Some("memory"@)
    } else {
        None
    }
}

/// The sanitizer a command selects; none for commands without sanitizer flags.
pub open spec fn sanitizer_for(cmd: Command) -> Option<Seq<char>> {
    match cmd {
        Command::Build { asan, tsan, ubsan, msan, .. } => pick_sanitizer(asan, tsan, ubsan, msan),
        Command::Run { asan, tsan, ubsan, msan, .. } => pick_sanitizer(asan, tsan, ubsan, msan),
        _ => None,
    }
}

/// The model of an optional static string.
pub open spec fn opt_static(s: Option<&'static str>) -> Option<Seq<char>> {
    match s {
        Some(s) => Some(s@),
        None => None,
    }
}

/// The sanitizer name for the set flags, in priority order.
fn pick(asan: bool, tsan: bool, ubsan: bool, msan: bool) -> (r: Option<&'static str>)
    ensures
        opt_static(r) == pick_sanitizer(asan, tsan, ubsan, msan),
{
    if asan {
        Some("address")
    } else if tsan {
        Some("thread")
    } else if ubsan {
        Some("undefined")
    } else if msan {
        Some("memory")
    } else {
        None
    }
}

impl Command {
    /// Return any sanitizer CLI flag that was set, in priority order.
    pub fn sanitizer_override(&self) -> (r: Option<&'static str>)
        ensures
            opt_static(r) == sanitizer_for(*self),
    {
        match self {
            Command::Build { asan, tsan, ubsan, msan, .. } => pick(*asan, *tsan, *ubsan, *msan),
            Command::Run { asan, tsan, ubsan, msan, .. } => pick(*asan, *tsan, *ubsan, *msan),
            _ => None,
        }
    }
}

/// A command routed to its handler, with the options the handler takes.
#[derive(Debug, Clone)]
pub enum Invocation {
    New { name: String, cmake: bool },
    Init { name: Option<String>, cmake: bool },
    Build(BuildOpts),
    Run(RunOpts),
    Check { cxx_standard: Option<u32> },
    Clean { force: bool },
    Test { cxx_standard: Option<u32> },
    Fmt,
    Tidy,
    Version,
}

/// The profile a `--release` flag selects.
pub open spec fn profile_for(release: bool) -> Option<Seq<char>> {
    if release {
        Some("release"@)
    } else {
        None
    }
}

/// `inv` is how `cmd` is routed: the same command with the same values, where
/// `--release` selects the release profile, `--pedantic` forces pedantic on
/// (its absence keeps the manifest's setting), and the sanitizer is the one
/// the flags select.
pub open spec fn dispatched(cmd: Command, inv: Invocation) -> bool {
    match cmd {
        Command::New { name, cmake } => inv matches Invocation::New { name: n, cmake: c } && n@
            == name@ && c == cmake,
        Command::Init { name, cmake } => inv matches Invocation::Init { name: n, cmake: c }
            && n.deep_view() == name.deep_view() && c == cmake,
        Command::Build { release, cxx_standard, backend, pedantic, .. } => inv matches Invocation::Build(
            o,
        ) && o.profile.deep_view() == profile_for(release) && o.cxx_standard == cxx_standard
            && o.backend.deep_view() == backend.deep_view() && o.sanitizer.deep_view()
            == sanitizer_for(cmd) && o.pedantic == (if pedantic {
            Some(true)
        } else {
            None::<bool>
        }),
        Command::Run { release, cxx_standard, backend, watch, args, .. } => inv matches Invocation::Run(
            o,
        ) && o.profile.deep_view() == profile_for(release) && o.cxx_standard == cxx_standard
            && o.backend.deep_view() == backend.deep_view() && o.sanitizer.deep_view()
            == sanitizer_for(cmd) && o.watch == watch && o.args.deep_view() == args.deep_view(),
        Command::Check { cxx_standard } => inv matches Invocation::Check { cxx_standard: c } && c
            == cxx_standard,
        Command::Clean { force } => inv matches Invocation::Clean { force: f } && f == force,
        Command::Test { cxx_standard } => inv matches Invocation::Test { cxx_standard: c } && c
            == cxx_standard,
        Command::Fmt => inv is Fmt,
        Command::Tidy => inv is Tidy,
        Command::Version => inv is Version,
    }
}

/// A copy of an optional string.
fn copy_opt(s: &Option<String>) -> (r: Option<String>)
    ensures
        r.deep_view() == s.deep_view(),
{
    match s {
        Some(s) => Some(s.clone()),
        None => None,
    }
}

/// An optional static string as an owned one.
fn own_opt(s: Option<&'static str>) -> (r: Option<String>)
    ensures
        r.deep_view() == opt_static(s),
{
    match s {
        Some(s) => Some(s.to_owned()),
        None => None,
    }
}

/// A copy of a list of strings.
fn copy_strings(v: &Vec<String>) -> (r: Vec<String>)
    ensures
        r.deep_view() == v.deep_view(),
{
    let mut r: Vec<String> = Vec::new();
    let mut i: usize = 0;
    assert(v.deep_view().take(0) =~= r.deep_view());
    while i < v.len()
        invariant
            i <= v.len(),
            r.deep_view() == v.deep_view().take(i as int),
        decreases v.len() - i,
    {
        crate::backend::push_string(&mut r, v[i].clone());
        assert(r.deep_view() =~= v.deep_view().take(i + 1));
        i = i + 1;
    }
    assert(v.deep_view().take(v.len() as int) =~= v.deep_view());
    r
}

/// Route a parsed command to its handler.
pub fn dispatch(cmd: &Command) -> (r: Invocation)
    ensures
        dispatched(*cmd, r),
{
    let sanitizer = own_opt(cmd.sanitizer_override());
    match cmd {
        Command::New { name, cmake } => Invocation::New { name: name.clone(), cmake: *cmake },
        Command::Init { name, cmake } => Invocation::Init { name: copy_opt(name), cmake: *cmake },
        Command::Build { release, cxx_standard, backend, pedantic, .. } => Invocation::Build(
            BuildOpts {
                profile: if *release {
                    Some("release".to_owned())
                } else {
                    None
                },
                cxx_standard: *cxx_standard,
                backend: copy_opt(backend),
                sanitizer,
                pedantic: if *pedantic {
                    Some(true)
                } else {
                    None
                },
            },
        ),
        Command::Run { release, cxx_standard, backend, watch, args, .. } => Invocation::Run(
            RunOpts {
                profile: if *release {
                    Some("release".to_owned())
                } else {
                    None
                },
                cxx_standard: *cxx_standard,
                backend: copy_opt(backend),
                sanitizer,
                watch: *watch,
                args: copy_strings(args),
            },
        ),
        Command::Check { cxx_standard } => Invocation::Check { cxx_standard: *cxx_standard },
        Command::Clean { force } => Invocation::Clean { force: *force },
        Command::Test { cxx_standard } => Invocation::Test { cxx_standard: *cxx_standard },
        Command::Fmt => Invocation::Fmt,
        Command::Tidy => Invocation::Tidy,
        Command::Version => Invocation::Version,
    }
}

/// The contextual hint printed after some errors.
pub open spec fn hint_spec(e: ErrorModel) -> Option<Seq<char>> {
    match e {
        ErrorModel::NotInProject => Some(
            "run `castle new <name>` to create one, or `cd` into a project"@,
        ),
        ErrorModel::NoCompileCommands => Some(
            "run `castle build` first so clang-tidy can use your flags"@,
        ),
        ErrorModel::ToolMissing { tool } => if tool == "cmake"@ {
            Some("or use the default clang backend: `castle build --backend clang`"@)
        } else {
            None
        },
        _ => None,
    }
}

/// A contextual hint for some errors (Cargo-style).
pub fn hint_for(e: &CastleError) -> (r: Option<&'static str>)
    ensures
        opt_static(r) == hint_spec(e@),
{
    match e {
        CastleError::NotInProject => Some(
            "run `castle new <name>` to create one, or `cd` into a project",
        ),
        CastleError::NoCompileCommands => Some(
            "run `castle build` first so clang-tidy can use your flags",
        ),
        CastleError::ToolMissing { tool } => {
            if str_eq(tool.as_str(), "cmake") {
                Some("or use the default clang backend: `castle build --backend clang`")
            } else {
                None
            }
        },
        _ => None,
    }
}

/// The process exit code for an error.
pub open spec fn exit_code_spec(e: ErrorModel) -> u8 {
    match e {
        ErrorModel::BackendFailed { code, .. } => if code < 1 {
            1
        } else if code > 255 {
            255
        } else {
            code as u8
        },
        _ => 1,
    }
}

/// Map an error to a process exit code: a failed backend step passes on its
/// own status, clamped to `1..=255`; every other error exits with 1.
pub fn exit_code_for(e: &CastleError) -> (r: u8)
    ensures
        r == exit_code_spec(e@),
        1 <= r,
{
    match e {
        CastleError::BackendFailed { code, .. } => {
            if *code < 1 {
                1
            } else if *code > 255 {
                255
            } else {
                *code as u8
            }
        },
        _ => 1,
    }
}

} // verus!
