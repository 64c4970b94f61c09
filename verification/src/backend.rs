//! Build backends and the compiler flags that both of them share.
//!
//! - [`Backend::Clang`] (default) drives `clang++` directly: one `-c` per
//!   translation unit into `build/`, then a final link.
//! - [`Backend::Cmake`] (opt-in) renders a `CMakeLists.txt` and drives `cmake`.
//!
//! Both derive their compiler flags from one [`Flags`] value. The library
//! computes the steps of a build; the front end runs them.

use vstd::prelude::*;
use crate::error::{CastleError, ErrorModel};
use crate::manifest::{Manifest, ManifestModel, Profile, ProfileModel};
use crate::path::{
    child, copy_path, display, display_path, join, join_path, model, parent, parent_path,
    set_extension, strip_path_prefix, strip_prefix, with_extension, PathModel,
};
use crate::project::{build_dir_of, Project, ProjectModel};
use crate::templates::{pairs_model, render, render_spec, CMAKE_LISTS};
use crate::text::{decimal, push_decimal, str_eq};

verus! {

/// Which backend to use for a given build.
#[derive(Debug, Clone, Copy, PartialEq, Eq, Structural)]
pub enum Backend {
    /// Drive `clang++` directly.
    Clang,
    /// Generate a CMake project and invoke `cmake`.
    Cmake,
}

/// What `Backend::parse` gives for a name.
pub open spec fn parse_backend(s: Seq<char>) -> Result<Backend, ErrorModel> {
    if s == "clang"@ {
        Ok(Backend::Clang)
    } else if s == "cmake"@ {
        Ok(Backend::Cmake)
    } else {
        Err(ErrorModel::InvalidValue { field: "backend"@, value: s })
    }
}

/// The backend chosen by: the CLI override, else the manifest's `backend`,
/// else clang.
pub open spec fn resolve_backend(
    manifest: Option<ManifestModel>,
    override_backend: Option<Seq<char>>,
) -> Result<Backend, ErrorModel> {
    match override_backend {
        Some(s) => parse_backend(s),
        None => match manifest {
            Some(m) => match m.backend {
                Some(s) => parse_backend(s),
                None => Ok(Backend::Clang),
            },
            None => Ok(Backend::Clang),
        },
    }
}

/// The model of an optional string slice.
pub open spec fn opt_str(s: Option<&str>) -> Option<Seq<char>> {
    match s {
        Some(s) => Some(s@),
        None => None,
    }
}

/// The model of an optional manifest reference.
pub open spec fn opt_manifest(m: Option<&Manifest>) -> Option<ManifestModel> {
    match m {
        Some(m) => Some(m@),
        None => None,
    }
}

impl Backend {
    /// Parse a backend name: `"clang"` or `"cmake"`; anything else is an
    /// invalid value for `backend`.
    pub fn parse(s: &str) -> (r: Result<Self, CastleError>)
        ensures
            crate::error::result_model(r) == parse_backend(s@),
    {
        if str_eq(s, "clang") {
            Ok(Backend::Clang)
        } else if str_eq(s, "cmake") {
            Ok(Backend::Cmake)
        } else {
            Err(CastleError::InvalidValue { field: "backend".to_owned(), value: s.to_owned() })
        }
    }

    /// Pick the backend from: explicit `override_backend` (CLI) > manifest
    /// `backend` field > default [`Backend::Clang`].
    pub fn resolve(manifest: Option<&Manifest>, override_backend: Option<&str>) -> (r: Result<
        Self,
        CastleError,
    >)
        ensures
            crate::error::result_model(r) == resolve_backend(
                opt_manifest(manifest),
                opt_str(override_backend),
            ),
    {
        if let Some(s) = override_backend {
            return Self::parse(s);
        }
        if let Some(m) = manifest {
            if let Some(s) = &m.backend {
                return Self::parse(s.as_str());
            }
        }
        Ok(Backend::Clang)
    }
}

/// The name a backend is shown by.
pub open spec fn backend_label_spec(b: Backend) -> Seq<char> {
    match b {
        Backend::Clang => "clang"@,
        Backend::Cmake => "cmake"@,
    }
}

/// The name a backend is shown by: `clang` or `cmake`.
pub fn backend_label(b: Backend) -> (r: &'static str)
    ensures
        r@ == backend_label_spec(b),
{
    match b {
        Backend::Clang => "clang",
        Backend::Cmake => "cmake",
    }
}

/// A normalized set of compiler flags derived from the manifest profile and
/// the CLI overrides. Shared by both backends so they stay in lockstep.
#[derive(Debug, Clone)]
pub struct Flags {
    /// `-std=c++NN`.
    pub std_flag: String,
    /// Optimization: `-O0`, `-O1`, `-O2`, `-O3`, `-Os`.
    pub opt_flag: String,
    /// `-g` when present.
    pub debug: bool,
    /// `-Wpedantic` when present.
    pub pedantic: bool,
    /// `-Werror` when present.
    pub werror: bool,
    /// Sanitizer flag, e.g. `-fsanitize=address`.
    pub sanitize: Option<String>,
}

/// Model of [`Flags`].
pub struct FlagsModel {
    pub std_flag: Seq<char>,
    pub opt_flag: Seq<char>,
    pub debug: bool,
    pub pedantic: bool,
    pub werror: bool,
    pub sanitize: Option<Seq<char>>,
}

impl View for Flags {
    type V = FlagsModel;

    open spec fn view(&self) -> FlagsModel {
        FlagsModel {
            std_flag: self.std_flag@,
            opt_flag: self.opt_flag@,
            debug: self.debug,
            pedantic: self.pedantic,
            werror: self.werror,
            sanitize: self.sanitize.deep_view(),
        }
    }
}

/// The optimization flag for a profile's `opt_level`; unknown levels give `-O0`.
pub open spec fn opt_flag_for(level: Seq<char>) -> Seq<char> {
    if level == "1"@ {
        "-O1"@
    } else if level == "2"@ {
        "-O2"@
    } else if level == "3"@ {
        "-O3"@
    } else if level == "s"@ {
        "-Os"@
    } else {
        "-O0"@
    }
}

/// The clang flag for a sanitizer name; an unknown name is passed on as is.
pub open spec fn sanitize_flag_for(name: Seq<char>) -> Seq<char> {
    if name == "address"@ {
        "-fsanitize=address"@
    } else if name == "thread"@ {
        "-fsanitize=thread"@
    } else if name == "undefined"@ {
        "-fsanitize=undefined"@
    } else if name == "memory"@ {
        "-fsanitize=memory"@
    } else {
        name
    }
}

/// The `-std=` flag for a standard number.
pub open spec fn std_flag_for(cxx_standard: u32) -> Seq<char> {
    "-std=c++"@ + decimal(cxx_standard as nat)
}

/// The flags that a profile, a standard and an optional CLI sanitizer give:
/// the CLI sanitizer wins over the profile's.
pub open spec fn flags_for(
    profile: ProfileModel,
    cxx_standard: u32,
    sanitizer_override: Option<Seq<char>>,
) -> FlagsModel {
    FlagsModel {
        std_flag: std_flag_for(cxx_standard),
        opt_flag: opt_flag_for(profile.opt_level),
        debug: profile.debug_info,
        pedantic: profile.pedantic,
        werror: profile.warnings_as_errors,
        sanitize: match sanitizer_override {
            Some(s) => Some(sanitize_flag_for(s)),
            None => match profile.sanitizer {
                Some(s) => Some(sanitize_flag_for(s)),
                None => None,
            },
        },
    }
}

/// The flat argument list of a set of flags: standard, optimization, `-g` if
/// debugging, `-Wall -Wextra`, then `-Wpedantic`, `-Werror` and the sanitizer
/// where set.
pub open spec fn all_flags(f: FlagsModel) -> Seq<Seq<char>> {
    seq![f.std_flag, f.opt_flag] + (if f.debug {
        seq!["-g"@]
    } else {
        Seq::empty()
    }) + seq!["-Wall"@, "-Wextra"@] + (if f.pedantic {
        seq!["-Wpedantic"@]
    } else {
        Seq::empty()
    }) + (if f.werror {
        seq!["-Werror"@]
    } else {
        Seq::empty()
    }) + match f.sanitize {
        Some(s) => seq![s],
        None => Seq::empty(),
    }
}

/// Map a sanitizer name to its clang flag.
pub fn sanitize_flag(name: &str) -> (r: String)
    ensures
        r@ == sanitize_flag_for(name@),
{
    if str_eq(name, "address") {
        "-fsanitize=address".to_owned()
    } else if str_eq(name, "thread") {
        "-fsanitize=thread".to_owned()
    } else if str_eq(name, "undefined") {
        "-fsanitize=undefined".to_owned()
    } else if str_eq(name, "memory") {
        "-fsanitize=memory".to_owned()
    } else {
        name.to_owned()
    }
}

/// The optimization flag for an `opt_level`.
fn opt_flag(level: &str) -> (r: String)
    ensures
        r@ == opt_flag_for(level@),
{
    if str_eq(level, "1") {
        "-O1".to_owned()
    } else if str_eq(level, "2") {
        "-O2".to_owned()
    } else if str_eq(level, "3") {
        "-O3".to_owned()
    } else if str_eq(level, "s") {
        "-Os".to_owned()
    } else {
        "-O0".to_owned()
    }
}

/// Pushes a string onto a list, extending the list's model.
pub fn push_string(v: &mut Vec<String>, s: String)
    ensures
        final(v).deep_view() == old(v).deep_view().push(s@),
{
    let ghost before = *v;
    v.push(s);
    assert(v.deep_view() =~= before.deep_view().push(s@));
}

impl Flags {
    /// Build flags from a manifest profile plus a target standard and an
    /// optional CLI sanitizer override.
    pub fn from(profile: &Profile, cxx_standard: u32, sanitizer_override: Option<&str>) -> (f:
        Self)
        ensures
            f@ == flags_for(profile@, cxx_standard, opt_str(sanitizer_override)),
    {
        let sanitize = match sanitizer_override {
            Some(s) => Some(sanitize_flag(s)),
            None => match &profile.sanitizer {
                Some(s) => Some(sanitize_flag(s.as_str())),
                None => None,
            },
        };
        let mut std_flag = "-std=c++".to_owned();
        push_decimal(&mut std_flag, cxx_standard as u64);
        Flags {
            std_flag,
            opt_flag: opt_flag(profile.opt_level.as_str()),
            debug: profile.debug_info,
            pedantic: profile.pedantic,
            werror: profile.warnings_as_errors,
            sanitize,
        }
    }

    /// All flags as a flat list suitable for `clang++`.
    pub fn all(&self) -> (v: Vec<String>)
        ensures
            v.deep_view() == all_flags(self@),
    {
        let mut v: Vec<String> = Vec::new();
        push_string(&mut v, self.std_flag.clone());
        push_string(&mut v, self.opt_flag.clone());
        if self.debug {
            push_string(&mut v, "-g".to_owned());
        }
        push_string(&mut v, "-Wall".to_owned());
        push_string(&mut v, "-Wextra".to_owned());
        if self.pedantic {
            push_string(&mut v, "-Wpedantic".to_owned());
        }
        if self.werror {
            push_string(&mut v, "-Werror".to_owned());
        }
        if let Some(s) = &self.sanitize {
            push_string(&mut v, s.clone());
        }
        assert(v.deep_view() =~= all_flags(self@));
        v
    }
}

/// `Path::join` then `set_extension("o")`: where the object file of a
/// translation unit goes: `src` relative to `root`, under `build`.
pub open spec fn object_path_spec(build: PathModel, root: PathModel, src: PathModel) -> PathModel {
    let rel = match strip_prefix(src, root) {
        Some(r) => r,
        None => src,
    };
    set_extension(join(build, rel), "o"@)
}

/// A path as shown in labels: relative to `root` where it lies under it.
pub open spec fn pretty_rel_spec(root: PathModel, p: PathModel) -> Seq<char> {
    match strip_prefix(p, root) {
        Some(r) => display(r),
        None => display(p),
    }
}

/// The output binary name: the manifest's package name where it is not
/// empty, `bin` otherwise.
pub open spec fn project_name_spec(manifest: Option<ManifestModel>) -> Seq<char> {
    match manifest {
        Some(m) => if m.package.name.len() > 0 {
            m.package.name
        } else {
            "bin"@
        },
        None => "bin"@,
    }
}

/// The object file of a translation unit.
pub fn object_path(build: &Vec<String>, root: &Vec<String>, src: &Vec<String>) -> (r: Vec<String>)
    ensures
        model(&r) == object_path_spec(model(build), model(root), model(src)),
{
    let rel = match strip_path_prefix(src, root) {
        Some(r) => r,
        None => copy_path(src),
    };
    let joined = join_path(build, &rel);
    with_extension(&joined, "o")
}

/// A path shown relative to `root` where it lies under it.
pub fn pretty_rel(root: &Vec<String>, p: &Vec<String>) -> (r: String)
    ensures
        r@ == pretty_rel_spec(model(root), model(p)),
{
    match strip_path_prefix(p, root) {
        Some(rel) => display_path(&rel),
        None => display_path(p),
    }
}

/// The output binary name of a project.
pub fn project_name(project: &Project) -> (r: String)
    ensures
        r@ == project_name_spec(project@.manifest),
{
    match &project.manifest {
        Some(m) => {
            if m.package.name.unicode_len() > 0 {
                m.package.name.clone()
            } else {
                "bin".to_owned()
            }
        },
        None => "bin".to_owned(),
    }
}

/// The places an executable is looked for after a build, in order:
/// `<build>/<name><exe>`, `<build>/bin`, `<build>/bin/<name><exe>`, and the
/// bare `<build>/<name>` and `<build>/bin/<name>`.
pub open spec fn binary_candidates_spec(build: PathModel, name: Seq<char>, exe_suffix: Seq<
    char,
>) -> Seq<PathModel> {
    let exe = name + exe_suffix;
    seq![
        build.push(exe),
        build.push("bin"@),
        build.push("bin"@).push(exe),
        build.push(name),
        build.push("bin"@).push(name),
    ]
}

/// The places where a built executable named `name` may be found, in the
/// order they are probed.
pub fn binary_candidates(project: &Project, name: &str, exe_suffix: &str) -> (r: Vec<Vec<String>>)
    ensures
        r.deep_view() == binary_candidates_spec(
            build_dir_of(model(&project.root)),
            name@,
            exe_suffix@,
        ),
{
    let build = project.build_dir();
    let mut exe = name.to_owned();
    exe.append(exe_suffix);
    let bin = child(&build, "bin");
    let mut r: Vec<Vec<String>> = Vec::new();
    crate::path::push_path(&mut r, child(&build, exe.as_str()));
    crate::path::push_path(&mut r, copy_path(&bin));
    crate::path::push_path(&mut r, child(&bin, exe.as_str()));
    crate::path::push_path(&mut r, child(&build, name));
    crate::path::push_path(&mut r, child(&bin, name));
    assert(r.deep_view() =~= binary_candidates_spec(
        build_dir_of(model(&project.root)),
        name@,
        exe_suffix@,
    ));
    r
}

/// One `compile_commands.json` entry.
#[derive(Debug, Clone)]
pub struct CompileEntry {
    /// The directory the command runs in (the project root).
    pub directory: String,
    /// The full compile command.
    pub command: String,
    /// The translation unit.
    pub file: String,
}

/// Model of a [`CompileEntry`].
pub struct CompileEntryModel {
    pub directory: Seq<char>,
    pub command: Seq<char>,
    pub file: Seq<char>,
}

impl View for CompileEntry {
    type V = CompileEntryModel;

    open spec fn view(&self) -> CompileEntryModel {
        CompileEntryModel {
            directory: self.directory@,
            command: self.command@,
            file: self.file@,
        }
    }
}

/// One thing a build does, in order.
#[derive(Debug, Clone)]
pub enum Step {
    /// Create a directory and its parents.
    CreateDir(Vec<String>),
    /// Run a program with arguments as a labeled step; a non-zero exit fails
    /// the build with that label.
    Run { program: String, args: Vec<String>, label: String },
    /// Write a text file.
    WriteFile { path: Vec<String>, contents: String },
    /// Write these entries as `compile_commands.json` to `path`.
    WriteCompileCommands { path: Vec<String>, entries: Vec<CompileEntry> },
    /// Replace `to` by a link to `from` (or a copy of it) and say so; where
    /// `from` is not a file, the build fails ([`mirror_outcome`]), so that
    /// every successful build leaves `compile_commands.json` at the root.
    MirrorCompileCommands { from: Vec<String>, to: Vec<String> },
    /// Print an informational message.
    Info(String),
}

/// Model of a [`Step`].
pub enum StepModel {
    CreateDir(PathModel),
    Run { program: Seq<char>, args: Seq<Seq<char>>, label: Seq<char> },
    WriteFile { path: PathModel, contents: Seq<char> },
    WriteCompileCommands { path: PathModel, entries: Seq<CompileEntryModel> },
    MirrorCompileCommands { from: PathModel, to: PathModel },
    Info(Seq<char>),
}

impl View for Step {
    type V = StepModel;

    open spec fn view(&self) -> StepModel {
        match self {
            Step::CreateDir(p) => StepModel::CreateDir(model(p)),
            Step::Run { program, args, label } => StepModel::Run {
                program: program@,
                args: args.deep_view(),
                label: label@,
            },
            Step::WriteFile { path, contents } => StepModel::WriteFile {
                path: model(path),
                contents: contents@,
            },
            Step::WriteCompileCommands { path, entries } => StepModel::WriteCompileCommands {
                path: model(path),
                entries: Seq::new(entries@.len(), |i: int| entries@[i]@),
            },
            Step::MirrorCompileCommands { from, to } => StepModel::MirrorCompileCommands {
                from: model(from),
                to: model(to),
            },
            Step::Info(s) => StepModel::Info(s@),
        }
    }
}

/// The model of a list of steps.
pub open spec fn steps_model(v: Seq<Step>) -> Seq<StepModel> {
    Seq::new(v.len(), |i: int| v[i]@)
}

/// Words joined by a separator.
pub open spec fn join_words(ws: Seq<Seq<char>>, sep: Seq<char>) -> Seq<char>
    decreases ws.len(),
{
    if ws.len() == 0 {
        Seq::empty()
    } else if ws.len() == 1 {
        ws[0]
    } else {
        join_words(ws.drop_last(), sep) + sep + ws.last()
    }
}

/// The compile step for one translation unit, after creating the directory
/// of its object file.
pub open spec fn compile_steps_for(root: PathModel, flags: FlagsModel, src: PathModel) -> Seq<
    StepModel,
> {
    let obj = object_path_spec(build_dir_of(root), root, src);
    (match parent(obj) {
        Some(d) => seq![StepModel::CreateDir(d)],
        None => Seq::empty(),
    }) + seq![
        StepModel::Run {
            program: "clang++"@,
            args: all_flags(flags) + seq!["-c"@, display(src), "-o"@, display(obj)],
            label: "clang compile "@ + pretty_rel_spec(root, src),
        },
    ]
}

/// The compile steps for the translation units, in order.
pub open spec fn compile_steps(root: PathModel, flags: FlagsModel, sources: Seq<PathModel>) -> Seq<
    StepModel,
>
    decreases sources.len(),
{
    if sources.len() == 0 {
        Seq::empty()
    } else {
        compile_steps(root, flags, sources.drop_last()) + compile_steps_for(
            root,
            flags,
            sources.last(),
        )
    }
}

/// The object files of the translation units, displayed.
pub open spec fn object_args(root: PathModel, sources: Seq<PathModel>) -> Seq<Seq<char>> {
    Seq::new(
        sources.len(),
        |i: int| display(object_path_spec(build_dir_of(root), root, sources[i])),
    )
}

/// The `compile_commands.json` entry of one translation unit.
pub open spec fn compile_entry_for(root: PathModel, flags: FlagsModel, src: PathModel) -> CompileEntryModel {
    CompileEntryModel {
        directory: display(root),
        command: "clang++ "@ + join_words(all_flags(flags), " "@) + " -c "@ + display(src) + " -o "@
            + display(object_path_spec(build_dir_of(root), root, src)),
        file: display(src),
    }
}

/// The steps of a clang build: create the build directory, compile each
/// translation unit, link `<build>/<name><exe>`, write
/// `compile_commands.json` at the root and say so.
pub open spec fn clang_steps(
    root: PathModel,
    name: Seq<char>,
    flags: FlagsModel,
    sources: Seq<PathModel>,
    exe_suffix: Seq<char>,
) -> Seq<StepModel> {
    let build = build_dir_of(root);
    let bin = build.push(name + exe_suffix);
    seq![StepModel::CreateDir(build)] + compile_steps(root, flags, sources) + seq![
        StepModel::Run {
            program: "clang++"@,
            args: all_flags(flags) + object_args(root, sources) + seq!["-o"@, display(bin)],
            label: "clang link "@ + pretty_rel_spec(root, bin),
        },
        StepModel::WriteCompileCommands {
            path: root.push("compile_commands.json"@),
            entries: Seq::new(sources.len(), |i: int| compile_entry_for(root, flags, sources[i])),
        },
        StepModel::Info("compile_commands.json refreshed at project root"@),
    ]
}

/// `s` without the prefix `p`, where `s` starts with it.
pub open spec fn strip_text_prefix(s: Seq<char>, p: Seq<char>) -> Option<Seq<char>> {
    if p.len() <= s.len() && s.take(p.len() as int) == p {
        Some(s.skip(p.len() as int))
    } else {
        None
    }
}

/// The standard number written in a `-std=c++NN` flag (`23` where the flag
/// has another form).
pub open spec fn standard_text(std_flag: Seq<char>) -> Seq<char> {
    match strip_text_prefix(std_flag, "-std=c++"@) {
        Some(s) => s,
        None => "23"@,
    }
}

/// The steps of a cmake build: render `CMakeLists.txt` at the root for the
/// project's name and standard, create the build directory, configure with
/// clang++, build, and mirror `compile_commands.json` to the root.
pub open spec fn cmake_steps(root: PathModel, name: Seq<char>, flags: FlagsModel) -> Seq<StepModel> {
    let build = build_dir_of(root);
    seq![
        StepModel::WriteFile {
            path: root.push("CMakeLists.txt"@),
            contents: render_spec(
                CMAKE_LISTS@,
                seq![("PROJECT_NAME"@, name), ("CXX_STANDARD"@, standard_text(flags.std_flag))],
            ),
        },
        StepModel::CreateDir(build),
        StepModel::Run {
            program: "cmake"@,
            args: seq!["-S"@, "."@, "-B"@, display(build), "-DCMAKE_CXX_COMPILER=clang++"@],
            label: "cmake configure"@,
        },
        StepModel::Run {
            program: "cmake"@,
            args: seq!["--build"@, display(build)],
            label: "cmake build"@,
        },
        StepModel::MirrorCompileCommands {
            from: build.push("compile_commands.json"@),
            to: root.push("compile_commands.json"@),
        },
    ]
}

/// What a build does: for cmake, a missing `cmake` is an error; otherwise the
/// steps of the chosen backend.
pub open spec fn build_spec(
    backend: Backend,
    project: ProjectModel,
    flags: FlagsModel,
    cmake_on_path: bool,
    sources: Seq<PathModel>,
    exe_suffix: Seq<char>,
) -> Result<Seq<StepModel>, ErrorModel> {
    match backend {
        Backend::Clang => Ok(
            clang_steps(
                project.root,
                project_name_spec(project.manifest),
                flags,
                sources,
                exe_suffix,
            ),
        ),
        Backend::Cmake => if !cmake_on_path {
            Err(ErrorModel::ToolMissing { tool: "cmake"@ })
        } else {
            Ok(cmake_steps(project.root, project_name_spec(project.manifest), flags))
        },
    }
}

/// The model of a list-of-steps result.
pub open spec fn steps_result(r: Result<Vec<Step>, CastleError>) -> Result<
    Seq<StepModel>,
    ErrorModel,
> {
    match r {
        Ok(v) => Ok(steps_model(v@)),
        Err(e) => Err(e@),
    }
}

/// How a labeled subprocess ends: success where it exited successfully;
/// otherwise a failure with the label and its exit code (1 where it has none,
/// as when it was stopped by a signal).
pub open spec fn exit_outcome_spec(label: Seq<char>, success: bool, code: Option<i32>) -> Result<
    (),
    ErrorModel,
> {
    if success {
        Ok(())
    } else {
        Err(
            ErrorModel::BackendFailed {
                label,
                code: match code {
                    Some(c) => c,
                    None => 1,
                },
            },
        )
    }
}

/// The result of a labeled subprocess that exited (`success`, with exit
/// `code` where there is one).
pub fn exit_outcome(label: &str, success: bool, code: Option<i32>) -> (r: Result<(), CastleError>)
    ensures
        crate::error::result_model(r) == exit_outcome_spec(label@, success, code),
{
    if success {
        Ok(())
    } else {
        let c = match code {
            Some(c) => c,
            None => 1,
        };
        Err(CastleError::BackendFailed { label: label.to_owned(), code: c })
    }
}

/// Whether the compile database a cmake build exported at `from` can be
/// mirrored: it must be a file (`from_is_file`); otherwise the build fails
/// naming where it was expected.
pub fn mirror_outcome(from: &Vec<String>, from_is_file: bool) -> (r: Result<(), CastleError>)
    ensures
        match r {
            Ok(()) => from_is_file,
            Err(e) => !from_is_file && e@ == (ErrorModel::CompileCommandsNotExported {
                path: display(model(from)),
            }),
        },
{
    if from_is_file {
        Ok(())
    } else {
        Err(CastleError::CompileCommandsNotExported { path: display_path(from) })
    }
}

/// Appends a step.
pub fn push_step(v: &mut Vec<Step>, s: Step)
    ensures
        steps_model(final(v)@) == steps_model(old(v)@).push(s@),
{
    let ghost before = v@;
    v.push(s);
    assert(steps_model(v@) =~= steps_model(before).push(s@));
}

/// Words joined by a separator.
pub fn join_strings(ws: &Vec<String>, sep: &str) -> (r: String)
    ensures
        r@ == join_words(ws.deep_view(), sep@),
{
    let mut out = String::new();
    let mut i: usize = 0;
    assert(ws.deep_view().take(0) =~= Seq::<Seq<char>>::empty());
    while i < ws.len()
        invariant
            i <= ws.len(),
            out@ == join_words(ws.deep_view().take(i as int), sep@),
        decreases ws.len() - i,
    {
        let ghost pre = ws.deep_view().take(i as int);
        let ghost post = ws.deep_view().take(i + 1);
        assert(post.drop_last() =~= pre);
        if i > 0 {
            out.append(sep);
        }
        out.append(ws[i].as_str());
        assert(post.last() == ws[i as int]@);
        if i == 0 {
            assert(out@ =~= post[0]);
        }
        i = i + 1;
    }
    assert(ws.deep_view().take(ws.len() as int) =~= ws.deep_view());
    out
}

/// A copy of a list of strings followed by more strings.
pub fn concat_strings(a: &Vec<String>, b: &Vec<String>) -> (r: Vec<String>)
    ensures
        r.deep_view() == a.deep_view() + b.deep_view(),
{
    let mut r: Vec<String> = Vec::new();
    let mut i: usize = 0;
    assert(r.deep_view() =~= a.deep_view().take(0));
    while i < a.len()
        invariant
            i <= a.len(),
            r.deep_view() == a.deep_view().take(i as int),
        decreases a.len() - i,
    {
        push_string(&mut r, a[i].clone());
        assert(r.deep_view() =~= a.deep_view().take(i + 1));
        i = i + 1;
    }
    let mut j: usize = 0;
    assert(a.deep_view().take(a.len() as int) =~= a.deep_view());
    assert(r.deep_view() =~= a.deep_view() + b.deep_view().take(0));
    while j < b.len()
        invariant
            j <= b.len(),
            r.deep_view() == a.deep_view() + b.deep_view().take(j as int),
        decreases b.len() - j,
    {
        push_string(&mut r, b[j].clone());
        assert(r.deep_view() =~= a.deep_view() + b.deep_view().take(j + 1));
        j = j + 1;
    }
    assert(b.deep_view().take(b.len() as int) =~= b.deep_view());
    r
}

/// The compile steps and `compile_commands.json` entry for one translation
/// unit, with its displayed object path.
fn compile_one(
    root: &Vec<String>,
    build: &Vec<String>,
    flags: &Flags,
    flag_args: &Vec<String>,
    flag_text: &String,
    src: &Vec<String>,
    steps: &mut Vec<Step>,
) -> (r: (String, CompileEntry))
    requires
        model(build) == build_dir_of(model(root)),
        flag_args.deep_view() == all_flags(flags@),
        flag_text@ == join_words(all_flags(flags@), " "@),
    ensures
        steps_model(final(steps)@) == steps_model(old(steps)@) + compile_steps_for(
            model(root),
            flags@,
            model(src),
        ),
        r.0@ == display(object_path_spec(build_dir_of(model(root)), model(root), model(src))),
        r.1@ == compile_entry_for(model(root), flags@, model(src)),
{
    let obj = object_path(build, root, src);
    let ghost before = steps_model(steps@);
    let ghost dir_steps = match parent(model(&obj)) {
        Some(d) => seq![StepModel::CreateDir(d)],
        None => Seq::<StepModel>::empty(),
    };
    match parent_path(&obj) {
        Some(d) => push_step(steps, Step::CreateDir(d)),
        None => {},
    }
    assert(steps_model(steps@) =~= before + dir_steps);
    let src_text = display_path(src);
    let obj_text = display_path(&obj);
    let mut tail: Vec<String> = Vec::new();
    push_string(&mut tail, "-c".to_owned());
    push_string(&mut tail, src_text.clone());
    push_string(&mut tail, "-o".to_owned());
    push_string(&mut tail, obj_text.clone());
    assert(tail.deep_view() =~= seq!["-c"@, display(model(src)), "-o"@, display(model(&obj))]);
    let args = concat_strings(flag_args, &tail);
    let mut label = "clang compile ".to_owned();
    let rel = pretty_rel(root, src);
    label.append(rel.as_str());
    let ghost run = StepModel::Run {
        program: "clang++"@,
        args: all_flags(flags@) + seq!["-c"@, display(model(src)), "-o"@, display(model(&obj))],
        label: "clang compile "@ + pretty_rel_spec(model(root), model(src)),
    };
    let step = Step::Run { program: "clang++".to_owned(), args, label };
    assert(step@ == run);
    push_step(steps, step);
    assert(steps_model(steps@) =~= before + compile_steps_for(model(root), flags@, model(src)));
    let mut command = "clang++ ".to_owned();
    command.append(flag_text.as_str());
    command.append(" -c ");
    command.append(src_text.as_str());
    command.append(" -o ");
    command.append(obj_text.as_str());
    let entry = CompileEntry { directory: display_path(root), command, file: src_text };
    assert(entry@.command =~= compile_entry_for(model(root), flags@, model(src)).command);
    (obj_text, entry)
}

/// Each path of a list, displayed.
pub open spec fn displayed(paths: Seq<PathModel>) -> Seq<Seq<char>> {
    Seq::new(paths.len(), |i: int| display(paths[i]))
}

/// Each path of a list, displayed.
pub fn display_all(paths: &Vec<Vec<String>>) -> (r: Vec<String>)
    ensures
        r.deep_view() == displayed(paths.deep_view()),
{
    let mut r: Vec<String> = Vec::new();
    let mut i: usize = 0;
    assert(r.deep_view() =~= displayed(paths.deep_view().take(0)));
    while i < paths.len()
        invariant
            i <= paths.len(),
            r.deep_view() == displayed(paths.deep_view().take(i as int)),
        decreases paths.len() - i,
    {
        push_string(&mut r, display_path(&paths[i]));
        assert(paths.deep_view()[i as int] == model(&paths[i as int]));
        assert(r.deep_view() =~= displayed(paths.deep_view().take(i + 1)));
        i = i + 1;
    }
    assert(paths.deep_view().take(paths.len() as int) =~= paths.deep_view());
    r
}

/// The model of a list of compile entries.
pub open spec fn entries_model(v: Seq<CompileEntry>) -> Seq<CompileEntryModel> {
    Seq::new(v.len(), |i: int| v[i]@)
}

/// The steps of a clang build of `project` from `sources`.
pub fn clang_plan(project: &Project, flags: &Flags, sources: &Vec<Vec<String>>, exe_suffix: &str) -> (r:
    Vec<Step>)
    ensures
        steps_model(r@) == clang_steps(
            model(&project.root),
            project_name_spec(project@.manifest),
            flags@,
            sources.deep_view(),
            exe_suffix@,
        ),
{
    let root = &project.root;
    let build = project.build_dir();
    let flag_args = flags.all();
    let flag_text = join_strings(&flag_args, " ");
    let mut steps: Vec<Step> = Vec::new();
    push_step(&mut steps, Step::CreateDir(copy_path(&build)));
    let ghost first = seq![StepModel::CreateDir(build_dir_of(model(root)))];
    assert(steps_model(steps@) =~= first);
    let mut objects: Vec<String> = Vec::new();
    let mut entries: Vec<CompileEntry> = Vec::new();
    let mut i: usize = 0;
    assert(sources.deep_view().take(0) =~= Seq::<PathModel>::empty());
    assert(objects.deep_view() =~= object_args(model(root), sources.deep_view().take(0)));
    assert(entries_model(entries@) =~= Seq::<CompileEntryModel>::empty());
    while i < sources.len()
        invariant
            i <= sources.len(),
            model(&build) == build_dir_of(model(root)),
            root == &project.root,
            flag_args.deep_view() == all_flags(flags@),
            flag_text@ == join_words(all_flags(flags@), " "@),
            first == seq![StepModel::CreateDir(build_dir_of(model(root)))],
            steps_model(steps@) == first + compile_steps(
                model(root),
                flags@,
                sources.deep_view().take(i as int),
            ),
            objects.deep_view() == object_args(model(root), sources.deep_view().take(i as int)),
            entries@.len() == i,
            entries_model(entries@) == Seq::new(
                i as nat,
                |k: int| compile_entry_for(model(root), flags@, sources.deep_view()[k]),
            ),
        decreases sources.len() - i,
    {
        let ghost pre = sources.deep_view().take(i as int);
        let ghost post = sources.deep_view().take(i + 1);
        assert(post.drop_last() =~= pre);
        assert(post.last() == model(&sources[i as int]));
        let (obj, entry) = compile_one(
            root,
            &build,
            flags,
            &flag_args,
            &flag_text,
            &sources[i],
            &mut steps,
        );
        assert(steps_model(steps@) =~= first + compile_steps(model(root), flags@, post));
        push_string(&mut objects, obj);
        assert(objects.deep_view() =~= object_args(model(root), post));
        let ghost before_entries = entries@;
        let ghost entry_model = entry@;
        entries.push(entry);
        assert(sources.deep_view()[i as int] == model(&sources[i as int]));
        assert(entries@ == before_entries.push(entries@[i as int]));
        assert(entries@[i as int]@ == entry_model);
        assert forall|k: int| 0 <= k < i + 1 implies entries_model(entries@)[k]
            == compile_entry_for(model(root), flags@, sources.deep_view()[k]) by {
            if k < i {
                assert(entries_model(before_entries)[k] == compile_entry_for(
                    model(root),
                    flags@,
                    sources.deep_view()[k],
                ));
                assert(entries@[k] == before_entries[k]);
            }
        }
        assert(entries_model(entries@) =~= Seq::new(
            (i + 1) as nat,
            |k: int| compile_entry_for(model(root), flags@, sources.deep_view()[k]),
        ));
        i = i + 1;
    }
    assert(sources.deep_view().take(sources.len() as int) =~= sources.deep_view());
    let name = project_name(project);
    let mut exe = name.clone();
    exe.append(exe_suffix);
    let bin = child(&build, exe.as_str());
    let ghost build_m = build_dir_of(model(root));
    let ghost bin_m = build_m.push(project_name_spec(project@.manifest) + exe_suffix@);
    assert(exe@ =~= project_name_spec(project@.manifest) + exe_suffix@);
    assert(model(&bin) == bin_m);
    let mut tail: Vec<String> = Vec::new();
    push_string(&mut tail, "-o".to_owned());
    push_string(&mut tail, display_path(&bin));
    assert(tail.deep_view() =~= seq!["-o"@, display(bin_m)]);
    let with_objects = concat_strings(&flag_args, &objects);
    let link_args = concat_strings(&with_objects, &tail);
    assert(link_args.deep_view() =~= all_flags(flags@) + object_args(model(root), sources.deep_view())
        + seq!["-o"@, display(bin_m)]);
    let mut label = "clang link ".to_owned();
    let rel = pretty_rel(root, &bin);
    label.append(rel.as_str());
    let ghost compiled = steps_model(steps@);
    push_step(&mut steps, Step::Run { program: "clang++".to_owned(), args: link_args, label });
    assert(entries_model(entries@) =~= Seq::new(
        sources.deep_view().len(),
        |k: int| compile_entry_for(model(root), flags@, sources.deep_view()[k]),
    ));
    let write = Step::WriteCompileCommands { path: child(root, "compile_commands.json"), entries };
    assert(write@ == StepModel::WriteCompileCommands {
        path: model(root).push("compile_commands.json"@),
        entries: Seq::new(
            sources.deep_view().len(),
            |k: int| compile_entry_for(model(root), flags@, sources.deep_view()[k]),
        ),
    });
    push_step(&mut steps, write);
    push_step(&mut steps, Step::Info("compile_commands.json refreshed at project root".to_owned()));
    assert(steps_model(steps@) =~= clang_steps(
        model(&project.root),
        project_name_spec(project@.manifest),
        flags@,
        sources.deep_view(),
        exe_suffix@,
    ));
    steps
}

/// The standard number written in a `-std=c++NN` flag.
fn standard_of(std_flag: &str) -> (r: String)
    ensures
        r@ == standard_text(std_flag@),
{
    let prefix = "-std=c++";
    proof {
        reveal_strlit("-std=c++");
    }
    let n = std_flag.unicode_len();
    if n >= 8 && str_eq(std_flag.substring_char(0, 8), prefix) {
        assert(std_flag@.subrange(0, 8) =~= std_flag@.take(8));
        let r = std_flag.substring_char(8, n).to_owned();
        assert(r@ =~= std_flag@.skip(8));
        r
    } else {
        proof {
            if 8 <= std_flag@.len() {
                assert(std_flag@.subrange(0, 8) =~= std_flag@.take(8));
            }
        }
        "23".to_owned()
    }
}

/// The steps of a cmake build of `project`.
pub fn cmake_plan(project: &Project, flags: &Flags) -> (r: Vec<Step>)
    ensures
        steps_model(r@) == cmake_steps(
            model(&project.root),
            project_name_spec(project@.manifest),
            flags@,
        ),
{
    let root = &project.root;
    let build = project.build_dir();
    let name = project_name(project);
    let cxx = standard_of(flags.std_flag.as_str());
    let pairs = [("PROJECT_NAME", name.as_str()), ("CXX_STANDARD", cxx.as_str())];
    let rendered = render(CMAKE_LISTS, &pairs);
    assert(pairs_model(&pairs) =~= seq![("PROJECT_NAME"@, name@), ("CXX_STANDARD"@, cxx@)]);
    let mut steps: Vec<Step> = Vec::new();
    push_step(
        &mut steps,
        Step::WriteFile { path: child(root, "CMakeLists.txt"), contents: rendered },
    );
    push_step(&mut steps, Step::CreateDir(copy_path(&build)));
    let mut configure: Vec<String> = Vec::new();
    push_string(&mut configure, "-S".to_owned());
    push_string(&mut configure, ".".to_owned());
    push_string(&mut configure, "-B".to_owned());
    push_string(&mut configure, display_path(&build));
    push_string(&mut configure, "-DCMAKE_CXX_COMPILER=clang++".to_owned());
    assert(configure.deep_view() =~= seq![
        "-S"@,
        "."@,
        "-B"@,
        display(build_dir_of(model(root))),
        "-DCMAKE_CXX_COMPILER=clang++"@,
    ]);
    push_step(
        &mut steps,
        Step::Run {
            program: "cmake".to_owned(),
            args: configure,
            label: "cmake configure".to_owned(),
        },
    );
    let mut make: Vec<String> = Vec::new();
    push_string(&mut make, "--build".to_owned());
    push_string(&mut make, display_path(&build));
    assert(make.deep_view() =~= seq!["--build"@, display(build_dir_of(model(root)))]);
    push_step(
        &mut steps,
        Step::Run { program: "cmake".to_owned(), args: make, label: "cmake build".to_owned() },
    );
    push_step(
        &mut steps,
        Step::MirrorCompileCommands {
            from: child(&build, "compile_commands.json"),
            to: child(root, "compile_commands.json"),
        },
    );
    assert(steps_model(steps@) =~= cmake_steps(
        model(&project.root),
        project_name_spec(project@.manifest),
        flags@,
    ));
    steps
}

impl Backend {
    /// The steps that build the project end to end with this backend.
    /// `cmake_on_path` says whether `cmake` was found; `sources` are the
    /// project's translation units (used by the clang backend); `exe_suffix`
    /// is the platform's executable suffix.
    pub fn build(
        self,
        project: &Project,
        flags: &Flags,
        cmake_on_path: bool,
        sources: &Vec<Vec<String>>,
        exe_suffix: &str,
    ) -> (r: Result<Vec<Step>, CastleError>)
        ensures
            steps_result(r) == build_spec(
                self,
                project@,
                flags@,
                cmake_on_path,
                sources.deep_view(),
                exe_suffix@,
            ),
    {
        match self {
            Backend::Clang => Ok(clang_plan(project, flags, sources, exe_suffix)),
            Backend::Cmake => {
                if !cmake_on_path {
                    return Err(CastleError::ToolMissing { tool: "cmake".to_owned() });
                }
                Ok(cmake_plan(project, flags))
            },
        }
    }
}

} // verus!
