//! Typed errors for Castle.
//!
//! Every failure that a Castle invocation can report is a [`CastleError`].
//! Paths are carried in their displayed form; [`CastleError::message`] gives
//! the human-readable message of each.

use vstd::prelude::*;
use crate::text::{decimal, push_char, push_decimal};

verus! {

/// All the ways a Castle invocation can fail.
#[derive(Debug, Clone)]
pub enum CastleError {
    /// `clang` was not found on `PATH`.
    ClangNotFound,
    /// The located clang is older than the minimum required for the target standard.
    ClangTooOld { found: u32, required: u32 },
    /// `clang --version` produced output that holds no version number.
    ClangVersionParse(String),
    /// No Castle project marker was found walking up the filesystem.
    NotInProject,
    /// `castle new`/`init` was pointed at an existing project (the path, displayed).
    ProjectExists(String),
    /// A project name failed validation.
    InvalidProjectName(String),
    /// No translation units were found where some were expected.
    NoSources { dir: String },
    /// A required external tool is missing from `PATH`.
    ToolMissing { tool: String },
    /// A build backend subprocess exited non-zero.
    BackendFailed { label: String, code: i32 },
    /// The manifest (`castle.toml`) could not be parsed.
    ManifestParse(String),
    /// An unknown value was supplied for a configuration option.
    InvalidValue { field: String, value: String },
    /// `castle tidy` was run before any build produced `compile_commands.json`.
    NoCompileCommands,
    /// A cmake build left no `compile_commands.json` (at this displayed path)
    /// to mirror to the project root.
    CompileCommandsNotExported { path: String },
    /// A filesystem watcher could not be established.
    Watch(String),
    /// `compile_commands.json` could not be serialized.
    Json(String),
    /// A plain I/O error, by its message.
    Io(String),
}

/// The mathematical model of a [`CastleError`]: its variant and the character
/// sequences of its fields.
pub enum ErrorModel {
    ClangNotFound,
    ClangTooOld { found: u32, required: u32 },
    ClangVersionParse(Seq<char>),
    NotInProject,
    ProjectExists(Seq<char>),
    InvalidProjectName(Seq<char>),
    NoSources { dir: Seq<char> },
    ToolMissing { tool: Seq<char> },
    BackendFailed { label: Seq<char>, code: i32 },
    ManifestParse(Seq<char>),
    InvalidValue { field: Seq<char>, value: Seq<char> },
    NoCompileCommands,
    CompileCommandsNotExported { path: Seq<char> },
    Watch(Seq<char>),
    Json(Seq<char>),
    Io(Seq<char>),
}

impl View for CastleError {
    type V = ErrorModel;

    open spec fn view(&self) -> ErrorModel {
        match self {
            CastleError::ClangNotFound => ErrorModel::ClangNotFound,
            CastleError::ClangTooOld { found, required } => ErrorModel::ClangTooOld {
                found: *found,
                required: *required,
            },
            CastleError::ClangVersionParse(s) => ErrorModel::ClangVersionParse(s@),
            CastleError::NotInProject => ErrorModel::NotInProject,
            CastleError::ProjectExists(s) => ErrorModel::ProjectExists(s@),
            CastleError::InvalidProjectName(s) => ErrorModel::InvalidProjectName(s@),
            CastleError::NoSources { dir } => ErrorModel::NoSources { dir: dir@ },
            CastleError::ToolMissing { tool } => ErrorModel::ToolMissing { tool: tool@ },
            CastleError::BackendFailed { label, code } => ErrorModel::BackendFailed {
                label: label@,
                code: *code,
            },
            CastleError::ManifestParse(s) => ErrorModel::ManifestParse(s@),
            CastleError::InvalidValue { field, value } => ErrorModel::InvalidValue {
                field: field@,
                value: value@,
            },
            CastleError::NoCompileCommands => ErrorModel::NoCompileCommands,
            CastleError::CompileCommandsNotExported { path } => {
                ErrorModel::CompileCommandsNotExported { path: path@ }
            },
            CastleError::Watch(s) => ErrorModel::Watch(s@),
            CastleError::Json(s) => ErrorModel::Json(s@),
            CastleError::Io(s) => ErrorModel::Io(s@),
        }
    }
}

/// An `i32` written in base ten, with a leading `-` when negative.
pub open spec fn signed_decimal(n: int) -> Seq<char> {
    if n < 0 {
        seq!['-'] + decimal((-n) as nat)
    } else {
        decimal(n as nat)
    }
}

/// The message an error is reported with.
pub open spec fn message_spec(e: ErrorModel) -> Seq<char> {
    match e {
        ErrorModel::ClangNotFound => "clang compiler not found on PATH"@,
        ErrorModel::ClangTooOld { found, required } => "clang "@ + decimal(found as nat)
            + " is too old; Castle requires clang "@ + decimal(required as nat) + " or newer"@,
        ErrorModel::ClangVersionParse(s) => "could not parse clang version from: "@ + s,
        ErrorModel::NotInProject => "not inside a Castle project (no castle.toml or CMakeLists.txt found)"@,
        ErrorModel::ProjectExists(p) => "project already exists: "@ + p,
        ErrorModel::InvalidProjectName(s) => "invalid project name: "@ + s,
        ErrorModel::NoSources { dir } => "no .cpp sources found under "@ + dir,
        ErrorModel::ToolMissing { tool } => "required tool not found on PATH: "@ + tool,
        ErrorModel::BackendFailed { label, code } => label + " exited with status "@
            + signed_decimal(code as int),
        ErrorModel::ManifestParse(s) => "failed to parse castle.toml: "@ + s,
        ErrorModel::InvalidValue { field, value } => "invalid value for "@ + field + ": "@
            + value,
        ErrorModel::NoCompileCommands => "no compile_commands.json found at project root"@,
        ErrorModel::CompileCommandsNotExported { path } => "cmake did not export compile_commands.json at "@
            + path,
        ErrorModel::Watch(s) => "file watcher error: "@ + s,
        ErrorModel::Json(s) => "failed to write compile_commands.json: "@ + s,
        ErrorModel::Io(s) => s,
    }
}

/// Appends an `i32` in base ten.
fn push_signed(out: &mut String, n: i32)
    ensures
        final(out)@ == old(out)@ + signed_decimal(n as int),
{
    if n < 0 {
        push_char(out, '-');
        let m: i64 = -(n as i64);
        push_decimal(out, m as u64);
        assert(final(out)@ =~= old(out)@ + signed_decimal(n as int));
    } else {
        push_decimal(out, n as u64);
    }
}

impl CastleError {
    /// The message this error is reported with.
    pub fn message(&self) -> (r: String)
        ensures
            r@ == message_spec(self@),
    {
        let mut s = String::new();
        match self {
            CastleError::ClangNotFound => s.append("clang compiler not found on PATH"),
            CastleError::ClangTooOld { found, required } => {
                s.append("clang ");
                push_decimal(&mut s, *found as u64);
                s.append(" is too old; Castle requires clang ");
                push_decimal(&mut s, *required as u64);
                s.append(" or newer");
            },
            CastleError::ClangVersionParse(t) => {
                s.append("could not parse clang version from: ");
                s.append(t.as_str());
            },
            CastleError::NotInProject => s.append(
                "not inside a Castle project (no castle.toml or CMakeLists.txt found)",
            ),
            CastleError::ProjectExists(p) => {
                s.append("project already exists: ");
                s.append(p.as_str());
            },
            CastleError::InvalidProjectName(t) => {
                s.append("invalid project name: ");
                s.append(t.as_str());
            },
            CastleError::NoSources { dir } => {
                s.append("no .cpp sources found under ");
                s.append(dir.as_str());
            },
            CastleError::ToolMissing { tool } => {
                s.append("required tool not found on PATH: ");
                s.append(tool.as_str());
            },
            CastleError::BackendFailed { label, code } => {
                s.append(label.as_str());
                s.append(" exited with status ");
                push_signed(&mut s, *code);
            },
            CastleError::ManifestParse(t) => {
                s.append("failed to parse castle.toml: ");
                s.append(t.as_str());
            },
            CastleError::InvalidValue { field, value } => {
                s.append("invalid value for ");
                s.append(field.as_str());
                s.append(": ");
                s.append(value.as_str());
            },
            CastleError::NoCompileCommands => s.append(
                "no compile_commands.json found at project root",
            ),
            CastleError::CompileCommandsNotExported { path } => {
                s.append("cmake did not export compile_commands.json at ");
                s.append(path.as_str());
            },
            CastleError::Watch(t) => {
                s.append("file watcher error: ");
                s.append(t.as_str());
            },
            CastleError::Json(t) => {
                s.append("failed to write compile_commands.json: ");
                s.append(t.as_str());
            },
            CastleError::Io(t) => s.append(t.as_str()),
        }
        s
    }
}

/// A result whose error is taken by its model.
pub open spec fn result_model<T>(r: Result<T, CastleError>) -> Result<T, ErrorModel> {
    match r {
        Ok(t) => Ok(t),
        Err(e) => Err(e@),
    }
}

} // verus!
