//! `castle run`: build, then run the built program (optionally on every
//! change under `src/`).

use vstd::prelude::*;
use crate::error::{CastleError, ErrorModel};
use crate::manifest::ManifestModel;
use crate::path::{display, display_path, first_marked, is_first_marked, model, none_marked};
use crate::project::{src_dir_of, Project};

verus! {

/// Run options lifted from the CLI.
#[derive(Debug, Clone)]
pub struct RunOpts {
    /// `Some("release")` for `--release`; the debug profile otherwise.
    pub profile: Option<String>,
    /// `--cxx-standard` override.
    pub cxx_standard: Option<u32>,
    /// `--backend` override.
    pub backend: Option<String>,
    /// The sanitizer chosen on the command line.
    pub sanitizer: Option<String>,
    /// Watch `src/` and rebuild/re-run on changes.
    pub watch: bool,
    /// Arguments passed through to the program.
    pub args: Vec<String>,
}

/// The name of the program to run: the manifest's package name, or `bin`
/// without a manifest.
pub open spec fn binary_name_spec(manifest: Option<ManifestModel>) -> Seq<char> {
    match manifest {
        Some(m) => m.package.name,
        None => "bin"@,
    }
}

/// The name of the program to run.
pub fn binary_name(project: &Project) -> (r: String)
    ensures
        r@ == binary_name_spec(project@.manifest),
{
    match &project.manifest {
        Some(m) => m.package.name.clone(),
        None => "bin".to_owned(),
    }
}

/// The built program: the first of the candidates (as `binary_candidates`
/// lists them) that is a file, `is_file[i]` telling whether the `i`th is;
/// where none is, the failure to locate it.
pub fn locate_binary(candidates: &Vec<Vec<String>>, is_file: &Vec<bool>) -> (r: Result<
    Vec<String>,
    CastleError,
>)
    ensures
        match r {
            Ok(p) => is_first_marked(candidates.deep_view(), is_file@, model(&p)),
            Err(e) => e@ == (ErrorModel::BackendFailed { label: "locate binary"@, code: 1 })
                && none_marked(candidates.deep_view(), is_file@),
        },
{
    match first_marked(candidates, is_file) {
        Some(p) => Ok(p),
        None => Err(CastleError::BackendFailed { label: "locate binary".to_owned(), code: 1 }),
    }
}

/// The directory `castle run --watch` watches: the project's `src/`, which
/// must be a directory (`src_is_dir`); where it is not, there are no sources.
pub fn watch_dir(project: &Project, src_is_dir: bool) -> (r: Result<Vec<String>, CastleError>)
    ensures
        match r {
            Ok(d) => src_is_dir && model(&d) == src_dir_of(model(&project.root)),
            Err(e) => !src_is_dir && e@ == (ErrorModel::NoSources {
                dir: display(src_dir_of(model(&project.root))),
            }),
        },
{
    let dir = project.src_dir();
    if src_is_dir {
        Ok(dir)
    } else {
        Err(CastleError::NoSources { dir: display_path(&dir) })
    }
}

/// Changes closer together than this many milliseconds trigger one rebuild.
pub const DEBOUNCE_MS: u64 = 150;

/// Whether a change seen `elapsed_ms` after the last accepted one triggers a
/// rebuild.
pub fn should_rebuild(elapsed_ms: u64) -> (r: bool)
    ensures
        r == (elapsed_ms >= DEBOUNCE_MS),
{
    elapsed_ms >= DEBOUNCE_MS
}

} // verus!
