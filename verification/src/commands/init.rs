//! `castle init [name]`: scaffold a project in the current directory.

use vstd::prelude::*;
use crate::backend::{steps_model, Step, StepModel};
use crate::commands::common::{validate_name_spec, validate_project_name};
use crate::commands::new::{scaffold, scaffold_steps};
use crate::error::{CastleError, ErrorModel};
use crate::path::{child, component_is_normal, display, display_path, is_normal, model, PathModel};

verus! {

/// The project name: the one given, else the name of the current directory.
pub open spec fn init_name(cwd: PathModel, name: Option<Seq<char>>) -> Option<Seq<char>> {
    match name {
        Some(n) => Some(n),
        None => if cwd.len() > 0 && is_normal(cwd.last()) {
            Some(cwd.last())
        } else {
            None
        },
    }
}

/// What `castle init` does in `cwd`: a name must be given or derived and be
/// valid; an existing manifest or `CMakeLists.txt`, then an existing
/// `src/main.cpp`, is an existing project; otherwise the project is laid out
/// in `cwd` and its name returned.
pub open spec fn init_spec(
    cwd: PathModel,
    name: Option<Seq<char>>,
    has_marker: bool,
    has_main: bool,
    cmake: bool,
) -> Result<(Seq<char>, Seq<StepModel>), ErrorModel> {
    match init_name(cwd, name) {
        None => Err(
            ErrorModel::InvalidProjectName(
                "could not derive a project name from the current directory"@,
            ),
        ),
        Some(n) => match validate_name_spec(n) {
            Err(e) => Err(e),
            Ok(_) => if has_marker {
                Err(ErrorModel::ProjectExists(display(cwd)))
            } else if has_main {
                Err(ErrorModel::ProjectExists(display(cwd.push("src"@).push("main.cpp"@))))
            } else {
                Ok((n, scaffold_steps(cwd, n, cmake)))
            },
        },
    }
}

/// The model of an `init` result.
pub open spec fn init_result(r: Result<(String, Vec<Step>), CastleError>) -> Result<
    (Seq<char>, Seq<StepModel>),
    ErrorModel,
> {
    match r {
        Ok((n, v)) => Ok((n@, steps_model(v@))),
        Err(e) => Err(e@),
    }
}

/// Scaffold into `cwd`. `name` defaults to the current directory's name;
/// `has_marker` says whether `castle.toml` or `CMakeLists.txt` is there, and
/// `has_main` whether `src/main.cpp` is.
pub fn run(
    cwd: &Vec<String>,
    name: Option<&str>,
    has_marker: bool,
    has_main: bool,
    cmake: bool,
) -> (r: Result<(String, Vec<Step>), CastleError>)
    ensures
        init_result(r) == init_spec(
            model(cwd),
            match name {
                Some(n) => Some(n@),
                None => None,
            },
            has_marker,
            has_main,
            cmake,
        ),
{
    let n = cwd.len();
    let name: String = match name {
        Some(s) => s.to_owned(),
        None => {
            if n > 0 && component_is_normal(cwd[n - 1].as_str()) {
                cwd[n - 1].clone()
            } else {
                return Err(
                    CastleError::InvalidProjectName(
                        "could not derive a project name from the current directory".to_owned(),
                    ),
                );
            }
        },
    };
    validate_project_name(name.as_str())?;
    if has_marker {
        return Err(CastleError::ProjectExists(display_path(cwd)));
    }
    if has_main {
        let main = child(&child(cwd, "src"), "main.cpp");
        return Err(CastleError::ProjectExists(display_path(&main)));
    }
    let steps = scaffold(cwd, name.as_str(), cmake);
    Ok((name, steps))
}

} // verus!
