//! `castle new <name>`: scaffold a project in a new directory.
//!
//! The library decides whether the project may be created and what files it
//! consists of; the front end checks the filesystem and writes the files.

use vstd::prelude::*;
use crate::backend::{push_step, steps_model, steps_result, Step, StepModel};
use crate::commands::common::{validate_name_spec, validate_project_name};
use crate::error::{CastleError, ErrorModel};
use crate::path::{child, display, model, PathModel};
use crate::templates::{
    pairs_model, render, render_spec, CASTLE_TOML, CLANGD, CLANG_FORMAT, CLANG_TIDY,
    CMAKE_LISTS, CPP_HELLO_WORLD, GITIGNORE, TEST_MAIN,
};
use crate::text::{replace_first, replace_first_str};

verus! {

/// The manifest written for a new project: the template rendered with the
/// project name, with its commented `backend` line switched on to `cmake` for
/// CMake projects.
pub open spec fn scaffold_manifest(name: Seq<char>, cmake: bool) -> Seq<char> {
    let text = render_spec(CASTLE_TOML@, seq![("PROJECT_NAME"@, name)]);
    if cmake {
        replace_first(text, "# backend = \"clang\""@, "backend = \"cmake\""@)
    } else {
        text
    }
}

/// The steps that lay out a project in `dir`: `src/` and `tests/`, the
/// sources, the tool configurations, the manifest, and for CMake projects a
/// `CMakeLists.txt` for C++23.
pub open spec fn scaffold_steps(dir: PathModel, name: Seq<char>, cmake: bool) -> Seq<StepModel> {
    seq![
        StepModel::CreateDir(dir.push("src"@)),
        StepModel::CreateDir(dir.push("tests"@)),
        StepModel::WriteFile {
            path: dir.push("src"@).push("main.cpp"@),
            contents: CPP_HELLO_WORLD@,
        },
        StepModel::WriteFile { path: dir.push("tests"@).push("main.cpp"@), contents: TEST_MAIN@ },
        StepModel::WriteFile { path: dir.push(".clangd"@), contents: CLANGD@ },
        StepModel::WriteFile { path: dir.push(".clang-format"@), contents: CLANG_FORMAT@ },
        StepModel::WriteFile { path: dir.push(".clang-tidy"@), contents: CLANG_TIDY@ },
        StepModel::WriteFile { path: dir.push(".gitignore"@), contents: GITIGNORE@ },
        StepModel::WriteFile {
            path: dir.push("castle.toml"@),
            contents: scaffold_manifest(name, cmake),
        },
    ] + if cmake {
        seq![
            StepModel::WriteFile {
                path: dir.push("CMakeLists.txt"@),
                contents: render_spec(
                    CMAKE_LISTS@,
                    seq![("PROJECT_NAME"@, name), ("CXX_STANDARD"@, "23"@)],
                ),
            },
        ]
    } else {
        Seq::empty()
    }
}

/// What `castle new <name>` does: reject an invalid name, then an existing
/// directory; otherwise lay the project out in `<name>/`.
pub open spec fn new_spec(name: Seq<char>, dir_exists: bool, cmake: bool) -> Result<
    Seq<StepModel>,
    ErrorModel,
> {
    match validate_name_spec(name) {
        Err(e) => Err(e),
        Ok(_) => if dir_exists {
            Err(ErrorModel::ProjectExists(name))
        } else {
            Ok(scaffold_steps(seq![name], name, cmake))
        },
    }
}

/// The text of the manifest for a new project.
fn manifest_text(name: &str, cmake: bool) -> (r: String)
    ensures
        r@ == scaffold_manifest(name@, cmake),
{
    let pairs = [("PROJECT_NAME", name)];
    let text = render(CASTLE_TOML, &pairs);
    assert(pairs_model(&pairs) =~= seq![("PROJECT_NAME"@, name@)]);
    if cmake {
        proof {
            reveal_strlit("# backend = \"clang\"");
        }
        replace_first_str(text.as_str(), "# backend = \"clang\"", "backend = \"cmake\"")
    } else {
        text
    }
}

/// Write the full project layout into `dir`. Shared by `new` and `init`.
pub fn scaffold(dir: &Vec<String>, name: &str, cmake: bool) -> (r: Vec<Step>)
    ensures
        steps_model(r@) == scaffold_steps(model(dir), name@, cmake),
{
    let src = child(dir, "src");
    let tests = child(dir, "tests");
    let mut steps: Vec<Step> = Vec::new();
    push_step(&mut steps, Step::CreateDir(crate::path::copy_path(&src)));
    push_step(&mut steps, Step::CreateDir(crate::path::copy_path(&tests)));
    push_step(
        &mut steps,
        Step::WriteFile { path: child(&src, "main.cpp"), contents: CPP_HELLO_WORLD.to_owned() },
    );
    push_step(
        &mut steps,
        Step::WriteFile { path: child(&tests, "main.cpp"), contents: TEST_MAIN.to_owned() },
    );
    push_step(&mut steps, Step::WriteFile { path: child(dir, ".clangd"), contents: CLANGD.to_owned() });
    push_step(
        &mut steps,
        Step::WriteFile { path: child(dir, ".clang-format"), contents: CLANG_FORMAT.to_owned() },
    );
    push_step(
        &mut steps,
        Step::WriteFile { path: child(dir, ".clang-tidy"), contents: CLANG_TIDY.to_owned() },
    );
    push_step(
        &mut steps,
        Step::WriteFile { path: child(dir, ".gitignore"), contents: GITIGNORE.to_owned() },
    );
    push_step(
        &mut steps,
        Step::WriteFile { path: child(dir, "castle.toml"), contents: manifest_text(name, cmake) },
    );
    if cmake {
        let pairs = [("PROJECT_NAME", name), ("CXX_STANDARD", "23")];
        let cmake_lists = render(CMAKE_LISTS, &pairs);
        assert(pairs_model(&pairs) =~= seq![("PROJECT_NAME"@, name@), ("CXX_STANDARD"@, "23"@)]);
        push_step(
            &mut steps,
            Step::WriteFile { path: child(dir, "CMakeLists.txt"), contents: cmake_lists },
        );
    }
    assert(steps_model(steps@) =~= scaffold_steps(model(dir), name@, cmake));
    steps
}

/// Scaffold a new project at `<name>/`; `dir_exists` says whether that
/// directory already exists.
pub fn run(name: &str, dir_exists: bool, cmake: bool) -> (r: Result<Vec<Step>, CastleError>)
    ensures
        steps_result(r) == new_spec(name@, dir_exists, cmake),
{
    validate_project_name(name)?;
    if dir_exists {
        return Err(CastleError::ProjectExists(name.to_owned()));
    }
    let mut dir: Vec<String> = Vec::new();
    crate::backend::push_string(&mut dir, name.to_owned());
    assert(model(&dir) =~= seq![name@]);
    Ok(scaffold(&dir, name, cmake))
}

} // verus!
