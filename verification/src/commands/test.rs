//! `castle test`: every `*.cpp` under `tests/` is compiled together into one
//! test binary (`build/castle_tests`), which is then run.

use vstd::prelude::*;
use crate::backend::{all_flags, concat_strings, display_all, displayed, push_string, Flags, Step, StepModel};
use crate::path::{child, display, display_path, model, sort_paths, sorted, PathModel};
use crate::project::{build_dir_of, cpp_files, with_ext, Project};
use crate::text::{decimal, push_decimal};

verus! {

/// The warning `castle test` gives when there is nothing to test: no
/// `tests/` directory, or no `.cpp` file in it; none where there is.
pub fn nothing_to_test(has_tests_dir: bool, n_sources: usize) -> (r: Option<&'static str>)
    ensures
        r matches Some(w) ==> (if !has_tests_dir {
            w@ == "no tests/ directory found \u{2014} nothing to test"@
        } else {
            w@ == "tests/ exists but contains no .cpp files \u{2014} nothing to test"@
        }),
        r is None <==> has_tests_dir && n_sources > 0,
{
    if !has_tests_dir {
        Some("no tests/ directory found \u{2014} nothing to test")
    } else if n_sources == 0 {
        Some("tests/ exists but contains no .cpp files \u{2014} nothing to test")
    } else {
        None
    }
}

/// The test sources among the files found under `tests/`: the `.cpp` files,
/// sorted.
pub fn test_sources(files: &Vec<Vec<String>>) -> (r: Vec<Vec<String>>)
    ensures
        r.deep_view().to_multiset() == with_ext(files.deep_view(), "cpp"@).to_multiset(),
        sorted(r.deep_view()),
{
    sort_paths(cpp_files(files, "cpp"))
}

/// The test binary: `<build>/castle_tests<exe>`.
pub open spec fn test_binary_spec(root: PathModel, exe_suffix: Seq<char>) -> PathModel {
    build_dir_of(root).push("castle_tests"@ + exe_suffix)
}

/// The test binary of a project.
pub fn test_binary(project: &Project, exe_suffix: &str) -> (r: Vec<String>)
    ensures
        model(&r) == test_binary_spec(model(&project.root), exe_suffix@),
{
    let mut name = "castle_tests".to_owned();
    name.append(exe_suffix);
    child(&project.build_dir(), name.as_str())
}

/// The step that compiles and links the test sources into the test binary.
pub open spec fn test_step_spec(
    flags: crate::backend::FlagsModel,
    sources: Seq<PathModel>,
    bin: PathModel,
) -> StepModel {
    StepModel::Run {
        program: "clang++"@,
        args: all_flags(flags) + displayed(sources) + seq!["-o"@, display(bin)],
        label: "compile+link "@ + decimal(sources.len()) + " test source(s)"@,
    }
}

/// The step that compiles and links `sources` into `bin`.
pub fn test_step(flags: &Flags, sources: &Vec<Vec<String>>, bin: &Vec<String>) -> (r: Step)
    ensures
        r@ == test_step_spec(flags@, sources.deep_view(), model(bin)),
{
    let with_sources = concat_strings(&flags.all(), &display_all(sources));
    let mut tail: Vec<String> = Vec::new();
    push_string(&mut tail, "-o".to_owned());
    push_string(&mut tail, display_path(bin));
    assert(tail.deep_view() =~= seq!["-o"@, display(model(bin))]);
    let args = concat_strings(&with_sources, &tail);
    assert(args.deep_view() =~= all_flags(flags@) + displayed(sources.deep_view()) + seq![
        "-o"@,
        display(model(bin)),
    ]);
    let mut label = "compile+link ".to_owned();
    push_decimal(&mut label, sources.len() as u64);
    label.append(" test source(s)");
    Step::Run { program: "clang++".to_owned(), args, label }
}

} // verus!
