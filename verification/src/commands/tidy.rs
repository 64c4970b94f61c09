//! `castle tidy`: run `clang-tidy` over the project's sources with the flags
//! recorded in `compile_commands.json` at the root.

use vstd::prelude::*;
use crate::backend::{concat_strings, display_all, displayed, push_string, Step, StepModel};
use crate::path::{display, display_path, model, PathModel};
use crate::text::{decimal, push_decimal};

verus! {

/// The step that runs `clang-tidy -p <root>` over the sources.
pub open spec fn tidy_step_spec(root: PathModel, sources: Seq<PathModel>) -> StepModel {
    StepModel::Run {
        program: "clang-tidy"@,
        args: seq!["-p"@, display(root)] + displayed(sources),
        label: "clang-tidy "@ + decimal(sources.len()) + " source(s)"@,
    }
}

/// The step that runs `clang-tidy` over `sources` of the project at `root`.
pub fn tidy_step(root: &Vec<String>, sources: &Vec<Vec<String>>) -> (r: Step)
    ensures
        r@ == tidy_step_spec(model(root), sources.deep_view()),
{
    let mut head: Vec<String> = Vec::new();
    push_string(&mut head, "-p".to_owned());
    push_string(&mut head, display_path(root));
    assert(head.deep_view() =~= seq!["-p"@, display(model(root))]);
    let args = concat_strings(&head, &display_all(sources));
    let mut label = "clang-tidy ".to_owned();
    push_decimal(&mut label, sources.len() as u64);
    label.append(" source(s)");
    Step::Run { program: "clang-tidy".to_owned(), args, label }
}

} // verus!
