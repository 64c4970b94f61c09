//! `castle fmt`: run `clang-format -i` over the sources under `src/` and
//! `tests/`.

use vstd::prelude::*;
use crate::backend::{concat_strings, display_all, displayed, push_string, Step, StepModel};
use crate::path::{copy_path, extension, has_extension, push_path, PathModel};
use crate::text::{decimal, push_decimal};

verus! {

/// The files `clang-format` is run on: those ending in `.cpp`, `.hpp` or
/// `.h`, in the order found.
pub open spec fn format_targets_spec(files: Seq<PathModel>) -> Seq<PathModel>
    decreases files.len(),
{
    if files.len() == 0 {
        Seq::empty()
    } else {
        let rest = format_targets_spec(files.drop_last());
        let e = extension(files.last());
        if e == Some("cpp"@) || e == Some("hpp"@) || e == Some("h"@) {
            rest.push(files.last())
        } else {
            rest
        }
    }
}

/// The files among `files` that `clang-format` is run on.
pub fn format_targets(files: &Vec<Vec<String>>) -> (r: Vec<Vec<String>>)
    ensures
        r.deep_view() == format_targets_spec(files.deep_view()),
{
    let mut r: Vec<Vec<String>> = Vec::new();
    let mut i: usize = 0;
    assert(files.deep_view().take(0) =~= Seq::<PathModel>::empty());
    while i < files.len()
        invariant
            i <= files.len(),
            r.deep_view() == format_targets_spec(files.deep_view().take(i as int)),
        decreases files.len() - i,
    {
        let ghost post = files.deep_view().take(i + 1);
        assert(post.drop_last() =~= files.deep_view().take(i as int));
        assert(post.last() == crate::path::model(&files[i as int]));
        let f = &files[i];
        if has_extension(f, "cpp") || has_extension(f, "hpp") || has_extension(f, "h") {
            push_path(&mut r, copy_path(f));
        }
        i = i + 1;
    }
    assert(files.deep_view().take(files.len() as int) =~= files.deep_view());
    r
}

/// The step that formats `files` in place.
pub open spec fn fmt_step_spec(files: Seq<PathModel>) -> StepModel {
    StepModel::Run {
        program: "clang-format"@,
        args: seq!["-i"@] + displayed(files),
        label: "clang-format "@ + decimal(files.len()) + " file(s)"@,
    }
}

/// The step that formats `files` in place.
pub fn fmt_step(files: &Vec<Vec<String>>) -> (r: Step)
    ensures
        r@ == fmt_step_spec(files.deep_view()),
{
    let mut head: Vec<String> = Vec::new();
    push_string(&mut head, "-i".to_owned());
    assert(head.deep_view() =~= seq!["-i"@]);
    let args = concat_strings(&head, &display_all(files));
    let mut label = "clang-format ".to_owned();
    push_decimal(&mut label, files.len() as u64);
    label.append(" file(s)");
    Step::Run { program: "clang-format".to_owned(), args, label }
}

} // verus!
