//! `castle check`: a fast type/syntax check pass with `-fsyntax-only`, using
//! the same flags as `build` but without linking.

use vstd::prelude::*;
use crate::backend::{all_flags, concat_strings, pretty_rel, pretty_rel_spec, push_string, Flags, Step, StepModel};
use crate::error::{CastleError, ErrorModel};
use crate::path::{display, display_path, model, PathModel};
use crate::text::{decimal, push_decimal};

verus! {

/// The check of one translation unit.
pub open spec fn check_step_spec(root: PathModel, flags: crate::backend::FlagsModel, src: PathModel) -> StepModel {
    StepModel::Run {
        program: "clang++"@,
        args: all_flags(flags) + seq!["-fsyntax-only"@, display(src)],
        label: "check "@ + pretty_rel_spec(root, src),
    }
}

/// The syntax-only check of one translation unit.
pub fn check_step(root: &Vec<String>, flags: &Flags, src: &Vec<String>) -> (r: Step)
    ensures
        r@ == check_step_spec(model(root), flags@, model(src)),
{
    let mut tail: Vec<String> = Vec::new();
    push_string(&mut tail, "-fsyntax-only".to_owned());
    push_string(&mut tail, display_path(src));
    assert(tail.deep_view() =~= seq!["-fsyntax-only"@, display(model(src))]);
    let args = concat_strings(&flags.all(), &tail);
    let mut label = "check ".to_owned();
    label.append(pretty_rel(root, src).as_str());
    Step::Run { program: "clang++".to_owned(), args, label }
}

/// How a check ends: success with a count where nothing failed, otherwise a
/// failure naming how many sources failed.
pub open spec fn outcome_spec(total: nat, failed: nat) -> Result<Seq<char>, ErrorModel> {
    if failed == 0 {
        Ok(decimal(total) + " source(s) checked, no errors"@)
    } else {
        Err(
            ErrorModel::BackendFailed {
                label: "check ("@ + decimal(failed) + " source(s) failed)"@,
                code: 1,
            },
        )
    }
}

/// How a check of `total` sources, `failed` of which failed, ends.
pub fn outcome(total: usize, failed: usize) -> (r: Result<String, CastleError>)
    ensures
        match r {
            Ok(s) => outcome_spec(total as nat, failed as nat) == Ok::<Seq<char>, ErrorModel>(s@),
            Err(e) => outcome_spec(total as nat, failed as nat) == Err::<Seq<char>, ErrorModel>(e@),
        },
{
    if failed == 0 {
        let mut s = String::new();
        push_decimal(&mut s, total as u64);
        s.append(" source(s) checked, no errors");
        assert(s@ =~= decimal(total as nat) + " source(s) checked, no errors"@);
        Ok(s)
    } else {
        let mut label = "check (".to_owned();
        push_decimal(&mut label, failed as u64);
        label.append(" source(s) failed)");
        Err(CastleError::BackendFailed { label, code: 1 })
    }
}

} // verus!
