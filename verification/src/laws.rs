//! Properties that hold across the library's functions, proved over the
//! specifications that those functions' contracts use.

use vstd::prelude::*;
use crate::backend::{
    all_flags, backend_label_spec, flags_for, object_path_spec, opt_flag_for, parse_backend,
    resolve_backend, sanitize_flag_for, std_flag_for, Backend, FlagsModel,
};
use crate::commands::build_cmd::{flag_standard, required_clang_spec};
use crate::commands::common::{
    base_profile, build_config, effective_standard, min_clang_spec, overlay_profile,
    with_pedantic,
};
use crate::commands::common::validate_name_spec;
use crate::commands::new::new_spec;
use crate::error::{message_spec, ErrorModel};
use crate::output::{color_rule, painted, Printer};
use crate::execution::{outcome_of, pending, run_with, ExecutionModel};
use crate::backend::{
    clang_steps, cmake_steps, compile_steps, compile_steps_for, join_words, pretty_rel_spec,
    StepModel,
};
use crate::commands::check::check_step_spec;
use crate::cli::exit_code_spec;
use crate::templates::CMAKE_LISTS;
use crate::commands::fmt::{fmt_step_spec, format_targets_spec};
use crate::commands::test::test_step_spec;
use crate::commands::tidy::tidy_step_spec;
use crate::commands::init::init_spec;
use crate::commands::new::scaffold_steps;
use crate::path::display;
use crate::project::build_dir_of;
use crate::manifest::{default_profile, ProfileModel};
use crate::path::{
    extension, file_extension, file_stem, is_absolute, is_normal, join, last_dot, parent,
    set_extension, strip_prefix, PathModel,
};
use crate::project::{ancestors, ProjectModel};
use crate::templates::{placeholder, render_spec};
use crate::text::{contains, decimal, lemma_parse_decimal, occurs_at, replace_all};
use crate::toolchain::require_clang_spec;

verus! {

/// A command-line value wins over the manifest: with `--cxx-standard N` the
/// flags target C++N, with `--backend B` the backend is the one `B` names,
/// and with a sanitizer flag the flags carry that sanitizer, whatever the
/// manifest says.
pub proof fn lemma_cli_overrides_manifest(
    project: ProjectModel,
    profile_cli: Option<Seq<char>>,
    cxx_override: Option<u32>,
    sanitizer_override: Option<Seq<char>>,
    pedantic_override: Option<bool>,
    backend_override: Option<Seq<char>>,
)
    ensures
        match build_config(
            project,
            profile_cli,
            cxx_override,
            sanitizer_override,
            pedantic_override,
            backend_override,
        ) {
            Ok((b, f)) => {
                &&& (cxx_override matches Some(n) ==> f.std_flag == std_flag_for(n))
                &&& (sanitizer_override matches Some(s) ==> f.sanitize == Some(
                    sanitize_flag_for(s),
                ))
                &&& (backend_override matches Some(s) ==> parse_backend(s) == Ok::<
                    Backend,
                    ErrorModel,
                >(b))
            },
            Err(_) => true,
        },
{
}

/// Without a manifest and without overrides, a build uses the clang backend
/// and the flags `-std=c++23 -O0 -g -Wall -Wextra -Wpedantic`.
pub proof fn lemma_defaults_without_manifest(root: PathModel)
    ensures
        build_config(ProjectModel { root, manifest: None }, None, None, None, None, None)
            matches Ok((b, f)) && b == Backend::Clang && all_flags(f) == seq![
            "-std=c++23"@,
            "-O0"@,
            "-g"@,
            "-Wall"@,
            "-Wextra"@,
            "-Wpedantic"@,
        ],
{
    reveal_strlit("-std=c++");
    reveal_strlit("-std=c++23");
    reveal_strlit("0");
    reveal_strlit("1");
    reveal_strlit("2");
    reveal_strlit("3");
    reveal_strlit("s");
    assert(decimal(2) == seq!['2']);
    assert(decimal(23) == decimal(2).push('3'));
    assert(std_flag_for(23) =~= "-std=c++23"@);
    let f = flags_for(default_profile(), 23, None);
    assert("0"@ != "1"@ && "0"@ != "2"@ && "0"@ != "3"@ && "0"@ != "s"@) by {
        assert("0"@[0] != "1"@[0] && "0"@[0] != "2"@[0] && "0"@[0] != "3"@[0] && "0"@[0]
            != "s"@[0]);
    }
    assert(f.opt_flag == "-O0"@);
    assert(all_flags(f) =~= seq![
        "-std=c++23"@,
        "-O0"@,
        "-g"@,
        "-Wall"@,
        "-Wextra"@,
        "-Wpedantic"@,
    ]);
}

/// `--release` builds with `-O2` and without debug info, whatever the
/// manifest's profile says.
pub proof fn lemma_release_profile(
    project: ProjectModel,
    cxx_override: Option<u32>,
    sanitizer_override: Option<Seq<char>>,
    pedantic_override: Option<bool>,
    backend_override: Option<Seq<char>>,
)
    ensures
        build_config(
            project,
            Some("release"@),
            cxx_override,
            sanitizer_override,
            pedantic_override,
            backend_override,
        ) matches Ok((_, f)) ==> f.opt_flag == "-O2"@ && !f.debug,
{
    reveal_strlit("1");
    reveal_strlit("2");
    reveal_strlit("release");
    assert("2"@ != "1"@) by {
        assert("2"@[0] != "1"@[0]);
    }
    assert(opt_flag_for("2"@) == "-O2"@);
}

/// Without a manifest, the debug profile is what a build gets anyway:
/// `--debug` changes nothing.
pub proof fn lemma_debug_is_default(
    root: PathModel,
    cxx_override: Option<u32>,
    sanitizer_override: Option<Seq<char>>,
    pedantic_override: Option<bool>,
    backend_override: Option<Seq<char>>,
)
    ensures
        build_config(
            ProjectModel { root, manifest: None },
            Some("debug"@),
            cxx_override,
            sanitizer_override,
            pedantic_override,
            backend_override,
        ) == build_config(
            ProjectModel { root, manifest: None },
            None,
            cxx_override,
            sanitizer_override,
            pedantic_override,
            backend_override,
        ),
{
    reveal_strlit("debug");
    reveal_strlit("release");
    let p = ProjectModel { root, manifest: None };
    assert("debug"@ != "release"@) by {
        assert("debug"@[0] != "release"@[0]);
    }
    assert(overlay_profile(base_profile(p), Some("debug"@)) == Some(default_profile()));
}

/// `--pedantic` forces `-Wpedantic` on; without it the manifest's setting
/// stands.
pub proof fn lemma_pedantic_override(
    project: ProjectModel,
    profile_cli: Option<Seq<char>>,
    cxx_override: Option<u32>,
    sanitizer_override: Option<Seq<char>>,
    backend_override: Option<Seq<char>>,
)
    ensures
        build_config(
            project,
            profile_cli,
            cxx_override,
            sanitizer_override,
            Some(true),
            backend_override,
        ) matches Ok((_, f)) ==> f.pedantic,
        build_config(project, profile_cli, cxx_override, sanitizer_override, None, backend_override)
            matches Ok((_, f)) ==> f.pedantic == base_profile(project).pedantic,
{
}

/// Both backends build with the same flags: the backend override changes
/// the backend and nothing else.
pub proof fn lemma_backend_does_not_change_flags(
    project: ProjectModel,
    profile_cli: Option<Seq<char>>,
    cxx_override: Option<u32>,
    sanitizer_override: Option<Seq<char>>,
    pedantic_override: Option<bool>,
    b1: Option<Seq<char>>,
    b2: Option<Seq<char>>,
)
    ensures
        build_config(project, profile_cli, cxx_override, sanitizer_override, pedantic_override, b1)
            matches Ok((_, f1)) ==> (build_config(
            project,
            profile_cli,
            cxx_override,
            sanitizer_override,
            pedantic_override,
            b2,
        ) matches Ok((_, f2)) ==> f1 == f2),
{
}

/// The CLI sanitizer flags (`--asan`, ...) are equivalent to the manifest's
/// `sanitizer` preset of the same name.
pub proof fn lemma_sanitizer_flag_matches_preset(profile: ProfileModel, cxx: u32, name: Seq<char>)
    ensures
        flags_for(
            ProfileModel {
                opt_level: profile.opt_level,
                debug_info: profile.debug_info,
                warnings_as_errors: profile.warnings_as_errors,
                pedantic: profile.pedantic,
                sanitizer: Some(name),
            },
            cxx,
            None,
        ) == flags_for(
            ProfileModel {
                opt_level: profile.opt_level,
                debug_info: profile.debug_info,
                warnings_as_errors: profile.warnings_as_errors,
                pedantic: profile.pedantic,
                sanitizer: None,
            },
            cxx,
            Some(name),
        ),
{
}

/// `castle new` with a valid name whose directory already exists refuses,
/// writes nothing, and says that the project already exists.
pub proof fn lemma_new_refuses_existing_directory(name: Seq<char>, cmake: bool)
    requires
        validate_name_spec(name) is Ok,
    ensures
        new_spec(name, true, cmake) == Err::<Seq<crate::backend::StepModel>, ErrorModel>(
            ErrorModel::ProjectExists(name),
        ),
        message_spec(ErrorModel::ProjectExists(name)) == "project already exists: "@ + name,
        contains(message_spec(ErrorModel::ProjectExists(name)), "already exists"@),
{
    let m = message_spec(ErrorModel::ProjectExists(name));
    reveal_strlit("project already exists: ");
    reveal_strlit("already exists");
    assert(m.subrange(8int, 22int) =~= "already exists"@);
    assert(occurs_at(m, "already exists"@, 8int));
}

/// When every step run so far succeeded, that many steps have run and the
/// run has not failed.
pub proof fn lemma_run_all_succeed(plan: Seq<StepModel>, outcomes: Seq<Result<(), ErrorModel>>)
    requires
        outcomes.len() <= plan.len(),
        forall|i: int| 0 <= i < outcomes.len() ==> #[trigger] outcomes[i] is Ok,
    ensures
        run_with(plan, outcomes) == (ExecutionModel { plan, next: outcomes.len(), failure: None }),
    decreases outcomes.len(),
{
    if outcomes.len() > 0 {
        let prefix = outcomes.drop_last();
        assert forall|i: int| 0 <= i < prefix.len() implies #[trigger] prefix[i] is Ok by {
            assert(prefix[i] == outcomes[i]);
        }
        lemma_run_all_succeed(plan, prefix);
        assert(outcomes[outcomes.len() - 1] is Ok);
    }
}

/// A run stops at the first step that fails: with the steps before step `k`
/// succeeding and step `k` failing, exactly `k` steps succeeded, the run
/// ends with step `k`'s error, and no later step runs, whatever outcomes
/// follow.
pub proof fn lemma_run_stops_at_first_failure(
    plan: Seq<StepModel>,
    outcomes: Seq<Result<(), ErrorModel>>,
    k: int,
)
    requires
        0 <= k < outcomes.len(),
        k < plan.len(),
        forall|j: int| 0 <= j < k ==> #[trigger] outcomes[j] is Ok,
        outcomes[k] is Err,
    ensures
        run_with(plan, outcomes) == (ExecutionModel {
            plan,
            next: k as nat,
            failure: Some(outcomes[k]->Err_0),
        }),
        !pending(run_with(plan, outcomes)),
        outcome_of(run_with(plan, outcomes)) == Err::<(), ErrorModel>(outcomes[k]->Err_0),
    decreases outcomes.len(),
{
    let prefix = outcomes.drop_last();
    if outcomes.len() == k + 1 {
        assert forall|i: int| 0 <= i < prefix.len() implies #[trigger] prefix[i] is Ok by {
            assert(prefix[i] == outcomes[i]);
        }
        lemma_run_all_succeed(plan, prefix);
    } else {
        assert forall|j: int| 0 <= j < k implies #[trigger] prefix[j] is Ok by {
            assert(prefix[j] == outcomes[j]);
        }
        assert(prefix[k] == outcomes[k]);
        lemma_run_stops_at_first_failure(plan, prefix, k);
    }
}

/// In a clang build, a compile that fails ends the build: the steps before
/// it succeeded, the build fails with that compile's error, and neither the
/// link nor the writing of `compile_commands.json` (the last steps of the
/// plan, after every compile) runs.
pub proof fn lemma_clang_build_stops_at_failed_compile(
    root: PathModel,
    name: Seq<char>,
    flags: FlagsModel,
    sources: Seq<PathModel>,
    exe_suffix: Seq<char>,
    outcomes: Seq<Result<(), ErrorModel>>,
    k: int,
)
    requires
        0 <= k < outcomes.len(),
        k < clang_steps(root, name, flags, sources, exe_suffix).len() - 3,
        forall|j: int| 0 <= j < k ==> #[trigger] outcomes[j] is Ok,
        outcomes[k] is Err,
    ensures
        ({
            let plan = clang_steps(root, name, flags, sources, exe_suffix);
            let r = run_with(plan, outcomes);
            &&& plan[plan.len() - 3] is Run
            &&& plan[plan.len() - 3]->label == "clang link "@ + pretty_rel_spec(
                root,
                build_dir_of(root).push(name + exe_suffix),
            )
            &&& plan[plan.len() - 2] is WriteCompileCommands
            &&& r.next == k && !pending(r)
            &&& outcome_of(r) == Err::<(), ErrorModel>(outcomes[k]->Err_0)
        }),
{
    let plan = clang_steps(root, name, flags, sources, exe_suffix);
    lemma_run_stops_at_first_failure(plan, outcomes, k);
}

/// A printer's color is decided once, when it is built for an environment:
/// every line it paints for a stream, whatever the message and codes, is
/// colored exactly when the environment it was built for allowed color on
/// that stream.
pub proof fn lemma_color_decided_when_built(
    p: Printer,
    no_color_set: bool,
    ci_set: bool,
    term: Option<Seq<char>>,
    stdout_is_terminal: bool,
    stderr_is_terminal: bool,
)
    requires
        p.color_stdout == color_rule(no_color_set, ci_set, term, stdout_is_terminal),
        p.color_stderr == color_rule(no_color_set, ci_set, term, stderr_is_terminal),
    ensures
        forall|err: bool, codes: Seq<Seq<char>>, msg: Seq<char>|
            #[trigger] painted(p.colors(err), codes, msg) == painted(
                color_rule(
                    no_color_set,
                    ci_set,
                    term,
                    if err {
                        stderr_is_terminal
                    } else {
                        stdout_is_terminal
                    },
                ),
                codes,
                msg,
            ),
{
}

/// A backend's name parses back to that backend.
pub proof fn lemma_backend_label_round_trip(b: Backend)
    ensures
        parse_backend(backend_label_spec(b)) == Ok::<Backend, ErrorModel>(b),
{
    reveal_strlit("clang");
    reveal_strlit("cmake");
    assert("cmake"@ != "clang"@) by {
        assert("cmake"@[1] != "clang"@[1]);
    }
}

/// The clang version a build requires is the minimum for the standard it
/// was configured with.
pub proof fn lemma_required_clang_matches_standard(
    profile: ProfileModel,
    cxx: u32,
    sanitizer_override: Option<Seq<char>>,
)
    ensures
        required_clang_spec(flags_for(profile, cxx, sanitizer_override)) == min_clang_spec(cxx),
{
    let f = flags_for(profile, cxx, sanitizer_override);
    lemma_parse_decimal(cxx);
    assert(f.std_flag.take(8) =~= "-std=c++"@) by {
        reveal_strlit("-std=c++");
    }
    assert(f.std_flag.skip(8) =~= decimal(cxx as nat)) by {
        reveal_strlit("-std=c++");
    }
    reveal_strlit("-std=c++");
    assert(flag_standard(f.std_flag) == cxx);
}

/// A clang accepted for a build is at least the required version.
pub proof fn lemma_accepted_clang_is_new_enough(
    detected: Result<(u32, Seq<char>), ErrorModel>,
    min_major: u32,
    clangxx_on_path: bool,
)
    ensures
        require_clang_spec(detected, min_major, clangxx_on_path) matches Ok((major, _)) ==> major
            >= min_major && clangxx_on_path,
{
}

/// Replacing a pattern that does not occur leaves the text as it is.
pub proof fn lemma_replace_absent(s: Seq<char>, p: Seq<char>, r: Seq<char>)
    requires
        !contains(s, p),
    ensures
        replace_all(s, p, r) == s,
    decreases s.len(),
{
    if p.len() > 0 && s.len() >= p.len() {
        if s.take(p.len() as int) == p {
            assert(occurs_at(s, p, 0));
        }
        assert forall|i: int| !occurs_at(s.skip(1), p, i) by {
            if occurs_at(s.skip(1), p, i) {
                assert(s.skip(1).subrange(i, i + p.len()) =~= s.subrange(i + 1, i + 1 + p.len()));
                assert(occurs_at(s, p, i + 1));
            }
        }
        lemma_replace_absent(s.skip(1), p, r);
        assert(seq![s[0]] + s.skip(1) =~= s);
    }
}

/// A template in which none of the keys' placeholders occurs renders to
/// itself.
pub proof fn lemma_render_without_placeholders(t: Seq<char>, pairs: Seq<(Seq<char>, Seq<char>)>)
    requires
        forall|i: int| 0 <= i < pairs.len() ==> !contains(t, placeholder(#[trigger] pairs[i].0)),
    ensures
        render_spec(t, pairs) == t,
    decreases pairs.len(),
{
    if pairs.len() > 0 {
        assert(!contains(t, placeholder(pairs[0].0)));
        lemma_replace_absent(t, placeholder(pairs[0].0), pairs[0].1);
        let rest = pairs.skip(1);
        assert forall|i: int| 0 <= i < rest.len() implies !contains(
            t,
            placeholder(#[trigger] rest[i].0),
        ) by {
            assert(rest[i] == pairs[i + 1]);
        }
        lemma_render_without_placeholders(t, rest);
    }
}

/// The last `.` of a name followed by one more `.` and text is that `.`.
proof fn lemma_last_dot_suffix(stem: Seq<char>, ext: Seq<char>)
    requires
        forall|i: int| 0 <= i < ext.len() ==> #[trigger] ext[i] != '.',
    ensures
        last_dot(stem + seq!['.'] + ext) == stem.len(),
    decreases ext.len(),
{
    let s = stem + seq!['.'] + ext;
    if ext.len() == 0 {
        assert(s.last() == '.');
    } else {
        assert(s.drop_last() =~= stem + seq!['.'] + ext.drop_last());
        assert(s.last() == ext.last());
        lemma_last_dot_suffix(stem, ext.drop_last());
    }
}

/// The object file of a source that lies under the project root lies under
/// the build directory, at the source's relative place, and has the `o`
/// extension.
pub proof fn lemma_object_path_shape(build: PathModel, root: PathModel, src: PathModel, rel: PathModel)
    requires
        strip_prefix(src, root) == Some(rel),
        rel.len() > 0,
        !is_absolute(rel),
        is_normal(rel.last()),
        file_stem(rel.last()).len() > 0,
    ensures
        object_path_spec(build, root, src) == (build + rel.drop_last()).push(
            file_stem(rel.last()) + ".o"@,
        ),
        extension(object_path_spec(build, root, src)) == Some("o"@),
{
    reveal_strlit("o");
    reveal_strlit(".o");
    let j = join(build, rel);
    assert(j == build + rel);
    assert(j.last() == rel.last());
    assert(j.drop_last() =~= build + rel.drop_last());
    let name = file_stem(rel.last()) + ".o"@;
    assert(name =~= file_stem(rel.last()) + seq!['.'] + "o"@);
    lemma_last_dot_suffix(file_stem(rel.last()), "o"@);
    let obj = object_path_spec(build, root, src);
    assert(obj.last() == name);
    assert(name.len() > 0);
    assert(is_normal(name)) by {
        reveal_strlit("/");
        reveal_strlit(".");
        reveal_strlit("..");
        assert(name[name.len() - 1] == 'o');
    }
    assert(name.skip(last_dot(name) + 1) =~= "o"@);
}

/// The directories searched for a project start at the working directory,
/// and each is the one before it without its last component.
pub proof fn lemma_ancestors_walk_up(p: PathModel)
    ensures
        ancestors(p).len() >= 1,
        ancestors(p)[0] == p,
        forall|i: int| 0 < i < ancestors(p).len() ==> parent(#[trigger] ancestors(p)[i - 1]) == Some(
            ancestors(p)[i],
        ),
        parent(ancestors(p).last()) is None,
    decreases p.len(),
{
    match parent(p) {
        Some(q) => {
            lemma_ancestors_walk_up(q);
            let a = ancestors(p);
            assert(a == seq![p] + ancestors(q));
            assert forall|i: int| 0 < i < a.len() implies parent(#[trigger] a[i - 1]) == Some(a[i]) by {
                if i == 1 {
                    assert(a[0] == p);
                    assert(a[1] == ancestors(q)[0]);
                } else {
                    assert(a[i - 1] == ancestors(q)[i - 2]);
                    assert(a[i] == ancestors(q)[i - 1]);
                }
            }
            assert(a.last() == ancestors(q).last());
        },
        None => {},
    }
}

/// For the documented optimisation levels `0`, `1`, `2`, `3` and `s`, the
/// optimisation flag is `-O` followed by the level; any other level falls
/// back to `-O0`.
pub proof fn lemma_opt_flag_follows_level(
    profile: ProfileModel,
    cxx: u32,
    sanitizer_override: Option<Seq<char>>,
)
    ensures
        ({
            let level = profile.opt_level;
            let f = flags_for(profile, cxx, sanitizer_override).opt_flag;
            &&& (level == "0"@ || level == "1"@ || level == "2"@ || level == "3"@ || level == "s"@)
                ==> f == "-O"@ + level
            &&& !(level == "0"@ || level == "1"@ || level == "2"@ || level == "3"@ || level
                == "s"@) ==> f == "-O0"@
        }),
{
    reveal_strlit("0");
    reveal_strlit("1");
    reveal_strlit("2");
    reveal_strlit("3");
    reveal_strlit("s");
    reveal_strlit("-O");
    reveal_strlit("-O0");
    reveal_strlit("-O1");
    reveal_strlit("-O2");
    reveal_strlit("-O3");
    reveal_strlit("-Os");
    let level = profile.opt_level;
    assert("0"@[0] != "1"@[0] && "0"@[0] != "2"@[0] && "0"@[0] != "3"@[0] && "0"@[0] != "s"@[0]);
    assert("1"@[0] != "2"@[0] && "1"@[0] != "3"@[0] && "1"@[0] != "s"@[0]);
    assert("2"@[0] != "3"@[0] && "2"@[0] != "s"@[0] && "3"@[0] != "s"@[0]);
    assert("-O"@ + "0"@ =~= "-O0"@);
    assert("-O"@ + "1"@ =~= "-O1"@);
    assert("-O"@ + "2"@ =~= "-O2"@);
    assert("-O"@ + "3"@ =~= "-O3"@);
    assert("-O"@ + "s"@ =~= "-Os"@);
}

/// Joining one more word appends the separator and the word.
proof fn lemma_join_push(ws: Seq<Seq<char>>, w: Seq<char>, sep: Seq<char>)
    requires
        ws.len() > 0,
    ensures
        join_words(ws.push(w), sep) == join_words(ws, sep) + sep + w,
{
    assert(ws.push(w).drop_last() =~= ws);
}

/// Some step of the compile steps of `sources` compiles the `i`th source
/// with the full flag list.
proof fn lemma_compile_step_present(
    root: PathModel,
    flags: FlagsModel,
    sources: Seq<PathModel>,
    i: int,
)
    requires
        0 <= i < sources.len(),
    ensures
        exists|j: int|
            0 <= j < compile_steps(root, flags, sources).len() && #[trigger] compile_steps(
                root,
                flags,
                sources,
            )[j] == (StepModel::Run {
                program: "clang++"@,
                args: all_flags(flags) + seq![
                    "-c"@,
                    display(sources[i]),
                    "-o"@,
                    display(object_path_spec(build_dir_of(root), root, sources[i])),
                ],
                label: "clang compile "@ + pretty_rel_spec(root, sources[i]),
            }),
    decreases sources.len(),
{
    let rest = sources.drop_last();
    let before = compile_steps(root, flags, rest);
    let last = compile_steps_for(root, flags, sources.last());
    assert(compile_steps(root, flags, sources) == before + last);
    if i == sources.len() - 1 {
        let j = before.len() + last.len() - 1;
        assert(compile_steps(root, flags, sources)[j] == last[last.len() - 1]);
    } else {
        assert(rest[i] == sources[i]);
        lemma_compile_step_present(root, flags, rest, i);
        let j = choose|j: int|
            0 <= j < before.len() && #[trigger] before[j] == (StepModel::Run {
                program: "clang++"@,
                args: all_flags(flags) + seq![
                    "-c"@,
                    display(rest[i]),
                    "-o"@,
                    display(object_path_spec(build_dir_of(root), root, rest[i])),
                ],
                label: "clang compile "@ + pretty_rel_spec(root, rest[i]),
            });
        assert(compile_steps(root, flags, sources)[j] == before[j]);
    }
}

/// In a clang build every source is compiled by `clang++` with the complete
/// build flag list before `-c <source> -o <object>`, and the command recorded
/// for that source in `compile_commands.json` (at the project root) is that
/// same command line.
pub proof fn lemma_clang_compiles_with_build_flags(
    root: PathModel,
    name: Seq<char>,
    flags: FlagsModel,
    sources: Seq<PathModel>,
    exe_suffix: Seq<char>,
    i: int,
)
    requires
        0 <= i < sources.len(),
    ensures
        ({
            let plan = clang_steps(root, name, flags, sources, exe_suffix);
            let obj = object_path_spec(build_dir_of(root), root, sources[i]);
            let args = all_flags(flags) + seq!["-c"@, display(sources[i]), "-o"@, display(obj)];
            &&& exists|j: int|
                0 <= j < plan.len() && #[trigger] plan[j] == (StepModel::Run {
                    program: "clang++"@,
                    args,
                    label: "clang compile "@ + pretty_rel_spec(root, sources[i]),
                })
            &&& plan[plan.len() - 2] matches StepModel::WriteCompileCommands { path, entries }
                && path == root.push("compile_commands.json"@) && entries.len() == sources.len()
                && entries[i].file == display(sources[i]) && entries[i].directory == display(root)
                && entries[i].command == "clang++ "@ + join_words(args, " "@)
        }),
{
    let plan = clang_steps(root, name, flags, sources, exe_suffix);
    let obj = object_path_spec(build_dir_of(root), root, sources[i]);
    let a = all_flags(flags);
    let args = a + seq!["-c"@, display(sources[i]), "-o"@, display(obj)];
    let cs = compile_steps(root, flags, sources);
    lemma_compile_step_present(root, flags, sources, i);
    let j = choose|j: int|
        0 <= j < cs.len() && #[trigger] cs[j] == (StepModel::Run {
            program: "clang++"@,
            args,
            label: "clang compile "@ + pretty_rel_spec(root, sources[i]),
        });
    assert(plan[j + 1] == cs[j]);
    assert(a.len() >= 4);
    let sp = " "@;
    lemma_join_push(a, "-c"@, sp);
    lemma_join_push(a.push("-c"@), display(sources[i]), sp);
    lemma_join_push(a.push("-c"@).push(display(sources[i])), "-o"@, sp);
    lemma_join_push(a.push("-c"@).push(display(sources[i])).push("-o"@), display(obj), sp);
    assert(args =~= a.push("-c"@).push(display(sources[i])).push("-o"@).push(display(obj)));
    reveal_strlit(" ");
    reveal_strlit(" -c ");
    reveal_strlit(" -o ");
    reveal_strlit("-c");
    reveal_strlit("-o");
    reveal_strlit("clang++ ");
    assert(join_words(args, sp) =~= join_words(a, sp) + " -c "@ + display(sources[i]) + " -o "@
        + display(obj));
}

/// The cmake backend configures cmake to build in `<root>/build` and then
/// mirrors the compile database cmake exports there
/// (`<root>/build/compile_commands.json`) to `<root>/compile_commands.json`,
/// as the last step of the build.
pub proof fn lemma_cmake_mirrors_exported_database(
    root: PathModel,
    name: Seq<char>,
    flags: FlagsModel,
)
    ensures
        ({
            let steps = cmake_steps(root, name, flags);
            let build = root.push("build"@);
            &&& steps[2] matches StepModel::Run { program, args, .. } && program == "cmake"@
                && args.len() >= 4 && args[2] == "-B"@ && args[3] == display(build)
            &&& steps.last() == (StepModel::MirrorCompileCommands {
                from: build.push("compile_commands.json"@),
                to: root.push("compile_commands.json"@),
            })
        }),
{
}

/// `castle check` checks each source with the build's complete flag list,
/// the same flags its build compile gets, followed by `-fsyntax-only` and
/// the source.
pub proof fn lemma_check_uses_build_flags(root: PathModel, flags: FlagsModel, src: PathModel)
    ensures
        ({
            let k = all_flags(flags).len();
            let compile = compile_steps_for(root, flags, src).last();
            let c = check_step_spec(root, flags, src);
            &&& c is Run
            &&& c->program == "clang++"@
            &&& c->args.len() == k + 2
            &&& c->args.take(k as int) == all_flags(flags)
            &&& c->args[k as int] == "-fsyntax-only"@
            &&& c->args[k as int + 1] == display(src)
            &&& compile is Run
            &&& compile->args.take(k as int) == c->args.take(k as int)
        }),
{
    let k = all_flags(flags).len();
    let c = check_step_spec(root, flags, src);
    let compile = compile_steps_for(root, flags, src).last();
    assert(c->args.take(k as int) =~= all_flags(flags));
    assert(compile->args.take(k as int) =~= all_flags(flags));
}

/// `castle init` with a name uses that name, whatever the current directory
/// is called: the name it returns and the project it lays out are those of
/// the given name. Only without a name does the directory's name serve.
pub proof fn lemma_init_uses_given_name(
    cwd: PathModel,
    n: Seq<char>,
    has_marker: bool,
    has_main: bool,
    cmake: bool,
)
    ensures
        init_spec(cwd, Some(n), has_marker, has_main, cmake) matches Ok((m, steps)) ==> m == n
            && steps == scaffold_steps(cwd, n, cmake),
        validate_name_spec(n) is Ok ==> init_spec(cwd, Some(n), false, false, cmake) == Ok::<
            (Seq<char>, Seq<StepModel>),
            ErrorModel,
        >((n, scaffold_steps(cwd, n, cmake))),
        init_spec(cwd, None, has_marker, has_main, cmake) matches Ok((m, _)) ==> cwd.len() > 0
            && m == cwd.last(),
{
}

/// A clang build starts by creating `<root>/build`, and its link step runs
/// `clang++` with the complete build flag list, then the object file of each
/// source in order, then `-o <root>/build/<name><exe>`.
pub proof fn lemma_clang_links_every_object(
    root: PathModel,
    name: Seq<char>,
    flags: FlagsModel,
    sources: Seq<PathModel>,
    exe_suffix: Seq<char>,
)
    ensures
        ({
            let plan = clang_steps(root, name, flags, sources, exe_suffix);
            let build = root.push("build"@);
            let k = all_flags(flags).len() as int;
            let n = sources.len() as int;
            let link = plan[plan.len() - 3];
            &&& plan[0] == StepModel::CreateDir(build)
            &&& link is Run
            &&& link->program == "clang++"@
            &&& link->args.len() == k + n + 2
            &&& link->args.take(k) == all_flags(flags)
            &&& forall|i: int|
                0 <= i < n ==> #[trigger] link->args[k + i] == display(
                    object_path_spec(build, root, sources[i]),
                )
            &&& link->args[k + n] == "-o"@
            &&& link->args[k + n + 1] == display(build.push(name + exe_suffix))
        }),
{
    let plan = clang_steps(root, name, flags, sources, exe_suffix);
    let k = all_flags(flags).len() as int;
    let link = plan[plan.len() - 3];
    assert(link->args.take(k) =~= all_flags(flags));
}

/// The flag list of a build: the `-std=c++N` flag of the standard first,
/// the optimisation flag second, then `-g` when the profile has debug info,
/// `-Wall` and `-Wextra`, `-Wpedantic` when pedantic, `-Werror` when warnings
/// are errors, and last the sanitizer flag (the CLI's, else the profile's)
/// when there is one; nothing else.
pub proof fn lemma_flag_list_shape(
    profile: ProfileModel,
    cxx: u32,
    sanitizer_override: Option<Seq<char>>,
)
    ensures
        ({
            let f = flags_for(profile, cxx, sanitizer_override);
            let a = all_flags(f);
            let d: int = if profile.debug_info { 1 } else { 0 };
            let p: int = if profile.pedantic { 1 } else { 0 };
            let w: int = if profile.warnings_as_errors { 1 } else { 0 };
            let san = match sanitizer_override {
                Some(s) => Some(s),
                None => profile.sanitizer,
            };
            let z: int = if san is Some { 1 } else { 0 };
            &&& a.len() == 4 + d + p + w + z
            &&& a[0] == "-std=c++"@ + decimal(cxx as nat)
            &&& a[1] == opt_flag_for(profile.opt_level)
            &&& profile.debug_info ==> a[2] == "-g"@
            &&& a[2 + d] == "-Wall"@
            &&& a[3 + d] == "-Wextra"@
            &&& profile.pedantic ==> a[4 + d] == "-Wpedantic"@
            &&& profile.warnings_as_errors ==> a[4 + d + p] == "-Werror"@
            &&& san matches Some(s) ==> a[4 + d + p + w] == sanitize_flag_for(s)
        }),
{
}

/// The sanitizer presets `address`, `thread`, `undefined` and `memory` map
/// to `-fsanitize=<name>`; any other name is passed to clang as it is.
pub proof fn lemma_sanitizer_presets(name: Seq<char>)
    ensures
        (name == "address"@ || name == "thread"@ || name == "undefined"@ || name == "memory"@)
            ==> sanitize_flag_for(name) == "-fsanitize="@ + name,
        !(name == "address"@ || name == "thread"@ || name == "undefined"@ || name == "memory"@)
            ==> sanitize_flag_for(name) == name,
{
    reveal_strlit("address");
    reveal_strlit("thread");
    reveal_strlit("undefined");
    reveal_strlit("memory");
    reveal_strlit("-fsanitize=");
    reveal_strlit("-fsanitize=address");
    reveal_strlit("-fsanitize=thread");
    reveal_strlit("-fsanitize=undefined");
    reveal_strlit("-fsanitize=memory");
    assert("address"@[0] != "thread"@[0] && "address"@[0] != "undefined"@[0] && "address"@[0]
        != "memory"@[0]);
    assert("thread"@[0] != "undefined"@[0] && "thread"@[0] != "memory"@[0] && "undefined"@[0]
        != "memory"@[0]);
    assert("-fsanitize="@ + "address"@ =~= "-fsanitize=address"@);
    assert("-fsanitize="@ + "thread"@ =~= "-fsanitize=thread"@);
    assert("-fsanitize="@ + "undefined"@ =~= "-fsanitize=undefined"@);
    assert("-fsanitize="@ + "memory"@ =~= "-fsanitize=memory"@);
}

/// `castle test` compiles and links with `clang++`: the complete build flag
/// list, then every test source in order, then `-o <bin>`.
pub proof fn lemma_test_step_shape(flags: FlagsModel, sources: Seq<PathModel>, bin: PathModel)
    ensures
        ({
            let t = test_step_spec(flags, sources, bin);
            let k = all_flags(flags).len() as int;
            let n = sources.len() as int;
            &&& t is Run
            &&& t->program == "clang++"@
            &&& t->args.len() == k + n + 2
            &&& t->args.take(k) == all_flags(flags)
            &&& forall|i: int| 0 <= i < n ==> #[trigger] t->args[k + i] == display(sources[i])
            &&& t->args[k + n] == "-o"@
            &&& t->args[k + n + 1] == display(bin)
        }),
{
    let t = test_step_spec(flags, sources, bin);
    let k = all_flags(flags).len() as int;
    assert(t->args.take(k) =~= all_flags(flags));
}

/// `castle tidy` runs `clang-tidy -p <root>` over every source in order.
pub proof fn lemma_tidy_step_shape(root: PathModel, sources: Seq<PathModel>)
    ensures
        ({
            let t = tidy_step_spec(root, sources);
            &&& t is Run
            &&& t->program == "clang-tidy"@
            &&& t->args.len() == sources.len() + 2
            &&& t->args[0] == "-p"@
            &&& t->args[1] == display(root)
            &&& forall|i: int|
                0 <= i < sources.len() ==> #[trigger] t->args[2 + i] == display(sources[i])
        }),
{
}

/// `castle fmt` runs `clang-format -i` over the given files in order.
pub proof fn lemma_fmt_step_shape(files: Seq<PathModel>)
    ensures
        ({
            let t = fmt_step_spec(files);
            &&& t is Run
            &&& t->program == "clang-format"@
            &&& t->args.len() == files.len() + 1
            &&& t->args[0] == "-i"@
            &&& forall|i: int| 0 <= i < files.len() ==> #[trigger] t->args[1 + i] == display(files[i])
        }),
{
}

/// The files `castle fmt` formats are exactly those of the found files whose
/// extension is `cpp`, `hpp` or `h`, in the order found.
pub proof fn lemma_format_targets_are_sources_and_headers(files: Seq<PathModel>)
    ensures
        forall|f: PathModel|
            format_targets_spec(files).contains(f) <==> (files.contains(f) && (extension(f) == Some(
                "cpp"@,
            ) || extension(f) == Some("hpp"@) || extension(f) == Some("h"@))),
        format_targets_spec(files).len() <= files.len(),
    decreases files.len(),
{
    if files.len() > 0 {
        let rest = files.drop_last();
        lemma_format_targets_are_sources_and_headers(rest);
        let last = files.last();
        assert forall|f: PathModel| files.contains(f) <==> (rest.contains(f) || f == last) by {
            if files.contains(f) {
                let i = choose|i: int| 0 <= i < files.len() && files[i] == f;
                if i < files.len() - 1 {
                    assert(rest[i] == f);
                }
            }
            if rest.contains(f) {
                let i = choose|i: int| 0 <= i < rest.len() && rest[i] == f;
                assert(files[i] == f);
            }
            if f == last {
                assert(files[files.len() - 1] == f);
            }
        }
        let r = format_targets_spec(rest);
        assert forall|f: PathModel| r.push(last).contains(f) <==> (r.contains(f) || f == last) by {
            if r.push(last).contains(f) {
                let i = choose|i: int| 0 <= i < r.push(last).len() && r.push(last)[i] == f;
                if i < r.len() {
                    assert(r[i] == f);
                }
            }
            if r.contains(f) {
                let i = choose|i: int| 0 <= i < r.len() && r[i] == f;
                assert(r.push(last)[i] == f);
            }
            if f == last {
                assert(r.push(last)[r.len() as int] == f);
            }
        }
    }
}

/// The cmake backend first writes `<root>/CMakeLists.txt`, rendered from
/// the CMake template with the project's name and the standard the build was
/// configured with.
pub proof fn lemma_cmake_lists_name_and_standard(
    root: PathModel,
    name: Seq<char>,
    profile: ProfileModel,
    cxx: u32,
    sanitizer_override: Option<Seq<char>>,
)
    ensures
        cmake_steps(root, name, flags_for(profile, cxx, sanitizer_override))[0] == (
        StepModel::WriteFile {
            path: root.push("CMakeLists.txt"@),
            contents: render_spec(
                CMAKE_LISTS@,
                seq![("PROJECT_NAME"@, name), ("CXX_STANDARD"@, decimal(cxx as nat))],
            ),
        }),
{
    let f = flags_for(profile, cxx, sanitizer_override);
    reveal_strlit("-std=c++");
    assert(f.std_flag.take(8) =~= "-std=c++"@);
    assert(f.std_flag.skip(8) =~= decimal(cxx as nat));
}

/// A failed step's exit status is the program's exit code, kept within
/// `1..=255`; every other error exits with 1.
pub proof fn lemma_exit_codes(e: ErrorModel)
    ensures
        e matches ErrorModel::BackendFailed { code, .. } ==> (1 <= code <= 255 ==> exit_code_spec(e)
            == code) && (code < 1 ==> exit_code_spec(e) == 1) && (code > 255 ==> exit_code_spec(e)
            == 255),
        !(e is BackendFailed) ==> exit_code_spec(e) == 1,
{
}

} // verus!
