use castle::backend::{exit_outcome, Step};
use castle::execution::Execution;
use castle::commands::clean::{clean_action, CleanAction, REFUSAL};
use castle::commands::new;
use castle::commands::run::locate_binary;
use castle::commands::test::nothing_to_test;
use castle::error::CastleError;
use castle::output::color_wanted;

fn path(parts: &[&str]) -> Vec<String> {
    parts.iter().map(|s| s.to_string()).collect()
}

#[test]
fn color_follows_environment_and_terminal() {
    assert!(color_wanted(false, false, None, true));
    assert!(color_wanted(false, false, Some("xterm-256color"), true));
    assert!(!color_wanted(true, false, None, true));
    assert!(!color_wanted(false, true, None, true));
    assert!(!color_wanted(false, false, Some("dumb"), true));
    assert!(!color_wanted(false, false, None, false));
    assert!(color_wanted(false, false, Some("dumber"), true));
}

#[test]
fn new_on_existing_directory_says_already_exists() {
    let err = new::run("dup", true, false).unwrap_err();
    assert!(matches!(&err, CastleError::ProjectExists(p) if p == "dup"));
    assert_eq!(err.message(), "project already exists: dup");
    assert!(err.message().contains("already exists"));
}

#[test]
fn error_messages() {
    assert_eq!(CastleError::ClangNotFound.message(), "clang compiler not found on PATH");
    assert_eq!(
        CastleError::ClangTooOld { found: 15, required: 18 }.message(),
        "clang 15 is too old; Castle requires clang 18 or newer"
    );
    assert_eq!(
        CastleError::NotInProject.message(),
        "not inside a Castle project (no castle.toml or CMakeLists.txt found)"
    );
    assert_eq!(
        CastleError::BackendFailed { label: "tests".into(), code: 3 }.message(),
        "tests exited with status 3"
    );
    assert_eq!(
        CastleError::BackendFailed { label: "program".into(), code: -11 }.message(),
        "program exited with status -11"
    );
    assert_eq!(
        CastleError::BackendFailed { label: "x".into(), code: i32::MIN }.message(),
        "x exited with status -2147483648"
    );
    assert_eq!(
        CastleError::InvalidValue { field: "backend".into(), value: "ninja".into() }.message(),
        "invalid value for backend: ninja"
    );
    assert_eq!(
        CastleError::ToolMissing { tool: "cmake".into() }.message(),
        "required tool not found on PATH: cmake"
    );
    assert_eq!(CastleError::NoSources { dir: "p/src".into() }.message(), "no .cpp sources found under p/src");
    assert_eq!(CastleError::Io("denied".into()).message(), "denied");
    assert_eq!(
        CastleError::Json("bad".into()).message(),
        "failed to write compile_commands.json: bad"
    );
    assert_eq!(
        CastleError::NoCompileCommands.message(),
        "no compile_commands.json found at project root"
    );
}

#[test]
fn clean_decides_before_asking() {
    assert_eq!(clean_action(true, false), CleanAction::Remove);
    assert_eq!(clean_action(true, true), CleanAction::Remove);
    assert_eq!(clean_action(false, false), CleanAction::Refuse);
    assert_eq!(clean_action(false, true), CleanAction::Ask);
    assert_eq!(REFUSAL, "refusing to clean in a non-interactive context without --force");
}

#[test]
fn nothing_to_test_warnings() {
    assert_eq!(nothing_to_test(false, 0), Some("no tests/ directory found \u{2014} nothing to test"));
    assert_eq!(
        nothing_to_test(true, 0),
        Some("tests/ exists but contains no .cpp files \u{2014} nothing to test")
    );
    assert_eq!(nothing_to_test(true, 2), None);
}

#[test]
fn exit_outcomes() {
    assert!(exit_outcome("tests", true, Some(0)).is_ok());
    let e = exit_outcome("tests", false, Some(4)).unwrap_err();
    assert!(matches!(e, CastleError::BackendFailed { ref label, code: 4 } if label == "tests"));
    let e = exit_outcome("program", false, None).unwrap_err();
    assert!(matches!(e, CastleError::BackendFailed { ref label, code: 1 } if label == "program"));
}

#[test]
fn locating_the_built_binary() {
    let cands = vec![path(&["b", "demo"]), path(&["b", "bin"]), path(&["b", "bin", "demo"])];
    assert_eq!(locate_binary(&cands, &vec![false, true, true]).unwrap(), path(&["b", "bin"]));
    assert_eq!(locate_binary(&cands, &vec![true, false, false]).unwrap(), path(&["b", "demo"]));
    let e = locate_binary(&cands, &vec![false, false, false]).unwrap_err();
    assert!(matches!(e, CastleError::BackendFailed { ref label, code: 1 } if label == "locate binary"));
    assert!(locate_binary(&cands, &vec![]).is_err());
}

#[test]
fn printer_for_environment() {
    let p = castle::output::Printer::for_environment(false, false, Some("xterm"), true, false);
    assert!(p.color_stdout && !p.color_stderr);
    let q = castle::output::Printer::for_environment(false, true, None, true, true);
    assert!(!q.color_stdout && !q.color_stderr);
    assert_eq!(q.info_line("hi"), "Castle: hi");
}

#[test]
fn execution_stops_at_first_failure() {
    let plan = vec![
        Step::Info("a".into()),
        Step::Info("b".into()),
        Step::Info("c".into()),
    ];
    let mut run = Execution::new(plan);
    let mut seen = Vec::new();
    let mut outcomes = vec![Ok(()), Err(CastleError::BackendFailed { label: "b".into(), code: 2 }), Ok(())]
        .into_iter();
    while let Some(step) = run.next_step() {
        if let Step::Info(m) = step {
            seen.push(m.clone());
        }
        run.record(outcomes.next().unwrap());
    }
    assert_eq!(seen, vec!["a".to_string(), "b".to_string()]);
    let e = run.finish().unwrap_err();
    assert!(matches!(e, CastleError::BackendFailed { ref label, code: 2 } if label == "b"));
}

#[test]
fn execution_runs_every_step_when_all_succeed() {
    let mut run = Execution::new(vec![Step::Info("a".into()), Step::Info("b".into())]);
    let mut count = 0;
    while run.next_step().is_some() {
        count += 1;
        run.record(Ok(()));
    }
    assert_eq!(count, 2);
    assert!(run.finish().is_ok());
    assert!(Execution::new(Vec::new()).next_step().is_none());
}

#[test]
fn nearest_marked_directory_is_the_root() {
    let cwd = path(&["/", "home", "u", "proj", "src"]);
    assert_eq!(
        castle::project::locate_root(&cwd, &vec![false, true, false, true, false]),
        Some(path(&["/", "home", "u", "proj"]))
    );
    assert_eq!(castle::project::locate_root(&cwd, &vec![false; 5]), None);
    assert_eq!(castle::project::locate_root(&cwd, &vec![true]), Some(cwd.clone()));
}

#[test]
fn watch_needs_a_src_directory() {
    let project = castle::project::Project { root: path(&["/", "p"]), manifest: None };
    assert_eq!(castle::commands::run::watch_dir(&project, true).unwrap(), path(&["/", "p", "src"]));
    let e = castle::commands::run::watch_dir(&project, false).unwrap_err();
    assert!(matches!(e, CastleError::NoSources { ref dir } if dir == "/p/src"));
    assert_eq!(e.message(), "no .cpp sources found under /p/src");
}

#[test]
fn mirroring_needs_an_exported_database() {
    let from = path(&["/", "p", "build", "compile_commands.json"]);
    assert!(castle::backend::mirror_outcome(&from, true).is_ok());
    let e = castle::backend::mirror_outcome(&from, false).unwrap_err();
    assert_eq!(
        e.message(),
        "cmake did not export compile_commands.json at /p/build/compile_commands.json"
    );
}
