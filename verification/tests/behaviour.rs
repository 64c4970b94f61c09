use castle::backend::{
    binary_candidates, object_path, pretty_rel, project_name, Backend, Flags, Step,
};
use castle::cli::{dispatch, exit_code_for, hint_for, Command, Invocation};
use castle::commands::build_cmd::{required_clang, summary, wants_ccache_hint};
use castle::commands::check::{check_step, outcome};
use castle::commands::clean::confirms;
use castle::commands::common::resolve_build_config;
use castle::commands::fmt::{fmt_step, format_targets};
use castle::commands::run::{binary_name, should_rebuild};
use castle::commands::test::{test_binary, test_sources, test_step};
use castle::commands::tidy::tidy_step;
use castle::commands::version::version_tools;
use castle::error::CastleError;
use castle::manifest::{Manifest, Package, Profile};
use castle::output::{Printer, BOLD, GREEN, RESET};
use castle::path::{display_path, sort_paths, with_extension};
use castle::project::{candidate_roots, Project};
use castle::text::{parse_u32, replace_all_str, replace_first_str, trim, u32_to_string};
use castle::toolchain::{clang_info_from_output, parse_major, require_clang, ClangInfo};

fn path(parts: &[&str]) -> Vec<String> {
    parts.iter().map(|s| s.to_string()).collect()
}

fn project(manifest: Option<Manifest>) -> Project {
    Project { root: path(&["/", "work", "demo"]), manifest }
}

fn manifest_with(profile: Profile, cxx: u32, backend: Option<&str>) -> Manifest {
    Manifest {
        package: Package { name: "demo".to_string(), version: "0.1.0".to_string(), cxx_standard: cxx },
        profile,
        backend: backend.map(|s| s.to_string()),
    }
}

fn run_args(step: &Step) -> (String, Vec<String>, String) {
    match step {
        Step::Run { program, args, label } => (program.clone(), args.clone(), label.clone()),
        other => panic!("expected a run step, got {other:?}"),
    }
}

#[test]
fn defaults_without_manifest_give_clang_and_debug_flags() {
    let (b, f) = resolve_build_config(&project(None), None, None, None, None, None).unwrap();
    assert_eq!(b, Backend::Clang);
    assert_eq!(f.all(), vec!["-std=c++23", "-O0", "-g", "-Wall", "-Wextra", "-Wpedantic"]);
}

#[test]
fn cli_values_override_the_manifest() {
    let m = manifest_with(
        Profile { sanitizer: Some("thread".to_string()), ..Default::default() },
        20,
        Some("clang"),
    );
    let (b, f) = resolve_build_config(
        &project(Some(m)),
        None,
        Some(26),
        Some("address"),
        None,
        Some("cmake"),
    )
    .unwrap();
    assert_eq!(b, Backend::Cmake);
    assert_eq!(f.std_flag, "-std=c++26");
    assert_eq!(f.sanitize.as_deref(), Some("-fsanitize=address"));
}

#[test]
fn manifest_values_apply_without_overrides() {
    let m = manifest_with(
        Profile {
            opt_level: "s".to_string(),
            debug_info: false,
            warnings_as_errors: true,
            pedantic: false,
            sanitizer: Some("undefined".to_string()),
        },
        20,
        Some("cmake"),
    );
    let (b, f) = resolve_build_config(&project(Some(m)), None, None, None, None, None).unwrap();
    assert_eq!(b, Backend::Cmake);
    assert_eq!(f.all(), vec!["-std=c++20", "-Os", "-Wall", "-Wextra", "-Werror", "-fsanitize=undefined"]);
}

#[test]
fn release_forces_o2_without_debug_info() {
    let m = manifest_with(Profile { opt_level: "3".to_string(), ..Default::default() }, 23, None);
    let (_, f) =
        resolve_build_config(&project(Some(m)), Some("release"), None, None, None, None).unwrap();
    assert_eq!(f.opt_flag, "-O2");
    assert!(!f.debug);
}

#[test]
fn debug_profile_equals_the_default_without_manifest() {
    let (_, a) = resolve_build_config(&project(None), Some("debug"), None, None, None, None).unwrap();
    let (_, b) = resolve_build_config(&project(None), None, None, None, None, None).unwrap();
    assert_eq!(a.all(), b.all());
}

#[test]
fn unknown_profile_is_an_invalid_value() {
    let err = resolve_build_config(&project(None), Some("fast"), None, None, None, Some("ninja"))
        .unwrap_err();
    match err {
        CastleError::InvalidValue { field, value } => {
            assert_eq!(field, "profile");
            assert_eq!(value, "fast");
        }
        other => panic!("unexpected {other:?}"),
    }
}

#[test]
fn unknown_backend_is_an_invalid_value() {
    let err = resolve_build_config(&project(None), None, None, None, None, Some("ninja")).unwrap_err();
    match err {
        CastleError::InvalidValue { field, value } => {
            assert_eq!(field, "backend");
            assert_eq!(value, "ninja");
        }
        other => panic!("unexpected {other:?}"),
    }
}

#[test]
fn pedantic_override_forces_on_and_absence_keeps_manifest() {
    let m = manifest_with(Profile { pedantic: false, ..Default::default() }, 23, None);
    let (_, on) =
        resolve_build_config(&project(Some(m.clone())), None, None, None, Some(true), None).unwrap();
    assert!(on.pedantic);
    let (_, off) = resolve_build_config(&project(Some(m)), None, None, None, None, None).unwrap();
    assert!(!off.pedantic);
}

#[test]
fn backend_choice_does_not_change_flags() {
    let (_, a) = resolve_build_config(&project(None), None, None, None, None, Some("clang")).unwrap();
    let (_, b) = resolve_build_config(&project(None), None, None, None, None, Some("cmake")).unwrap();
    assert_eq!(a.all(), b.all());
}

#[test]
fn cli_sanitizer_matches_manifest_preset() {
    let with_preset = Profile { sanitizer: Some("memory".to_string()), ..Default::default() };
    let a = Flags::from(&with_preset, 23, None);
    let b = Flags::from(&Profile::default(), 23, Some("memory"));
    assert_eq!(a.all(), b.all());
    assert_eq!(a.sanitize.as_deref(), Some("-fsanitize=memory"));
}

#[test]
fn unknown_sanitizer_is_passed_through() {
    let f = Flags::from(&Profile::default(), 23, Some("leak"));
    assert_eq!(f.sanitize.as_deref(), Some("leak"));
}

#[test]
fn backend_label_round_trips() {
    for b in [Backend::Clang, Backend::Cmake] {
        assert_eq!(Backend::parse(castle::backend::backend_label(b)).unwrap(), b);
    }
}

#[test]
fn required_clang_follows_the_standard() {
    for (cxx, want) in [(17, 14), (20, 14), (23, 18), (26, 19), (29, 19)] {
        let f = Flags::from(&Profile::default(), cxx, None);
        assert_eq!(required_clang(&f), want);
    }
}

#[test]
fn build_summary_line() {
    let f = Flags::from(&Profile::default(), 26, None);
    assert_eq!(summary(19, &f, None, Backend::Clang), "clang 19, c++26, debug, clang backend");
    assert_eq!(
        summary(21, &f, Some("release"), Backend::Cmake),
        "clang 21, c++26, release, cmake backend"
    );
    assert!(wants_ccache_hint(true, Backend::Clang));
    assert!(!wants_ccache_hint(true, Backend::Cmake));
    assert!(!wants_ccache_hint(false, Backend::Clang));
}

fn build_cmd(asan: bool, tsan: bool, ubsan: bool, msan: bool) -> Command {
    Command::Build {
        release: false,
        cxx_standard: None,
        backend: None,
        asan,
        tsan,
        ubsan,
        msan,
        pedantic: false,
    }
}

#[test]
fn sanitizer_flags_have_a_priority_order() {
    assert_eq!(build_cmd(true, true, true, true).sanitizer_override(), Some("address"));
    assert_eq!(build_cmd(false, true, true, true).sanitizer_override(), Some("thread"));
    assert_eq!(build_cmd(false, false, true, true).sanitizer_override(), Some("undefined"));
    assert_eq!(build_cmd(false, false, false, true).sanitizer_override(), Some("memory"));
    assert_eq!(build_cmd(false, false, false, false).sanitizer_override(), None);
    assert_eq!(Command::Fmt.sanitizer_override(), None);
}

#[test]
fn dispatch_maps_flags_to_options() {
    let cmd = Command::Build {
        release: true,
        cxx_standard: Some(26),
        backend: Some("cmake".to_string()),
        asan: false,
        tsan: true,
        ubsan: false,
        msan: false,
        pedantic: true,
    };
    match dispatch(&cmd) {
        Invocation::Build(o) => {
            assert_eq!(o.profile.as_deref(), Some("release"));
            assert_eq!(o.cxx_standard, Some(26));
            assert_eq!(o.backend.as_deref(), Some("cmake"));
            assert_eq!(o.sanitizer.as_deref(), Some("thread"));
            assert_eq!(o.pedantic, Some(true));
        }
        other => panic!("unexpected {other:?}"),
    }
    let run = Command::Run {
        release: false,
        cxx_standard: None,
        backend: None,
        asan: false,
        tsan: false,
        ubsan: false,
        msan: false,
        watch: true,
        args: vec!["--flag".to_string(), "x".to_string()],
    };
    match dispatch(&run) {
        Invocation::Run(o) => {
            assert_eq!(o.profile, None);
            assert!(o.watch);
            assert_eq!(o.args, vec!["--flag", "x"]);
            assert_eq!(o.sanitizer, None);
        }
        other => panic!("unexpected {other:?}"),
    }
    match dispatch(&build_cmd(false, false, false, false)) {
        Invocation::Build(o) => assert_eq!(o.pedantic, None),
        other => panic!("unexpected {other:?}"),
    }
}

#[test]
fn hints_and_exit_codes() {
    assert!(hint_for(&CastleError::NotInProject).unwrap().contains("castle new"));
    assert!(hint_for(&CastleError::NoCompileCommands).unwrap().contains("castle build"));
    assert!(hint_for(&CastleError::ToolMissing { tool: "cmake".to_string() })
        .unwrap()
        .contains("--backend clang"));
    assert_eq!(hint_for(&CastleError::ToolMissing { tool: "clang++".to_string() }), None);
    assert_eq!(hint_for(&CastleError::ClangNotFound), None);
    let failed = |code| CastleError::BackendFailed { label: "x".to_string(), code };
    assert_eq!(exit_code_for(&failed(42)), 42);
    assert_eq!(exit_code_for(&failed(300)), 255);
    assert_eq!(exit_code_for(&failed(0)), 1);
    assert_eq!(exit_code_for(&failed(-3)), 1);
    assert_eq!(exit_code_for(&CastleError::NotInProject), 1);
}

#[test]
fn parse_major_edge_cases() {
    assert_eq!(parse_major(""), None);
    assert_eq!(parse_major("clang version"), None);
    assert_eq!(parse_major("clang version 0.1"), None);
    assert_eq!(parse_major("clang VERSION 17.0.1"), Some(17));
    assert_eq!(parse_major("clang version 16\r\n"), Some(16));
    assert_eq!(parse_major("clang\nversion 18"), None);
    assert_eq!(parse_major("clang version 99999999999"), None);
    assert_eq!(parse_major("  clang   version\t19-rc"), Some(19));
    assert_eq!(parse_major("clang version x18"), None);
}

#[test]
fn clang_detection_and_requirements() {
    let info = clang_info_from_output("clang version 18.1.0\nTarget: x86_64\n".to_string()).unwrap();
    assert_eq!(info.major, 18);
    match clang_info_from_output("  garbage  \n".to_string()) {
        Err(CastleError::ClangVersionParse(s)) => assert_eq!(s, "garbage"),
        other => panic!("unexpected {other:?}"),
    }
    let ok = || Ok(ClangInfo { major: 18, raw: "clang version 18".to_string() });
    assert_eq!(require_clang(ok(), 18, true).unwrap().major, 18);
    match require_clang(ok(), 19, true) {
        Err(CastleError::ClangTooOld { found, required }) => assert_eq!((found, required), (18, 19)),
        other => panic!("unexpected {other:?}"),
    }
    match require_clang(ok(), 14, false) {
        Err(CastleError::ToolMissing { tool }) => assert_eq!(tool, "clang++"),
        other => panic!("unexpected {other:?}"),
    }
    assert!(matches!(
        require_clang(Err(CastleError::ClangNotFound), 14, true),
        Err(CastleError::ClangNotFound)
    ));
}

#[test]
fn text_helpers() {
    assert_eq!(u32_to_string(0), "0");
    assert_eq!(u32_to_string(4294967295), "4294967295");
    assert_eq!(parse_u32("+7"), Some(7));
    assert_eq!(parse_u32("+"), None);
    assert_eq!(parse_u32("-1"), None);
    assert_eq!(parse_u32("4294967296"), None);
    assert_eq!(parse_u32("007"), Some(7));
    assert_eq!(trim("\t a b \u{3000}\n"), "a b");
    assert_eq!(replace_all_str("aaa", "aa", "b"), "ba");
    assert_eq!(replace_first_str("x-x-x", "x", "y"), "y-x-x");
    assert_eq!(replace_first_str("abc", "z", "y"), "abc");
}

#[test]
fn object_paths_and_labels() {
    let root = path(&["/", "w", "p"]);
    let build = path(&["/", "w", "p", "build"]);
    let src = path(&["/", "w", "p", "src", "util", "m.cpp"]);
    assert_eq!(object_path(&build, &root, &src), path(&["/", "w", "p", "build", "src", "util", "m.o"]));
    assert_eq!(pretty_rel(&root, &src), "src/util/m.cpp");
    let outside = path(&["/", "elsewhere", "x.cpp"]);
    assert_eq!(pretty_rel(&root, &outside), "/elsewhere/x.cpp");
    assert_eq!(object_path(&build, &root, &outside), path(&["/", "elsewhere", "x.o"]));
    assert_eq!(with_extension(&path(&["a", ".hidden"]), "o"), path(&["a", ".hidden.o"]));
    assert_eq!(with_extension(&path(&["a", "b.tar.gz"]), "o"), path(&["a", "b.tar.o"]));
    assert_eq!(with_extension(&path(&["a", ".."]), "o"), path(&["a", ".."]));
    assert_eq!(display_path(&path(&["/"])), "/");
}

#[test]
fn candidate_roots_walk_up_to_the_root() {
    let got = candidate_roots(&path(&["/", "a", "b"]));
    assert_eq!(got, vec![path(&["/", "a", "b"]), path(&["/", "a"]), path(&["/"])]);
    let rel = candidate_roots(&path(&["a"]));
    assert_eq!(rel, vec![path(&["a"]), Vec::<String>::new()]);
}

#[test]
fn sorting_orders_paths_componentwise() {
    let sorted = sort_paths(vec![
        path(&["src", "b.cpp"]),
        path(&["src", "a", "z.cpp"]),
        path(&["src", "a.cpp"]),
        path(&["src", "a"]),
    ]);
    assert_eq!(
        sorted,
        vec![
            path(&["src", "a"]),
            path(&["src", "a", "z.cpp"]),
            path(&["src", "a.cpp"]),
            path(&["src", "b.cpp"]),
        ]
    );
}

fn demo_project() -> Project {
    project(Some(manifest_with(Profile::default(), 23, None)))
}

#[test]
fn clang_plan_compiles_links_and_writes_compile_commands() {
    let p = demo_project();
    let flags = Flags::from(&Profile::default(), 23, None);
    let sources = vec![path(&["/", "work", "demo", "src", "main.cpp"])];
    let steps = Backend::Clang.build(&p, &flags, false, &sources, "").unwrap();
    assert_eq!(steps.len(), 6);
    assert!(matches!(&steps[0], Step::CreateDir(d) if *d == path(&["/", "work", "demo", "build"])));
    assert!(matches!(&steps[1], Step::CreateDir(d) if *d == path(&["/", "work", "demo", "build", "src"])));
    let (prog, args, label) = run_args(&steps[2]);
    assert_eq!(prog, "clang++");
    assert_eq!(label, "clang compile src/main.cpp");
    assert_eq!(&args[args.len() - 4..], &["-c", "/work/demo/src/main.cpp", "-o", "/work/demo/build/src/main.o"]);
    let (_, link, label) = run_args(&steps[3]);
    assert_eq!(label, "clang link build/demo");
    assert_eq!(&link[link.len() - 3..], &["/work/demo/build/src/main.o", "-o", "/work/demo/build/demo"]);
    match &steps[4] {
        Step::WriteCompileCommands { path: at, entries } => {
            assert_eq!(*at, path(&["/", "work", "demo", "compile_commands.json"]));
            assert_eq!(entries.len(), 1);
            assert_eq!(entries[0].directory, "/work/demo");
            assert_eq!(entries[0].file, "/work/demo/src/main.cpp");
            assert_eq!(
                entries[0].command,
                "clang++ -std=c++23 -O0 -g -Wall -Wextra -Wpedantic -c /work/demo/src/main.cpp -o /work/demo/build/src/main.o"
            );
        }
        other => panic!("unexpected {other:?}"),
    }
    assert!(matches!(&steps[5], Step::Info(s) if s.contains("compile_commands.json")));
}

#[test]
fn cmake_plan_renders_cmake_lists() {
    let p = demo_project();
    let flags = Flags::from(&Profile::default(), 26, None);
    assert!(matches!(
        Backend::Cmake.build(&p, &flags, false, &Vec::new(), ""),
        Err(CastleError::ToolMissing { tool }) if tool == "cmake"
    ));
    let steps = Backend::Cmake.build(&p, &flags, true, &Vec::new(), "").unwrap();
    assert_eq!(steps.len(), 5);
    match &steps[0] {
        Step::WriteFile { path: at, contents } => {
            assert_eq!(*at, path(&["/", "work", "demo", "CMakeLists.txt"]));
            assert!(contents.contains("project(demo LANGUAGES CXX)"));
            assert!(contents.contains("set(CMAKE_CXX_STANDARD 26)"));
            assert!(!contents.contains("{{"));
        }
        other => panic!("unexpected {other:?}"),
    }
    let (prog, args, label) = run_args(&steps[2]);
    assert_eq!((prog.as_str(), label.as_str()), ("cmake", "cmake configure"));
    assert_eq!(args, vec!["-S", ".", "-B", "/work/demo/build", "-DCMAKE_CXX_COMPILER=clang++"]);
    let (_, args, label) = run_args(&steps[3]);
    assert_eq!(label, "cmake build");
    assert_eq!(args, vec!["--build", "/work/demo/build"]);
}

#[test]
fn project_and_binary_names() {
    let unnamed = project(Some(manifest_with(Profile::default(), 23, None)));
    assert_eq!(project_name(&unnamed), "demo");
    let mut empty = manifest_with(Profile::default(), 23, None);
    empty.package.name = String::new();
    assert_eq!(project_name(&project(Some(empty.clone()))), "bin");
    assert_eq!(binary_name(&project(Some(empty))), "");
    assert_eq!(project_name(&project(None)), "bin");
    assert_eq!(binary_name(&project(None)), "bin");
    let c = binary_candidates(&demo_project(), "demo", ".exe");
    assert_eq!(c[0], path(&["/", "work", "demo", "build", "demo.exe"]));
    assert_eq!(c[1], path(&["/", "work", "demo", "build", "bin"]));
    assert_eq!(c[4], path(&["/", "work", "demo", "build", "bin", "demo"]));
}

#[test]
fn project_discovery() {
    assert!(matches!(Project::discover(None, None), Err(CastleError::NotInProject)));
    let p = Project::discover(Some(path(&["/", "w"])), None).unwrap();
    assert_eq!(p.build_dir(), path(&["/", "w", "build"]));
    match p.sources(&Vec::new()) {
        Err(CastleError::NoSources { dir }) => assert_eq!(dir, "/w/src"),
        other => panic!("unexpected {other:?}"),
    }
}

#[test]
fn new_project_scaffold() {
    assert!(matches!(
        castle::commands::new::run("a b", false, false),
        Err(CastleError::InvalidProjectName(_))
    ));
    match castle::commands::new::run("dup", true, false) {
        Err(CastleError::ProjectExists(p)) => assert_eq!(p, "dup"),
        other => panic!("unexpected {other:?}"),
    }
    let plain = castle::commands::new::run("demo", false, false).unwrap();
    assert_eq!(plain.len(), 9);
    let cm = castle::commands::new::run("demo", false, true).unwrap();
    assert_eq!(cm.len(), 10);
    let toml = |steps: &Vec<Step>| {
        steps
            .iter()
            .find_map(|s| match s {
                Step::WriteFile { path: at, contents } if at.last().unwrap() == "castle.toml" => {
                    Some(contents.clone())
                }
                _ => None,
            })
            .unwrap()
    };
    let t = toml(&plain);
    assert!(t.contains("name = \"demo\""));
    assert!(t.contains("# backend = \"clang\""));
    let t = toml(&cm);
    assert!(t.contains("\nbackend = \"cmake\""));
    assert!(!t.contains("# backend = \"clang\""));
    match &cm[9] {
        Step::WriteFile { path: at, contents } => {
            assert_eq!(*at, path(&["demo", "CMakeLists.txt"]));
            assert!(contents.contains("set(CMAKE_CXX_STANDARD 23)"));
        }
        other => panic!("unexpected {other:?}"),
    }
}

#[test]
fn init_scaffold() {
    let cwd = path(&["/", "home", "me", "proj"]);
    let (name, steps) = castle::commands::init::run(&cwd, None, false, false, false).unwrap();
    assert_eq!(name, "proj");
    assert_eq!(steps.len(), 9);
    match castle::commands::init::run(&cwd, Some("x"), true, false, false) {
        Err(CastleError::ProjectExists(p)) => assert_eq!(p, "/home/me/proj"),
        other => panic!("unexpected {other:?}"),
    }
    match castle::commands::init::run(&cwd, Some("x"), false, true, false) {
        Err(CastleError::ProjectExists(p)) => assert_eq!(p, "/home/me/proj/src/main.cpp"),
        other => panic!("unexpected {other:?}"),
    }
    assert!(matches!(
        castle::commands::init::run(&path(&["/"]), None, false, false, false),
        Err(CastleError::InvalidProjectName(_))
    ));
}

#[test]
fn version_lines() {
    let info = ClangInfo { major: 18, raw: "clang version 18.1.0\nTarget: x\n".to_string() };
    let lines = castle::commands::version::run("0.3.0", Some(&info), &vec![true, false, true, false, false]);
    assert_eq!(
        lines,
        vec![
            "castle 0.3.0",
            "clang: clang version 18.1.0",
            "default C++ standard: c++23",
            "clang++: available",
            "ccache: available",
        ]
    );
    assert_eq!(castle::commands::version::run("0.3.0", None, &Vec::new()), vec!["castle 0.3.0"]);
    assert_eq!(version_tools().len(), 5);
}

#[test]
fn check_steps_and_outcomes() {
    let root = path(&["/", "p"]);
    let flags = Flags::from(&Profile::default(), 23, None);
    let (prog, args, label) = run_args(&check_step(&root, &flags, &path(&["/", "p", "src", "a.cpp"])));
    assert_eq!(prog, "clang++");
    assert_eq!(label, "check src/a.cpp");
    assert_eq!(&args[args.len() - 2..], &["-fsyntax-only", "/p/src/a.cpp"]);
    assert_eq!(outcome(3, 0).unwrap(), "3 source(s) checked, no errors");
    match outcome(3, 2) {
        Err(CastleError::BackendFailed { label, code }) => {
            assert_eq!(label, "check (2 source(s) failed)");
            assert_eq!(code, 1);
        }
        other => panic!("unexpected {other:?}"),
    }
}

#[test]
fn clean_confirmation() {
    assert!(confirms("y\n"));
    assert!(confirms("  YES "));
    assert!(!confirms("no"));
    assert!(!confirms(""));
    assert!(!confirms("yess"));
}

#[test]
fn fmt_tidy_and_test_steps() {
    let files = vec![path(&["s", "a.cpp"]), path(&["s", "b.txt"]), path(&["s", "c.h"]), path(&["s", "d.hpp"])];
    let targets = format_targets(&files);
    assert_eq!(targets, vec![path(&["s", "a.cpp"]), path(&["s", "c.h"]), path(&["s", "d.hpp"])]);
    let (prog, args, label) = run_args(&fmt_step(&targets));
    assert_eq!(prog, "clang-format");
    assert_eq!(label, "clang-format 3 file(s)");
    assert_eq!(args, vec!["-i", "s/a.cpp", "s/c.h", "s/d.hpp"]);
    let (prog, args, label) = run_args(&tidy_step(&path(&["/", "p"]), &vec![path(&["/", "p", "src", "a.cpp"])]));
    assert_eq!(prog, "clang-tidy");
    assert_eq!(label, "clang-tidy 1 source(s)");
    assert_eq!(args, vec!["-p", "/p", "/p/src/a.cpp"]);
    let srcs = test_sources(&vec![path(&["t", "z.cpp"]), path(&["t", "notes.md"]), path(&["t", "a.cpp"])]);
    assert_eq!(srcs, vec![path(&["t", "a.cpp"]), path(&["t", "z.cpp"])]);
    let p = demo_project();
    let bin = test_binary(&p, "");
    assert_eq!(bin, path(&["/", "work", "demo", "build", "castle_tests"]));
    let flags = Flags::from(&Profile::default(), 23, None);
    let (_, args, label) = run_args(&test_step(&flags, &srcs, &bin));
    assert_eq!(label, "compile+link 2 test source(s)");
    assert_eq!(&args[args.len() - 4..], &["t/a.cpp", "t/z.cpp", "-o", "/work/demo/build/castle_tests"]);
    assert!(should_rebuild(150));
    assert!(!should_rebuild(149));
}

#[test]
fn printer_lines() {
    let plain = Printer::new();
    assert_eq!(plain.info_line("hi"), "Castle: hi");
    assert_eq!(plain.warn_line("careful"), "Castle: warning: careful");
    assert_eq!(plain.error_line("bad"), "Castle: error: bad");
    assert_eq!(plain.hint_line("try"), "  hint: try");
    let colored = Printer::with_color(true, false);
    assert_eq!(colored.success_line("ok"), format!("{BOLD}{GREEN}Castle:{RESET} ok"));
    assert_eq!(colored.step_line("go"), "Castle: go");
}
