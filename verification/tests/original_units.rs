use castle::backend::{Backend, Flags};
use castle::commands::common::{min_clang_for, validate_project_name};
use castle::manifest::{Manifest, Package, Profile};
use castle::output::{Printer, BOLD};
use castle::templates::{
    render, CASTLE_TOML, CLANGD, CLANG_FORMAT, CLANG_TIDY, CMAKE_LISTS, CPP_HELLO_WORLD,
    GITIGNORE, TEST_MAIN,
};
use castle::toolchain::parse_major;

fn named_manifest(name: &str) -> Manifest {
    Manifest {
        package: Package {
            name: name.to_string(),
            ..Default::default()
        },
        ..Default::default()
    }
}

#[test]
fn flags_from_debug_profile() {
    let p = Profile::default();
    let f = Flags::from(&p, 23, None);
    assert_eq!(f.std_flag, "-std=c++23");
    assert_eq!(f.opt_flag, "-O0");
    assert!(f.debug);
    assert!(f.pedantic);
    assert!(f.sanitize.is_none());
    assert!(f.all().contains(&"-Wpedantic".to_string()));
}

#[test]
fn flags_honor_sanitizer_override() {
    let p = Profile::default();
    let f = Flags::from(&p, 26, Some("address"));
    assert_eq!(f.std_flag, "-std=c++26");
    assert_eq!(f.sanitize.as_deref(), Some("-fsanitize=address"));
    assert!(f.all().iter().any(|s| s == "-fsanitize=address"));
}

#[test]
fn flags_unknown_opt_level_collapses_to_o0() {
    let p = Profile {
        opt_level: "9".to_string(),
        ..Default::default()
    };
    let f = Flags::from(&p, 23, None);
    assert_eq!(f.opt_flag, "-O0");
}

#[test]
fn backend_parse_known() {
    assert_eq!(Backend::parse("clang").unwrap(), Backend::Clang);
    assert_eq!(Backend::parse("cmake").unwrap(), Backend::Cmake);
    assert!(Backend::parse("ninja").is_err());
}

#[test]
fn backend_resolve_cli_overrides_manifest() {
    let m = named_manifest("x");
    assert_eq!(
        Backend::resolve(Some(&m), Some("cmake")).unwrap(),
        Backend::Cmake
    );
}

#[test]
fn backend_resolve_manifest_overrides_default() {
    let m = Manifest {
        backend: Some("cmake".to_string()),
        ..named_manifest("x")
    };
    assert_eq!(Backend::resolve(Some(&m), None).unwrap(), Backend::Cmake);
}

#[test]
fn backend_resolve_defaults_to_clang() {
    assert_eq!(Backend::resolve(None, None).unwrap(), Backend::Clang);
}

#[test]
fn validate_rejects_bad_names() {
    assert!(validate_project_name("").is_err());
    assert!(validate_project_name("a b").is_err());
    assert!(validate_project_name("a/b").is_err());
    assert!(validate_project_name("a..b").is_err());
    assert!(validate_project_name("café").is_err());
    assert!(validate_project_name("good_name").is_ok());
}

#[test]
fn min_clang_table_is_sane() {
    assert_eq!(min_clang_for(20), 14);
    assert_eq!(min_clang_for(23), 18);
    assert_eq!(min_clang_for(26), 19);
}

#[test]
fn defaults_are_sensible() {
    let m = Manifest::default();
    assert_eq!(m.package.cxx_standard, 23);
    assert!(m.profile.pedantic);
    assert!(m.profile.debug_info);
    assert!(m.backend.is_none());
}

#[test]
fn printer_constructs() {
    let _p = Printer::new();
}

#[test]
fn paint_returns_the_message() {
    let p = Printer::new();
    let out = p.paint(false, &[BOLD], "castle");
    assert!(out.contains("castle"));
}

#[test]
fn render_substitutes_placeholders() {
    let out = render("hello {{WHO}}!", &[("WHO", "castle")]);
    assert_eq!(out, "hello castle!");
}

#[test]
fn render_leaves_unknown_placeholders_intact() {
    let out = render("{{A}} {{B}}", &[("A", "x")]);
    assert_eq!(out, "x {{B}}");
}

#[test]
fn all_templates_are_embedded() {
    for s in [
        CPP_HELLO_WORLD,
        CLANGD,
        CMAKE_LISTS,
        CLANG_FORMAT,
        CLANG_TIDY,
        TEST_MAIN,
        GITIGNORE,
        CASTLE_TOML,
    ] {
        assert!(!s.is_empty());
    }
}

#[test]
fn parses_upstream_clang_version() {
    assert_eq!(
        parse_major("clang version 18.1.0\nTarget: x86_64\n"),
        Some(18)
    );
}

#[test]
fn parses_apple_clang_version() {
    assert_eq!(
        parse_major("Apple clang version 21.0.0 (clang-2100.3.25.1)\n"),
        Some(21)
    );
}

#[test]
fn rejects_unparseable_output() {
    assert_eq!(parse_major("not a version string"), None);
}

fn path(parts: &[&str]) -> Vec<String> {
    parts.iter().map(|s| s.to_string()).collect()
}

#[test]
fn collect_sources_walks_recursively_and_sorts() {
    let dir = path(&["/", "tmp", "p", "src"]);
    let found = vec![
        path(&["/", "tmp", "p", "src", "z.cpp"]),
        path(&["/", "tmp", "p", "src", "a.cpp"]),
        path(&["/", "tmp", "p", "src", "util", "m.cpp"]),
        path(&["/", "tmp", "p", "src", "readme.md"]),
    ];
    let got = castle::project::collect_sources(&dir, &found).unwrap();
    let names: Vec<_> = got.iter().map(|p| p.last().unwrap().clone()).collect();
    assert_eq!(names, vec!["a.cpp", "m.cpp", "z.cpp"]);
}

#[test]
fn collect_sources_errors_when_empty() {
    let dir = path(&["/", "tmp", "p", "src"]);
    let err = castle::project::collect_sources(&dir, &Vec::new());
    assert!(err.is_err());
}
