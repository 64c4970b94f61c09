//! Scaffolding templates and their `{{KEY}}` renderer.
//!
//! Every scaffolded file is a text constant here. [`render`] does minimal
//! `{{KEY}}` substitution at scaffold time.

use vstd::prelude::*;
use crate::text::{replace_all, replace_all_str};

verus! {

/// Default `src/main.cpp` for a new project (C++23 `std::println`).
pub const CPP_HELLO_WORLD: &'static str = "#include <print>\n\nint main() {\n    std::println(\"Hello, world! Your castle stands.\");\n    return 0;\n}\n";

/// Fallback `.clangd` config (compile_commands.json overrides it at build time).
pub const CLANGD: &'static str = "CompileFlags:\n  Add: [-std=c++23, -Wall, -Wextra]\n  Compiler: clang++\n";

/// `CMakeLists.txt` for the opt-in `cmake` backend.
pub const CMAKE_LISTS: &'static str = "cmake_minimum_required(VERSION 3.20)\nproject({{PROJECT_NAME}} LANGUAGES CXX)\n\nset(CMAKE_CXX_STANDARD {{CXX_STANDARD}})\nset(CMAKE_CXX_STANDARD_REQUIRED ON)\nset(CMAKE_CXX_EXTENSIONS OFF)\nset(CMAKE_EXPORT_COMPILE_COMMANDS ON)\n\nfile(GLOB_RECURSE CASTLE_SOURCES CONFIGURE_DEPENDS \"${CMAKE_SOURCE_DIR}/src/*.cpp\")\nadd_executable({{PROJECT_NAME}} ${CASTLE_SOURCES})\nset_target_properties({{PROJECT_NAME}} PROPERTIES RUNTIME_OUTPUT_DIRECTORY \"${CMAKE_BINARY_DIR}\")\n";

/// Default `.clang-format` applied by `castle fmt`.
pub const CLANG_FORMAT: &'static str = "BasedOnStyle: LLVM\nStandard: Latest\nIndentWidth: 4\nColumnLimit: 100\nAllowShortFunctionsOnASingleLine: Empty\n";

/// Default `.clang-tidy` checks applied by `castle tidy`.
pub const CLANG_TIDY: &'static str = "Checks: >\n  -*,\n  bugprone-*,\n  modernize-*,\n  performance-*,\n  readability-*,\n  -modernize-use-trailing-return-type,\n  -readability-magic-numbers\nWarningsAsErrors: ''\nHeaderFilterRegex: 'src/.*'\n";

/// Default `tests/main.cpp` for a new project.
pub const TEST_MAIN: &'static str = "#include <cassert>\n#include <print>\n\nint main() {\n    assert(1 + 1 == 2);\n    std::println(\"ok\");\n    return 0;\n}\n";

/// Default `.gitignore` for a new project.
pub const GITIGNORE: &'static str = "/build/\ncompile_commands.json\n.cache/\n";

/// Default `castle.toml` manifest for a new project.
pub const CASTLE_TOML: &'static str = "# Castle manifest for {{PROJECT_NAME}}.\n# Every field is optional; the values below are the defaults.\n\n# Build backend: \"clang\" (direct clang++) or \"cmake\".\n# backend = \"clang\"\n\n[package]\nname = \"{{PROJECT_NAME}}\"\nversion = \"0.1.0\"\n# C++ standard: 20, 23 or 26.\ncxx_standard = 23\n\n[profile]\n# Optimization level: \"0\", \"1\", \"2\", \"3\" or \"s\".\nopt_level = \"0\"\ndebug_info = true\nwarnings_as_errors = false\npedantic = true\n# sanitizer = \"address\"  # or \"thread\", \"undefined\", \"memory\"\n";

/// The placeholder text for a key: `{{KEY}}`.
pub open spec fn placeholder(key: Seq<char>) -> Seq<char> {
    "{{"@ + key + "}}"@
}

/// A placeholder is never empty.
pub proof fn lemma_placeholder_nonempty(key: Seq<char>)
    ensures
        placeholder(key).len() >= 4,
{
    reveal_strlit("{{");
    reveal_strlit("}}");
}

/// `tmpl` with each pair's placeholder replaced by its value, the pairs taken
/// in order, each replacement applying to the result of the ones before.
pub open spec fn render_spec(tmpl: Seq<char>, pairs: Seq<(Seq<char>, Seq<char>)>) -> Seq<char>
    decreases pairs.len(),
{
    if pairs.len() == 0 {
        tmpl
    } else {
        render_spec(
            replace_all(tmpl, placeholder(pairs[0].0), pairs[0].1),
            pairs.skip(1),
        )
    }
}

/// The model of a list of key/value pairs.
pub open spec fn pairs_model(pairs: &[(&str, &str)]) -> Seq<(Seq<char>, Seq<char>)> {
    Seq::new(pairs@.len(), |i: int| (pairs@[i].0@, pairs@[i].1@))
}

/// The placeholder text for `key`.
pub fn placeholder_for(key: &str) -> (r: String)
    ensures
        r@ == placeholder(key@),
{
    let mut s = "{{".to_owned();
    s.append(key);
    s.append("}}");
    s
}

/// Substitute every `{{KEY}}` in `tmpl` with its paired value.
pub fn render(tmpl: &str, pairs: &[(&str, &str)]) -> (r: String)
    ensures
        r@ == render_spec(tmpl@, pairs_model(pairs)),
{
    let mut out = tmpl.to_owned();
    let mut i: usize = 0;
    assert(pairs_model(pairs).skip(0) =~= pairs_model(pairs));
    while i < pairs.len()
        invariant
            i <= pairs.len(),
            render_spec(tmpl@, pairs_model(pairs)) == render_spec(
                out@,
                pairs_model(pairs).skip(i as int),
            ),
        decreases pairs.len() - i,
    {
        let (key, val) = pairs[i];
        let p = placeholder_for(key);
        proof {
            lemma_placeholder_nonempty(key@);
        }
        let ghost rest = pairs_model(pairs).skip(i as int);
        assert(rest[0] == (key@, val@));
        assert(rest.skip(1) =~= pairs_model(pairs).skip(i + 1));
        out = replace_all_str(out.as_str(), p.as_str(), val);
        i = i + 1;
    }
    assert(pairs_model(pairs).skip(pairs.len() as int) =~= Seq::<(Seq<char>, Seq<char>)>::empty());
    out
}

} // verus!
