//! `castle version`: the lines that describe Castle and the toolchain.

use vstd::prelude::*;
use crate::backend::push_string;
use crate::text::decimal;
use crate::toolchain::{first_line, first_line_end, ClangInfo};

verus! {

/// The tools whose availability `castle version` reports, in order.
pub open spec fn version_tools_spec() -> Seq<Seq<char>> {
    seq!["clang++"@, "cmake"@, "ccache"@, "clang-format"@, "clang-tidy"@]
}

/// The tools whose availability `castle version` reports, in order.
pub fn version_tools() -> (r: Vec<&'static str>)
    ensures
        r@.len() == 5,
        forall|i: int| 0 <= i < 5 ==> #[trigger] r@[i]@ == version_tools_spec()[i],
{
    let r = vec!["clang++", "cmake", "ccache", "clang-format", "clang-tidy"];
    r
}

/// One `<tool>: available` line for each tool found, in order.
pub open spec fn tool_lines(tools: Seq<Seq<char>>, available: Seq<bool>) -> Seq<Seq<char>>
    decreases tools.len(),
{
    if tools.len() == 0 {
        Seq::empty()
    } else {
        let rest = tool_lines(tools.drop_last(), available);
        let i = tools.len() - 1;
        if i < available.len() && available[i] {
            rest.push(tools.last() + ": available"@)
        } else {
            rest
        }
    }
}

/// The lines `castle version` prints: Castle's version, then, where clang
/// was detected, the first line of its banner, the default standard and the
/// tools found (`available[i]` for the `i`th of the version tools).
pub open spec fn version_lines(
    pkg_version: Seq<char>,
    clang_raw: Option<Seq<char>>,
    available: Seq<bool>,
) -> Seq<Seq<char>> {
    seq!["castle "@ + pkg_version] + match clang_raw {
        None => Seq::empty(),
        Some(raw) => seq![
            "clang: "@ + match first_line(raw) {
                Some(l) => l,
                None => "clang (version unknown)"@,
            },
            "default C++ standard: c++23"@,
        ] + tool_lines(version_tools_spec(), available),
    }
}

/// Print version + detected toolchain: the lines to show as information.
pub fn run(pkg_version: &str, clang: Option<&ClangInfo>, available: &Vec<bool>) -> (r: Vec<String>)
    ensures
        r.deep_view() == version_lines(
            pkg_version@,
            match clang {
                Some(c) => Some(c.raw@),
                None => None,
            },
            available@,
        ),
{
    let mut lines: Vec<String> = Vec::new();
    let mut first = "castle ".to_owned();
    first.append(pkg_version);
    push_string(&mut lines, first);
    let info = match clang {
        None => {
            assert(lines.deep_view() =~= seq!["castle "@ + pkg_version@]);
            return lines;
        },
        Some(c) => c,
    };
    let raw = info.raw.as_str();
    let mut ver_line = "clang: ".to_owned();
    match first_line_end(raw) {
        Some(end) => ver_line.append(raw.substring_char(0, end)),
        None => ver_line.append("clang (version unknown)"),
    }
    proof {
        if let Some(l) = first_line(raw@) {
            assert(raw@.subrange(0, l.len() as int) =~= l);
        }
    }
    push_string(&mut lines, ver_line);
    push_string(&mut lines, "default C++ standard: c++23".to_owned());
    let ghost head = lines.deep_view();
    let tools = version_tools();
    let mut i: usize = 0;
    assert(version_tools_spec().take(0) =~= Seq::<Seq<char>>::empty());
    assert(lines.deep_view() =~= head + tool_lines(version_tools_spec().take(0), available@));
    while i < 5
        invariant
            i <= 5,
            tools@.len() == 5,
            forall|k: int| 0 <= k < 5 ==> #[trigger] tools@[k]@ == version_tools_spec()[k],
            lines.deep_view() == head + tool_lines(version_tools_spec().take(i as int), available@),
        decreases 5 - i,
    {
        let ghost pre = version_tools_spec().take(i as int);
        let ghost post = version_tools_spec().take(i + 1);
        assert(post.drop_last() =~= pre);
        assert(post.last() == tools@[i as int]@);
        if i < available.len() && available[i] {
            let mut line = tools[i].to_owned();
            line.append(": available");
            push_string(&mut lines, line);
        }
        assert(lines.deep_view() =~= head + tool_lines(post, available@));
        i = i + 1;
    }
    assert(version_tools_spec().take(5) =~= version_tools_spec());
    assert(lines.deep_view() =~= version_lines(pkg_version@, Some(raw@), available@));
    lines
}

} // verus!
