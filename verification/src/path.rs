//! Filesystem paths, modelled as their component sequences.
//!
//! A path is the list of its components as `Path::components` yields them,
//! each written as text: the root directory is `"/"`, the current directory
//! `"."`, the parent `".."`, and every other component its name. The front end
//! converts between this form and `PathBuf`.

use vstd::prelude::*;
use crate::text::{push_char, str_eq};

verus! {

/// The model of a path: its components.
pub type PathModel = Seq<Seq<char>>;

/// A component that is a plain name (not the root, `.` or `..`).
pub open spec fn is_normal(c: Seq<char>) -> bool {
    c != "/"@ && c != "."@ && c != ".."@
}

/// The path `p` written out, separators between components, as `Path::display`
/// shows a path built from these components (no separator after the root).
pub open spec fn display(p: PathModel) -> Seq<char>
    decreases p.len(),
{
    if p.len() == 0 {
        Seq::empty()
    } else {
        let d = display(p.drop_last());
        if d.len() == 0 || d.last() == '/' {
            d + p.last()
        } else {
            d + seq!['/'] + p.last()
        }
    }
}

/// `p` is absolute: it starts at the root directory.
pub open spec fn is_absolute(p: PathModel) -> bool {
    p.len() > 0 && p[0] == "/"@
}

/// `Path::join`: `b` appended to `a`, or `b` alone where `b` is absolute.
pub open spec fn join(a: PathModel, b: PathModel) -> PathModel {
    if is_absolute(b) {
        b
    } else {
        a + b
    }
}

/// `Path::strip_prefix`: what follows `base` in `p`, where `base` is a
/// component-wise prefix of `p`.
pub open spec fn strip_prefix(p: PathModel, base: PathModel) -> Option<PathModel> {
    if base.len() <= p.len() && p.take(base.len() as int) == base {
        Some(p.skip(base.len() as int))
    } else {
        None
    }
}

/// Position of the last `.` in `s`, or -1.
pub open spec fn last_dot(s: Seq<char>) -> int
    decreases s.len(),
{
    if s.len() == 0 {
        -1
    } else if s.last() == '.' {
        s.len() - 1
    } else {
        last_dot(s.drop_last())
    }
}

/// `Path::file_stem` of a plain file name: the name up to its last `.`, or the
/// whole name where the only `.` leads it or there is none.
pub open spec fn file_stem(name: Seq<char>) -> Seq<char> {
    if last_dot(name) <= 0 {
        name
    } else {
        name.take(last_dot(name))
    }
}

/// `PathBuf::set_extension(ext)`: the last component's stem with `.ext`
/// (nothing where `ext` is empty); no change where the path has no file name.
pub open spec fn set_extension(p: PathModel, ext: Seq<char>) -> PathModel {
    if p.len() == 0 || !is_normal(p.last()) {
        p
    } else {
        p.drop_last().push(
            file_stem(p.last()) + if ext.len() > 0 {
                seq!['.'] + ext
            } else {
                Seq::empty()
            },
        )
    }
}

/// `Path::extension` of a plain file name: what follows its last `.`, where
/// that `.` does not lead the name.
pub open spec fn file_extension(name: Seq<char>) -> Option<Seq<char>> {
    if last_dot(name) <= 0 {
        None
    } else {
        Some(name.skip(last_dot(name) + 1))
    }
}

/// `Path::extension` of a path: that of its last component, where it is a
/// plain name.
pub open spec fn extension(p: PathModel) -> Option<Seq<char>> {
    if p.len() == 0 || !is_normal(p.last()) {
        None
    } else {
        file_extension(p.last())
    }
}

/// `Path::parent`: the path without its last component; none for the empty
/// path and the root.
pub open spec fn parent(p: PathModel) -> Option<PathModel> {
    if p.len() == 0 || (p.len() == 1 && p[0] == "/"@) {
        None
    } else {
        Some(p.drop_last())
    }
}

/// Three-way comparison of character sequences by code point, shortest first
/// on a common prefix (the order of their UTF-8 bytes).
pub open spec fn text_order(a: Seq<char>, b: Seq<char>) -> int
    decreases a.len(),
{
    if a.len() == 0 && b.len() == 0 {
        0
    } else if a.len() == 0 {
        -1
    } else if b.len() == 0 {
        1
    } else if a[0] < b[0] {
        -1
    } else if a[0] > b[0] {
        1
    } else {
        text_order(a.skip(1), b.skip(1))
    }
}

/// The rank of a component kind in `std::path::Component`'s order: root
/// directory, then `.`, then `..`, then names.
pub open spec fn component_rank(c: Seq<char>) -> int {
    if c == "/"@ {
        1
    } else if c == "."@ {
        2
    } else if c == ".."@ {
        3
    } else {
        4
    }
}

/// Three-way comparison of components: by kind, then names by their text.
pub open spec fn component_order(a: Seq<char>, b: Seq<char>) -> int {
    if component_rank(a) < component_rank(b) {
        -1
    } else if component_rank(a) > component_rank(b) {
        1
    } else if component_rank(a) == 4 {
        text_order(a, b)
    } else {
        0
    }
}

/// Three-way comparison of paths, component by component, as `Path` orders.
pub open spec fn path_order(p: PathModel, q: PathModel) -> int
    decreases p.len(),
{
    if p.len() == 0 && q.len() == 0 {
        0
    } else if p.len() == 0 {
        -1
    } else if q.len() == 0 {
        1
    } else if component_order(p[0], q[0]) != 0 {
        component_order(p[0], q[0])
    } else {
        path_order(p.skip(1), q.skip(1))
    }
}

/// `p` orders no later than `q`.
pub open spec fn path_le(p: PathModel, q: PathModel) -> bool {
    path_order(p, q) <= 0
}

/// Each path of `s` orders no later than the next one.
pub open spec fn sorted(s: Seq<PathModel>) -> bool {
    forall|i: int| 0 <= i < s.len() - 1 ==> path_le(#[trigger] s[i], s[i + 1])
}

/// Text comparison is antisymmetric.
proof fn lemma_text_order_antisym(a: Seq<char>, b: Seq<char>)
    ensures
        text_order(a, b) == -text_order(b, a),
        -1 <= text_order(a, b) <= 1,
    decreases a.len(),
{
    if a.len() > 0 && b.len() > 0 && a[0] == b[0] {
        lemma_text_order_antisym(a.skip(1), b.skip(1));
    }
}

/// Path comparison is antisymmetric, so any two paths are ordered one way or
/// the other.
pub proof fn lemma_path_order_antisym(p: PathModel, q: PathModel)
    ensures
        path_order(p, q) == -path_order(q, p),
        path_le(p, q) || path_le(q, p),
    decreases p.len(),
{
    if p.len() > 0 && q.len() > 0 {
        lemma_text_order_antisym(p[0], q[0]);
        if component_order(p[0], q[0]) == 0 {
            lemma_path_order_antisym(p.skip(1), q.skip(1));
        }
    }
}

/// The components of `p` as character sequences.
pub open spec fn model(p: &Vec<String>) -> PathModel {
    p.deep_view()
}

/// Pushing a component onto a path's vector pushes its text onto the model.
proof fn lemma_model_push(v: Vec<String>, w: Vec<String>, x: String)
    requires
        w@ == v@.push(x),
    ensures
        model(&w) == model(&v).push(x@),
{
    assert(model(&w) =~= model(&v).push(x@));
}

/// Appends a component to a path.
pub fn push_component(r: &mut Vec<String>, c: String)
    ensures
        model(final(r)) == model(old(r)).push(c@),
{
    let ghost v = *r;
    r.push(c);
    proof {
        lemma_model_push(v, *r, c);
    }
}

/// Appends a path to a list of paths.
pub fn push_path(r: &mut Vec<Vec<String>>, p: Vec<String>)
    ensures
        final(r).deep_view() == old(r).deep_view().push(model(&p)),
{
    let ghost v = *r;
    r.push(p);
    assert(r.deep_view() =~= v.deep_view().push(model(&p)));
}

/// Whether `marks` marks the `i`th of a list of candidates.
pub open spec fn marked(marks: Seq<bool>, i: int) -> bool {
    0 <= i < marks.len() && marks[i]
}

/// `p` is the first of `candidates` that `marks` marks.
pub open spec fn is_first_marked(candidates: Seq<PathModel>, marks: Seq<bool>, p: PathModel) -> bool {
    exists|i: int|
        0 <= i < candidates.len() && marked(marks, i) && p == candidates[i] && forall|j: int|
            0 <= j < i ==> !#[trigger] marked(marks, j)
}

/// No candidate is marked.
pub open spec fn none_marked(candidates: Seq<PathModel>, marks: Seq<bool>) -> bool {
    forall|i: int| 0 <= i < candidates.len() ==> !#[trigger] marked(marks, i)
}

/// The first of `candidates` that `marks` marks (`marks[i]` for the `i`th;
/// a candidate without a mark counts as unmarked), if any is.
pub fn first_marked(candidates: &Vec<Vec<String>>, marks: &Vec<bool>) -> (r: Option<Vec<String>>)
    ensures
        match r {
            Some(p) => is_first_marked(candidates.deep_view(), marks@, model(&p)),
            None => none_marked(candidates.deep_view(), marks@),
        },
{
    let mut i: usize = 0;
    while i < candidates.len()
        invariant
            i <= candidates.len(),
            forall|j: int| 0 <= j < i ==> !#[trigger] marked(marks@, j),
        decreases candidates.len() - i,
    {
        if i < marks.len() && marks[i] {
            let p = copy_path(&candidates[i]);
            assert(marked(marks@, i as int));
            assert(candidates.deep_view()[i as int] == model(&candidates[i as int]));
            return Some(p);
        }
        i = i + 1;
    }
    None
}

/// `Path::display` of a path, written out.
pub fn display_path(p: &Vec<String>) -> (r: String)
    ensures
        r@ == display(model(p)),
{
    let mut out = String::new();
    let mut i: usize = 0;
    while i < p.len()
        invariant
            i <= p.len(),
            out@ == display(model(p).take(i as int)),
        decreases p.len() - i,
    {
        let ghost pre = model(p).take(i as int);
        assert(model(p).take(i + 1).drop_last() =~= pre);
        let n = out.unicode_len();
        if n > 0 && out.as_str().get_char(n - 1) != '/' {
            push_char(&mut out, '/');
        }
        out.append(p[i].as_str());
        assert(model(p)[i as int] == p[i as int]@);
        i = i + 1;
    }
    assert(model(p).take(p.len() as int) =~= model(p));
    out
}

/// Whether the path starts at the root directory.
pub fn path_is_absolute(p: &Vec<String>) -> (r: bool)
    ensures
        r == is_absolute(model(p)),
{
    p.len() > 0 && str_eq(p[0].as_str(), "/")
}

/// Copies the components of a path.
pub fn copy_path(p: &Vec<String>) -> (r: Vec<String>)
    ensures
        model(&r) == model(p),
{
    let mut r: Vec<String> = Vec::new();
    let mut i: usize = 0;
    assert(model(&r) =~= model(p).take(0));
    while i < p.len()
        invariant
            i <= p.len(),
            model(&r) == model(p).take(i as int),
        decreases p.len() - i,
    {
        push_component(&mut r, p[i].clone());
        assert(model(&r) =~= model(p).take(i + 1));
        i = i + 1;
    }
    assert(model(p).take(p.len() as int) =~= model(p));
    r
}

/// `a` followed by the components `b[from..]`.
fn append_from(a: Vec<String>, b: &Vec<String>, from: usize) -> (r: Vec<String>)
    requires
        from <= b.len(),
    ensures
        model(&r) == model(&a) + model(b).skip(from as int),
{
    let mut r = a;
    let ghost a0 = model(&r);
    let mut i: usize = from;
    assert(a0 + model(b).subrange(from as int, from as int) =~= a0);
    while i < b.len()
        invariant
            from <= i <= b.len(),
            model(&r) == a0 + model(b).subrange(from as int, i as int),
        decreases b.len() - i,
    {
        push_component(&mut r, b[i].clone());
        assert(model(&r) =~= a0 + model(b).subrange(from as int, i + 1));
        i = i + 1;
    }
    assert(model(b).subrange(from as int, b.len() as int) =~= model(b).skip(from as int));
    r
}

/// `Path::join`.
pub fn join_path(a: &Vec<String>, b: &Vec<String>) -> (r: Vec<String>)
    ensures
        model(&r) == join(model(a), model(b)),
{
    if path_is_absolute(b) {
        copy_path(b)
    } else {
        let r = append_from(copy_path(a), b, 0);
        assert(model(b).skip(0) =~= model(b));
        r
    }
}

/// `a` with one more component.
pub fn child(a: &Vec<String>, name: &str) -> (r: Vec<String>)
    ensures
        model(&r) == model(a).push(name@),
{
    let mut r = copy_path(a);
    push_component(&mut r, name.to_owned());
    assert(model(&r) =~= model(a).push(name@));
    r
}

/// `Path::strip_prefix`.
pub fn strip_path_prefix(p: &Vec<String>, base: &Vec<String>) -> (r: Option<Vec<String>>)
    ensures
        match r {
            Some(rest) => strip_prefix(model(p), model(base)) == Some(model(&rest)),
            None => strip_prefix(model(p), model(base)) is None,
        },
{
    if base.len() > p.len() {
        return None;
    }
    let mut i: usize = 0;
    while i < base.len()
        invariant
            i <= base.len() <= p.len(),
            forall|j: int| 0 <= j < i ==> model(p)[j] == model(base)[j],
        decreases base.len() - i,
    {
        if !str_eq(p[i].as_str(), base[i].as_str()) {
            assert(model(p).take(base.len() as int)[i as int] != model(base)[i as int]);
            return None;
        }
        i = i + 1;
    }
    assert(model(p).take(base.len() as int) =~= model(base));
    let empty: Vec<String> = Vec::new();
    assert(model(&empty) =~= Seq::<Seq<char>>::empty());
    let r = append_from(empty, p, base.len());
    assert(model(&r) =~= model(p).skip(base.len() as int));
    Some(r)
}

/// Whether a component is a plain name.
pub fn component_is_normal(c: &str) -> (r: bool)
    ensures
        r == is_normal(c@),
{
    !str_eq(c, "/") && !str_eq(c, ".") && !str_eq(c, "..")
}

/// Position of the last `.` in `s`, if any.
fn find_last_dot(s: &str) -> (r: Option<usize>)
    ensures
        match r {
            Some(k) => last_dot(s@) == k,
            None => last_dot(s@) == -1,
        },
{
    let n = s.unicode_len();
    let mut i: usize = n;
    assert(s@.take(n as int) =~= s@);
    while i > 0
        invariant
            i <= n,
            n == s@.len(),
            last_dot(s@) == last_dot(s@.take(i as int)),
        decreases i,
    {
        let ghost t = s@.take(i as int);
        assert(t.drop_last() =~= s@.take(i - 1));
        if s.get_char(i - 1) == '.' {
            return Some(i - 1);
        }
        i = i - 1;
    }
    assert(s@.take(0) =~= Seq::<char>::empty());
    None
}

/// The last `.` lies inside the text.
proof fn lemma_last_dot_bounds(s: Seq<char>)
    ensures
        -1 <= last_dot(s) < s.len(),
    decreases s.len(),
{
    if s.len() > 0 {
        lemma_last_dot_bounds(s.drop_last());
    }
}

/// `Path::file_stem` of a plain file name.
pub fn stem(name: &str) -> (r: String)
    ensures
        r@ == file_stem(name@),
{
    proof {
        lemma_last_dot_bounds(name@);
    }
    match find_last_dot(name) {
        Some(k) => {
            if k == 0 {
                name.to_owned()
            } else {
                name.substring_char(0, k).to_owned()
            }
        },
        None => name.to_owned(),
    }
}

/// `Path::extension` of a path.
pub fn path_extension(p: &Vec<String>) -> (r: Option<String>)
    ensures
        r.deep_view() == extension(model(p)),
{
    let n = p.len();
    if n == 0 || !component_is_normal(p[n - 1].as_str()) {
        return None;
    }
    let name = p[n - 1].as_str();
    proof {
        lemma_last_dot_bounds(name@);
    }
    match find_last_dot(name) {
        Some(k) => {
            if k == 0 {
                None
            } else {
                let len = name.unicode_len();
                let r = name.substring_char(k + 1, len).to_owned();
                assert(r@ =~= name@.skip(k + 1));
                Some(r)
            }
        },
        None => None,
    }
}

/// Whether the path's extension is `ext`.
pub fn has_extension(p: &Vec<String>, ext: &str) -> (r: bool)
    ensures
        r == (extension(model(p)) == Some(ext@)),
{
    match path_extension(p) {
        Some(e) => str_eq(e.as_str(), ext),
        None => false,
    }
}

/// `Path::parent`, on a copy.
pub fn parent_path(p: &Vec<String>) -> (r: Option<Vec<String>>)
    ensures
        match r {
            Some(q) => parent(model(p)) == Some(model(&q)),
            None => parent(model(p)) is None,
        },
{
    let n = p.len();
    if n == 0 || (n == 1 && str_eq(p[0].as_str(), "/")) {
        return None;
    }
    let mut r: Vec<String> = Vec::new();
    let mut i: usize = 0;
    assert(model(&r) =~= model(p).take(0));
    while i < n - 1
        invariant
            n == p.len(),
            n > 0,
            i <= n - 1,
            model(&r) == model(p).take(i as int),
        decreases n - 1 - i,
    {
        push_component(&mut r, p[i].clone());
        assert(model(&r) =~= model(p).take(i + 1));
        i = i + 1;
    }
    assert(model(p).take(n - 1) =~= model(p).drop_last());
    Some(r)
}

/// `PathBuf::set_extension(ext)`, on a copy.
pub fn with_extension(p: &Vec<String>, ext: &str) -> (r: Vec<String>)
    ensures
        model(&r) == set_extension(model(p), ext@),
{
    let n = p.len();
    if n == 0 || !component_is_normal(p[n - 1].as_str()) {
        return copy_path(p);
    }
    let mut name = stem(p[n - 1].as_str());
    let ghost suffix = if ext@.len() > 0 {
        seq!['.'] + ext@
    } else {
        Seq::<char>::empty()
    };
    let ghost base = name@;
    if ext.unicode_len() > 0 {
        push_char(&mut name, '.');
        name.append(ext);
    }
    assert(name@ =~= base + suffix);
    assert(model(p).last() == p[n - 1]@);
    let mut r: Vec<String> = Vec::new();
    let mut i: usize = 0;
    assert(model(&r) =~= model(p).take(0));
    while i < n - 1
        invariant
            n == p.len(),
            n > 0,
            i <= n - 1,
            model(&r) == model(p).take(i as int),
        decreases n - 1 - i,
    {
        push_component(&mut r, p[i].clone());
        assert(model(&r) =~= model(p).take(i + 1));
        i = i + 1;
    }
    push_component(&mut r, name);
    assert(model(p).take(n - 1) =~= model(p).drop_last());
    assert(model(&r) =~= set_extension(model(p), ext@));
    r
}

/// Three-way comparison of two texts.
fn compare_text(a: &str, b: &str) -> (r: i8)
    ensures
        r as int == text_order(a@, b@),
{
    let n = a.unicode_len();
    let m = b.unicode_len();
    let mut i: usize = 0;
    assert(a@.skip(0) =~= a@);
    assert(b@.skip(0) =~= b@);
    while i < n && i < m
        invariant
            i <= n,
            i <= m,
            n == a@.len(),
            m == b@.len(),
            text_order(a@, b@) == text_order(a@.skip(i as int), b@.skip(i as int)),
        decreases n - i,
    {
        let x = a.get_char(i);
        let y = b.get_char(i);
        assert(a@.skip(i as int)[0] == x);
        assert(b@.skip(i as int)[0] == y);
        if x < y {
            return -1;
        }
        if x > y {
            return 1;
        }
        assert(a@.skip(i as int).skip(1) =~= a@.skip(i + 1));
        assert(b@.skip(i as int).skip(1) =~= b@.skip(i + 1));
        i = i + 1;
    }
    if i == n && i == m {
        0
    } else if i == n {
        -1
    } else {
        1
    }
}

/// The rank of a component in the order of component kinds.
fn rank(c: &str) -> (r: u8)
    ensures
        r as int == component_rank(c@),
{
    if str_eq(c, "/") {
        1
    } else if str_eq(c, ".") {
        2
    } else if str_eq(c, "..") {
        3
    } else {
        4
    }
}

/// Three-way comparison of components.
fn compare_component(a: &str, b: &str) -> (r: i8)
    ensures
        r as int == component_order(a@, b@),
{
    let ra = rank(a);
    let rb = rank(b);
    if ra < rb {
        -1
    } else if ra > rb {
        1
    } else if ra == 4 {
        compare_text(a, b)
    } else {
        0
    }
}

/// Whether path `p` orders no later than path `q`.
pub fn path_le_exec(p: &Vec<String>, q: &Vec<String>) -> (r: bool)
    ensures
        r == path_le(model(p), model(q)),
{
    let n = p.len();
    let m = q.len();
    let mut i: usize = 0;
    assert(model(p).skip(0) =~= model(p));
    assert(model(q).skip(0) =~= model(q));
    while i < n && i < m
        invariant
            i <= n,
            i <= m,
            n == p.len(),
            m == q.len(),
            path_order(model(p), model(q)) == path_order(
                model(p).skip(i as int),
                model(q).skip(i as int),
            ),
        decreases n - i,
    {
        let c = compare_component(p[i].as_str(), q[i].as_str());
        assert(model(p).skip(i as int)[0] == p[i as int]@);
        assert(model(q).skip(i as int)[0] == q[i as int]@);
        if c != 0 {
            return c < 0;
        }
        assert(model(p).skip(i as int).skip(1) =~= model(p).skip(i + 1));
        assert(model(q).skip(i as int).skip(1) =~= model(q).skip(i + 1));
        i = i + 1;
    }
    i == n
}

/// The paths of `paths`, sorted by path order: the same paths, each ordered
/// no later than the next.
pub fn sort_paths(paths: Vec<Vec<String>>) -> (r: Vec<Vec<String>>)
    ensures
        r.deep_view().to_multiset() == paths.deep_view().to_multiset(),
        sorted(r.deep_view()),
{
    broadcast use vstd::seq_lib::to_multiset_insert, vstd::seq_lib::to_multiset_build;

    let mut out: Vec<Vec<String>> = Vec::new();
    let mut i: usize = 0;
    assert(out.deep_view() =~= Seq::<PathModel>::empty());
    assert(paths.deep_view().take(0) =~= Seq::<PathModel>::empty());
    while i < paths.len()
        invariant
            i <= paths.len(),
            out.deep_view().to_multiset() == paths.deep_view().take(i as int).to_multiset(),
            sorted(out.deep_view()),
        decreases paths.len() - i,
    {
        let x = copy_path(&paths[i]);
        let mut j: usize = 0;
        while j < out.len() && path_le_exec(&out[j], &x)
            invariant
                j <= out.len(),
                j > 0 ==> path_le(out.deep_view()[j - 1], model(&x)),
            decreases out.len() - j,
        {
            assert(out.deep_view()[j as int] == model(&out[j as int]));
            j = j + 1;
        }
        let ghost before = out.deep_view();
        proof {
            if j < out.len() {
                assert(before[j as int] == model(&out[j as int]));
                lemma_path_order_antisym(model(&x), before[j as int]);
            }
        }
        out.insert(j, x);
        let ghost after = out.deep_view();
        assert(after =~= before.insert(j as int, paths.deep_view()[i as int]));
        proof {
            vstd::seq_lib::to_multiset_insert(before, j as int, paths.deep_view()[i as int]);
            vstd::seq_lib::to_multiset_build(
                paths.deep_view().take(i as int),
                paths.deep_view()[i as int],
            );
        }
        assert forall|k: int| 0 <= k < after.len() - 1 implies path_le(
            #[trigger] after[k],
            after[k + 1],
        ) by {
            if k < j - 1 {
                assert(after[k] == before[k] && after[k + 1] == before[k + 1]);
            } else if k == j - 1 {
            } else if k == j {
            } else {
                assert(after[k] == before[k - 1] && after[k + 1] == before[k]);
            }
        }
        assert(paths.deep_view().take(i + 1) =~= paths.deep_view().take(i as int).push(
            paths.deep_view()[i as int],
        ));
        i = i + 1;
    }
    assert(paths.deep_view().take(paths.len() as int) =~= paths.deep_view());
    out
}

} // verus!
