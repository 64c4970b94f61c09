//! Project root discovery and source enumeration.
//!
//! Castle finds the project root by walking up from the current directory
//! until it sees a `castle.toml` *or* a `CMakeLists.txt`. Sources are every
//! `*.cpp` under `src/`. The front end looks at the filesystem; this module
//! decides which directories to look at and what the findings mean.

use vstd::prelude::*;
use crate::error::{CastleError, ErrorModel};
use crate::manifest::{Manifest, ManifestModel};
use crate::path::{
    child, copy_path, push_path, display, display_path, extension, has_extension, model, parent, parent_path,
    sort_paths, sorted, first_marked, is_first_marked, none_marked, PathModel,
};

verus! {

/// A resolved Castle project: its root directory and parsed manifest (if any).
#[derive(Debug, Clone)]
pub struct Project {
    /// The project root (the directory holding `castle.toml` or
    /// `CMakeLists.txt`), by its components.
    pub root: Vec<String>,
    /// The manifest, or `None` if the project has no `castle.toml`.
    pub manifest: Option<Manifest>,
}

/// Model of a [`Project`].
pub struct ProjectModel {
    pub root: PathModel,
    pub manifest: Option<ManifestModel>,
}

impl View for Project {
    type V = ProjectModel;

    open spec fn view(&self) -> ProjectModel {
        ProjectModel {
            root: self.root.deep_view(),
            manifest: match self.manifest {
                Some(m) => Some(m@),
                None => None,
            },
        }
    }
}

/// The build directory of a project root: `<root>/build`.
pub open spec fn build_dir_of(root: PathModel) -> PathModel {
    root.push("build"@)
}

/// The directory whose sources are built: `<root>/src`.
pub open spec fn src_dir_of(root: PathModel) -> PathModel {
    root.push("src"@)
}

/// The directories in which to look for a project marker, nearest first:
/// the starting directory and then each of its ancestors.
pub open spec fn ancestors(p: PathModel) -> Seq<PathModel>
    decreases p.len(),
{
    match parent(p) {
        Some(q) => seq![p] + ancestors(q),
        None => seq![p],
    }
}

/// The paths of `files` whose extension is `ext`, in order.
pub open spec fn with_ext(files: Seq<PathModel>, ext: Seq<char>) -> Seq<PathModel>
    decreases files.len(),
{
    if files.len() == 0 {
        Seq::empty()
    } else {
        let rest = with_ext(files.drop_last(), ext);
        if extension(files.last()) == Some(ext) {
            rest.push(files.last())
        } else {
            rest
        }
    }
}

/// What `collect_sources` gives for the files found under `dir`: the `.cpp`
/// files sorted, or an error naming `dir` where there are none.
pub open spec fn collect_sources_ok(
    dir: PathModel,
    files: Seq<PathModel>,
    r: Result<Seq<PathModel>, ErrorModel>,
) -> bool {
    let cpp = with_ext(files, "cpp"@);
    if cpp.len() == 0 {
        r == Err::<Seq<PathModel>, ErrorModel>(ErrorModel::NoSources { dir: display(dir) })
    } else {
        &&& r is Ok
        &&& r->Ok_0.to_multiset() == cpp.to_multiset()
        &&& sorted(r->Ok_0)
    }
}

/// The model of a list-of-paths result.
pub open spec fn paths_result(r: Result<Vec<Vec<String>>, CastleError>) -> Result<
    Seq<PathModel>,
    ErrorModel,
> {
    match r {
        Ok(v) => Ok(v.deep_view()),
        Err(e) => Err(e@),
    }
}

/// The directories in which to look for `castle.toml` or `CMakeLists.txt`,
/// starting at `cwd` and walking up to the root.
pub fn candidate_roots(cwd: &Vec<String>) -> (r: Vec<Vec<String>>)
    ensures
        r.deep_view() == ancestors(model(cwd)),
    decreases cwd.len(),
{
    let mut r: Vec<Vec<String>> = Vec::new();
    push_path(&mut r, copy_path(cwd));
    match parent_path(cwd) {
        Some(q) => {
            assert(model(&q).len() == model(cwd).len() - 1);
            assert(q.len() < cwd.len());
            let rest = candidate_roots(&q);
            let ghost first = r.deep_view();
            let mut i: usize = 0;
            while i < rest.len()
                invariant
                    i <= rest.len(),
                    first == seq![model(cwd)],
                    r.deep_view() == first + rest.deep_view().take(i as int),
                decreases rest.len() - i,
            {
                push_path(&mut r, copy_path(&rest[i]));
                assert(r.deep_view() =~= first + rest.deep_view().take(i + 1));
                i = i + 1;
            }
            assert(rest.deep_view().take(rest.len() as int) =~= rest.deep_view());
        },
        None => {
            assert(r.deep_view() =~= seq![model(cwd)]);
        },
    }
    r
}

/// The project root seen from `cwd`: the nearest of `cwd` and its ancestors
/// (as `candidate_roots` lists them) that holds `castle.toml` or
/// `CMakeLists.txt`, `has_marker[i]` telling whether the `i`th does; `None`
/// where none does.
pub fn locate_root(cwd: &Vec<String>, has_marker: &Vec<bool>) -> (r: Option<Vec<String>>)
    ensures
        match r {
            Some(root) => is_first_marked(ancestors(model(cwd)), has_marker@, model(&root)),
            None => none_marked(ancestors(model(cwd)), has_marker@),
        },
{
    let candidates = candidate_roots(cwd);
    first_marked(&candidates, has_marker)
}

/// Keeps the `.cpp` files of `files`, in order.
pub fn cpp_files(files: &Vec<Vec<String>>, ext: &str) -> (r: Vec<Vec<String>>)
    ensures
        r.deep_view() == with_ext(files.deep_view(), ext@),
{
    let mut r: Vec<Vec<String>> = Vec::new();
    let mut i: usize = 0;
    assert(files.deep_view().take(0) =~= Seq::<PathModel>::empty());
    while i < files.len()
        invariant
            i <= files.len(),
            r.deep_view() == with_ext(files.deep_view().take(i as int), ext@),
        decreases files.len() - i,
    {
        let ghost pre = files.deep_view().take(i as int);
        let ghost post = files.deep_view().take(i + 1);
        assert(post.drop_last() =~= pre);
        assert(post.last() == model(&files[i as int]));
        if has_extension(&files[i], ext) {
            push_path(&mut r, copy_path(&files[i]));
            assert(r.deep_view() =~= with_ext(post, ext@));
        }
        i = i + 1;
    }
    assert(files.deep_view().take(files.len() as int) =~= files.deep_view());
    r
}

/// Collect the `*.cpp` files among `files` (everything found under `dir`),
/// sorted; an error naming `dir` where there are none.
pub fn collect_sources(dir: &Vec<String>, files: &Vec<Vec<String>>) -> (r: Result<
    Vec<Vec<String>>,
    CastleError,
>)
    ensures
        collect_sources_ok(model(dir), files.deep_view(), paths_result(r)),
{
    let cpp = cpp_files(files, "cpp");
    let out = sort_paths(cpp);
    if out.len() == 0 {
        proof {
            vstd::seq_lib::to_multiset_len(out.deep_view());
            vstd::seq_lib::to_multiset_len(with_ext(files.deep_view(), "cpp"@));
        }
        return Err(CastleError::NoSources { dir: display_path(dir) });
    }
    proof {
        vstd::seq_lib::to_multiset_len(out.deep_view());
        vstd::seq_lib::to_multiset_len(with_ext(files.deep_view(), "cpp"@));
    }
    Ok(out)
}

impl Project {
    /// The project found at `root` (the nearest directory with a project
    /// marker, if any) with the manifest read there; not inside a project
    /// where there is no such directory.
    pub fn discover(root: Option<Vec<String>>, manifest: Option<Manifest>) -> (r: Result<
        Self,
        CastleError,
    >)
        ensures
            match root {
                None => r matches Err(e) && e@ == ErrorModel::NotInProject,
                Some(root) => r matches Ok(p) && p@ == (ProjectModel {
                    root: model(&root),
                    manifest: match manifest {
                        Some(m) => Some(m@),
                        None => None,
                    },
                }),
            },
    {
        match root {
            Some(root) => Ok(Project { root, manifest }),
            None => Err(CastleError::NotInProject),
        }
    }

    /// The directory where build artifacts live (`<root>/build`).
    pub fn build_dir(&self) -> (r: Vec<String>)
        ensures
            model(&r) == build_dir_of(model(&self.root)),
    {
        child(&self.root, "build")
    }

    /// The directory whose `*.cpp` files are built (`<root>/src`).
    pub fn src_dir(&self) -> (r: Vec<String>)
        ensures
            model(&r) == src_dir_of(model(&self.root)),
    {
        child(&self.root, "src")
    }

    /// Every `*.cpp` among `files` (all files found under `<root>/src`),
    /// sorted for deterministic builds.
    pub fn sources(&self, files: &Vec<Vec<String>>) -> (r: Result<Vec<Vec<String>>, CastleError>)
        ensures
            collect_sources_ok(src_dir_of(model(&self.root)), files.deep_view(), paths_result(r)),
    {
        let dir = self.src_dir();
        collect_sources(&dir, files)
    }
}

} // verus!
