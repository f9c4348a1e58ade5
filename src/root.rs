//! Finding the project root: walking up from the working directory to the
//! first directory that holds the project's markers, one step per check.

use vstd::prelude::*;

verus! {

/// The parent of a path, as `std::path::Path::parent` gives it.
pub uninterp spec fn parent_of(path: Seq<char>) -> Option<Seq<char>>;

/// Whether `path` ends with the components of `child`, as
/// `std::path::Path::ends_with` decides it.
pub uninterp spec fn ends_with_components(path: Seq<char>, child: Seq<char>) -> bool;

/// Relies on `std::path::Path::parent`: the path without its final
/// component, if it has one. Text that came from a `&str` converts back
/// without loss.
#[verifier::external_body]
fn path_parent(path: &str) -> (r: Option<String>)
    ensures
        parent_of(path@) == (match r {
            Some(p) => Some(p@),
            None => None,
        }),
{
    match std::path::Path::new(path).parent() {
        Some(p) => Some(p.to_string_lossy().into_owned()),
        None => None,
    }
}

/// Relies on `std::path::Path::ends_with`: whether the last components of
/// `path` are those of `child`.
#[verifier::external_body]
fn path_ends_with(path: &str, child: &str) -> (r: bool)
    ensures
        r == ends_with_components(path@, child@),
{
    std::path::Path::new(path).ends_with(child)
}

/// The root taken when no directory above the working directory holds the
/// markers: the parent of an application directory `src-tauri`, otherwise
/// the working directory itself.
pub open spec fn fallback_root(cwd: Seq<char>) -> Seq<char> {
    if ends_with_components(cwd, "src-tauri"@) && parent_of(cwd) is Some {
        parent_of(cwd)->0
    } else {
        cwd
    }
}

/// The root taken once the search has passed the top of the tree.
pub fn project_root_fallback(cwd: &str) -> (r: String)
    ensures
        r@ == fallback_root(cwd@),
{
    if path_ends_with(cwd, "src-tauri") {
        match path_parent(cwd) {
            Some(p) => p,
            None => String::from_str(cwd),
        }
    } else {
        String::from_str(cwd)
    }
}

/// What the search does next.
pub enum RootStep {
    /// The project root.
    Found(String),
    /// The directory whose markers to check next.
    Check(String),
}

/// One step of the search that started at `cwd`: `dir` has just been
/// checked, and `marked` says whether it holds the project's markers. A
/// marked directory is the root; otherwise its parent is checked next, and
/// past the top the fallback root is taken.
pub fn next_root_step(cwd: &str, dir: &str, marked: bool) -> (r: RootStep)
    ensures
        marked ==> (r matches RootStep::Found(d) && d@ == dir@),
        !marked ==> match parent_of(dir@) {
            Some(p) => r matches RootStep::Check(d) && d@ == p,
            None => r matches RootStep::Found(d) && d@ == fallback_root(cwd@),
        },
{
    if marked {
        RootStep::Found(String::from_str(dir))
    } else {
        match path_parent(dir) {
            Some(p) => RootStep::Check(p),
            None => RootStep::Found(project_root_fallback(cwd)),
        }
    }
}

} // verus!
