use vstd::prelude::*;
use crate::common::text::{concat2, text_eq};

verus! {

/// The name of the directory that holds the panel.
pub open spec fn project_dir_name() -> Seq<char> {
    "rust_panel"@
}

/// The last component of a path, by `std::path::Path::file_name`.
pub uninterp spec fn file_name_of(path: Seq<char>) -> Option<Seq<char>>;

/// The path without its last component, by `std::path::Path::parent`.
pub uninterp spec fn parent_of(path: Seq<char>) -> Option<Seq<char>>;

/// Calls `std::path::Path::file_name`; the result is named `file_name_of`.
#[verifier::external_body]
fn path_file_name(path: &str) -> (r: Option<String>)
    ensures
        match r {
            Some(n) => file_name_of(path@) == Some(n@),
            None => file_name_of(path@) is None,
        },
{
    std::path::Path::new(path).file_name().map(|n| n.to_string_lossy().into_owned())
}

/// Calls `std::path::Path::parent`; the result is named `parent_of`. The
/// parent is the path with its last component cut off, so it is shorter.
#[verifier::external_body]
fn path_parent(path: &str) -> (r: Option<String>)
    ensures
        match r {
            Some(p) => parent_of(path@) == Some(p@) && p@.len() < path@.len(),
            None => parent_of(path@) is None,
        },
{
    std::path::Path::new(path).parent().map(|p| p.to_string_lossy().into_owned())
}

/// The nearest of `path` and its ancestors whose last component is the
/// panel's directory, looking at most `fuel` levels up.
pub open spec fn project_root_within(path: Seq<char>, fuel: nat) -> Option<Seq<char>>
    decreases fuel,
{
    if fuel == 0 {
        None
    } else {
        match file_name_of(path) {
            None => None,
            Some(name) => if name == project_dir_name() {
                Some(path)
            } else {
                match parent_of(path) {
                    Some(parent) => project_root_within(parent, (fuel - 1) as nat),
                    None => None,
                }
            },
        }
    }
}

/// The nearest of `path` and its ancestors whose last component is the
/// panel's directory (`rust_panel`); each parent is shorter, so one level per
/// character is enough.
pub open spec fn project_root(path: Seq<char>) -> Option<Seq<char>> {
    project_root_within(path, path.len() + 1)
}

/// The directory of the panel that contains `path`, if any.
pub fn extract_project_name(path: &str) -> (r: Option<String>)
    ensures
        match r {
            Some(p) => project_root(path@) == Some(p@),
            None => project_root(path@) is None,
        },
{
    let mut current = String::from_str(path);
    let ghost fuel0: nat = path@.len() + 1;
    let ghost mut steps: nat = 0;
    loop
        invariant
            steps + current@.len() <= path@.len(),
            project_root(path@) == project_root_within(current@, (fuel0 - steps) as nat),
            fuel0 == path@.len() + 1,
        decreases current@.len(),
    {
        let name = path_file_name(current.as_str());
        match name {
            None => {
                return None;
            },
            Some(n) => {
                if text_eq(n.as_str(), "rust_panel") {
                    return Some(current);
                }
            },
        }
        match path_parent(current.as_str()) {
            Some(parent) => {
                proof {
                    steps = steps + 1;
                }
                current = parent;
            },
            None => {
                return None;
            },
        }
    }
}

/// The program that restarts the panel, for the operating system named
/// `os_type` (as `sys_info::os_type` names it): the panel binary in the
/// project directory on Linux and Windows; none elsewhere.
pub open spec fn restart_program_of(project_root: Seq<char>, os_type: Seq<char>) -> Option<Seq<char>> {
    if os_type == "Linux"@ {
        Some(project_root + "\\panel"@)
    } else if os_type == "Windows"@ {
        Some(project_root + "\\panel.exe"@)
    } else {
        None
    }
}

/// The program that restarts the panel on this operating system, if it can be restarted.
pub fn restart_program(project_root: &str, os_type: &str) -> (r: Option<String>)
    ensures
        match r {
            Some(p) => restart_program_of(project_root@, os_type@) == Some(p@),
            None => restart_program_of(project_root@, os_type@) is None,
        },
{
    if text_eq(os_type, "Linux") {
        Some(concat2(project_root, "\\panel"))
    } else if text_eq(os_type, "Windows") {
        Some(concat2(project_root, "\\panel.exe"))
    } else {
        None
    }
}

/// The directory found as the panel's root is named `rust_panel`.
pub proof fn lemma_project_root_is_named(path: Seq<char>, fuel: nat)
    ensures
        project_root_within(path, fuel) matches Some(root) ==> file_name_of(root) == Some(project_dir_name()),
    decreases fuel,
{
    if fuel > 0 {
        if let Some(name) = file_name_of(path) {
            if name != project_dir_name() {
                if let Some(parent) = parent_of(path) {
                    lemma_project_root_is_named(parent, (fuel - 1) as nat);
                }
            }
        }
    }
}

} // verus!
