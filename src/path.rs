//! Resolution of a file path typed by the user into an absolute path whose
//! parent directory exists.
use vstd::prelude::*;
use vstd::string::StringExecFns;
use crate::InteractiveTui;
use crate::text::{trim, trimmed};

verus! {

#[verifier::external_type_specification]
#[verifier::external_body]
pub struct ExPathBuf(std::path::PathBuf);

/// What `Path::file_name` finds in a path: its final component, if any.
pub uninterp spec fn file_name_part(path: Seq<char>) -> Option<Seq<char>>;

/// What `Path::join` makes of a directory and a name, as text, where the
/// result is valid Unicode.
pub uninterp spec fn joined_path(dir: Seq<char>, name: Seq<char>) -> Option<Seq<char>>;

/// Whether `t` is what joining some directory with the name `f` gives.
pub open spec fn joins_to(f: Seq<char>, t: Seq<char>) -> bool {
    exists|c: Seq<char>| #[trigger] joined_path(c, f) == Some(t)
}

/// What `Path::parent` finds in a path: the path without its final
/// component, if any.
pub uninterp spec fn parent_part(path: Seq<char>) -> Option<Seq<char>>;

/// Relies on `Path::file_name`: the final component of the path, a function
/// of the text alone. A component of a path made from text is text, so the
/// conversion back loses nothing.
#[verifier::external_body]
fn file_name_of(path: &str) -> (r: Option<String>)
    ensures
        r is Some <==> file_name_part(path@) is Some,
        r matches Some(n) ==> file_name_part(path@) == Some(n@),
{
    match std::path::Path::new(path).file_name() {
        Some(n) => Some(n.to_string_lossy().into_owned()),
        None => None,
    }
}

/// Relies on `Path::parent`: the path without its final component, a
/// function of the text alone. Part of a path made from text is text, so the
/// conversion back loses nothing.
#[verifier::external_body]
fn parent_of(path: &str) -> (r: Option<String>)
    ensures
        r is Some <==> parent_part(path@) is Some,
        r matches Some(p) ==> parent_part(path@) == Some(p@),
{
    match std::path::Path::new(path).parent() {
        Some(p) => Some(p.to_string_lossy().into_owned()),
        None => None,
    }
}

/// Relies on `Path::canonicalize`: the absolute form of the path, or nothing
/// where it cannot be resolved. The outcome depends on the file system.
#[verifier::external_body]
fn canonical_form(path: &str) -> (r: Option<std::path::PathBuf>) {
    std::path::Path::new(path).canonicalize().ok()
}

/// Relies on `Path::exists`; the outcome depends on the file system.
#[verifier::external_body]
fn path_exists(p: &std::path::PathBuf) -> (r: bool) {
    p.exists()
}

/// Relies on `Path::is_dir`; the outcome depends on the file system.
#[verifier::external_body]
fn path_is_dir(p: &std::path::PathBuf) -> (r: bool) {
    p.is_dir()
}

/// Relies on `Path::to_str`: the path as text where it is valid Unicode.
/// The outcome depends on the path that the file system gave.
#[verifier::external_body]
fn path_as_text(p: &std::path::PathBuf) -> (r: Option<String>) {
    p.to_str().map(String::from)
}

/// Relies on `Path::join` and `OsString::into_string`: the name appended to
/// the directory, given back as text where the result is valid Unicode; a
/// function of the two texts alone.
#[verifier::external_body]
fn join_text(dir: &str, name: &str) -> (r: Option<String>)
    ensures
        r is Some <==> joined_path(dir@, name@) is Some,
        r matches Some(t) ==> joined_path(dir@, name@) == Some(t@),
{
    std::path::Path::new(dir).join(name).into_os_string().into_string().ok()
}

/// Why a path was refused.
#[derive(Clone, Copy, Debug, PartialEq, Eq, Structural)]
pub enum PathError {
    /// The path has no file name.
    NoFileName,
    /// The path has no parent directory.
    NoParent,
    /// The parent directory cannot be resolved.
    Unresolvable,
    /// The parent is not an existing directory.
    NotADirectory,
    /// The resolved path is not valid Unicode.
    NotText,
}

impl PathError {
    /// The message shown for the error.
    pub open spec fn text(&self) -> Seq<char> {
        match self {
            PathError::NoFileName => "Invalid path. Please enter a valid file name."@,
            PathError::NoParent => "Failed to get parent directory. Please enter a valid path."@,
            PathError::Unresolvable => "Failed to canonicalize path. Please enter a valid path."@,
            PathError::NotADirectory =>
                "Parent path is not a directory. Please enter a valid path."@,
            PathError::NotText => "Failed to convert path to string. Please enter a valid path."@,
        }
    }

    /// The message shown for the error.
    pub fn message(&self) -> (r: String)
        ensures
            r@ == self.text(),
    {
        match self {
            PathError::NoFileName => String::from_str(
                "Invalid path. Please enter a valid file name.",
            ),
            PathError::NoParent => String::from_str(
                "Failed to get parent directory. Please enter a valid path.",
            ),
            PathError::Unresolvable => String::from_str(
                "Failed to canonicalize path. Please enter a valid path.",
            ),
            PathError::NotADirectory => String::from_str(
                "Parent path is not a directory. Please enter a valid path.",
            ),
            PathError::NotText => String::from_str(
                "Failed to convert path to string. Please enter a valid path.",
            ),
        }
    }
}

/// Whether a message is one of those for a parent directory that the file
/// system refused: it cannot be resolved, is not a directory, or resolves to
/// a path that is not text.
pub open spec fn lookup_failure(m: Seq<char>) -> bool {
    ||| m == PathError::Unresolvable.text()
    ||| m == PathError::NotADirectory.text()
    ||| m == PathError::NotText.text()
}

/// The message for the first lookup step that failed: the parent could not
/// be canonicalised, else it is not an existing directory, else the joined
/// path is not text.
pub open spec fn lookup_message(resolved: bool, is_dir: bool) -> Seq<char> {
    if !resolved {
        PathError::Unresolvable.text()
    } else if !is_dir {
        PathError::NotADirectory.text()
    } else {
        PathError::NotText.text()
    }
}

/// Decides a path from the outcomes of looking up its parent directory and
/// joins it with the file name `name`: `resolved` tells whether the parent
/// could be canonicalised, `is_dir` whether the canonical parent is an
/// existing directory, and `parent_text` is the canonical parent as text,
/// where it is text. The result is the canonical parent joined with the name.
pub fn finish_lookup(
    resolved: bool,
    is_dir: bool,
    parent_text: Option<String>,
    name: &str,
) -> (r: Result<String, String>)
    ensures
        (r is Ok) == (resolved && is_dir && (parent_text matches Some(c) && joined_path(
            c@,
            name@,
        ) is Some)),
        r matches Ok(t) ==> (parent_text matches Some(c) && joined_path(c@, name@) == Some(t@)),
        r matches Err(m) ==> m@ == lookup_message(resolved, is_dir),
{
    if !resolved {
        return Err(PathError::Unresolvable.message());
    }
    if !is_dir {
        return Err(PathError::NotADirectory.message());
    }
    let joined = match &parent_text {
        Some(c) => join_text(c.as_str(), name),
        None => None,
    };
    match joined {
        Some(t) => Ok(t),
        None => Err(PathError::NotText.message()),
    }
}

/// The directory to look up and the file name of a path: its parent, with
/// the current directory standing for an empty parent, and its final
/// component.
pub open spec fn target_parts(path: Seq<char>) -> Result<(Seq<char>, Seq<char>), PathError> {
    match file_name_part(path) {
        None => Err(PathError::NoFileName),
        Some(f) => match parent_part(path) {
            None => Err(PathError::NoParent),
            Some(p) => Ok((if p.len() == 0 { seq!['.'] } else { p }, f)),
        },
    }
}

/// Splits a path into the directory to look up and the file name.
pub fn split_target(path: &str) -> (r: Result<(String, String), PathError>)
    ensures
        r matches Ok((d, f)) ==> target_parts(path@) == Ok::<_, PathError>((d@, f@)),
        r matches Err(e) ==> target_parts(path@) == Err::<(Seq<char>, Seq<char>), _>(e),
{
    let file_name = match file_name_of(path) {
        Some(f) => f,
        None => return Err(PathError::NoFileName),
    };
    let parent = match parent_of(path) {
        Some(p) => p,
        None => return Err(PathError::NoParent),
    };
    let dir = if parent.as_str().is_empty() {
        let here = String::from_str(".");
        proof {
            reveal_strlit(".");
        }
        assert(here@ =~= seq!['.']);
        here
    } else {
        parent
    };
    Ok((dir, file_name))
}

impl InteractiveTui {
    /// Resolves a path to an absolute one whose parent directory exists: the
    /// parent is canonicalised (the current directory where the path has
    /// none) and the file name appended. The file itself need not exist.
    /// An error carries the message to show.
    pub fn get_absolute_path(path: &str) -> (r: Result<String, String>)
        ensures
            target_parts(path@) matches Err(e) ==> (r matches Err(m) && m@ == e.text()),
            target_parts(path@) matches Ok((d, f)) ==> (r matches Ok(t) ==> joins_to(f, t@)),
            target_parts(path@) is Ok ==> (r matches Err(m) ==> lookup_failure(m@)),
    {
        let parts = split_target(path);
        let (dir, file_name) = match parts {
            Ok(parts) => parts,
            Err(e) => return Err(e.message()),
        };
        assert(target_parts(path@) == Ok::<_, PathError>((dir@, file_name@)));
        let canonical = canonical_form(dir.as_str());
        let resolved = canonical.is_some();
        let (is_dir, parent_text) = match &canonical {
            Some(p) => {
                let is_dir = path_exists(p) && path_is_dir(p);
                (is_dir, path_as_text(p))
            },
            None => (false, None),
        };
        let r = finish_lookup(resolved, is_dir, parent_text, file_name.as_str());
        proof {
            if r is Ok {
                assert(joined_path(parent_text->0@, file_name@) == Some(r->Ok_0@));
            }
        }
        r
    }

    /// Resolves one line as typed: it is trimmed, then resolved as
    /// `get_absolute_path` does.
    pub fn absolute_path_from_line(line: &str) -> (r: Result<String, String>)
        ensures
            target_parts(trimmed(line@)) matches Err(e) ==> (r matches Err(m) && m@ == e.text()),
            target_parts(trimmed(line@)) matches Ok((d, f)) ==> (r matches Ok(t) ==> joins_to(
                f,
                t@,
            )),
            target_parts(trimmed(line@)) is Ok ==> (r matches Err(m) ==> lookup_failure(m@)),
    {
        InteractiveTui::get_absolute_path(trim(line))
    }
}

} // verus!
