//! Projects: where the workflows of a repository are looked for, and why the
//! search may come to nothing. Paths are held as text; whoever walks the file
//! system hands them over.
use crate::text::{characters, ends_with};
use vstd::prelude::*;

verus! {

/// Why no project could be made of a directory.
#[derive(Debug, Copy, Clone, PartialEq, Eq, Structural)]
pub enum InitFailureReason {
    NoWorkflows,
    DirectoryNotFound,
    NotADirectory,
}

impl InitFailureReason {
    /// What a reason is shown as.
    pub open spec fn text(self) -> Seq<char> {
        match self {
            InitFailureReason::NoWorkflows => "no workflows found in directory"@,
            InitFailureReason::DirectoryNotFound => "directory not found"@,
            InitFailureReason::NotADirectory => "not a directory"@,
        }
    }

    pub fn to_string(&self) -> (shown: String)
        ensures
            shown@ == self.text(),
    {
        match self {
            InitFailureReason::NoWorkflows => String::from_str("no workflows found in directory"),
            InitFailureReason::DirectoryNotFound => String::from_str("directory not found"),
            InitFailureReason::NotADirectory => String::from_str("not a directory"),
        }
    }
}

/// A directory of which no project could be made, and why.
#[derive(Debug)]
pub struct InitFailure {
    pub reason: InitFailureReason,
    pub path: String,
}

impl InitFailure {
    fn new(p: String, reason: InitFailureReason) -> (failure: InitFailure)
        ensures
            failure.reason == reason,
            failure.path == p,
    {
        InitFailure { reason, path: p }
    }

    /// The directory `p` holds no workflow.
    pub fn no_workflows(p: String) -> (failure: InitFailure)
        ensures
            failure.reason == InitFailureReason::NoWorkflows,
            failure.path == p,
    {
        InitFailure::new(p, InitFailureReason::NoWorkflows)
    }

    /// There is no directory `p`.
    pub fn dir_not_found(p: String) -> (failure: InitFailure)
        ensures
            failure.reason == InitFailureReason::DirectoryNotFound,
            failure.path == p,
    {
        InitFailure::new(p, InitFailureReason::DirectoryNotFound)
    }

    /// `p` is there and is no directory.
    pub fn not_dir(p: String) -> (failure: InitFailure)
        ensures
            failure.reason == InitFailureReason::NotADirectory,
            failure.path == p,
    {
        InitFailure::new(p, InitFailureReason::NotADirectory)
    }

    /// What a failure is shown as: the path, a colon and the reason.
    pub open spec fn text(self) -> Seq<char> {
        self.path@ + ": "@ + self.reason.text()
    }

    pub fn to_string(&self) -> (shown: String)
        ensures
            shown@ == self.text(),
    {
        let reason = self.reason.to_string();
        self.path.clone().concat(": ").concat(reason.as_str())
    }
}

/// Whether `path` can be the root of a project: it must be there (`exists`)
/// and be a directory (`is_dir`). What is not there is not asked whether it
/// is a directory.
pub fn check_root(path: String, exists: bool, is_dir: bool) -> (checked: Result<(), InitFailure>)
    ensures
        match checked {
            Ok(_) => exists && is_dir,
            Err(failure) => failure.path == path && failure.reason == if !exists {
                InitFailureReason::DirectoryNotFound
            } else {
                InitFailureReason::NotADirectory
            } && !(exists && is_dir),
        },
{
    if !exists {
        Err(InitFailure::dir_not_found(path))
    } else if !is_dir {
        Err(InitFailure::not_dir(path))
    } else {
        Ok(())
    }
}

/// Whether a directory in which `found` workflows were found makes a
/// project: it must hold one at least.
pub fn check_workflows(path: String, found: usize) -> (checked: Result<(), InitFailure>)
    ensures
        match checked {
            Ok(_) => found > 0,
            Err(failure) => found == 0 && failure.path == path && failure.reason
                == InitFailureReason::NoWorkflows,
        },
{
    if found == 0 {
        Err(InitFailure::no_workflows(path))
    } else {
        Ok(())
    }
}

/// Whether a file of this extension holds a workflow: its extension ends in
/// `yaml` or in `yml`.
pub fn is_workflow_extension(extension: &str) -> (is_workflow: bool)
    ensures
        is_workflow == ("yaml"@.is_suffix_of(extension@) || "yml"@.is_suffix_of(extension@)),
{
    let ext = characters(extension);
    let long = characters("yaml");
    let short = characters("yml");
    ends_with(ext.as_slice(), long.as_slice()) || ends_with(ext.as_slice(), short.as_slice())
}

/// Where a project is rooted: a directory that was named, or the directory
/// that the program runs in.
#[derive(Debug)]
pub enum ProjectRoot {
    Explicit(String),
    WorkingDirectory,
}

impl ProjectRoot {
    /// What a root is shown as: the directory that was named, or a dot.
    pub open spec fn text(self) -> Seq<char> {
        match self {
            ProjectRoot::Explicit(dir) => dir@,
            ProjectRoot::WorkingDirectory => "."@,
        }
    }

    pub fn to_string(&self) -> (shown: String)
        ensures
            shown@ == self.text(),
    {
        match self {
            ProjectRoot::Explicit(dir) => dir.clone(),
            ProjectRoot::WorkingDirectory => String::from_str("."),
        }
    }
}

} // verus!
