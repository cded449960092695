use vstd::prelude::*;

use crate::locate::opt_chars;

verus! {

/// Reverse-domain qualifier of this project's configuration directory.
pub const QUALIFIER: &'static str = "org";

/// Organization of this project's configuration directory.
pub const ORGANIZATION: &'static str = "webdriver";

/// Application name of this project's configuration directory.
pub const APPLICATION: &'static str = "browser-manager";

/// Why no project directory could be had.
#[derive(Clone, Copy, Debug, PartialEq, Eq, Structural)]
pub enum DirectoryError {
    /// The platform could not say where configuration directories live.
    Unresolvable,
    /// The directory did not exist and could not be created.
    CreationFailed,
}

/// What to do next with a located configuration directory.
#[derive(Clone, Debug, PartialEq, Eq)]
pub enum DirStep {
    /// The directory exists: use it.
    Ready(String),
    /// The directory is missing: create it with its parents, then report
    /// the outcome to [`finish_project_dir`].
    Create(String),
}

/// The directory that resolution ends with, given where the platform puts
/// it (`None` when it cannot say), whether it already existed, and, when it
/// did not, whether creating it succeeded.
pub open spec fn project_dir_outcome(located: Option<Seq<char>>, existed: bool, created: bool) -> Result<
    Seq<char>,
    DirectoryError,
> {
    match located {
        None => Err(DirectoryError::Unresolvable),
        Some(d) => if existed || created {
            Ok(d)
        } else {
            Err(DirectoryError::CreationFailed)
        },
    }
}

pub open spec fn result_chars(r: Result<String, DirectoryError>) -> Result<Seq<char>, DirectoryError> {
    match r {
        Ok(s) => Ok(s@),
        Err(e) => Err(e),
    }
}

/// Relies on `directories::ProjectDirs::from` and `ProjectDirs::config_dir`:
/// the platform's configuration directory for the given project, `None`
/// when no home directory can be found. It depends on the environment, so
/// nothing is stated of the outcome.
#[verifier::external_body]
fn project_config_dir(qualifier: &str, organization: &str, application: &str) -> (r: Option<String>) {
    match directories::ProjectDirs::from(qualifier, organization, application) {
        Some(dirs) => Some(dirs.config_dir().display().to_string()),
        None => None,
    }
}

/// Where the platform puts this project's configuration directory, if it
/// can say.
pub fn locate_project_dir() -> (r: Option<String>) {
    project_config_dir(QUALIFIER, ORGANIZATION, APPLICATION)
}

/// First step of resolution: from where the directory is located and
/// whether it exists, either the directory itself, a directory to create,
/// or the error that ends resolution.
pub fn plan_project_dir(located: Option<String>, exists: bool) -> (r: Result<DirStep, DirectoryError>)
    ensures
        match r {
            Ok(DirStep::Ready(d)) => exists && located == Some(d),
            Ok(DirStep::Create(d)) => !exists && located == Some(d),
            Err(e) => located is None && e == DirectoryError::Unresolvable,
        },
        located is Some ==> r is Ok,
        forall|created: bool|
            match r {
                Ok(DirStep::Ready(d)) => #[trigger] project_dir_outcome(
                    opt_chars(located),
                    exists,
                    created,
                ) == Ok::<Seq<char>, DirectoryError>(d@),
                Ok(DirStep::Create(_)) => true,
                Err(e) => project_dir_outcome(opt_chars(located), exists, created) == Err::<
                    Seq<char>,
                    DirectoryError,
                >(e),
            },
{
    match located {
        None => Err(DirectoryError::Unresolvable),
        Some(d) => if exists {
            Ok(DirStep::Ready(d))
        } else {
            Ok(DirStep::Create(d))
        },
    }
}

/// Second step of resolution, after an attempt to create the missing
/// directory `dir`: the directory when it was created, else the error.
pub fn finish_project_dir(dir: String, created: bool) -> (r: Result<String, DirectoryError>)
    ensures
        result_chars(r) == project_dir_outcome(Some(dir@), false, created),
{
    if created {
        Ok(dir)
    } else {
        Err(DirectoryError::CreationFailed)
    }
}

/// Resolving twice gives the same directory: once a first resolution has
/// produced a directory, that directory exists, and a second resolution of
/// the same location finds it and returns it unchanged, whatever a creation
/// attempt would do.
pub proof fn lemma_project_dir_stable(
    located: Option<Seq<char>>,
    existed: bool,
    created: bool,
    created_again: bool,
)
    requires
        project_dir_outcome(located, existed, created) is Ok,
    ensures
        project_dir_outcome(located, true, created_again) == project_dir_outcome(
            located,
            existed,
            created,
        ),
{
}

} // verus!
