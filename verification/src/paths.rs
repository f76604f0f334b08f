//! Where the directory keeps its files.
//!
//! Paths belong to the platform: they are built by the standard library and
//! carried through as they are. What the standard library returns for a path
//! and a name is named here, and the rules speak of that name.

use vstd::prelude::*;
use vstd::string::*;
use std::path::PathBuf;

verus! {

/// `std::path::PathBuf`, a path of the platform.
#[verifier::external_type_specification]
#[verifier::external_body]
pub struct ExPathBuf(PathBuf);

/// The file of the database, inside the directory of the application's
/// data.
pub const DATABASE_FILE: &'static str = "staff_database.db";

/// The folder for downloads, inside a user's home.
pub const DOWNLOADS_FOLDER: &'static str = "Downloads";

/// The error of a search for the folder for downloads that found none.
pub const NO_DOWNLOADS: &'static str = "Could not find Downloads directory";

/// The path that the standard library makes of `base` and `name`: on one
/// platform it depends on the two alone.
pub uninterp spec fn joined_path(base: PathBuf, name: Seq<char>) -> PathBuf;

/// `std::path::Path::join`: a new path, made of `base` with `name` adjoined
/// by the rules of the platform.
#[verifier::external_body]
pub(crate) fn join_path(base: &PathBuf, name: &str) -> (path: PathBuf)
    ensures
        path == joined_path(*base, name@),
{
    base.join(name)
}

/// The path of the database under the directory of the application's data.
pub fn get_database_path(app_data_dir: &PathBuf) -> (path: PathBuf)
    ensures
        path == joined_path(*app_data_dir, DATABASE_FILE@),
{
    join_path(app_data_dir, DATABASE_FILE)
}

/// The folder for downloads under a user's home.
pub fn downloads_under(home: &PathBuf) -> (path: PathBuf)
    ensures
        path == joined_path(*home, DOWNLOADS_FOLDER@),
{
    join_path(home, DOWNLOADS_FOLDER)
}

/// The first of the places for downloads that is there.
pub open spec fn first_place(
    known: Option<PathBuf>,
    under_home: Option<PathBuf>,
    under_profile: Option<PathBuf>,
) -> Option<PathBuf> {
    match known {
        Some(path) => Some(path),
        None => match under_home {
            Some(path) => Some(path),
            None => under_profile,
        },
    }
}

/// Chooses the folder for downloads: the one that the system knows of,
/// else the one under the user's home, else the one under the user's
/// profile, each given only where it exists. Fails where none is given.
pub fn choose_downloads_dir(
    known: Option<PathBuf>,
    under_home: Option<PathBuf>,
    under_profile: Option<PathBuf>,
) -> (result: Result<PathBuf, String>)
    ensures
        match first_place(known, under_home, under_profile) {
            Some(path) => result == Ok::<PathBuf, String>(path),
            None => result matches Err(error) && error@ == NO_DOWNLOADS@,
        },
{
    match known {
        Some(path) => Ok(path),
        None => match under_home {
            Some(path) => Ok(path),
            None => match under_profile {
                Some(path) => Ok(path),
                None => Err(String::from_str(NO_DOWNLOADS)),
            },
        },
    }
}

} // verus!
