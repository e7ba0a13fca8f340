//! Which file, if any, a buffer belongs to.

use std::path::Path;
use std::string::String;
use vstd::prelude::*;
use vstd::string::StringExecFns;

verus! {

/// The path of the file behind a buffer, if it has one.
#[derive(Debug)]
pub struct FileInfo {
    path: Option<String>,
}

/// `Path::file_name`, on the path written as `path`: its last component, if
/// it has one and that component is valid Unicode. How a path is cut into
/// components depends on the platform, so nothing is claimed of the result.
#[verifier::external_body]
fn final_component(path: &str) -> (name: Option<String>) {
    Path::new(path).file_name().and_then(|name| name.to_str()).map(String::from)
}

/// The name shown for a file: its own, or `[default]` where it has none.
pub open spec fn shown_name(name: Option<Seq<char>>) -> Seq<char> {
    match name {
        Some(name) => name,
        None => "[default]"@,
    }
}

/// The name to show, given the last component of the path, if any.
pub fn name_to_show(name: Option<String>) -> (shown: String)
    ensures
        shown@ == shown_name(
            match name {
                Some(name) => Some(name@),
                None => None,
            },
        ),
{
    match name {
        Some(name) => name,
        None => String::from_str("[default]"),
    }
}

impl FileInfo {
    /// The path, as it was given.
    pub closed spec fn path(&self) -> Option<Seq<char>> {
        match self.path {
            Some(path) => Some(path@),
            None => None,
        }
    }

    /// The file at `file_name`.
    pub fn from(file_name: &str) -> (info: Self)
        ensures
            info.path() == Some(file_name@),
    {
        FileInfo { path: Some(file_name.to_owned()) }
    }

    /// The path, if there is one.
    pub fn get_path(&self) -> (path: Option<&str>)
        ensures
            match path {
                Some(path) => self.path() == Some(path@),
                None => self.path() is None,
            },
    {
        match &self.path {
            Some(path) => Some(path.as_str()),
            None => None,
        }
    }

    /// Whether there is a path.
    pub fn has_path(&self) -> (has: bool)
        ensures
            has == self.path() is Some,
    {
        self.path.is_some()
    }

    /// The file's name for display: the last component of its path, or
    /// `[default]` where there is no path or the path has no such component.
    pub fn to_string(&self) -> (shown: String)
        ensures
            self.path() is None ==> shown@ == "[default]"@,
    {
        match &self.path {
            Some(path) => name_to_show(final_component(path.as_str())),
            None => name_to_show(None),
        }
    }
}

impl Default for FileInfo {
    /// No file.
    fn default() -> (info: Self)
        ensures
            info.path() is None,
    {
        FileInfo { path: None }
    }
}

} // verus!
