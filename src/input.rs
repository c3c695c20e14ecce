//! Where the input workbook comes from.

use vstd::prelude::*;
use std::path::PathBuf;
use crate::errors::InputError;

verus! {

#[verifier::external_type_specification]
#[verifier::external_body]
pub struct ExPathBuf(std::path::PathBuf);

/// Relies on `PathBuf`'s `Clone`, which returns a copy of the same path.
pub assume_specification[ <std::path::PathBuf as Clone>::clone ](p: &std::path::PathBuf) -> (r: std::path::PathBuf)
    ensures
        r == *p,
;

/// The input file named on the command line, if any.
pub struct FileInputHandler {
    file_path: Option<PathBuf>,
}

impl FileInputHandler {
    pub fn new(file_path: Option<PathBuf>) -> (r: Self)
        ensures
            r.path() == file_path,
    {
        Self { file_path }
    }

    pub closed spec fn path(&self) -> Option<PathBuf> {
        self.file_path
    }

    /// The configured path; `FileNotFound` when none was given.
    pub fn get_file_path(&self) -> (r: Result<PathBuf, InputError>)
        ensures
            self.path() is Some <==> r is Ok,
            r is Ok ==> r->Ok_0 == self.path()->Some_0,
            self.path() is None ==> r is Err && r->Err_0 is FileNotFound && r->Err_0->FileNotFound_0@
                == "No file path provided"@,
    {
        match &self.file_path {
            Some(path) => Ok(path.clone()),
            None => Err(InputError::FileNotFound(String::from_str("No file path provided"))),
        }
    }
}

} // verus!
