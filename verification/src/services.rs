use vstd::prelude::*;

use crate::path_util::ends_with_slash;
use crate::path_util::spec_ends_with_slash;
use crate::types::Error;
use crate::types::ErrorKind;

verus! {

#[verifier::external_type_specification]
#[verifier::external_body]
pub struct ExStatusCode(http::StatusCode);

/// Relies on http::StatusCode::as_u16: it returns the numeric code, which
/// the crate only ever constructs in the range 100..=999.
#[verifier::external_body]
fn status_code_value(s: &http::StatusCode) -> (r: u16)
    ensures
        100 <= r < 1000,
{
    s.as_u16()
}

/// How one DBFS delete status is interpreted: the server answers OK even
/// when the path does not exist, so OK alone means deleted; any other code
/// is surfaced as an error.
pub fn interpret_dbfs_delete_status(code: u16) -> (r: Result<(), Error>)
    ensures
        code == 200 ==> r is Ok,
        code != 200 ==> (r matches Err(e) && e.kind == ErrorKind::Unexpected),
{
    if code == 200 {
        Ok(())
    } else {
        Err(Error::new(ErrorKind::Unexpected, "the backend answered an unexpected status code"))
    }
}

/// Deletes one path on a DBFS backend; the HTTP request itself is made by
/// whoever drives this deleter, which only judges the answered status.
pub struct DbfsDeleter {}

impl DbfsDeleter {
    pub fn new() -> (d: DbfsDeleter) {
        DbfsDeleter {}
    }

    /// Completes one delete from the status the backend answered for `path`.
    pub fn delete_once(&self, path: String, status: http::StatusCode) -> (r: Result<(), Error>) {
        let code = status_code_value(&status);
        interpret_dbfs_delete_status(code)
    }
}

/// Which remote removal one SFTP delete performs.
#[derive(Clone, Copy, PartialEq, Eq, Structural, Debug)]
pub enum SftpRemoval {
    RemoveDir,
    RemoveFile,
}

/// What the remote removal reported back.
#[derive(Clone, Copy, Debug)]
pub enum SftpOutcome {
    Removed,
    NotFound,
    Failed(Error),
}

/// Deletes one path on an SFTP backend; the remote calls themselves are made
/// by whoever drives this deleter, which chooses the removal and judges the
/// outcome.
pub struct SftpDeleter {}

impl SftpDeleter {
    pub fn new() -> (d: SftpDeleter) {
        SftpDeleter {}
    }

    /// A trailing slash names a directory: remove a directory there, a file
    /// everywhere else.
    pub fn removal_kind(&self, path: &str) -> (k: SftpRemoval)
        ensures
            k == SftpRemoval::RemoveDir <==> spec_ends_with_slash(path@),
    {
        if ends_with_slash(path) {
            SftpRemoval::RemoveDir
        } else {
            SftpRemoval::RemoveFile
        }
    }

    /// Completes one delete from the removal outcome: success and a missing
    /// path both count as deleted; any other failure passes through.
    pub fn delete_once(&self, path: String, outcome: SftpOutcome) -> (r: Result<(), Error>)
        ensures
            outcome is Removed ==> r is Ok,
            outcome is NotFound ==> r is Ok,
            outcome matches SftpOutcome::Failed(e) ==> r == Err::<(), Error>(e),
    {
        match outcome {
            SftpOutcome::Removed => Ok(()),
            SftpOutcome::NotFound => Ok(()),
            SftpOutcome::Failed(e) => Err(e),
        }
    }
}

} // verus!
