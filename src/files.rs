use vstd::prelude::*;
use vstd::string::StringExecFns;
use crate::redelimit::{redelimited, Separators};

verus! {

/// The file operation that failed.
#[derive(Clone, Copy, Debug, PartialEq, Eq, Structural)]
pub enum IoStage {
    Open,
    Read,
    Create,
    Write,
}

/// A failed file operation: what failed, on which path, and the cause that the
/// system gave.
#[derive(Clone, Debug)]
pub struct FileError {
    pub stage: IoStage,
    pub path: String,
    pub cause: String,
}

/// What came of opening a file and reading it whole.
#[derive(Clone, Debug)]
pub enum ReadOutcome {
    OpenFailed(String),
    ReadFailed(String),
    Read(String),
}

/// What came of creating a file and writing it whole.
#[derive(Clone, Debug)]
pub enum WriteOutcome {
    CreateFailed(String),
    WriteFailed(String),
    Written,
}

/// The words that open the diagnostic of a failed stage.
pub open spec fn stage_prefix(stage: IoStage) -> Seq<char> {
    match stage {
        IoStage::Open => "Couldn't open file "@,
        IoStage::Read => "Couldn't read file "@,
        IoStage::Create => "Couldn't create file "@,
        IoStage::Write => "Couldn't write file "@,
    }
}

/// The one-line diagnostic of a failure: the stage, the path and the cause.
pub open spec fn error_message(stage: IoStage, path: Seq<char>, cause: Seq<char>) -> Seq<char> {
    stage_prefix(stage) + path + ": "@ + cause
}

/// The confirmation printed after a successful write.
pub open spec fn written_message(path: Seq<char>) -> Seq<char> {
    "Successfully wrote to "@ + path
}

/// Whether `e` is the failure of `stage` on `path` with `cause`.
pub open spec fn is_failure(e: FileError, stage: IoStage, path: Seq<char>, cause: Seq<char>) -> bool {
    e.stage == stage && e.path@ == path && e.cause@ == cause
}

impl FileError {
    /// The diagnostic shown to the user.
    pub fn message(&self) -> (r: String)
        ensures
            r@ == error_message(self.stage, self.path@, self.cause@),
    {
        let mut m = match self.stage {
            IoStage::Open => "Couldn't open file ".to_owned(),
            IoStage::Read => "Couldn't read file ".to_owned(),
            IoStage::Create => "Couldn't create file ".to_owned(),
            IoStage::Write => "Couldn't write file ".to_owned(),
        };
        m.append(self.path.as_str());
        m.append(": ");
        m.append(self.cause.as_str());
        m
    }
}

/// The contents of `filename` read whole, or the failure of the stage that
/// went wrong, with the path and the cause.
pub fn file_get_contents(filename: &str, outcome: ReadOutcome) -> (r: Result<String, FileError>)
    ensures
        match outcome {
            ReadOutcome::OpenFailed(cause) => r is Err && is_failure(
                r->Err_0,
                IoStage::Open,
                filename@,
                cause@,
            ),
            ReadOutcome::ReadFailed(cause) => r is Err && is_failure(
                r->Err_0,
                IoStage::Read,
                filename@,
                cause@,
            ),
            ReadOutcome::Read(text) => r is Ok && r->Ok_0@ == text@,
        },
{
    match outcome {
        ReadOutcome::OpenFailed(cause) => Err(
            FileError { stage: IoStage::Open, path: filename.to_owned(), cause },
        ),
        ReadOutcome::ReadFailed(cause) => Err(
            FileError { stage: IoStage::Read, path: filename.to_owned(), cause },
        ),
        ReadOutcome::Read(text) => Ok(text),
    }
}

/// The confirmation for a write of `filename` that succeeded, or the failure
/// of the stage that went wrong, with the path and the cause.
pub fn file_put_contents(filename: &str, outcome: WriteOutcome) -> (r: Result<String, FileError>)
    ensures
        match outcome {
            WriteOutcome::CreateFailed(cause) => r is Err && is_failure(
                r->Err_0,
                IoStage::Create,
                filename@,
                cause@,
            ),
            WriteOutcome::WriteFailed(cause) => r is Err && is_failure(
                r->Err_0,
                IoStage::Write,
                filename@,
                cause@,
            ),
            WriteOutcome::Written => r is Ok && r->Ok_0@ == written_message(filename@),
        },
{
    match outcome {
        WriteOutcome::CreateFailed(cause) => Err(
            FileError { stage: IoStage::Create, path: filename.to_owned(), cause },
        ),
        WriteOutcome::WriteFailed(cause) => Err(
            FileError { stage: IoStage::Write, path: filename.to_owned(), cause },
        ),
        WriteOutcome::Written => {
            let mut m = "Successfully wrote to ".to_owned();
            m.append(filename);
            Ok(m)
        },
    }
}

/// The text to write to the destination: the contents of `source`,
/// re-delimited. A failed open or read gives its error, and nothing to write.
pub fn redelimit_source(source: &str, outcome: ReadOutcome, seps: Separators) -> (r: Result<
    String,
    FileError,
>)
    ensures
        match outcome {
            ReadOutcome::OpenFailed(cause) => r is Err && is_failure(
                r->Err_0,
                IoStage::Open,
                source@,
                cause@,
            ),
            ReadOutcome::ReadFailed(cause) => r is Err && is_failure(
                r->Err_0,
                IoStage::Read,
                source@,
                cause@,
            ),
            ReadOutcome::Read(text) => r is Ok && r->Ok_0@ == redelimited(text@, seps.src, seps.dst),
        },
{
    match file_get_contents(source, outcome) {
        Ok(text) => Ok(seps.apply(text.as_str())),
        Err(e) => Err(e),
    }
}

} // verus!
