//! How the archiving of one picture ended.

use crate::timestamp::Provenance;
use vstd::prelude::*;

verus! {

/// A picture is in the archive.
#[derive(Clone, Debug, PartialEq, Eq)]
pub enum BackupSuccess {
    /// The archive already held the picture; the path is the source's.
    AlreadyArchived(String),
    /// The picture was copied to the path, which the capture time from the
    /// given source decided.
    Copied(String, Provenance),
}

/// A picture could not be archived. The batch goes on.
#[derive(Clone, Debug, PartialEq, Eq)]
pub enum BackupFailure {
    /// Another file stands at the destination: source, then destination.
    ArchivedButDifferent(String, String),
    /// The source could not be opened, copied or compared: source, then
    /// reason.
    CopyFailed(String, String),
    /// The source path does not end in a file name.
    InvalidName(String),
}

/// The outcome of archiving one picture.
pub type BackupOutcome = Result<BackupSuccess, BackupFailure>;

/// What a `BackupSuccess` says.
pub enum SuccessView {
    AlreadyArchived(Seq<char>),
    Copied(Seq<char>, Provenance),
}

/// What a `BackupFailure` says.
pub enum FailureView {
    ArchivedButDifferent(Seq<char>, Seq<char>),
    CopyFailed(Seq<char>, Seq<char>),
    InvalidName(Seq<char>),
}

impl View for BackupSuccess {
    type V = SuccessView;

    open spec fn view(&self) -> SuccessView {
        match self {
            BackupSuccess::AlreadyArchived(source) => SuccessView::AlreadyArchived(source@),
            BackupSuccess::Copied(destination, provenance) => SuccessView::Copied(
                destination@,
                *provenance,
            ),
        }
    }
}

impl View for BackupFailure {
    type V = FailureView;

    open spec fn view(&self) -> FailureView {
        match self {
            BackupFailure::ArchivedButDifferent(source, destination) => {
                FailureView::ArchivedButDifferent(source@, destination@)
            },
            BackupFailure::CopyFailed(source, reason) => FailureView::CopyFailed(source@, reason@),
            BackupFailure::InvalidName(source) => FailureView::InvalidName(source@),
        }
    }
}

/// What an outcome says.
pub open spec fn outcome_view(outcome: BackupOutcome) -> Result<SuccessView, FailureView> {
    match outcome {
        Ok(success) => Ok(success@),
        Err(failure) => Err(failure@),
    }
}

/// The line that reports a failure.
pub open spec fn failure_line(failure: FailureView) -> Seq<char> {
    match failure {
        FailureView::ArchivedButDifferent(source, destination) => source + " => "@ + destination
            + ": already exists in the photo library but has a different content"@,
        FailureView::CopyFailed(_, reason) => "Copy error, "@ + reason,
        FailureView::InvalidName(source) => "Incorrect Filename, Incorrect file name "@ + source,
    }
}

impl BackupFailure {
    /// The line that reports this failure.
    pub fn describe(&self) -> (line: String)
        ensures
            line@ == failure_line(self@),
    {
        match self {
            BackupFailure::ArchivedButDifferent(source, destination) => {
                let mut line = source.clone();
                line.append(" => ");
                line.append(destination.as_str());
                line.append(": already exists in the photo library but has a different content");
                line
            },
            BackupFailure::CopyFailed(_, reason) => {
                let mut line = "Copy error, ".to_owned();
                line.append(reason.as_str());
                line
            },
            BackupFailure::InvalidName(source) => {
                let mut line = "Incorrect Filename, Incorrect file name ".to_owned();
                line.append(source.as_str());
                line
            },
        }
    }
}

} // verus!
