//! Archiving one picture, step by step.
//!
//! A `Job` decides; its caller acts. The job asks for one thing at a time
//! (`Request`), the caller does it and hands back what it saw (`Reply`), and
//! the job answers with the next request, with the outcome, or with the
//! reason why the whole run must stop.

use crate::duplicate::{is_same, same_picture};
use crate::fatal::{Fatal, FatalView};
use crate::outcome::{BackupFailure, BackupOutcome, BackupSuccess, FailureView, SuccessView};
use crate::paths::{file_name, file_name_of, join, joined};
use crate::planner::{directory_of, plan};
use crate::resolver::{
    embedded_capture_time, embedded_capture_time_of, tool_capture_time, tool_capture_time_of,
    ToolAnswer,
};
use crate::timestamp::{
    capture_time_of_file_time, modified_capture_time, CaptureTimestamp, FileTime, Provenance,
};
use vstd::prelude::*;

verus! {

/// What a job asks its caller to do next.
#[derive(Clone, Copy, Debug, PartialEq, Eq, Structural)]
pub enum Request {
    /// Open the source and read its bytes.
    ReadSource,
    /// Run the external metadata tool on the source.
    QueryTool,
    /// Read the source's last-modified time.
    ReadModifiedTime,
    /// Make sure that the job's directory exists.
    EnsureDirectory,
    /// Look whether a file stands at the job's destination.
    ProbeDestination,
    /// Copy the source to the job's destination, byte for byte.
    CopySource,
    /// Measure the source and the file at the job's destination.
    CompareLengths,
}

/// What the caller saw when it did what a job asked.
#[derive(Clone, Debug, PartialEq, Eq)]
pub enum Reply {
    /// The bytes of the source.
    SourceBytes(Vec<u8>),
    /// The source cannot be opened or read, and why.
    SourceUnreadable(String),
    /// How the tool answered.
    ToolAnswer(ToolAnswer),
    /// The last-modified time.
    ModifiedTime(FileTime),
    /// The last-modified time cannot be read, and why.
    ModifiedTimeUnreadable(String),
    /// The directory is there.
    DirectoryReady,
    /// Something that is no directory stands at the directory's path.
    DirectoryBlocked,
    /// The directory cannot be created, and why.
    DirectoryNotCreated(String),
    /// Whether a file stands at the destination.
    DestinationFound(bool),
    /// The copy is made.
    CopyDone,
    /// The copy cannot be made, and why.
    CopyNotDone(String),
    /// The lengths in bytes of the source and of the file at the
    /// destination.
    Lengths(u64, u64),
    /// One of the two cannot be measured, and why.
    LengthsUnreadable(String),
}

/// A job's answer to a reply.
#[derive(Debug, PartialEq, Eq)]
pub enum Step {
    /// The caller does this next.
    Ask(Request),
    /// The picture is dealt with.
    Finished(BackupOutcome),
    /// The run must stop.
    Aborted(Fatal),
}

/// What a `Step` says.
pub enum StepView {
    Ask(Request),
    Finished(Result<SuccessView, FailureView>),
    Aborted(FatalView),
}

impl View for Step {
    type V = StepView;

    open spec fn view(&self) -> StepView {
        match self {
            Step::Ask(request) => StepView::Ask(*request),
            Step::Finished(Ok(success)) => StepView::Finished(Ok(success@)),
            Step::Finished(Err(failure)) => StepView::Finished(Err(failure@)),
            Step::Aborted(fatal) => StepView::Aborted(fatal@),
        }
    }
}

/// The archiving of one picture, as far as it has come.
#[derive(Debug)]
pub struct Job {
    root: String,
    source: String,
    pending: Option<Request>,
    taken: Option<(CaptureTimestamp, Provenance)>,
    directory: String,
    destination: String,
}

/// What a `Job` holds.
pub struct JobView {
    /// The root of the archive.
    pub root: Seq<char>,
    /// The path of the picture.
    pub source: Seq<char>,
    /// The request that the caller owes a reply to; `None` once the job has
    /// ended.
    pub pending: Option<Request>,
    /// The capture time and its source, once resolved.
    pub taken: Option<(CaptureTimestamp, Provenance)>,
    /// The directory of the capture day, once planned.
    pub directory: Seq<char>,
    /// The path that the picture goes to, once known.
    pub destination: Seq<char>,
}

impl View for Job {
    type V = JobView;

    closed spec fn view(&self) -> JobView {
        JobView {
            root: self.root@,
            source: self.source@,
            pending: self.pending,
            taken: self.taken,
            directory: self.directory@,
            destination: self.destination@,
        }
    }
}

impl JobView {
    /// The capture time is resolved and the directory is that of its day.
    pub open spec fn is_planned(self) -> bool {
        self.taken matches Some((taken, _)) && self.directory == directory_of(self.root, taken)
    }

    /// The job is planned, and the destination is the source's file name in
    /// the directory.
    pub open spec fn is_placed(self) -> bool {
        self.is_planned() && (file_name_of(self.source) matches Some(name) && self.destination
            == joined(self.directory, name))
    }

    /// What the job holds is what its pending request needs: a job that
    /// asks for its directory is planned, and one that asks about its
    /// destination is placed.
    pub open spec fn is_coherent(self) -> bool {
        match self.pending {
            Some(Request::EnsureDirectory) => self.is_planned(),
            Some(Request::ProbeDestination) => self.is_placed(),
            Some(Request::CopySource) => self.is_placed(),
            Some(Request::CompareLengths) => self.is_placed(),
            _ => true,
        }
    }
}

/// A job that has just been opened: it waits for the bytes of the source.
pub open spec fn opened(root: Seq<char>, source: Seq<char>) -> JobView {
    JobView {
        root,
        source,
        pending: Some(Request::ReadSource),
        taken: None,
        directory: Seq::empty(),
        destination: Seq::empty(),
    }
}

/// The request that consults a source of capture times.
pub open spec fn request_for(source: Provenance) -> Request {
    match source {
        Provenance::EmbeddedMetadata => Request::ReadSource,
        Provenance::ExternalToolMetadata => Request::QueryTool,
        Provenance::FilesystemModifiedTime => Request::ReadModifiedTime,
    }
}

/// The source of capture times that is consulted after `source`.
pub open spec fn source_after(source: Provenance) -> Option<Provenance> {
    match source {
        Provenance::EmbeddedMetadata => Some(Provenance::ExternalToolMetadata),
        Provenance::ExternalToolMetadata => Some(Provenance::FilesystemModifiedTime),
        Provenance::FilesystemModifiedTime => None,
    }
}

/// Why a source that cannot be opened is not archived.
pub open spec fn open_reason(source: Seq<char>, detail: Seq<char>) -> Seq<char> {
    "cannot open the "@ + source + " file: "@ + detail
}

/// Why a source that cannot be copied is not archived.
pub open spec fn copy_reason(
    source: Seq<char>,
    destination: Seq<char>,
    detail: Seq<char>,
) -> Seq<char> {
    "cannot copy the "@ + source + " file to "@ + destination + ": "@ + detail
}

/// Why a source that cannot be compared with the file at its destination is
/// not archived.
pub open spec fn compare_reason(
    source: Seq<char>,
    destination: Seq<char>,
    detail: Seq<char>,
) -> Seq<char> {
    "cannot compare the "@ + source + " file with "@ + destination + ": "@ + detail
}

/// The job goes on with `request`.
pub open spec fn asking(job: JobView, request: Request) -> (JobView, StepView) {
    (JobView { pending: Some(request), ..job }, StepView::Ask(request))
}

/// The job ends with `outcome`.
pub open spec fn finishing(job: JobView, outcome: Result<SuccessView, FailureView>) -> (
    JobView,
    StepView,
) {
    (JobView { pending: None, ..job }, StepView::Finished(outcome))
}

/// The job ends and the run with it.
pub open spec fn aborting(job: JobView, fatal: FatalView) -> (JobView, StepView) {
    (JobView { pending: None, ..job }, StepView::Aborted(fatal))
}

/// What follows the consultation of `source`: with a capture time the job
/// plans its directory and asks for it; without one it consults the next
/// source, and after the last of them the run stops.
pub open spec fn after_consulting(
    job: JobView,
    source: Provenance,
    found: Option<CaptureTimestamp>,
) -> (JobView, StepView) {
    match found {
        Some(taken) => asking(
            JobView {
                taken: Some((taken, source)),
                directory: directory_of(job.root, taken),
                ..job
            },
            Request::EnsureDirectory,
        ),
        None => match source_after(source) {
            Some(next) => asking(job, request_for(next)),
            None => aborting(job, FatalView::ModifiedTimeOutOfRange(job.source)),
        },
    }
}

/// The job after `reply`, and its answer.
pub open spec fn next_of(job: JobView, reply: Reply) -> (JobView, StepView) {
    match (job.pending, reply) {
        (Some(Request::ReadSource), Reply::SourceBytes(bytes)) => after_consulting(
            job,
            Provenance::EmbeddedMetadata,
            embedded_capture_time_of(bytes@),
        ),
        (Some(Request::ReadSource), Reply::SourceUnreadable(detail)) => finishing(
            job,
            Err(FailureView::CopyFailed(job.source, open_reason(job.source, detail@))),
        ),
        (Some(Request::QueryTool), Reply::ToolAnswer(answer)) => after_consulting(
            job,
            Provenance::ExternalToolMetadata,
            tool_capture_time_of(answer),
        ),
        (Some(Request::ReadModifiedTime), Reply::ModifiedTime(modified)) => after_consulting(
            job,
            Provenance::FilesystemModifiedTime,
            capture_time_of_file_time(modified),
        ),
        (Some(Request::ReadModifiedTime), Reply::ModifiedTimeUnreadable(detail)) => aborting(
            job,
            FatalView::ModifiedTimeUnreadable(job.source, detail@),
        ),
        (Some(Request::EnsureDirectory), Reply::DirectoryReady) => match file_name_of(job.source) {
            Some(name) => asking(
                JobView { destination: joined(job.directory, name), ..job },
                Request::ProbeDestination,
            ),
            None => finishing(job, Err(FailureView::InvalidName(job.source))),
        },
        (Some(Request::EnsureDirectory), Reply::DirectoryBlocked) => aborting(
            job,
            FatalView::DirectoryBlocked(job.directory),
        ),
        (Some(Request::EnsureDirectory), Reply::DirectoryNotCreated(detail)) => aborting(
            job,
            FatalView::DirectoryNotCreated(job.directory, detail@),
        ),
        (Some(Request::ProbeDestination), Reply::DestinationFound(found)) => if found {
            asking(job, Request::CompareLengths)
        } else {
            asking(job, Request::CopySource)
        },
        (Some(Request::CopySource), Reply::CopyDone) => match job.taken {
            Some((_, provenance)) => finishing(
                job,
                Ok(SuccessView::Copied(job.destination, provenance)),
            ),
            None => aborting(job, FatalView::OutOfTurn),
        },
        (Some(Request::CopySource), Reply::CopyNotDone(detail)) => finishing(
            job,
            Err(
                FailureView::CopyFailed(
                    job.source,
                    copy_reason(job.source, job.destination, detail@),
                ),
            ),
        ),
        (Some(Request::CompareLengths), Reply::Lengths(source_length, target_length)) => {
            if same_picture(source_length, target_length) {
                finishing(job, Ok(SuccessView::AlreadyArchived(job.source)))
            } else {
                finishing(
                    job,
                    Err(FailureView::ArchivedButDifferent(job.source, job.destination)),
                )
            }
        },
        (Some(Request::CompareLengths), Reply::LengthsUnreadable(detail)) => finishing(
            job,
            Err(
                FailureView::CopyFailed(
                    job.source,
                    compare_reason(job.source, job.destination, detail@),
                ),
            ),
        ),
        _ => aborting(job, FatalView::OutOfTurn),
    }
}

/// A job stays coherent whatever the caller replies.
pub proof fn lemma_next_stays_coherent(job: JobView, reply: Reply)
    requires
        job.is_coherent(),
    ensures
        next_of(job, reply).0.is_coherent(),
{
}

/// A coherent job copies to the source's file name in the directory of the
/// capture day, and names the source that the capture time came from.
pub proof fn lemma_copy_goes_to_the_planned_place(
    job: JobView,
    reply: Reply,
    destination: Seq<char>,
    provenance: Provenance,
)
    requires
        job.is_coherent(),
        next_of(job, reply).1 == StepView::Finished(
            Ok(SuccessView::Copied(destination, provenance)),
        ),
    ensures
        job.taken matches Some((taken, source)) && source == provenance && (file_name_of(
            job.source,
        ) matches Some(name) && destination == joined(directory_of(job.root, taken), name)),
{
}

/// `head`, `first`, `middle`, `second`, `tail`, `last` in a row.
fn phrase(head: &str, first: &str, middle: &str, second: &str, tail: &str, last: &str) -> (text:
    String)
    ensures
        text@ == head@ + first@ + middle@ + second@ + tail@ + last@,
{
    let mut text = head.to_owned();
    text.append(first);
    text.append(middle);
    text.append(second);
    text.append(tail);
    text.append(last);
    text
}

impl Job {
    /// Opens the job of archiving the picture at `source` below `root`. Its
    /// first request is `Request::ReadSource`.
    pub fn open(root: &str, source: &str) -> (job: Job)
        ensures
            job@ == opened(root@, source@),
            job@.is_coherent(),
    {
        Job {
            root: root.to_owned(),
            source: source.to_owned(),
            pending: Some(Request::ReadSource),
            taken: None,
            directory: String::new(),
            destination: String::new(),
        }
    }

    /// The request that the caller owes a reply to; `None` once the job has
    /// ended.
    pub fn pending(&self) -> (request: Option<Request>)
        ensures
            request == self@.pending,
    {
        self.pending
    }

    /// The path of the picture.
    pub fn source(&self) -> (path: &str)
        ensures
            path@ == self@.source,
    {
        self.source.as_str()
    }

    /// The capture time and its source, once resolved.
    pub fn taken(&self) -> (taken: Option<(CaptureTimestamp, Provenance)>)
        ensures
            taken == self@.taken,
    {
        self.taken
    }

    /// The directory of the capture day; empty before it is planned.
    pub fn directory(&self) -> (path: &str)
        ensures
            path@ == self@.directory,
    {
        self.directory.as_str()
    }

    /// The path that the picture goes to; empty before it is known.
    pub fn destination(&self) -> (path: &str)
        ensures
            path@ == self@.destination,
    {
        self.destination.as_str()
    }

    fn ask(&mut self, request: Request) -> (step: Step)
        ensures
            (final(self)@, step@) == asking(old(self)@, request),
    {
        self.pending = Some(request);
        Step::Ask(request)
    }

    fn finish(&mut self, outcome: BackupOutcome) -> (step: Step)
        ensures
            (final(self)@, step@) == finishing(old(self)@, crate::outcome::outcome_view(outcome)),
    {
        self.pending = None;
        Step::Finished(outcome)
    }

    fn abort(&mut self, fatal: Fatal) -> (step: Step)
        ensures
            (final(self)@, step@) == aborting(old(self)@, fatal@),
    {
        self.pending = None;
        Step::Aborted(fatal)
    }

    fn consulted(&mut self, source: Provenance, found: Option<CaptureTimestamp>) -> (step: Step)
        ensures
            (final(self)@, step@) == after_consulting(old(self)@, source, found),
    {
        match found {
            Some(taken) => {
                self.taken = Some((taken, source));
                self.directory = plan(self.root.as_str(), &taken);
                self.ask(Request::EnsureDirectory)
            },
            None => match source {
                Provenance::EmbeddedMetadata => self.ask(Request::QueryTool),
                Provenance::ExternalToolMetadata => self.ask(Request::ReadModifiedTime),
                Provenance::FilesystemModifiedTime => {
                    let fatal = Fatal::ModifiedTimeOutOfRange(self.source.clone());
                    self.abort(fatal)
                },
            },
        }
    }

    /// Takes the caller's reply to the pending request and says what comes
    /// next. A reply that does not answer the pending request stops the run.
    pub fn advance(&mut self, reply: Reply) -> (step: Step)
        ensures
            (final(self)@, step@) == next_of(old(self)@, reply),
            old(self)@.is_coherent() ==> final(self)@.is_coherent(),
    {
        proof {
            if old(self)@.is_coherent() {
                lemma_next_stays_coherent(old(self)@, reply);
            }
        }
        match (self.pending, reply) {
            (Some(Request::ReadSource), Reply::SourceBytes(bytes)) => {
                let found = embedded_capture_time(bytes.as_slice());
                self.consulted(Provenance::EmbeddedMetadata, found)
            },
            (Some(Request::ReadSource), Reply::SourceUnreadable(detail)) => {
                let reason = phrase(
                    "cannot open the ",
                    self.source.as_str(),
                    " file: ",
                    detail.as_str(),
                    "",
                    "",
                );
                proof {
                    reveal_strlit("");
                    assert(reason@ =~= open_reason(self@.source, detail@));
                }
                let failure = BackupFailure::CopyFailed(self.source.clone(), reason);
                self.finish(Err(failure))
            },
            (Some(Request::QueryTool), Reply::ToolAnswer(answer)) => {
                let found = tool_capture_time(&answer);
                self.consulted(Provenance::ExternalToolMetadata, found)
            },
            (Some(Request::ReadModifiedTime), Reply::ModifiedTime(modified)) => {
                let found = modified_capture_time(&modified);
                self.consulted(Provenance::FilesystemModifiedTime, found)
            },
            (Some(Request::ReadModifiedTime), Reply::ModifiedTimeUnreadable(detail)) => {
                let fatal = Fatal::ModifiedTimeUnreadable(self.source.clone(), detail);
                self.abort(fatal)
            },
            (Some(Request::EnsureDirectory), Reply::DirectoryReady) => {
                match file_name(self.source.as_str()) {
                    Some(name) => {
                        self.destination = join(self.directory.as_str(), name.as_str());
                        self.ask(Request::ProbeDestination)
                    },
                    None => {
                        let failure = BackupFailure::InvalidName(self.source.clone());
                        self.finish(Err(failure))
                    },
                }
            },
            (Some(Request::EnsureDirectory), Reply::DirectoryBlocked) => {
                let fatal = Fatal::DirectoryBlocked(self.directory.clone());
                self.abort(fatal)
            },
            (Some(Request::EnsureDirectory), Reply::DirectoryNotCreated(detail)) => {
                let fatal = Fatal::DirectoryNotCreated(self.directory.clone(), detail);
                self.abort(fatal)
            },
            (Some(Request::ProbeDestination), Reply::DestinationFound(found)) => {
                if found {
                    self.ask(Request::CompareLengths)
                } else {
                    self.ask(Request::CopySource)
                }
            },
            (Some(Request::CopySource), Reply::CopyDone) => {
                match self.taken {
                    Some((_, provenance)) => {
                        let success = BackupSuccess::Copied(self.destination.clone(), provenance);
                        self.finish(Ok(success))
                    },
                    None => self.abort(Fatal::OutOfTurn),
                }
            },
            (Some(Request::CopySource), Reply::CopyNotDone(detail)) => {
                let reason = phrase(
                    "cannot copy the ",
                    self.source.as_str(),
                    " file to ",
                    self.destination.as_str(),
                    ": ",
                    detail.as_str(),
                );
                let failure = BackupFailure::CopyFailed(self.source.clone(), reason);
                self.finish(Err(failure))
            },
            (Some(Request::CompareLengths), Reply::Lengths(source_length, target_length)) => {
                if is_same(source_length, target_length) {
                    let success = BackupSuccess::AlreadyArchived(self.source.clone());
                    self.finish(Ok(success))
                } else {
                    let failure = BackupFailure::ArchivedButDifferent(
                        self.source.clone(),
                        self.destination.clone(),
                    );
                    self.finish(Err(failure))
                }
            },
            (Some(Request::CompareLengths), Reply::LengthsUnreadable(detail)) => {
                let reason = phrase(
                    "cannot compare the ",
                    self.source.as_str(),
                    " file with ",
                    self.destination.as_str(),
                    ": ",
                    detail.as_str(),
                );
                let failure = BackupFailure::CopyFailed(self.source.clone(), reason);
                self.finish(Err(failure))
            },
            _ => self.abort(Fatal::OutOfTurn),
        }
    }
}

} // verus!
