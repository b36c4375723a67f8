//! What archiving does to an archive: a model of one run of a job, and the
//! laws that hold of it.
//!
//! The model answers each request of a job from a `World`: the replies that
//! the picture and the directory would give, and the files that the archive
//! holds. A copy that succeeds puts the picture's bytes at the destination;
//! nothing else ever changes a file.

use crate::fatal::FatalView;
use crate::orchestrator::{
    copy_reason, next_of, open_reason, opened, JobView, Reply, Request, StepView,
};
use crate::outcome::{FailureView, SuccessView};
use crate::paths::{file_name_of, joined};
use crate::planner::directory_of;
use crate::resolver::{embedded_capture_time_of, resolution_of, tool_capture_time_of};
use crate::timestamp::{capture_time_of_file_time, CaptureTimestamp, Provenance};
use vstd::prelude::*;

verus! {

/// The files of an archive: their bytes by their paths.
pub type Files = Map<Seq<char>, Seq<u8>>;

/// What surrounds the archiving of one picture.
pub struct World {
    /// The reply to `Request::ReadSource`.
    pub read: Reply,
    /// The reply to `Request::QueryTool`.
    pub tool: Reply,
    /// The reply to `Request::ReadModifiedTime`.
    pub modified: Reply,
    /// The reply to `Request::EnsureDirectory`.
    pub directory: Reply,
    /// The reply to `Request::CopySource`.
    pub copy: Reply,
    /// The files that the archive holds.
    pub files: Files,
}

impl World {
    /// Each reply answers its request, and no file is too long to measure.
    pub open spec fn is_sound(self) -> bool {
        &&& self.read is SourceBytes || self.read is SourceUnreadable
        &&& self.tool is ToolAnswer
        &&& self.modified is ModifiedTime || self.modified is ModifiedTimeUnreadable
        &&& self.directory is DirectoryReady || self.directory is DirectoryBlocked
            || self.directory is DirectoryNotCreated
        &&& self.copy is CopyDone || self.copy is CopyNotDone
        &&& self.picture().len() <= u64::MAX
        &&& forall|path: Seq<char>| #[trigger]
            self.files.contains_key(path) ==> self.files[path].len() <= u64::MAX
    }

    /// The bytes of the picture; none where it cannot be read.
    pub open spec fn picture(self) -> Seq<u8> {
        match self.read {
            Reply::SourceBytes(bytes) => bytes@,
            _ => Seq::empty(),
        }
    }

    /// The capture time that the picture's own metadata gives.
    pub open spec fn embedded(self) -> Option<CaptureTimestamp> {
        match self.read {
            Reply::SourceBytes(bytes) => embedded_capture_time_of(bytes@),
            _ => None,
        }
    }

    /// The capture time that the tool's answer gives.
    pub open spec fn from_tool(self) -> Option<CaptureTimestamp> {
        match self.tool {
            Reply::ToolAnswer(answer) => tool_capture_time_of(answer),
            _ => None,
        }
    }

    /// The capture time that the last-modified time gives.
    pub open spec fn from_modified(self) -> Option<CaptureTimestamp> {
        match self.modified {
            Reply::ModifiedTime(modified) => capture_time_of_file_time(modified),
            _ => None,
        }
    }

    /// The capture time of the picture and its source.
    pub open spec fn resolved(self) -> Option<(CaptureTimestamp, Provenance)> {
        resolution_of(self.embedded(), self.from_tool(), self.from_modified())
    }

    /// The reply to `request` at the point that `job` has reached.
    pub open spec fn answer(self, job: JobView, request: Request) -> Reply {
        match request {
            Request::ReadSource => self.read,
            Request::QueryTool => self.tool,
            Request::ReadModifiedTime => self.modified,
            Request::EnsureDirectory => self.directory,
            Request::ProbeDestination => Reply::DestinationFound(
                self.files.contains_key(job.destination),
            ),
            Request::CopySource => self.copy,
            Request::CompareLengths => Reply::Lengths(
                self.picture().len() as u64,
                self.files[job.destination].len() as u64,
            ),
        }
    }

    /// The files once the caller has done what `request` asks.
    pub open spec fn files_after(self, job: JobView, request: Request) -> Files {
        if request == Request::CopySource && self.copy is CopyDone {
            self.files.insert(job.destination, self.picture())
        } else {
            self.files
        }
    }
}

/// How a run ended, and the files it left.
pub struct End {
    pub step: StepView,
    pub files: Files,
}

/// Runs `job` in `world` for at most `rounds` further requests.
pub open spec fn run(job: JobView, world: World, rounds: nat) -> End
    decreases rounds,
{
    match job.pending {
        Some(request) => {
            let (next, step) = next_of(job, world.answer(job, request));
            let files = world.files_after(job, request);
            if step is Ask && rounds > 0 {
                run(next, World { files, ..world }, (rounds - 1) as nat)
            } else {
                End { step, files }
            }
        },
        None => End { step: StepView::Aborted(FatalView::OutOfTurn), files: world.files },
    }
}

/// Archives the picture at `source` below `root` in `world`.
pub open spec fn archive(root: Seq<char>, source: Seq<char>, world: World) -> End {
    run(opened(root, source), world, 5)
}

/// How the archiving of a picture ends once its capture time is resolved
/// and its directory is there.
pub open spec fn placed(
    root: Seq<char>,
    source: Seq<char>,
    world: World,
    taken: CaptureTimestamp,
    provenance: Provenance,
) -> End {
    match file_name_of(source) {
        None => End {
            step: StepView::Finished(Err(FailureView::InvalidName(source))),
            files: world.files,
        },
        Some(name) => {
            let destination = joined(directory_of(root, taken), name);
            if world.files.contains_key(destination) {
                if world.files[destination].len() == world.picture().len() {
                    End {
                        step: StepView::Finished(Ok(SuccessView::AlreadyArchived(source))),
                        files: world.files,
                    }
                } else {
                    End {
                        step: StepView::Finished(
                            Err(FailureView::ArchivedButDifferent(source, destination)),
                        ),
                        files: world.files,
                    }
                }
            } else {
                match world.copy {
                    Reply::CopyNotDone(detail) => End {
                        step: StepView::Finished(
                            Err(
                                FailureView::CopyFailed(
                                    source,
                                    copy_reason(source, destination, detail@),
                                ),
                            ),
                        ),
                        files: world.files,
                    },
                    _ => End {
                        step: StepView::Finished(Ok(SuccessView::Copied(destination, provenance))),
                        files: world.files.insert(destination, world.picture()),
                    },
                }
            }
        },
    }
}

/// How the archiving of a picture ends once its capture time is resolved.
pub open spec fn housed(
    root: Seq<char>,
    source: Seq<char>,
    world: World,
    taken: CaptureTimestamp,
    provenance: Provenance,
) -> End {
    match world.directory {
        Reply::DirectoryBlocked => End {
            step: StepView::Aborted(FatalView::DirectoryBlocked(directory_of(root, taken))),
            files: world.files,
        },
        Reply::DirectoryNotCreated(detail) => End {
            step: StepView::Aborted(
                FatalView::DirectoryNotCreated(directory_of(root, taken), detail@),
            ),
            files: world.files,
        },
        _ => placed(root, source, world, taken, provenance),
    }
}

/// How the archiving of a picture ends, said at once: a source that cannot
/// be read fails alone; else the capture time comes from the first source
/// that gives one, and the run stops where none does; else the picture goes
/// to its file name in the directory of the capture day.
pub open spec fn archived(root: Seq<char>, source: Seq<char>, world: World) -> End {
    match world.read {
        Reply::SourceUnreadable(detail) => End {
            step: StepView::Finished(
                Err(FailureView::CopyFailed(source, open_reason(source, detail@))),
            ),
            files: world.files,
        },
        _ => match world.resolved() {
            None => End {
                step: StepView::Aborted(
                    match world.modified {
                        Reply::ModifiedTimeUnreadable(detail) => FatalView::ModifiedTimeUnreadable(
                            source,
                            detail@,
                        ),
                        _ => FatalView::ModifiedTimeOutOfRange(source),
                    },
                ),
                files: world.files,
            },
            Some((taken, provenance)) => housed(root, source, world, taken, provenance),
        },
    }
}

/// A job that has resolved its capture time and asks for its directory ends
/// as `housed` says.
proof fn lemma_run_from_directory(job: JobView, world: World, rounds: nat)
    requires
        world.is_sound(),
        rounds >= 2,
        job.pending == Some(Request::EnsureDirectory),
        job.taken is Some,
        job.directory == directory_of(job.root, (job.taken->0).0),
    ensures
        run(job, world, rounds) == housed(
            job.root,
            job.source,
            world,
            (job.taken->0).0,
            (job.taken->0).1,
        ),
{
    reveal_with_fuel(run, 3);
    let (taken, provenance) = job.taken->0;
    match world.directory {
        Reply::DirectoryReady => {
            match file_name_of(job.source) {
                Some(name) => {
                    let destination = joined(job.directory, name);
                    let probing = JobView {
                        destination,
                        pending: Some(Request::ProbeDestination),
                        ..job
                    };
                    assert(next_of(job, world.answer(job, Request::EnsureDirectory)).0 == probing);
                    if world.files.contains_key(destination) {
                        let comparing = JobView {
                            pending: Some(Request::CompareLengths),
                            ..probing
                        };
                        assert(next_of(
                            probing,
                            world.answer(probing, Request::ProbeDestination),
                        ).0 == comparing);
                        assert(world.files[destination].len() <= u64::MAX);
                    } else {
                        let copying = JobView { pending: Some(Request::CopySource), ..probing };
                        assert(next_of(
                            probing,
                            world.answer(probing, Request::ProbeDestination),
                        ).0 == copying);
                    }
                },
                None => {},
            }
        },
        _ => {},
    }
}

/// A job that is run request by request ends as `archived` says: with the
/// capture time of the first source that gives one, in the directory of
/// that day, with a copy where no file stands at the destination and
/// without one where a file does.
pub proof fn lemma_run_ends_as_archived(root: Seq<char>, source: Seq<char>, world: World)
    requires
        world.is_sound(),
    ensures
        archive(root, source, world) == archived(root, source, world),
{
    reveal_with_fuel(run, 4);
    let job = opened(root, source);
    match world.read {
        Reply::SourceBytes(bytes) => {
            match world.embedded() {
                Some(taken) => {
                    let next = next_of(job, world.read).0;
                    lemma_run_from_directory(next, world, 4);
                },
                None => {
                    let asking_tool = JobView { pending: Some(Request::QueryTool), ..job };
                    assert(next_of(job, world.read).0 == asking_tool);
                    match world.from_tool() {
                        Some(taken) => {
                            let next = next_of(asking_tool, world.tool).0;
                            lemma_run_from_directory(next, world, 3);
                        },
                        None => {
                            let asking_time = JobView {
                                pending: Some(Request::ReadModifiedTime),
                                ..job
                            };
                            assert(next_of(asking_tool, world.tool).0 == asking_time);
                            match world.from_modified() {
                                Some(taken) => {
                                    let next = next_of(asking_time, world.modified).0;
                                    lemma_run_from_directory(next, world, 2);
                                },
                                None => {},
                            }
                        },
                    }
                },
            }
        },
        _ => {},
    }
}

/// Every run ends within six requests: with an outcome, or with a reason
/// to stop that is not a reply out of turn.
pub proof fn lemma_every_run_ends(root: Seq<char>, source: Seq<char>, world: World)
    requires
        world.is_sound(),
    ensures
        !(archive(root, source, world).step is Ask),
        archive(root, source, world).step != StepView::Aborted(FatalView::OutOfTurn),
{
    lemma_run_ends_as_archived(root, source, world);
}

/// The path that the picture goes to in `world`, where its capture time is
/// resolved and its path ends in a file name.
pub open spec fn destination_in(root: Seq<char>, source: Seq<char>, world: World) -> Option<
    Seq<char>,
> {
    match (world.resolved(), file_name_of(source)) {
        (Some((taken, _)), Some(name)) => Some(joined(directory_of(root, taken), name)),
        _ => None,
    }
}

/// Archiving never changes or removes a file that the archive holds: it
/// only ever adds the one at the destination.
pub proof fn lemma_archive_only_grows(root: Seq<char>, source: Seq<char>, world: World)
    requires
        world.is_sound(),
    ensures
        forall|path: Seq<char>| #[trigger]
            world.files.contains_key(path) ==> archive(root, source, world).files.contains_key(
                path,
            ) && archive(root, source, world).files[path] == world.files[path],
        archive(root, source, world).files == world.files || (destination_in(
            root,
            source,
            world,
        ) matches Some(destination) && !world.files.contains_key(destination) && archive(
            root,
            source,
            world,
        ).files == world.files.insert(destination, world.picture())),
{
    lemma_run_ends_as_archived(root, source, world);
}

/// Archiving a picture a second time finds it archived and leaves every
/// file as the first time left it.
pub proof fn lemma_second_run_finds_the_picture(root: Seq<char>, source: Seq<char>, world: World)
    requires
        world.is_sound(),
        archive(root, source, world).step matches StepView::Finished(Ok(_)),
    ensures
        ({
            let first = archive(root, source, world);
            let second = archive(root, source, World { files: first.files, ..world });
            &&& second.step == StepView::Finished(Ok(SuccessView::AlreadyArchived(source)))
            &&& second.files == first.files
        }),
{
    lemma_run_ends_as_archived(root, source, world);
    let first = archive(root, source, world);
    let again = World { files: first.files, ..world };
    assert(again.is_sound());
    assert(again.picture() == world.picture());
    assert(again.resolved() == world.resolved());
    lemma_run_ends_as_archived(root, source, again);
}

/// A picture whose destination is taken by a file of another length is
/// reported as different, and that file stays as it is.
pub proof fn lemma_file_of_other_length_is_kept(
    root: Seq<char>,
    source: Seq<char>,
    world: World,
    destination: Seq<char>,
)
    requires
        world.is_sound(),
        world.read is SourceBytes,
        world.directory is DirectoryReady,
        destination_in(root, source, world) == Some(destination),
        world.files.contains_key(destination),
        world.files[destination].len() != world.picture().len(),
    ensures
        archive(root, source, world).step == StepView::Finished(
            Err(FailureView::ArchivedButDifferent(source, destination)),
        ),
        archive(root, source, world).files == world.files,
{
    lemma_run_ends_as_archived(root, source, world);
}

/// A picture whose destination is taken by a file of its own length is
/// taken for archived, whatever that file holds, and that file stays as it
/// is.
pub proof fn lemma_file_of_same_length_passes(
    root: Seq<char>,
    source: Seq<char>,
    world: World,
    destination: Seq<char>,
)
    requires
        world.is_sound(),
        world.read is SourceBytes,
        world.directory is DirectoryReady,
        destination_in(root, source, world) == Some(destination),
        world.files.contains_key(destination),
        world.files[destination].len() == world.picture().len(),
    ensures
        archive(root, source, world).step == StepView::Finished(
            Ok(SuccessView::AlreadyArchived(source)),
        ),
        archive(root, source, world).files == world.files,
{
    lemma_run_ends_as_archived(root, source, world);
}

/// A picture is copied under the source of its capture time: its own
/// metadata where that gives one, else the tool's record where that gives
/// one, else its last-modified time.
pub proof fn lemma_copy_names_the_first_source(
    root: Seq<char>,
    source: Seq<char>,
    world: World,
    destination: Seq<char>,
    provenance: Provenance,
)
    requires
        world.is_sound(),
        archive(root, source, world).step == StepView::Finished(
            Ok(SuccessView::Copied(destination, provenance)),
        ),
    ensures
        world.embedded() is Some ==> provenance == Provenance::EmbeddedMetadata,
        world.embedded() is None && world.from_tool() is Some ==> provenance
            == Provenance::ExternalToolMetadata,
        world.embedded() is None && world.from_tool() is None ==> provenance
            == Provenance::FilesystemModifiedTime,
        destination_in(root, source, world) == Some(destination),
        archive(root, source, world).files == world.files.insert(destination, world.picture()),
{
    lemma_run_ends_as_archived(root, source, world);
}

} // verus!
