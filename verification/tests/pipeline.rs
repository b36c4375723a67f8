use photo_backup::directory::{ensure_directory, DirectoryAction, PathState};
use photo_backup::duplicate::is_same;
use photo_backup::fatal::Fatal;
use photo_backup::orchestrator::{Job, Reply, Request, Step};
use photo_backup::outcome::{BackupFailure, BackupOutcome, BackupSuccess};
use photo_backup::resolver::{ToolAnswer, ToolRecord};
use photo_backup::timestamp::{CaptureTimestamp, FileTime, Provenance};
use std::collections::BTreeMap;
use std::collections::BTreeSet;

/// A little-endian TIFF file that holds `date` as its capture
/// date, followed by `rest`.
fn picture_taken(date: &str, rest: &[u8]) -> Vec<u8> {
    let mut file = Vec::new();
    file.extend_from_slice(b"II");
    file.extend_from_slice(&42u16.to_le_bytes());
    file.extend_from_slice(&8u32.to_le_bytes());
    file.extend_from_slice(&1u16.to_le_bytes());
    file.extend_from_slice(&0x8769u16.to_le_bytes());
    file.extend_from_slice(&4u16.to_le_bytes());
    file.extend_from_slice(&1u32.to_le_bytes());
    file.extend_from_slice(&26u32.to_le_bytes());
    file.extend_from_slice(&0u32.to_le_bytes());
    file.extend_from_slice(&1u16.to_le_bytes());
    file.extend_from_slice(&0x9003u16.to_le_bytes());
    file.extend_from_slice(&2u16.to_le_bytes());
    file.extend_from_slice(&(date.len() as u32 + 1).to_le_bytes());
    file.extend_from_slice(&44u32.to_le_bytes());
    file.extend_from_slice(&0u32.to_le_bytes());
    file.extend_from_slice(date.as_bytes());
    file.push(0);
    file.extend_from_slice(rest);
    file
}

fn since_epoch(secs: u64, nanos: u32) -> FileTime {
    FileTime { before_epoch: false, secs, nanos }
}

/// A file system in memory, with what the metadata tool would say.
struct Disk {
    files: BTreeMap<String, Vec<u8>>,
    directories: BTreeSet<String>,
    modified: BTreeMap<String, FileTime>,
    tool: BTreeMap<String, Vec<ToolRecord>>,
    full: bool,
    asked: Vec<Request>,
}

impl Disk {
    fn new() -> Disk {
        Disk {
            files: BTreeMap::new(),
            directories: BTreeSet::new(),
            modified: BTreeMap::new(),
            tool: BTreeMap::new(),
            full: false,
            asked: Vec::new(),
        }
    }

    fn with_file(mut self, path: &str, content: &[u8]) -> Disk {
        self.files.insert(String::from(path), content.to_vec());
        self.modified.insert(String::from(path), since_epoch(0, 0));
        self
    }

    fn state_of(&self, path: &str) -> PathState {
        if self.directories.contains(path) {
            PathState::Directory
        } else if self.files.contains_key(path) {
            PathState::Other
        } else {
            PathState::Absent
        }
    }

    fn reply(&mut self, job: &Job, request: Request) -> Reply {
        self.asked.push(request);
        let source = String::from(job.source());
        let destination = String::from(job.destination());
        match request {
            Request::ReadSource => match self.files.get(&source) {
                Some(content) => Reply::SourceBytes(content.clone()),
                None => Reply::SourceUnreadable(String::from("No such file or directory")),
            },
            Request::QueryTool => Reply::ToolAnswer(match self.tool.get(&source) {
                Some(records) => ToolAnswer::Records(records.clone()),
                None => ToolAnswer::Failed,
            }),
            Request::ReadModifiedTime => match self.modified.get(&source) {
                Some(modified) => Reply::ModifiedTime(*modified),
                None => Reply::ModifiedTimeUnreadable(String::from("not supported")),
            },
            Request::EnsureDirectory => {
                let directory = String::from(job.directory());
                match ensure_directory(self.state_of(&directory)) {
                    DirectoryAction::Create => {
                        self.directories.insert(directory);
                        Reply::DirectoryReady
                    }
                    DirectoryAction::Keep => Reply::DirectoryReady,
                    DirectoryAction::Refuse => Reply::DirectoryBlocked,
                }
            }
            Request::ProbeDestination => {
                Reply::DestinationFound(self.files.contains_key(&destination))
            }
            Request::CopySource => {
                if self.full {
                    Reply::CopyNotDone(String::from("No space left on device"))
                } else {
                    let content = self.files[&source].clone();
                    self.files.insert(destination, content);
                    Reply::CopyDone
                }
            }
            Request::CompareLengths => Reply::Lengths(
                self.files[&source].len() as u64,
                self.files[&destination].len() as u64,
            ),
        }
    }

    /// Archives `source` below `root`, doing what the job asks.
    fn archive(&mut self, root: &str, source: &str) -> Step {
        let mut job = Job::open(root, source);
        let mut rounds = 0;
        loop {
            let request = job.pending().unwrap();
            let reply = self.reply(&job, request);
            match job.advance(reply) {
                Step::Ask(next) => {
                    assert_eq!(job.pending(), Some(next));
                    rounds += 1;
                    assert!(rounds < 6);
                }
                end => {
                    assert_eq!(job.pending(), None);
                    return end;
                }
            }
        }
    }
}

fn finished(step: Step) -> BackupOutcome {
    match step {
        Step::Finished(outcome) => outcome,
        other => panic!("the job did not finish: {:?}", other),
    }
}

fn copied(destination: &str, provenance: Provenance) -> BackupOutcome {
    Ok(BackupSuccess::Copied(String::from(destination), provenance))
}

#[test]
fn duplicates_are_told_by_length_alone() {
    assert!(is_same(0, 0));
    assert!(is_same(4096, 4096));
    assert!(is_same(u64::MAX, u64::MAX));
    assert!(!is_same(4096, 4097));
    assert!(!is_same(0, 1));
    assert!(!is_same(u64::MAX, 0));
}

#[test]
fn a_directory_is_created_only_where_nothing_stands() {
    assert_eq!(ensure_directory(PathState::Absent), DirectoryAction::Create);
    assert_eq!(ensure_directory(PathState::Directory), DirectoryAction::Keep);
    assert_eq!(ensure_directory(PathState::Other), DirectoryAction::Refuse);
}

#[test]
fn a_job_starts_by_reading_its_source() {
    let job = Job::open("/archive", "/camera/a.jpg");
    assert_eq!(job.pending(), Some(Request::ReadSource));
    assert_eq!(job.source(), "/camera/a.jpg");
    assert_eq!(job.taken(), None);
    assert_eq!(job.directory(), "");
    assert_eq!(job.destination(), "");
}

#[test]
fn a_picture_with_embedded_date_is_copied_to_its_day() {
    let content = picture_taken("2023:07:04 10:00:00", b"pixels");
    let mut disk = Disk::new().with_file("/camera/IMG_1.JPG", &content);
    let step = disk.archive("/archive", "/camera/IMG_1.JPG");
    assert_eq!(
        finished(step),
        copied("/archive/2023/07/04/IMG_1.JPG", Provenance::EmbeddedMetadata)
    );
    assert_eq!(disk.files["/archive/2023/07/04/IMG_1.JPG"], content);
    assert!(disk.directories.contains("/archive/2023/07/04"));
    assert_eq!(
        disk.asked,
        vec![
            Request::ReadSource,
            Request::EnsureDirectory,
            Request::ProbeDestination,
            Request::CopySource
        ]
    );
}

#[test]
fn the_embedded_date_wins_over_tool_and_modified_time() {
    let content = picture_taken("2023:07:04 10:00:00", b"");
    let mut disk = Disk::new().with_file("a.jpg", &content);
    disk.tool.insert(
        String::from("a.jpg"),
        vec![ToolRecord { create_date: Some(String::from("2001:01:01 01:01:01")) }],
    );
    disk.modified.insert(String::from("a.jpg"), since_epoch(1_500_000_000, 0));
    let step = disk.archive("/archive", "a.jpg");
    assert_eq!(finished(step), copied("/archive/2023/07/04/a.jpg", Provenance::EmbeddedMetadata));
    assert!(!disk.asked.contains(&Request::QueryTool));
    assert!(!disk.asked.contains(&Request::ReadModifiedTime));
}

#[test]
fn a_picture_without_embedded_date_goes_by_the_tool() {
    let mut disk = Disk::new().with_file("/camera/clip.mov", b"moving pictures");
    disk.tool.insert(
        String::from("/camera/clip.mov"),
        vec![ToolRecord { create_date: Some(String::from("2019:05:17 08:30:15")) }],
    );
    let step = disk.archive("/archive", "/camera/clip.mov");
    assert_eq!(
        finished(step),
        copied("/archive/2019/05/17/clip.mov", Provenance::ExternalToolMetadata)
    );
    assert_eq!(
        disk.asked,
        vec![
            Request::ReadSource,
            Request::QueryTool,
            Request::EnsureDirectory,
            Request::ProbeDestination,
            Request::CopySource
        ]
    );
}

#[test]
fn a_picture_without_any_date_goes_by_its_modified_time() {
    let mut disk = Disk::new().with_file("/camera/scan.png", b"no metadata");
    disk.modified.insert(String::from("/camera/scan.png"), since_epoch(1688464800, 5));
    let step = disk.archive("/archive", "/camera/scan.png");
    assert_eq!(
        finished(step),
        copied("/archive/2023/07/04/scan.png", Provenance::FilesystemModifiedTime)
    );
    assert_eq!(
        disk.asked,
        vec![
            Request::ReadSource,
            Request::QueryTool,
            Request::ReadModifiedTime,
            Request::EnsureDirectory,
            Request::ProbeDestination,
            Request::CopySource
        ]
    );
}

#[test]
fn a_tool_answer_with_two_records_is_passed_over() {
    let mut disk = Disk::new().with_file("clip.mov", b"moving pictures");
    let record = ToolRecord { create_date: Some(String::from("2019:05:17 08:30:15")) };
    disk.tool.insert(String::from("clip.mov"), vec![record.clone(), record]);
    disk.modified.insert(String::from("clip.mov"), since_epoch(86400, 0));
    let step = disk.archive("/archive", "clip.mov");
    assert_eq!(
        finished(step),
        copied("/archive/1970/01/02/clip.mov", Provenance::FilesystemModifiedTime)
    );
}

#[test]
fn a_second_run_finds_the_picture_archived() {
    let content = picture_taken("2023:07:04 10:00:00", b"pixels");
    let mut disk = Disk::new().with_file("/camera/IMG_1.JPG", &content);
    let first = disk.archive("/archive", "/camera/IMG_1.JPG");
    assert_eq!(
        finished(first),
        copied("/archive/2023/07/04/IMG_1.JPG", Provenance::EmbeddedMetadata)
    );
    let after_first = disk.files.clone();
    disk.asked.clear();
    let second = disk.archive("/archive", "/camera/IMG_1.JPG");
    assert_eq!(
        finished(second),
        Ok(BackupSuccess::AlreadyArchived(String::from("/camera/IMG_1.JPG")))
    );
    assert_eq!(disk.files, after_first);
    assert_eq!(disk.files["/archive/2023/07/04/IMG_1.JPG"], content);
    assert!(!disk.asked.contains(&Request::CopySource));
}

#[test]
fn a_file_of_another_length_at_the_destination_is_kept() {
    let content = picture_taken("2023:07:04 10:00:00", b"pixels");
    let mut disk = Disk::new()
        .with_file("/camera/IMG_1.JPG", &content)
        .with_file("/archive/2023/07/04/IMG_1.JPG", b"another picture");
    disk.directories.insert(String::from("/archive/2023/07/04"));
    let step = disk.archive("/archive", "/camera/IMG_1.JPG");
    assert_eq!(
        finished(step),
        Err(BackupFailure::ArchivedButDifferent(
            String::from("/camera/IMG_1.JPG"),
            String::from("/archive/2023/07/04/IMG_1.JPG")
        ))
    );
    assert_eq!(disk.files["/archive/2023/07/04/IMG_1.JPG"], b"another picture".to_vec());
    assert!(!disk.asked.contains(&Request::CopySource));
}

#[test]
fn a_file_of_the_same_length_at_the_destination_passes_for_the_picture() {
    let content = picture_taken("2023:07:04 10:00:00", b"pixels");
    let other = picture_taken("2023:07:04 10:00:00", b"pixelz");
    assert_ne!(content, other);
    let mut disk = Disk::new()
        .with_file("/camera/IMG_1.JPG", &content)
        .with_file("/archive/2023/07/04/IMG_1.JPG", &other);
    disk.directories.insert(String::from("/archive/2023/07/04"));
    let step = disk.archive("/archive", "/camera/IMG_1.JPG");
    assert_eq!(
        finished(step),
        Ok(BackupSuccess::AlreadyArchived(String::from("/camera/IMG_1.JPG")))
    );
    assert_eq!(disk.files["/archive/2023/07/04/IMG_1.JPG"], other);
    assert!(!disk.asked.contains(&Request::CopySource));
}

#[test]
fn a_path_that_ends_in_a_separator_has_no_name() {
    let mut disk = Disk::new().with_file("/camera/holiday/", b"whatever stands there");
    disk.modified.insert(String::from("/camera/holiday/"), since_epoch(1688464800, 0));
    disk.directories.insert(String::from("/archive"));
    disk.directories.insert(String::from("/archive/2023/07/04"));
    let directories = disk.directories.clone();
    let files = disk.files.clone();
    let step = disk.archive("/archive", "/camera/holiday/");
    assert_eq!(
        finished(step),
        Err(BackupFailure::InvalidName(String::from("/camera/holiday/")))
    );
    assert!(!disk.asked.contains(&Request::CopySource));
    assert!(!disk.asked.contains(&Request::ProbeDestination));
    assert_eq!(disk.files, files);
    assert_eq!(disk.directories, directories);
}

#[test]
fn the_name_is_looked_at_once_the_directory_is_there() {
    let mut job = Job::open("/archive", "/camera/holiday/");
    let content = picture_taken("2023:07:04 10:00:00", b"");
    assert_eq!(job.advance(Reply::SourceBytes(content)), Step::Ask(Request::EnsureDirectory));
    assert_eq!(job.directory(), "/archive/2023/07/04");
    assert_eq!(
        job.advance(Reply::DirectoryReady),
        Step::Finished(Err(BackupFailure::InvalidName(String::from("/camera/holiday/"))))
    );
    assert_eq!(job.destination(), "");
}

#[test]
fn a_source_that_cannot_be_opened_fails_alone() {
    let mut disk = Disk::new();
    let step = disk.archive("/archive", "/camera/gone.jpg");
    assert_eq!(
        finished(step),
        Err(BackupFailure::CopyFailed(
            String::from("/camera/gone.jpg"),
            String::from("cannot open the /camera/gone.jpg file: No such file or directory")
        ))
    );
    assert_eq!(disk.asked, vec![Request::ReadSource]);
    assert!(disk.directories.is_empty());
}

#[test]
fn a_copy_that_fails_is_reported_with_its_reason() {
    let content = picture_taken("2023:07:04 10:00:00", b"pixels");
    let mut disk = Disk::new().with_file("a.jpg", &content);
    disk.full = true;
    let step = disk.archive("/archive", "a.jpg");
    assert_eq!(
        finished(step),
        Err(BackupFailure::CopyFailed(
            String::from("a.jpg"),
            String::from(
                "cannot copy the a.jpg file to /archive/2023/07/04/a.jpg: No space left on device"
            )
        ))
    );
    assert!(!disk.files.contains_key("/archive/2023/07/04/a.jpg"));
}

#[test]
fn lengths_that_cannot_be_read_fail_the_picture() {
    let mut job = Job::open("/archive", "a.jpg");
    let content = picture_taken("2023:07:04 10:00:00", b"");
    assert_eq!(job.advance(Reply::SourceBytes(content)), Step::Ask(Request::EnsureDirectory));
    assert_eq!(job.advance(Reply::DirectoryReady), Step::Ask(Request::ProbeDestination));
    assert_eq!(job.advance(Reply::DestinationFound(true)), Step::Ask(Request::CompareLengths));
    let step = job.advance(Reply::LengthsUnreadable(String::from("Permission denied")));
    assert_eq!(
        step,
        Step::Finished(Err(BackupFailure::CopyFailed(
            String::from("a.jpg"),
            String::from(
                "cannot compare the a.jpg file with /archive/2023/07/04/a.jpg: Permission denied"
            )
        )))
    );
    assert_eq!(job.pending(), None);
}

#[test]
fn a_job_plans_its_directory_and_destination_step_by_step() {
    let mut job = Job::open("/archive/", "/camera/b.jpg");
    let content = picture_taken("2021:03:09 18:45:00", b"");
    assert_eq!(job.advance(Reply::SourceBytes(content)), Step::Ask(Request::EnsureDirectory));
    assert_eq!(
        job.taken(),
        Some((
            CaptureTimestamp { year: 2021, month: 3, day: 9, hour: 18, minute: 45, second: 0 },
            Provenance::EmbeddedMetadata
        ))
    );
    assert_eq!(job.directory(), "/archive/2021/03/09");
    assert_eq!(job.destination(), "");
    assert_eq!(job.advance(Reply::DirectoryReady), Step::Ask(Request::ProbeDestination));
    assert_eq!(job.destination(), "/archive/2021/03/09/b.jpg");
    assert_eq!(job.advance(Reply::DestinationFound(false)), Step::Ask(Request::CopySource));
    assert_eq!(
        job.advance(Reply::CopyDone),
        Step::Finished(copied("/archive/2021/03/09/b.jpg", Provenance::EmbeddedMetadata))
    );
}

#[test]
fn a_blocked_directory_stops_the_run() {
    let content = picture_taken("2023:07:04 10:00:00", b"pixels");
    let mut disk = Disk::new()
        .with_file("a.jpg", &content)
        .with_file("/archive/2023/07/04", b"a file where a directory should be");
    let step = disk.archive("/archive", "a.jpg");
    assert_eq!(step, Step::Aborted(Fatal::DirectoryBlocked(String::from("/archive/2023/07/04"))));
    assert!(!disk.asked.contains(&Request::CopySource));
}

#[test]
fn a_directory_that_cannot_be_created_stops_the_run() {
    let mut job = Job::open("/archive", "a.jpg");
    job.advance(Reply::SourceBytes(picture_taken("2023:07:04 10:00:00", b"")));
    let step = job.advance(Reply::DirectoryNotCreated(String::from("Read-only file system")));
    assert_eq!(
        step,
        Step::Aborted(Fatal::DirectoryNotCreated(
            String::from("/archive/2023/07/04"),
            String::from("Read-only file system")
        ))
    );
    assert_eq!(job.pending(), None);
}

#[test]
fn a_modified_time_that_cannot_be_read_stops_the_run() {
    let mut disk = Disk::new();
    disk.files.insert(String::from("a.jpg"), b"no metadata".to_vec());
    let step = disk.archive("/archive", "a.jpg");
    assert_eq!(
        step,
        Step::Aborted(Fatal::ModifiedTimeUnreadable(
            String::from("a.jpg"),
            String::from("not supported")
        ))
    );
}

#[test]
fn a_modified_time_out_of_range_stops_the_run() {
    let mut disk = Disk::new().with_file("a.jpg", b"no metadata");
    disk.modified.insert(String::from("a.jpg"), since_epoch(u64::MAX, 0));
    let step = disk.archive("/archive", "a.jpg");
    assert_eq!(step, Step::Aborted(Fatal::ModifiedTimeOutOfRange(String::from("a.jpg"))));
    assert!(disk.directories.is_empty());
}

#[test]
fn a_reply_out_of_turn_stops_the_run() {
    let mut job = Job::open("/archive", "a.jpg");
    assert_eq!(job.advance(Reply::CopyDone), Step::Aborted(Fatal::OutOfTurn));
    assert_eq!(job.pending(), None);
    assert_eq!(job.advance(Reply::SourceBytes(Vec::new())), Step::Aborted(Fatal::OutOfTurn));
    let mut job = Job::open("/archive", "a.jpg");
    job.advance(Reply::SourceBytes(Vec::new()));
    assert_eq!(job.pending(), Some(Request::QueryTool));
    assert_eq!(job.advance(Reply::ModifiedTime(since_epoch(0, 0))), Step::Aborted(Fatal::OutOfTurn));
}

#[test]
fn a_finished_job_takes_no_more_replies() {
    let mut job = Job::open("/archive", "a.jpg");
    let step = job.advance(Reply::SourceUnreadable(String::from("gone")));
    assert!(matches!(step, Step::Finished(Err(BackupFailure::CopyFailed(_, _)))));
    assert_eq!(job.advance(Reply::DirectoryReady), Step::Aborted(Fatal::OutOfTurn));
}

#[test]
fn pictures_of_one_day_share_one_directory() {
    let mut disk = Disk::new();
    let names = ["a.jpg", "b.jpg", "c.jpg", "d.jpg", "e.jpg", "f.jpg"];
    let dates = [
        "2023:07:04 10:00:00",
        "2023:07:04 23:59:59",
        "2023:07:05 00:00:00",
        "2023:07:04 00:00:00",
        "2023:07:05 12:00:00",
        "2024:07:04 10:00:00",
    ];
    for (name, date) in names.iter().zip(dates.iter()) {
        disk = disk.with_file(&format!("/camera/{}", name), &picture_taken(date, name.as_bytes()));
    }
    for name in names.iter() {
        let step = disk.archive("/archive", &format!("/camera/{}", name));
        assert!(matches!(step, Step::Finished(Ok(BackupSuccess::Copied(_, _)))));
    }
    let expected: BTreeSet<String> = ["/archive/2023/07/04", "/archive/2023/07/05", "/archive/2024/07/04"]
        .iter()
        .map(|d| String::from(*d))
        .collect();
    assert_eq!(disk.directories, expected);
    for (name, directory) in names.iter().zip(
        ["2023/07/04", "2023/07/04", "2023/07/05", "2023/07/04", "2023/07/05", "2024/07/04"].iter(),
    ) {
        assert!(disk.files.contains_key(&format!("/archive/{}/{}", directory, name)));
    }
}
