//! What stops a whole run.

use vstd::prelude::*;

verus! {

/// Why the whole run must stop.
#[derive(Clone, Debug, PartialEq, Eq)]
pub enum Fatal {
    /// The root of the archive is a file.
    RootIsAFile(String),
    /// The one picture that was named is no file.
    SourceNotAFile(String),
    /// Something that is no directory stands where the archive needs this
    /// directory.
    DirectoryBlocked(String),
    /// This directory cannot be created: directory, then reason.
    DirectoryNotCreated(String, String),
    /// The last-modified time of this source cannot be read: source, then
    /// reason.
    ModifiedTimeUnreadable(String, String),
    /// The last-modified time of this source is no date that can be
    /// written down.
    ModifiedTimeOutOfRange(String),
    /// The caller replied to a request that the job had not made.
    OutOfTurn,
}

/// What a `Fatal` says.
pub enum FatalView {
    RootIsAFile(Seq<char>),
    SourceNotAFile(Seq<char>),
    DirectoryBlocked(Seq<char>),
    DirectoryNotCreated(Seq<char>, Seq<char>),
    ModifiedTimeUnreadable(Seq<char>, Seq<char>),
    ModifiedTimeOutOfRange(Seq<char>),
    OutOfTurn,
}

impl View for Fatal {
    type V = FatalView;

    open spec fn view(&self) -> FatalView {
        match self {
            Fatal::RootIsAFile(root) => FatalView::RootIsAFile(root@),
            Fatal::SourceNotAFile(source) => FatalView::SourceNotAFile(source@),
            Fatal::DirectoryBlocked(directory) => FatalView::DirectoryBlocked(directory@),
            Fatal::DirectoryNotCreated(directory, reason) => FatalView::DirectoryNotCreated(
                directory@,
                reason@,
            ),
            Fatal::ModifiedTimeUnreadable(source, reason) => FatalView::ModifiedTimeUnreadable(
                source@,
                reason@,
            ),
            Fatal::ModifiedTimeOutOfRange(source) => FatalView::ModifiedTimeOutOfRange(source@),
            Fatal::OutOfTurn => FatalView::OutOfTurn,
        }
    }
}

/// The line that a run stops with.
pub open spec fn fatal_line(fatal: FatalView) -> Seq<char> {
    match fatal {
        FatalView::RootIsAFile(root) => "ERROR: "@ + root + " is a file, not a valid backup dir"@,
        FatalView::SourceNotAFile(source) => "ERROR: "@ + source + " is not a file"@,
        FatalView::DirectoryBlocked(directory) => "ERROR: "@ + directory
            + " already exists and is not a directory. Can't use it to store a picture."@,
        FatalView::DirectoryNotCreated(directory, reason) =>
            "ERROR: cannot create the backup directory "@ + directory + ": "@ + reason,
        FatalView::ModifiedTimeUnreadable(source, reason) => "Cannot retrieve modified time for "@
            + source + ": "@ + reason,
        FatalView::ModifiedTimeOutOfRange(source) => "Cannot retrieve modified time for "@ + source
            + ": it is out of range"@,
        FatalView::OutOfTurn => "ERROR: a reply came for a request that was not made"@,
    }
}

/// `head`, `first`, `middle`, `second` in a row.
fn sentence(head: &str, first: &str, middle: &str, second: &str) -> (text: String)
    ensures
        text@ == head@ + first@ + middle@ + second@,
{
    let mut text = head.to_owned();
    text.append(first);
    text.append(middle);
    text.append(second);
    text
}

impl Fatal {
    /// The line that the run stops with.
    pub fn describe(&self) -> (line: String)
        ensures
            line@ == fatal_line(self@),
    {
        proof {
            reveal_strlit("");
        }
        let line = match self {
            Fatal::RootIsAFile(root) => sentence(
                "ERROR: ",
                root.as_str(),
                " is a file, not a valid backup dir",
                "",
            ),
            Fatal::SourceNotAFile(source) => sentence(
                "ERROR: ",
                source.as_str(),
                " is not a file",
                "",
            ),
            Fatal::DirectoryBlocked(directory) => sentence(
                "ERROR: ",
                directory.as_str(),
                " already exists and is not a directory. Can't use it to store a picture.",
                "",
            ),
            Fatal::DirectoryNotCreated(directory, reason) => sentence(
                "ERROR: cannot create the backup directory ",
                directory.as_str(),
                ": ",
                reason.as_str(),
            ),
            Fatal::ModifiedTimeUnreadable(source, reason) => sentence(
                "Cannot retrieve modified time for ",
                source.as_str(),
                ": ",
                reason.as_str(),
            ),
            Fatal::ModifiedTimeOutOfRange(source) => sentence(
                "Cannot retrieve modified time for ",
                source.as_str(),
                ": it is out of range",
                "",
            ),
            Fatal::OutOfTurn => sentence(
                "ERROR: a reply came for a request that was not made",
                "",
                "",
                "",
            ),
        };
        assert(line@ =~= fatal_line(self@));
        line
    }
}

} // verus!
