//! Where a picture's capture time comes from: its own metadata first, then
//! the external metadata tool, then the file's last-modified time.

use crate::timestamp::{capture_time_of_text, parse_capture_time, CaptureTimestamp, Provenance};
use vstd::prelude::*;
use vstd::utf8::{decode_utf8, valid_utf8};

verus! {

/// One record of the external metadata tool's answer.
#[derive(Clone, Debug, PartialEq, Eq)]
pub struct ToolRecord {
    /// The creation date as the tool wrote it, if the record holds one.
    pub create_date: Option<String>,
}

/// How the external metadata tool answered.
#[derive(Clone, Debug, PartialEq, Eq)]
pub enum ToolAnswer {
    /// The tool could not be started.
    NotRun,
    /// The tool ran and reported a failure.
    Failed,
    /// What the tool printed is no list of records.
    Unreadable,
    /// The records that the tool printed.
    Records(Vec<ToolRecord>),
}

/// The number of the Exif attribute `DateTimeOriginal`: the date and time
/// at which a picture was taken.
pub const DATE_TIME_ORIGINAL: u16 = 0x9003;

/// The number of the primary image of a file, as against its thumbnail.
pub const PRIMARY_IMAGE: u16 = 0;

/// The metadata that the `exif` crate has read from a picture file.
#[verifier::external_type_specification]
#[verifier::external_body]
pub struct ExExif(exif::Exif);

/// The text fields among the Exif attributes that `metadata` holds: the
/// strings of each field of type ASCII, by the number of its attribute and
/// the number of its image, as `exif::Exif::get_field` hands them out.
pub uninterp spec fn exif_text_fields(metadata: exif::Exif) -> Map<(int, int), Seq<Seq<u8>>>;

/// What `exif::Reader::read_from_container` reads from the bytes of a file:
/// the text fields of the metadata it finds, or `None` where it reports an
/// error.
pub uninterp spec fn exif_read(file: Seq<u8>) -> Option<Map<(int, int), Seq<Seq<u8>>>>;

/// The byte strings of `values`.
pub open spec fn byte_strings(values: Seq<Vec<u8>>) -> Seq<Seq<u8>> {
    Seq::new(values.len(), |i: int| values[i]@)
}

/// Reads the metadata of a picture with `exif::Reader::read_from_container`.
/// Not proved: that the text fields of what it reads are a function of the
/// bytes alone.
#[verifier::external_body]
fn read_metadata(file: &[u8]) -> (metadata: Option<exif::Exif>)
    ensures
        match metadata {
            Some(m) => exif_read(file@) == Some(exif_text_fields(m)),
            None => exif_read(file@) is None,
        },
{
    exif::Reader::new().read_from_container(&mut std::io::Cursor::new(file)).ok()
}

/// Looks up one field among the Exif attributes with `exif::Exif::get_field`
/// and hands out its strings where it is of type ASCII. Not proved: that
/// these are the strings that the metadata holds for the two numbers, and
/// that a field which is missing or of another type gives `None`.
#[verifier::external_body]
fn text_field(metadata: &exif::Exif, attribute: u16, image: u16) -> (values: Option<Vec<Vec<u8>>>)
    ensures
        match values {
            Some(v) => exif_text_fields(*metadata).contains_key((attribute as int, image as int))
                && exif_text_fields(*metadata)[(attribute as int, image as int)] == byte_strings(
                v@,
            ),
            None => !exif_text_fields(*metadata).contains_key((attribute as int, image as int)),
        },
{
    let tag = exif::Tag(exif::Context::Exif, attribute);
    match &metadata.get_field(tag, exif::In(image))?.value {
        exif::Value::Ascii(strings) => Some(strings.clone()),
        _ => None,
    }
}

/// Decodes UTF-8 with `core::str::from_utf8`, which accepts exactly the
/// well-formed byte strings and changes no byte.
#[verifier::external_body]
fn text_of_utf8(bytes: &[u8]) -> (text: Option<&str>)
    ensures
        text is Some <==> valid_utf8(bytes@),
        text matches Some(t) ==> t@ == decode_utf8(bytes@),
{
    core::str::from_utf8(bytes).ok()
}

/// The capture time that the strings of a date field spell: that of the
/// first string, where there is one, it is well-formed UTF-8 and follows the
/// pattern `YYYY:MM:DD HH:MM:SS`.
pub open spec fn capture_time_of_field(values: Seq<Seq<u8>>) -> Option<CaptureTimestamp> {
    if values.len() > 0 && valid_utf8(values[0]) {
        capture_time_of_text(decode_utf8(values[0]))
    } else {
        None
    }
}

/// The capture time that a picture file's own metadata gives: that of the
/// attribute `DateTimeOriginal` of the primary image, where the metadata can
/// be read and holds it as text.
pub open spec fn embedded_capture_time_of(file: Seq<u8>) -> Option<CaptureTimestamp> {
    match exif_read(file) {
        Some(fields) => if fields.contains_key(
            (DATE_TIME_ORIGINAL as int, PRIMARY_IMAGE as int),
        ) {
            capture_time_of_field(fields[(DATE_TIME_ORIGINAL as int, PRIMARY_IMAGE as int)])
        } else {
            None
        },
        None => None,
    }
}

/// The capture time that the tool's answer gives: the creation date of its
/// only record. A tool that did not run or failed, an answer that cannot be
/// read, no record, several records, a record without date and a date off
/// the pattern all give none.
pub open spec fn tool_capture_time_of(answer: ToolAnswer) -> Option<CaptureTimestamp> {
    match answer {
        ToolAnswer::Records(records) => if records@.len() == 1 {
            match records@[0].create_date {
                Some(date) => capture_time_of_text(date@),
                None => None,
            }
        } else {
            None
        },
        _ => None,
    }
}

/// The capture time of a picture and the source it comes from: the first of
/// embedded metadata, tool record and last-modified time that gives one.
pub open spec fn resolution_of(
    embedded: Option<CaptureTimestamp>,
    tool: Option<CaptureTimestamp>,
    modified: Option<CaptureTimestamp>,
) -> Option<(CaptureTimestamp, Provenance)> {
    match embedded {
        Some(t) => Some((t, Provenance::EmbeddedMetadata)),
        None => match tool {
            Some(t) => Some((t, Provenance::ExternalToolMetadata)),
            None => match modified {
                Some(t) => Some((t, Provenance::FilesystemModifiedTime)),
                None => None,
            },
        },
    }
}

/// Reads the capture time off the strings of a date field.
pub fn field_capture_time(values: &Vec<Vec<u8>>) -> (taken: Option<CaptureTimestamp>)
    ensures
        taken == capture_time_of_field(byte_strings(values@)),
        taken matches Some(t) ==> t.is_calendar_time(),
{
    if values.len() == 0 {
        return None;
    }
    match text_of_utf8(values[0].as_slice()) {
        Some(text) => parse_capture_time(text),
        None => None,
    }
}

/// Looks for the capture time in the picture's own metadata. Whatever keeps
/// it from being read there gives `None`.
pub fn embedded_capture_time(file: &[u8]) -> (taken: Option<CaptureTimestamp>)
    ensures
        taken == embedded_capture_time_of(file@),
        taken matches Some(t) ==> t.is_calendar_time(),
{
    match read_metadata(file) {
        Some(metadata) => match text_field(&metadata, DATE_TIME_ORIGINAL, PRIMARY_IMAGE) {
            Some(values) => field_capture_time(&values),
            None => None,
        },
        None => None,
    }
}

/// Looks for the capture time in the external tool's answer.
pub fn tool_capture_time(answer: &ToolAnswer) -> (taken: Option<CaptureTimestamp>)
    ensures
        taken == tool_capture_time_of(*answer),
        taken matches Some(t) ==> t.is_calendar_time(),
{
    match answer {
        ToolAnswer::Records(records) => {
            if records.len() != 1 {
                return None;
            }
            match &records[0].create_date {
                Some(date) => parse_capture_time(date.as_str()),
                None => None,
            }
        },
        _ => None,
    }
}

/// Resolves the capture time of a picture from what its three sources gave,
/// in strict order: the embedded metadata wins over the tool's record, and
/// either wins over the last-modified time.
pub fn resolve(
    embedded: Option<CaptureTimestamp>,
    tool: Option<CaptureTimestamp>,
    modified: Option<CaptureTimestamp>,
) -> (resolved: Option<(CaptureTimestamp, Provenance)>)
    ensures
        resolved == resolution_of(embedded, tool, modified),
        embedded matches Some(t) ==> resolved == Some((t, Provenance::EmbeddedMetadata)),
        embedded is None ==> (tool matches Some(t) ==> resolved == Some(
            (t, Provenance::ExternalToolMetadata),
        )),
        embedded is None && tool is None ==> (modified matches Some(t) ==> resolved == Some(
            (t, Provenance::FilesystemModifiedTime),
        )),
        resolved is None <==> embedded is None && tool is None && modified is None,
{
    match embedded {
        Some(t) => Some((t, Provenance::EmbeddedMetadata)),
        None => match tool {
            Some(t) => Some((t, Provenance::ExternalToolMetadata)),
            None => match modified {
                Some(t) => Some((t, Provenance::FilesystemModifiedTime)),
                None => None,
            },
        },
    }
}

} // verus!
