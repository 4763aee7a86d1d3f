//! Plain records the file commands hand across: metadata of a file on
//! disk and the options of an export.  The application gathers the raw
//! values; assembling and formatting happens here.

use vstd::prelude::*;

verus! {

/// Metadata of a file as shown to the user.
#[derive(Debug)]
pub struct FileInfo {
    pub path: String,
    pub name: String,
    pub size: u64,
    pub modified: Option<String>,
    pub created: Option<String>,
}

/// What an export writes and where.
#[derive(Debug)]
pub struct ExportOptions {
    pub format: String,
    pub content: String,
    pub output_path: String,
}

/// The display form of a Unix timestamp, named but not defined: the
/// trusted wrapper below is the only source of values for it.
pub uninterp spec fn datetime_display_of(secs: i64, nanos: u32) -> Seq<char>;

/// Relies on chrono's DateTime<Utc>::from_timestamp and its "%Y-%m-%d
/// %H:%M:%S" formatting: a function of the timestamp alone (empty for a
/// timestamp chrono cannot represent).
#[verifier::external_body]
fn format_epoch(secs: i64, nanos: u32) -> (r: String)
    ensures
        r@ == datetime_display_of(secs, nanos),
{
    match chrono::DateTime::<chrono::Utc>::from_timestamp(secs, nanos) {
        Some(dt) => dt.format("%Y-%m-%d %H:%M:%S").to_string(),
        None => String::new(),
    }
}

/// Builds the metadata record from what the filesystem reported: path and
/// base name as given, byte size, and each timestamp (seconds and
/// nanoseconds since the Unix epoch) in display form where one exists.
pub fn file_info_from_parts(
    path: String,
    name: String,
    size: u64,
    modified: Option<(i64, u32)>,
    created: Option<(i64, u32)>,
) -> (r: FileInfo)
    ensures
        r.path@ == path@,
        r.name@ == name@,
        r.size == size,
        r.modified.deep_view() == (match modified {
            Some(t) => Some(datetime_display_of(t.0, t.1)),
            None => None,
        }),
        r.created.deep_view() == (match created {
            Some(t) => Some(datetime_display_of(t.0, t.1)),
            None => None,
        }),
{
    let modified_text = (match modified {
        Some(t) => Some(format_epoch(t.0, t.1)),
        None => None,
    });
    let created_text = (match created {
        Some(t) => Some(format_epoch(t.0, t.1)),
        None => None,
    });
    FileInfo { path, name, size, modified: modified_text, created: created_text }
}

} // verus!
