//! Upload handling: recording the fields of a multipart request as
//! they stream in, and deciding afterwards — in the order the fields
//! are checked — whether the upload can proceed and where the bytes
//! will be written.
//!
//! The surrounding process reads the multipart stream; every decision
//! about its content is made here.

use vstd::prelude::*;
use vstd::string::*;
use crate::paths::spec_sanitize;
use crate::paths::sanitize_filename;

verus! {

/// The whitespace characters stripped from the ends of a path field.
pub open spec fn is_space(c: char) -> bool {
    c == ' ' || c == '\t' || c == '\n' || c == '\r'
}

/// The sequence with leading whitespace removed.
pub open spec fn trim_leading_ws(s: Seq<char>) -> Seq<char>
    decreases s.len(),
{
    if s.len() > 0 && is_space(s.first()) {
        trim_leading_ws(s.drop_first())
    } else {
        s
    }
}

/// The sequence with trailing whitespace removed.
pub open spec fn trim_trailing_ws(s: Seq<char>) -> Seq<char>
    decreases s.len(),
{
    if s.len() > 0 && is_space(s.last()) {
        trim_trailing_ws(s.drop_last())
    } else {
        s
    }
}

/// The sequence with whitespace removed from both ends.
pub open spec fn spec_trim_ws(s: Seq<char>) -> Seq<char> {
    trim_trailing_ws(trim_leading_ws(s))
}

fn is_space_char(c: char) -> (r: bool)
    ensures
        r == is_space(c),
{
    c == ' ' || c == '\t' || c == '\n' || c == '\r'
}

/// Removes whitespace from both ends, the cleanup applied to the
/// "path" field of an upload request.
pub fn trim_whitespace(s: &str) -> (r: String)
    ensures
        r@ == spec_trim_ws(s@),
{
    let n = s.unicode_len();
    let mut a: usize = 0;
    proof {
        assert(s@.subrange(0, n as int) =~= s@);
    }
    while a < n && is_space_char(s.get_char(a))
        invariant
            n == s@.len(),
            a <= n,
            trim_leading_ws(s@) == trim_leading_ws(s@.subrange(a as int, n as int)),
        decreases n - a,
    {
        proof {
            assert(s@.subrange(a as int, n as int).drop_first() =~= s@.subrange(
                a + 1,
                n as int,
            ));
        }
        a = a + 1;
    }
    proof {
        assert(trim_leading_ws(s@) == s@.subrange(a as int, n as int));
    }
    let mut b: usize = n;
    while b > a && is_space_char(s.get_char(b - 1))
        invariant
            n == s@.len(),
            a <= b <= n,
            trim_leading_ws(s@) == s@.subrange(a as int, n as int),
            trim_trailing_ws(s@.subrange(a as int, n as int)) == trim_trailing_ws(
                s@.subrange(a as int, b as int),
            ),
        decreases b,
    {
        proof {
            assert(s@.subrange(a as int, b as int).drop_last() =~= s@.subrange(
                a as int,
                b - 1,
            ));
        }
        b = b - 1;
    }
    proof {
        assert(trim_trailing_ws(s@.subrange(a as int, n as int)) == s@.subrange(
            a as int,
            b as int,
        ));
    }
    s.substring_char(a, b).to_owned()
}

/// An upload request as received: file and path may each be absent.
pub struct UploadFileRequest {
    pub file: Option<(String, Vec<u8>)>,
    pub path: Option<String>,
}

/// What the multipart loop has collected so far.
pub struct UploadRequestData {
    /// The final, sanitized filename.
    pub filename: Option<String>,
    /// The full file bytes read from the request.
    pub file_bytes: Option<Vec<u8>>,
    /// The path (directory) where the file should be stored.
    pub path: Option<String>,
}

impl UploadRequestData {
    /// The state before any field arrived.
    pub fn empty() -> (r: UploadRequestData)
        ensures
            r.filename is None,
            r.file_bytes is None,
            r.path is None,
    {
        UploadRequestData { filename: None, file_bytes: None, path: None }
    }
}

/// One multipart field, already drained to plain values by the reader.
pub enum MultipartField {
    /// A "path" field with its text content.
    PathField(String),
    /// A "file" field with its filename and content.
    FileField(String, Vec<u8>),
    /// Any other field; it is drained and ignored.
    UnknownField,
}

/// Records one field: a path is trimmed of whitespace, a filename is
/// sanitized, anything else is ignored. A later field of the same name
/// replaces the earlier one, as in a streaming read.
pub fn record_field(data: &mut UploadRequestData, field: MultipartField)
    ensures
        match field {
            MultipartField::PathField(p) => {
                &&& final(data).path matches Some(cleaned) && cleaned@ == spec_trim_ws(p@)
                &&& final(data).filename == old(data).filename
                &&& final(data).file_bytes == old(data).file_bytes
            },
            MultipartField::FileField(f, b) => {
                &&& final(data).filename matches Some(sf) && sf@ == spec_sanitize(f@)
                &&& final(data).file_bytes matches Some(bytes) && bytes@ == b@
                &&& final(data).path == old(data).path
            },
            MultipartField::UnknownField => *final(data) == *old(data),
        },
{
    match field {
        MultipartField::PathField(p) => {
            data.path = Some(trim_whitespace(p.as_str()));
        },
        MultipartField::FileField(f, b) => {
            data.filename = Some(sanitize_filename(f.as_str()));
            data.file_bytes = Some(b);
        },
        MultipartField::UnknownField => {},
    }
}

/// Where an accepted upload will write: the relative directory, the
/// sanitized filename, and the content.
#[derive(Debug)]
pub struct UploadPlan {
    pub target_rel: String,
    pub filename: String,
    pub bytes: Vec<u8>,
}

/// Decides, once all fields are read, whether the upload can proceed.
/// The checks run in a fixed order — file, bytes, path — and each
/// missing piece is reported with its own message.
pub fn upload_plan(data: UploadRequestData) -> (r: Result<UploadPlan, (u16, String)>)
    ensures
        match r {
            Ok(plan) => {
                &&& data.filename matches Some(f) && plan.filename == f
                &&& data.file_bytes matches Some(b) && plan.bytes == b
                &&& data.path matches Some(p) && plan.target_rel == p
            },
            Err((code, m)) => {
                &&& code == 400
                &&& (data.filename is None || data.file_bytes is None || data.path is None)
                &&& (data.filename is None ==> m@ == "No file was provided in the request"@)
                &&& (data.filename is Some && data.file_bytes is None ==> m@
                    == "File bytes were not captured"@)
                &&& (data.filename is Some && data.file_bytes is Some ==> m@
                    == "No path was provided in the request"@)
            },
        },
{
    let filename = match data.filename {
        Some(f) => f,
        None => {
            return Err((400u16, "No file was provided in the request".to_owned()));
        },
    };
    let bytes = match data.file_bytes {
        Some(b) => b,
        None => {
            return Err((400u16, "File bytes were not captured".to_owned()));
        },
    };
    let target_rel = match data.path {
        Some(p) => p,
        None => {
            return Err((400u16, "No path was provided in the request".to_owned()));
        },
    };
    Ok(UploadPlan { target_rel, filename, bytes })
}

} // verus!
