//! The service-shaped API around the path layer: classification
//! checks, the pure parts of rename and of file reads and writes, and
//! the outcome translation each of them uses. The surrounding process
//! performs the file-system steps and feeds the results in.

use vstd::prelude::*;
use vstd::string::*;
use crate::paths::{
    spec_sanitize, sanitize_filename, spec_join, join_entity_path, has_parent_component,
    contains_parent_component,
};
use crate::outcome::EntityKind;

verus! {

/// Classifies resolved paths: the observed metadata comes in, the
/// decision comes out.
pub struct PathService;

impl PathService {
    pub fn new() -> (r: PathService) {
        PathService
    }

    /// Branches on what exists at a resolved path when a directory is
    /// expected: missing is NotFound, a file is the wrong kind.
    pub fn check_if_entity_is_dir(&self, observed: EntityKind, name: &str) -> (r: Result<
        (),
        (u16, String),
    >)
        ensures
            match r {
                Ok(_) => observed is Directory,
                Err((code, m)) => {
                    &&& !(observed is Directory)
                    &&& (observed is Missing ==> code == 404 && m@ == "Directory '"@ + name@
                        + "' not found."@)
                    &&& (observed is File ==> code == 400 && m@ == "'"@ + name@
                        + "' is not a directory."@)
                },
            },
    {
        match observed {
            EntityKind::Directory => Ok(()),
            EntityKind::Missing => {
                let mut m = "Directory '".to_owned();
                m.append(name);
                m.append("' not found.");
                Err((404u16, m))
            },
            EntityKind::File => {
                let mut m = "'".to_owned();
                m.append(name);
                m.append("' is not a directory.");
                Err((400u16, m))
            },
        }
    }

    /// Branches on what exists at a resolved path when a file is
    /// expected.
    pub fn check_if_entity_is_file(&self, observed: EntityKind, name: &str) -> (r: Result<
        (),
        (u16, String),
    >)
        ensures
            match r {
                Ok(_) => observed is File,
                Err((code, m)) => {
                    &&& !(observed is File)
                    &&& (observed is Missing ==> code == 404 && m@ == "File '"@ + name@
                        + "' not found."@)
                    &&& (observed is Directory ==> code == 400 && m@ == "'"@ + name@
                        + "' is not a file."@)
                },
            },
    {
        match observed {
            EntityKind::File => Ok(()),
            EntityKind::Missing => {
                let mut m = "File '".to_owned();
                m.append(name);
                m.append("' not found.");
                Err((404u16, m))
            },
            EntityKind::Directory => {
                let mut m = "'".to_owned();
                m.append(name);
                m.append("' is not a file.");
                Err((400u16, m))
            },
        }
    }
}

/// The pure part of a rename: both paths under the user's namespace,
/// and the outcome translation for the OS rename step.
pub struct RenameService {
    root_dir: String,
}

impl RenameService {
    /// The configured root directory.
    pub closed spec fn spec_root(&self) -> Seq<char> {
        self.root_dir@
    }

    pub fn new(root_dir: String) -> (r: RenameService)
        ensures
            r.spec_root() == root_dir@,
    {
        RenameService { root_dir }
    }

    /// Joins the old and the new path for a rename, rejecting any raw
    /// segment with a parent-directory component before either path
    /// could reach the file system.
    pub fn rename_paths(&self, username: &str, path: &str, old_name: &str, new_name: &str)
        -> (r: Result<(String, String), (u16, String)>)
        ensures
            match r {
                Ok((o, n)) => {
                    &&& !has_parent_component(username@)
                    &&& !has_parent_component(path@)
                    &&& !has_parent_component(old_name@)
                    &&& !has_parent_component(new_name@)
                    &&& o@ == spec_join(self.spec_root(), username@, path@, old_name@)
                    &&& n@ == spec_join(self.spec_root(), username@, path@, new_name@)
                },
                Err((code, m)) => {
                    &&& (has_parent_component(username@) || has_parent_component(path@)
                        || has_parent_component(old_name@) || has_parent_component(new_name@))
                    &&& code == 400
                    &&& m@ == "Invalid file path: directory traversal detected."@
                },
            },
    {
        if contains_parent_component(username) || contains_parent_component(path)
            || contains_parent_component(old_name) || contains_parent_component(new_name) {
            return Err((
                400u16,
                "Invalid file path: directory traversal detected.".to_owned(),
            ));
        }
        let old_path = join_entity_path(self.root_dir.as_str(), username, path, old_name);
        let new_path = join_entity_path(self.root_dir.as_str(), username, path, new_name);
        Ok((old_path, new_path))
    }

    /// Translates the OS rename result: success is reported with the
    /// fixed message, a failure carries the OS text.
    pub fn rename_outcome(&self, renamed: Result<(), String>) -> (r: Result<
        String,
        (u16, String),
    >)
        ensures
            match renamed {
                Ok(_) => r matches Ok(m) && m@ == "Successfully renamed"@,
                Err(e) => r matches Err((code, m)) && code == 400 && m@ == "Error: "@ + e@,
            },
    {
        match renamed {
            Ok(_) => Ok("Successfully renamed".to_owned()),
            Err(e) => {
                let mut m = "Error: ".to_owned();
                m.append(e.as_str());
                Err((400u16, m))
            },
        }
    }
}

/// The text carries no '%' sign, so percent-decoding passes it
/// through unchanged.
pub open spec fn percent_free(s: Seq<char>) -> bool {
    forall|i: int| 0 <= i < s.len() ==> s[i] != '%'
}

/// Relies on percent_encoding::percent_decode_str followed by UTF-8
/// decoding: the result is a function of the input text alone, a
/// '%'-free text passes through unchanged, and decoding fails only
/// when a '%' escape produced invalid text.
#[verifier::external_body]
fn percent_decode(s: &str) -> (r: Option<String>)
    ensures
        match r {
            Some(d) => percent_decoded(s@) == Some(d@) && (percent_free(s@) ==> d@ == s@),
            None => percent_decoded(s@) is None && !percent_free(s@),
        },
{
    match percent_encoding::percent_decode_str(s).decode_utf8() {
        Ok(d) => Some(d.into_owned()),
        Err(_) => None,
    }
}

/// What percent-decoding a request parameter yields, when the decoded
/// bytes are valid text.
pub uninterp spec fn percent_decoded(s: Seq<char>) -> Option<Seq<char>>;

/// Where a prepared read will look, and the decoded filename it
/// reports back.
#[derive(Debug)]
pub struct ReadPlan {
    pub full_path: String,
    pub filename: String,
}

/// The pure parts of reading a file for download: decode both request
/// parameters, join them under the user's directory, and reject the
/// path if any parent-directory component survives — all before the
/// file system is touched. A plan is owed whenever both parameters
/// decode and the joined path is clean — failure happens only for the
/// three named reasons — and '%'-free parameters pass into the plan
/// unchanged, so a plain request reads exactly the path it names.
pub fn prepare_read(root: &str, user_name: &str, path: &str, filename: &str) -> (r: Result<
    ReadPlan,
    (u16, String),
>)
    ensures
        match r {
            Ok(plan) => {
                &&& percent_decoded(path@) matches Some(dp) && percent_decoded(filename@)
                    matches Some(df) && {
                    &&& plan.full_path@ == spec_join(root@, user_name@, dp, df)
                    &&& plan.filename@ == df
                    &&& !has_parent_component(plan.full_path@)
                }
                &&& (percent_free(path@) && percent_free(filename@) ==> {
                    &&& plan.full_path@ == spec_join(root@, user_name@, path@, filename@)
                    &&& plan.filename@ == filename@
                })
            },
            Err((code, m)) => {
                &&& code == 400
                &&& match percent_decoded(path@) {
                    Option::None => m@ == "Failed to decode 'path' parameter."@,
                    Option::Some(dp) => match percent_decoded(filename@) {
                        Option::None => m@ == "Failed to decode 'filename' parameter."@,
                        Option::Some(df) => has_parent_component(
                            spec_join(root@, user_name@, dp, df),
                        ) && m@ == "Invalid file path: directory traversal detected."@,
                    },
                }
            },
        },
{
    let decoded_path = match percent_decode(path) {
        Some(d) => d,
        None => {
            return Err((400u16, "Failed to decode 'path' parameter.".to_owned()));
        },
    };
    let decoded_filename = match percent_decode(filename) {
        Some(d) => d,
        None => {
            return Err((400u16, "Failed to decode 'filename' parameter.".to_owned()));
        },
    };
    let full_path = join_entity_path(
        root,
        user_name,
        decoded_path.as_str(),
        decoded_filename.as_str(),
    );
    if contains_parent_component(full_path.as_str()) {
        return Err((
            400u16,
            "Invalid file path: directory traversal detected.".to_owned(),
        ));
    }
    Ok(ReadPlan { full_path, filename: decoded_filename })
}

/// Translates the result of the read itself: the bytes with the
/// decoded filename, or the not-found report.
pub fn read_outcome(filename: &str, bytes: Option<Vec<u8>>) -> (r: Result<
    (Vec<u8>, String),
    (u16, String),
>)
    ensures
        match bytes {
            Some(b) => r matches Ok((content, f)) && content@ == b@ && f@ == filename@,
            None => r matches Err((code, m)) && code == 404 && m@ == "File '"@ + filename@
                + "' not found"@,
        },
{
    match bytes {
        Some(b) => Ok((b, filename.to_owned())),
        None => {
            let mut m = "File '".to_owned();
            m.append(filename);
            m.append("' not found");
            Err((404u16, m))
        },
    }
}

/// How the write step of a save failed, with the OS text.
pub enum SaveFailure {
    /// The file could not be created.
    Create(String),
    /// The file was created but writing the bytes failed.
    Write(String),
}

/// Stores uploaded bytes: sanitization and outcome translation; the
/// create and write steps run outside and report back.
pub struct FileService {
    root_dir: String,
}

impl FileService {
    /// The configured root directory.
    pub closed spec fn spec_root(&self) -> Seq<char> {
        self.root_dir@
    }

    pub fn new(root_dir: String) -> (r: FileService)
        ensures
            r.spec_root() == root_dir@,
    {
        FileService { root_dir }
    }

    /// Strips path separators from a file name.
    pub fn sanitize_filename(&self, name: &str) -> (r: String)
        ensures
            r@ == spec_sanitize(name@),
    {
        sanitize_filename(name)
    }

    /// Translates the result of saving bytes to a file: the fixed
    /// success message, or the failing step with its path and OS text.
    pub fn save_file_outcome(&self, path_text: &str, result: Result<(), SaveFailure>) -> (r:
        Result<String, (u16, String)>)
        ensures
            match result {
                Ok(_) => r matches Ok(m) && m@ == "Successfully saved file!"@,
                Err(SaveFailure::Create(e)) => r matches Err((code, m)) && code == 500 && m@
                    == "Error creating file at "@ + path_text@ + ": "@ + e@,
                Err(SaveFailure::Write(e)) => r matches Err((code, m)) && code == 500 && m@
                    == "Error writing to file "@ + path_text@ + ": "@ + e@,
            },
    {
        match result {
            Ok(_) => Ok("Successfully saved file!".to_owned()),
            Err(SaveFailure::Create(e)) => {
                let mut m = "Error creating file at ".to_owned();
                m.append(path_text);
                m.append(": ");
                m.append(e.as_str());
                proof {
                    assert(m@ =~= "Error creating file at "@ + path_text@ + ": "@ + e@);
                }
                Err((500u16, m))
            },
            Err(SaveFailure::Write(e)) => {
                let mut m = "Error writing to file ".to_owned();
                m.append(path_text);
                m.append(": ");
                m.append(e.as_str());
                proof {
                    assert(m@ =~= "Error writing to file "@ + path_text@ + ": "@ + e@);
                }
                Err((500u16, m))
            },
        }
    }
}

} // verus!
