//! The coordination logic every operation kind shares: prepare the
//! path (rejecting traversal before anything touches the file system),
//! accept the resolved path, validate the observed entity kind against
//! what the operation expects, run under the per-path lock, and
//! translate the result into one outcome with the uniform status
//! mapping.
//!
//! The stages are separate types, so a lock can only be taken for a
//! request that passed resolution and validation, and an outcome can
//! only be produced for a request that held the lock.

use vstd::prelude::*;
use vstd::string::*;
use crate::outcome::{EntityKind, ErrorKind, OperationOutcome, spec_status_of};
use crate::paths::{
    CanonicalPath, has_parent_component, spec_join, join_entity_path,
    contains_parent_component,
};
use crate::lock_manager::LockHandle;

verus! {

/// The operation kinds the coordinator serves.
#[derive(Clone, Copy, PartialEq, Eq, Structural, Debug)]
pub enum OpKind {
    CreateDirectory,
    DeleteFile,
    DeleteDirectory,
    Rename,
    Upload,
    Download,
    Export,
}

/// How the file-system step of an operation failed, as reported back
/// by the process that performed it.
#[derive(Clone, Copy, PartialEq, Eq, Structural, Debug)]
pub enum ExecFailure {
    /// The entity vanished between validation and execution.
    Missing,
    /// The entity turned out not to be the expected type.
    WrongType,
    /// Any other OS-level failure.
    Io,
}

/// A request is refused outright when any raw segment smuggles in a
/// parent-directory component.
pub open spec fn spec_traversal_rejected(user: Seq<char>, rel: Seq<char>, name: Seq<char>) -> bool {
    has_parent_component(user) || has_parent_component(rel) || has_parent_component(name)
}

/// Which observed entity kinds let the operation proceed.
pub open spec fn kind_ok(k: OpKind, observed: EntityKind) -> bool {
    match k {
        OpKind::CreateDirectory => observed is Missing,
        OpKind::DeleteFile => observed is File,
        OpKind::Download => observed is File,
        OpKind::DeleteDirectory => observed is Directory,
        OpKind::Export => observed is Directory,
        OpKind::Rename => !(observed is Missing),
        OpKind::Upload => !(observed is Directory),
    }
}

/// The error kind a failed validation reports: a missing entity is
/// NotFound, an entity of the wrong type is WrongKind.
pub open spec fn validation_error(k: OpKind, observed: EntityKind) -> ErrorKind {
    if observed is Missing {
        ErrorKind::NotFound
    } else {
        ErrorKind::WrongKind
    }
}

/// The message reported when the entity an operation addresses is
/// missing.
pub open spec fn not_found_message(k: OpKind, name: Seq<char>) -> Seq<char> {
    match k {
        OpKind::DeleteFile => "File '"@ + name + "' not found."@,
        OpKind::Upload => "File '"@ + name + "' not found."@,
        OpKind::Download => "File '"@ + name + "' not found"@,
        OpKind::DeleteDirectory => "Directory '"@ + name + "' not found."@,
        OpKind::CreateDirectory => "Directory '"@ + name + "' not found."@,
        OpKind::Export => "Directory '"@ + name + "' not found."@,
        OpKind::Rename => "File not found"@,
    }
}

/// The message reported when the entity exists but has the wrong type.
pub open spec fn wrong_kind_message(k: OpKind, name: Seq<char>) -> Seq<char> {
    match k {
        OpKind::DeleteFile => "'"@ + name + "' is not a file."@,
        OpKind::Download => "'"@ + name + "' is not a file."@,
        OpKind::Upload => "'"@ + name + "' is not a file."@,
        OpKind::DeleteDirectory => "'"@ + name + "' is not a directory."@,
        OpKind::Export => "'"@ + name + "' is not a directory."@,
        OpKind::CreateDirectory => "'"@ + name + "' already exists."@,
        OpKind::Rename => "'"@ + name + "' cannot be renamed."@,
    }
}

/// The message reported when the file-system step itself failed.
pub open spec fn io_failure_message(k: OpKind, name: Seq<char>) -> Seq<char> {
    match k {
        OpKind::DeleteFile => "Failed to delete file '"@ + name + "'."@,
        OpKind::DeleteDirectory => "Failed to delete directory '"@ + name + "'."@,
        OpKind::CreateDirectory => "Failed to create directory '"@ + name + "'."@,
        OpKind::Rename => "Failed to rename '"@ + name + "'."@,
        OpKind::Upload => "Failed to save file '"@ + name + "'."@,
        OpKind::Download => "Failed to read file '"@ + name + "'."@,
        OpKind::Export => "Failed to export directory '"@ + name + "'."@,
    }
}

/// The message reported with a successful outcome.
pub open spec fn success_message(k: OpKind, name: Seq<char>) -> Seq<char> {
    match k {
        OpKind::DeleteFile => "File '"@ + name + "' deleted successfully."@,
        OpKind::DeleteDirectory => "Directory '"@ + name + "' deleted successfully."@,
        OpKind::CreateDirectory => "Successfully created the dir!"@,
        OpKind::Rename => "Successfully renamed"@,
        OpKind::Upload => "File uploaded successfully"@,
        OpKind::Download => name,
        OpKind::Export => name,
    }
}

/// The message reported for a rejected traversal attempt.
pub open spec fn traversal_message() -> Seq<char> {
    "Invalid file path: directory traversal detected."@
}

/// The error kind behind each execution failure.
pub open spec fn exec_failure_error(f: ExecFailure) -> ErrorKind {
    match f {
        ExecFailure::Missing => ErrorKind::NotFound,
        ExecFailure::WrongType => ErrorKind::WrongKind,
        ExecFailure::Io => ErrorKind::IOFailure,
    }
}

/// The message behind each execution failure.
pub open spec fn exec_failure_message(k: OpKind, f: ExecFailure, name: Seq<char>) -> Seq<char> {
    match f {
        ExecFailure::Missing => not_found_message(k, name),
        ExecFailure::WrongType => wrong_kind_message(k, name),
        ExecFailure::Io => io_failure_message(k, name),
    }
}

fn concat3(prefix: &str, middle: &str, suffix: &str) -> (r: String)
    ensures
        r@ == prefix@ + middle@ + suffix@,
{
    let mut s = prefix.to_owned();
    s.append(middle);
    s.append(suffix);
    proof {
        assert(s@ =~= prefix@ + middle@ + suffix@);
    }
    s
}

/// Builds the not-found message for an operation kind.
pub fn make_not_found_message(k: OpKind, name: &str) -> (r: String)
    ensures
        r@ == not_found_message(k, name@),
{
    match k {
        OpKind::DeleteFile => concat3("File '", name, "' not found."),
        OpKind::Upload => concat3("File '", name, "' not found."),
        OpKind::Download => concat3("File '", name, "' not found"),
        OpKind::DeleteDirectory => concat3("Directory '", name, "' not found."),
        OpKind::CreateDirectory => concat3("Directory '", name, "' not found."),
        OpKind::Export => concat3("Directory '", name, "' not found."),
        OpKind::Rename => "File not found".to_owned(),
    }
}

/// Builds the wrong-kind message for an operation kind.
pub fn make_wrong_kind_message(k: OpKind, name: &str) -> (r: String)
    ensures
        r@ == wrong_kind_message(k, name@),
{
    match k {
        OpKind::DeleteFile => concat3("'", name, "' is not a file."),
        OpKind::Download => concat3("'", name, "' is not a file."),
        OpKind::Upload => concat3("'", name, "' is not a file."),
        OpKind::DeleteDirectory => concat3("'", name, "' is not a directory."),
        OpKind::Export => concat3("'", name, "' is not a directory."),
        OpKind::CreateDirectory => concat3("'", name, "' already exists."),
        OpKind::Rename => concat3("'", name, "' cannot be renamed."),
    }
}

/// Builds the I/O-failure message for an operation kind.
pub fn make_io_failure_message(k: OpKind, name: &str) -> (r: String)
    ensures
        r@ == io_failure_message(k, name@),
{
    match k {
        OpKind::DeleteFile => concat3("Failed to delete file '", name, "'."),
        OpKind::DeleteDirectory => concat3("Failed to delete directory '", name, "'."),
        OpKind::CreateDirectory => concat3("Failed to create directory '", name, "'."),
        OpKind::Rename => concat3("Failed to rename '", name, "'."),
        OpKind::Upload => concat3("Failed to save file '", name, "'."),
        OpKind::Download => concat3("Failed to read file '", name, "'."),
        OpKind::Export => concat3("Failed to export directory '", name, "'."),
    }
}

/// Builds the success message for an operation kind.
pub fn make_success_message(k: OpKind, name: &str) -> (r: String)
    ensures
        r@ == success_message(k, name@),
{
    match k {
        OpKind::DeleteFile => concat3("File '", name, "' deleted successfully."),
        OpKind::DeleteDirectory => concat3("Directory '", name, "' deleted successfully."),
        OpKind::CreateDirectory => "Successfully created the dir!".to_owned(),
        OpKind::Rename => "Successfully renamed".to_owned(),
        OpKind::Upload => "File uploaded successfully".to_owned(),
        OpKind::Download => name.to_owned(),
        OpKind::Export => name.to_owned(),
    }
}

/// What resolving and validating one request yields, given what the OS
/// resolution and the metadata lookup reported: the canonical path
/// text, or the error that ends the operation. Traversal is decided
/// from the raw segments first, before anything else counts; an
/// escaped resolution is a traversal too; a missing entity is NotFound
/// and one of another kind than expected is WrongKind.
pub open spec fn spec_resolve_and_validate(
    root: Seq<char>,
    user: Seq<char>,
    rel: Seq<char>,
    name: Seq<char>,
    resolved: Option<String>,
    observed: EntityKind,
    expected: EntityKind,
) -> Result<Seq<char>, ErrorKind> {
    if spec_traversal_rejected(user, rel, name) {
        Err(ErrorKind::Traversal)
    } else {
        match resolved {
            Option::None => Err(ErrorKind::NotFound),
            Option::Some(s) => {
                if !(crate::paths::spec_under_root(root, s@) && !has_parent_component(s@)) {
                    Err(ErrorKind::Traversal)
                } else if observed == expected {
                    Ok(s@)
                } else if observed is Missing {
                    Err(ErrorKind::NotFound)
                } else {
                    Err(ErrorKind::WrongKind)
                }
            },
        }
    }
}

/// Traversal is decided from the raw segments alone, first: whenever
/// the user, the relative path or the entity name carries a
/// parent-directory component, resolution and validation yield
/// Traversal — whatever the OS resolution returned and whatever exists
/// at the path.
pub proof fn lemma_traversal_decided_first(
    root: Seq<char>,
    user: Seq<char>,
    rel: Seq<char>,
    name: Seq<char>,
    resolved: Option<String>,
    observed: EntityKind,
    expected: EntityKind,
)
    requires
        spec_traversal_rejected(user, rel, name),
    ensures
        spec_resolve_and_validate(root, user, rel, name, resolved, observed, expected)
            == Result::<Seq<char>, ErrorKind>::Err(ErrorKind::Traversal),
{
}

/// The one-call form of resolution and validation, for callers that
/// already hold the OS resolution and the observed entity kind: yields
/// the canonical path exactly when the raw segments are clean, the
/// resolution stayed under the root, and the entity is of the expected
/// kind.
pub fn resolve_and_validate(
    root: &str,
    user_id: &str,
    relative_path: &str,
    entity_name: &str,
    resolved: Option<String>,
    observed: EntityKind,
    expected_kind: EntityKind,
) -> (r: Result<CanonicalPath, ErrorKind>)
    ensures
        ({
            let g = spec_resolve_and_validate(
                root@,
                user_id@,
                relative_path@,
                entity_name@,
                resolved,
                observed,
                expected_kind,
            );
            match r {
                Ok(c) => g matches Ok(s) && c@ == s && c.wf(root@),
                Err(e) => g matches Err(e2) && e == e2,
            }
        }),
{
    if contains_parent_component(user_id) || contains_parent_component(relative_path)
        || contains_parent_component(entity_name) {
        return Err(ErrorKind::Traversal);
    }
    let s = match resolved {
        Some(s) => s,
        None => {
            return Err(ErrorKind::NotFound);
        },
    };
    let canonical = match CanonicalPath::accept(root, s) {
        Ok(c) => c,
        Err(_) => {
            return Err(ErrorKind::Traversal);
        },
    };
    if observed == expected_kind {
        Ok(canonical)
    } else {
        match observed {
            EntityKind::Missing => Err(ErrorKind::NotFound),
            _ => Err(ErrorKind::WrongKind),
        }
    }
}

/// A request that passed the raw traversal check; its joined path is
/// the only thing the surrounding process may hand to OS resolution.
pub struct PreparedOperation {
    kind: OpKind,
    name: String,
    joined: String,
}

impl PreparedOperation {
    pub closed spec fn spec_kind(&self) -> OpKind {
        self.kind
    }

    pub closed spec fn spec_name(&self) -> Seq<char> {
        self.name@
    }

    pub closed spec fn spec_joined(&self) -> Seq<char> {
        self.joined@
    }

    /// The joined path to resolve. For operations that create their
    /// target (create, upload) the process resolves the parent and
    /// re-appends the sanitized name.
    pub fn resolve_target(&self) -> (r: &str)
        ensures
            r@ == self.spec_joined(),
    {
        self.joined.as_str()
    }

    /// The entity name, as the outcome messages will quote it.
    pub fn entity_name(&self) -> (r: &str)
        ensures
            r@ == self.spec_name(),
    {
        self.name.as_str()
    }

    pub fn operation_kind(&self) -> (r: OpKind)
        ensures
            r == self.spec_kind(),
    {
        self.kind
    }
}

/// A request whose path resolved to a canonical path under the root.
pub struct ResolvedOperation {
    kind: OpKind,
    name: String,
    canonical: CanonicalPath,
}

impl ResolvedOperation {
    pub closed spec fn spec_kind(&self) -> OpKind {
        self.kind
    }

    pub closed spec fn spec_name(&self) -> Seq<char> {
        self.name@
    }

    pub closed spec fn spec_canonical(&self) -> Seq<char> {
        self.canonical@
    }

    pub fn canonical_path(&self) -> (r: &CanonicalPath)
        ensures
            r@ == self.spec_canonical(),
    {
        &self.canonical
    }

    pub fn operation_kind(&self) -> (r: OpKind)
        ensures
            r == self.spec_kind(),
    {
        self.kind
    }
}

/// A request whose observed entity kind matched what the operation
/// expects; the per-path lock may now be acquired for it.
pub struct ValidatedOperation {
    kind: OpKind,
    name: String,
    canonical: CanonicalPath,
}

impl ValidatedOperation {
    pub closed spec fn spec_kind(&self) -> OpKind {
        self.kind
    }

    pub closed spec fn spec_name(&self) -> Seq<char> {
        self.name@
    }

    pub closed spec fn spec_canonical(&self) -> Seq<char> {
        self.canonical@
    }

    pub fn canonical_path(&self) -> (r: &CanonicalPath)
        ensures
            r@ == self.spec_canonical(),
    {
        &self.canonical
    }
}

/// A request holding the per-path lock; the file-system step runs now,
/// and the handle comes back with the outcome so it is released on
/// every path.
pub struct RunningOperation {
    kind: OpKind,
    name: String,
    canonical: CanonicalPath,
    handle: LockHandle,
}

impl RunningOperation {
    /// The handle held is for exactly the canonical path the operation
    /// resolved to.
    pub closed spec fn wf(&self) -> bool {
        self.handle@ == self.canonical@
    }

    pub closed spec fn spec_kind(&self) -> OpKind {
        self.kind
    }

    pub closed spec fn spec_name(&self) -> Seq<char> {
        self.name@
    }

    pub closed spec fn spec_canonical(&self) -> Seq<char> {
        self.canonical@
    }

    pub fn canonical_path(&self) -> (r: &CanonicalPath)
        ensures
            r@ == self.spec_canonical(),
    {
        &self.canonical
    }
}

/// Start an operation: reject any raw segment that carries a
/// parent-directory component — before resolution, before any
/// file-system access — and join the remaining segments into the path
/// to resolve. This is the whole story for traversal attempts: they
/// never produce a `PreparedOperation`, so nothing downstream can act
/// on them.
pub fn begin(kind: OpKind, root: &str, user: &str, rel: &str, name: &str) -> (r: Result<
    PreparedOperation,
    OperationOutcome,
>)
    ensures
        match r {
            Ok(p) => {
                &&& !spec_traversal_rejected(user@, rel@, name@)
                &&& p.spec_kind() == kind
                &&& p.spec_name() == name@
                &&& p.spec_joined() == spec_join(root@, user@, rel@, name@)
            },
            Err(o) => {
                &&& spec_traversal_rejected(user@, rel@, name@)
                &&& o.status == 400
                &&& o.message@ == traversal_message()
            },
        },
{
    if contains_parent_component(user) || contains_parent_component(rel)
        || contains_parent_component(name) {
        let msg = "Invalid file path: directory traversal detected.".to_owned();
        return Err(OperationOutcome::failure(ErrorKind::Traversal, msg));
    }
    let joined = join_entity_path(root, user, rel, name);
    Ok(PreparedOperation { kind, name: name.to_owned(), joined })
}

/// Accept what OS resolution produced for a prepared operation: a
/// missing target is NotFound, a resolved path is re-checked to lie
/// under the root — escape through a symlink is a traversal no matter
/// what the OS reported.
pub fn accept_resolution(p: PreparedOperation, root: &str, resolved: Option<String>) -> (r: Result<
    ResolvedOperation,
    OperationOutcome,
>)
    ensures
        match resolved {
            Option::None => r matches Err(o) && o.status == 404 && o.message@
                == not_found_message(p.spec_kind(), p.spec_name()),
            Option::Some(s) => {
                if crate::paths::spec_under_root(root@, s@) && !has_parent_component(s@) {
                    r matches Ok(ro) && ro.spec_kind() == p.spec_kind() && ro.spec_name()
                        == p.spec_name() && ro.spec_canonical() == s@
                } else {
                    r matches Err(o) && o.status == 400 && o.message@ == traversal_message()
                }
            },
        },
{
    match resolved {
        None => {
            let msg = make_not_found_message(p.kind, p.name.as_str());
            Err(OperationOutcome::failure(ErrorKind::NotFound, msg))
        },
        Some(s) => {
            match CanonicalPath::accept(root, s) {
                Ok(c) => Ok(ResolvedOperation { kind: p.kind, name: p.name, canonical: c }),
                Err(_) => {
                    let msg = "Invalid file path: directory traversal detected.".to_owned();
                    Err(OperationOutcome::failure(ErrorKind::Traversal, msg))
                },
            }
        },
    }
}

/// Validate the observed entity kind against what the operation
/// expects. A failed validation ends the operation here: no lock is
/// taken for it.
pub fn validate(ro: ResolvedOperation, observed: EntityKind) -> (r: Result<
    ValidatedOperation,
    OperationOutcome,
>)
    ensures
        match r {
            Ok(v) => {
                &&& kind_ok(ro.spec_kind(), observed)
                &&& v.spec_kind() == ro.spec_kind()
                &&& v.spec_name() == ro.spec_name()
                &&& v.spec_canonical() == ro.spec_canonical()
            },
            Err(o) => {
                &&& !kind_ok(ro.spec_kind(), observed)
                &&& o.status == spec_status_of(validation_error(ro.spec_kind(), observed))
                &&& (observed is Missing ==> o.message@ == not_found_message(
                    ro.spec_kind(),
                    ro.spec_name(),
                ))
                &&& (!(observed is Missing) ==> o.message@ == wrong_kind_message(
                    ro.spec_kind(),
                    ro.spec_name(),
                ))
            },
        },
{
    let ok = match ro.kind {
        OpKind::CreateDirectory => matches!(observed, EntityKind::Missing),
        OpKind::DeleteFile => matches!(observed, EntityKind::File),
        OpKind::Download => matches!(observed, EntityKind::File),
        OpKind::DeleteDirectory => matches!(observed, EntityKind::Directory),
        OpKind::Export => matches!(observed, EntityKind::Directory),
        OpKind::Rename => !matches!(observed, EntityKind::Missing),
        OpKind::Upload => !matches!(observed, EntityKind::Directory),
    };
    if ok {
        Ok(ValidatedOperation { kind: ro.kind, name: ro.name, canonical: ro.canonical })
    } else {
        match observed {
            EntityKind::Missing => {
                let msg = make_not_found_message(ro.kind, ro.name.as_str());
                Err(OperationOutcome::failure(ErrorKind::NotFound, msg))
            },
            _ => {
                let msg = make_wrong_kind_message(ro.kind, ro.name.as_str());
                Err(OperationOutcome::failure(ErrorKind::WrongKind, msg))
            },
        }
    }
}

/// Record that the per-path lock was granted for a validated
/// operation; the file-system step may run now.
pub fn lock_acquired(v: ValidatedOperation, h: LockHandle) -> (r: RunningOperation)
    requires
        h@ == v.spec_canonical(),
    ensures
        r.wf(),
        r.spec_kind() == v.spec_kind(),
        r.spec_name() == v.spec_name(),
        r.spec_canonical() == v.spec_canonical(),
{
    RunningOperation { kind: v.kind, name: v.name, canonical: v.canonical, handle: h }
}

/// Translate the file-system step's result into the operation's
/// outcome, handing the lock handle back so the caller releases it on
/// this exit path like every other.
pub fn conclude(op: RunningOperation, exec: Result<(), ExecFailure>) -> (r: (
    OperationOutcome,
    LockHandle,
))
    requires
        op.wf(),
    ensures
        r.1@ == op.spec_canonical(),
        match exec {
            Result::Ok(_) => r.0.status == 200 && r.0.message@ == success_message(
                op.spec_kind(),
                op.spec_name(),
            ),
            Result::Err(f) => {
                &&& r.0.status == spec_status_of(exec_failure_error(f))
                &&& r.0.message@ == exec_failure_message(op.spec_kind(), f, op.spec_name())
            },
        },
{
    let outcome = match exec {
        Ok(_) => OperationOutcome::success(make_success_message(op.kind, op.name.as_str())),
        Err(ExecFailure::Missing) => OperationOutcome::failure(
            ErrorKind::NotFound,
            make_not_found_message(op.kind, op.name.as_str()),
        ),
        Err(ExecFailure::WrongType) => OperationOutcome::failure(
            ErrorKind::WrongKind,
            make_wrong_kind_message(op.kind, op.name.as_str()),
        ),
        Err(ExecFailure::Io) => OperationOutcome::failure(
            ErrorKind::IOFailure,
            make_io_failure_message(op.kind, op.name.as_str()),
        ),
    };
    (outcome, op.handle)
}

} // verus!
