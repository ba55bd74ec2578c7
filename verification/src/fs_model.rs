//! A model of the file system as the operations see it: what exists
//! at each canonical path between two serialized steps. The per-path
//! lock admits no interleaving on one path, so consecutive operations
//! on it see whole states — these laws spell out what each operation
//! then observes.

use vstd::prelude::*;
use crate::outcome::{EntityKind, ErrorKind, spec_status_of, spec_success_status};
use crate::coordinator::{OpKind, kind_ok, validation_error, not_found_message, success_message};

verus! {

/// What exists at a path: an entry in the model, or nothing.
pub open spec fn observe(fs: Map<Seq<char>, EntityKind>, p: Seq<char>) -> EntityKind {
    if fs.dom().contains(p) {
        fs[p]
    } else {
        EntityKind::Missing
    }
}

/// Creating a directory at a path.
pub open spec fn spec_create_dir(fs: Map<Seq<char>, EntityKind>, p: Seq<char>) -> Map<
    Seq<char>,
    EntityKind,
> {
    fs.insert(p, EntityKind::Directory)
}

/// Removing whatever exists at a path.
pub open spec fn spec_remove_entity(fs: Map<Seq<char>, EntityKind>, p: Seq<char>) -> Map<
    Seq<char>,
    EntityKind,
> {
    fs.remove(p)
}

/// Renaming: the entity moves from the old path to the new one.
pub open spec fn spec_rename_entity(
    fs: Map<Seq<char>, EntityKind>,
    old_p: Seq<char>,
    new_p: Seq<char>,
) -> Map<Seq<char>, EntityKind> {
    fs.remove(old_p).insert(new_p, observe(fs, old_p))
}

/// Round trip: where nothing exists, creating a directory validates
/// and succeeds with status 200 and the creation message; deleting it
/// afterwards validates too, succeeds with its own message, and
/// leaves the path missing again. A directory-delete addressed at a
/// path that never existed fails validation with NotFound and status
/// 404; a file-delete against a directory, and a directory-delete
/// against a file, each fail with WrongKind and status 400.
pub proof fn lemma_create_delete_round_trip(
    fs: Map<Seq<char>, EntityKind>,
    p: Seq<char>,
    name: Seq<char>,
)
    requires
        observe(fs, p) is Missing,
    ensures
        kind_ok(OpKind::CreateDirectory, observe(fs, p)),
        kind_ok(OpKind::DeleteDirectory, observe(spec_create_dir(fs, p), p)),
        observe(spec_remove_entity(spec_create_dir(fs, p), p), p) is Missing,
        spec_success_status() == 200,
        success_message(OpKind::CreateDirectory, name) == "Successfully created the dir!"@,
        success_message(OpKind::DeleteDirectory, name) == "Directory '"@ + name
            + "' deleted successfully."@,
        !kind_ok(OpKind::DeleteDirectory, EntityKind::Missing),
        spec_status_of(validation_error(OpKind::DeleteDirectory, EntityKind::Missing)) == 404,
        !kind_ok(OpKind::DeleteFile, EntityKind::Directory),
        spec_status_of(validation_error(OpKind::DeleteFile, EntityKind::Directory)) == 400,
        !kind_ok(OpKind::DeleteDirectory, EntityKind::File),
        spec_status_of(validation_error(OpKind::DeleteDirectory, EntityKind::File)) == 400,
{
}

/// Two deletions of the same file serialize through its lock, so the
/// second runs against the state the first left. The first, observing
/// the file, validates and removes it; the second observes nothing and
/// fails validation as NotFound — status 404, with the file's
/// not-found message.
pub proof fn lemma_serialized_deletes(fs: Map<Seq<char>, EntityKind>, p: Seq<char>, name: Seq<char>)
    requires
        observe(fs, p) is File,
    ensures
        kind_ok(OpKind::DeleteFile, observe(fs, p)),
        !kind_ok(OpKind::DeleteFile, observe(spec_remove_entity(fs, p), p)),
        validation_error(OpKind::DeleteFile, observe(spec_remove_entity(fs, p), p))
            == ErrorKind::NotFound,
        spec_status_of(ErrorKind::NotFound) == 404,
        not_found_message(OpKind::DeleteFile, name) == "File '"@ + name + "' not found."@,
{
}

/// A read serialized around a rename of the same path sees a whole
/// state, never a half-finished one: before the rename it observes the
/// intact file; after it, the path is missing and the read fails
/// validation as NotFound. The per-path lock rules out any third
/// interleaving.
pub proof fn lemma_read_around_rename(
    fs: Map<Seq<char>, EntityKind>,
    old_p: Seq<char>,
    new_p: Seq<char>,
)
    requires
        observe(fs, old_p) is File,
        old_p != new_p,
    ensures
        kind_ok(OpKind::Download, observe(fs, old_p)),
        observe(spec_rename_entity(fs, old_p, new_p), old_p) is Missing,
        !kind_ok(OpKind::Download, observe(spec_rename_entity(fs, old_p, new_p), old_p)),
        validation_error(
            OpKind::Download,
            observe(spec_rename_entity(fs, old_p, new_p), old_p),
        ) == ErrorKind::NotFound,
{
}

/// After a rename, an operation addressing the old path observes
/// nothing and fails as NotFound with status 404, while the same
/// operation addressing the new path observes the moved entity and
/// validates.
pub proof fn lemma_operation_after_rename(
    fs: Map<Seq<char>, EntityKind>,
    old_p: Seq<char>,
    new_p: Seq<char>,
)
    requires
        observe(fs, old_p) is Directory,
        old_p != new_p,
    ensures
        observe(spec_rename_entity(fs, old_p, new_p), old_p) is Missing,
        !kind_ok(OpKind::Export, observe(spec_rename_entity(fs, old_p, new_p), old_p)),
        spec_status_of(
            validation_error(
                OpKind::Export,
                observe(spec_rename_entity(fs, old_p, new_p), old_p),
            ),
        ) == 404,
        kind_ok(OpKind::Export, observe(spec_rename_entity(fs, old_p, new_p), new_p)),
{
}

} // verus!
