//! Directory export: building a ZIP archive, in memory, from the
//! files a directory walk produced. Entry names are the walked paths
//! relative to the exported root.
//!
//! One unreadable file — deleted mid-walk, say — must not abort the
//! whole export: it is skipped and recorded, and the archive carries
//! the rest. Only a failure of the archive writer itself ends the
//! export, as a clean failure.

use vstd::prelude::*;
use std::io::Write;
use crate::outcome::ErrorKind;
use crate::paths::names_view;

verus! {

/// Builds one ZIP archive in memory, through zip::ZipWriter over an
/// in-memory buffer. Verus cannot see inside the writer, so the struct
/// is opaque and its contents are named by `zip_entries`.
#[verifier::external_body]
pub struct ArchiveBuilder {
    writer: zip::write::ZipWriter<std::io::Cursor<Vec<u8>>>,
}

/// The entries written into the archive so far: each a name and its
/// content, in the order they were started.
pub uninterp spec fn zip_entries(w: ArchiveBuilder) -> Seq<(Seq<char>, Seq<u8>)>;

/// The writer is in its ordinary protocol state: no earlier call on
/// it failed, and every entry written so far is small enough that even
/// its worst-case compressed form fits the format's size fields when
/// the entry is closed. A failed write poisons the writer; everything
/// after that would fail or panic, so the wrappers require this and
/// re-establish it on success.
pub uninterp spec fn zip_writable(w: ArchiveBuilder) -> bool;

/// The content size up to which an entry is always accepted. The
/// format's size fields hold values up to 0xFFFF_FFFF, and they record
/// the *compressed* size, which for incompressible content grows by a
/// few bytes per 64 KiB block; this bound leaves 0xF_FFFF bytes of
/// headroom, several times that worst-case growth.
pub const MAX_ENTRY_CONTENT: u64 = 0xFFF0_0000;

/// The walk item's content stays under the per-entry size bound.
pub open spec fn within_entry_limit(item: WalkItem) -> bool {
    match item.content {
        Some(b) => b@.len() <= MAX_ENTRY_CONTENT,
        None => true,
    }
}

/// The bytes of the finished archive, as a function of the entries
/// written. The writer is configured with a fixed timestamp and the
/// default deflate method, so the output depends on the entries alone.
pub uninterp spec fn zip_encoding(entries: Seq<(Seq<char>, Seq<u8>)>) -> Seq<u8>;

impl View for ArchiveBuilder {
    type V = Seq<(Seq<char>, Seq<u8>)>;

    open spec fn view(&self) -> Seq<(Seq<char>, Seq<u8>)> {
        zip_entries(*self)
    }
}

impl ArchiveBuilder {
    /// Relies on zip::ZipWriter::new (over a fresh std::io::Cursor):
    /// a newly constructed writer holds no entries and is ready for
    /// use.
    #[verifier::external_body]
    pub fn new() -> (r: ArchiveBuilder)
        ensures
            r@ == Seq::<(Seq<char>, Seq<u8>)>::empty(),
            zip_writable(r),
    {
        ArchiveBuilder { writer: zip::write::ZipWriter::new(std::io::Cursor::new(Vec::new())) }
    }

    /// Relies on zip::ZipWriter::start_file: appends a new entry with
    /// the given name and no content yet. Closing the previous entry
    /// can fail only when its compressed size outgrows the format's
    /// fields, which `zip_writable` rules out, and everything else is
    /// writing into the in-memory buffer — so success is owed. The
    /// options pin the timestamp to the format's fixed default so the
    /// archive bytes depend on nothing but the entries.
    #[verifier::external_body]
    fn start_entry(&mut self, name: &str) -> (r: Result<(), ()>)
        requires
            zip_writable(*old(self)),
        ensures
            r is Ok,
            zip_entries(*final(self)) == zip_entries(*old(self)).push(
                (name@, Seq::<u8>::empty()),
            ),
            zip_writable(*final(self)),
    {
        let options = zip::write::FileOptions::default()
            .last_modified_time(zip::DateTime::default());
        self.writer.start_file(name, options).map_err(|_| ())
    }

    /// Relies on std::io::Write::write_all for zip::ZipWriter: on
    /// success the bytes are appended to the entry being written. Into
    /// an in-memory buffer the writer refuses only an entry growing
    /// past the format's size fields, so under the bound success is
    /// owed and the writer stays healthy; an entry grown beyond it may
    /// still be accepted here but can poison the close, so nothing
    /// more is claimed then.
    #[verifier::external_body]
    fn append_bytes(&mut self, bytes: &[u8]) -> (r: Result<(), ()>)
        requires
            zip_writable(*old(self)),
            old(self)@.len() > 0,
        ensures
            old(self)@.last().1.len() + bytes@.len() <= MAX_ENTRY_CONTENT ==> r is Ok
                && zip_writable(*final(self)),
            r matches Ok(_) ==> zip_entries(*final(self)) == zip_entries(*old(self)).update(
                old(self)@.len() - 1,
                (old(self)@.last().0, old(self)@.last().1 + bytes@),
            ),
    {
        self.writer.write_all(bytes).map_err(|_| ())
    }

    /// Adds one complete file entry to the archive. Content within the
    /// per-entry size bound always succeeds and keeps the writer
    /// healthy for the next entry.
    pub fn add_file(&mut self, name: &str, bytes: &[u8]) -> (r: Result<(), ()>)
        requires
            zip_writable(*old(self)),
        ensures
            bytes@.len() <= MAX_ENTRY_CONTENT ==> r is Ok && zip_writable(*final(self)),
            r matches Ok(_) ==> final(self)@ == old(self)@.push((name@, bytes@)),
    {
        if self.start_entry(name).is_err() {
            return Err(());
        }
        let r = self.append_bytes(bytes);
        match r {
            Ok(_) => {
                proof {
                    assert(Seq::<u8>::empty() + bytes@ =~= bytes@);
                    assert(old(self)@.push((name@, Seq::<u8>::empty())).update(
                        old(self)@.len() as int,
                        (name@, bytes@),
                    ) =~= old(self)@.push((name@, bytes@)));
                }
                Ok(())
            },
            Err(_) => Err(()),
        }
    }

    /// Relies on zip::ZipWriter::finish (and Cursor::into_inner to
    /// unwrap the buffer): the returned bytes are the archive encoding
    /// of exactly the entries written. Closing the last entry succeeds
    /// because `zip_writable` keeps every entry's compressed size
    /// within the format's fields, and the central directory goes into
    /// the in-memory buffer — oversized counts into the format's
    /// extended records — so on a healthy writer success is owed.
    #[verifier::external_body]
    pub fn finish(self) -> (r: Result<Vec<u8>, ()>)
        requires
            zip_writable(self),
        ensures
            match r {
                Ok(bytes) => bytes@ == zip_encoding(self@),
                Err(_) => false,
            },
    {
        let mut writer = self.writer;
        match writer.finish() {
            Ok(cursor) => Ok(cursor.into_inner()),
            Err(_) => Err(()),
        }
    }
}

/// One regular file found by the directory walk: its path relative to
/// the exported root, and its content — or nothing, when the file
/// could not be read.
pub struct WalkItem {
    pub rel_name: String,
    pub content: Option<Vec<u8>>,
}

/// The entries an archive built from this walk will hold: every
/// readable file, in walk order.
pub open spec fn good_entries(s: Seq<WalkItem>) -> Seq<(Seq<char>, Seq<u8>)>
    decreases s.len(),
{
    if s.len() == 0 {
        Seq::empty()
    } else {
        let rest = good_entries(s.drop_last());
        match s.last().content {
            Some(b) => rest.push((s.last().rel_name@, b@)),
            None => rest,
        }
    }
}

/// The names skipped because their file could not be read.
pub open spec fn skipped_names(s: Seq<WalkItem>) -> Seq<Seq<char>>
    decreases s.len(),
{
    if s.len() == 0 {
        Seq::empty()
    } else {
        let rest = skipped_names(s.drop_last());
        match s.last().content {
            Some(_) => rest,
            None => rest.push(s.last().rel_name@),
        }
    }
}

/// Builds the export archive from the walk's results: every readable
/// file becomes one entry under its relative name, every unreadable
/// one is skipped and reported. A file beyond the per-entry size bound
/// ends the export as a clean I/O failure before it could poison the
/// writer; within the bound the export always succeeds.
pub fn build_archive(items: Vec<WalkItem>) -> (r: Result<(Vec<u8>, Vec<String>), ErrorKind>)
    ensures
        match r {
            Ok((bytes, skipped)) => {
                &&& bytes@ == zip_encoding(good_entries(items@))
                &&& names_view(skipped@) == skipped_names(items@)
            },
            Err(e) => e == ErrorKind::IOFailure,
        },
        (forall|k: int| 0 <= k < items@.len() ==> within_entry_limit(#[trigger] items@[k]))
            ==> r is Ok,
{
    let mut builder = ArchiveBuilder::new();
    let mut skipped: Vec<String> = Vec::new();
    let n = items.len();
    let mut i: usize = 0;
    proof {
        assert(items@.subrange(0, 0) =~= Seq::<WalkItem>::empty());
        assert(names_view(skipped@) =~= skipped_names(items@.subrange(0, 0)));
    }
    while i < n
        invariant
            n == items@.len(),
            i <= n,
            zip_writable(builder),
            builder@ == good_entries(items@.subrange(0, i as int)),
            names_view(skipped@) == skipped_names(items@.subrange(0, i as int)),
        decreases n - i,
    {
        let item = &items[i];
        proof {
            assert(items@.subrange(0, i + 1).drop_last() =~= items@.subrange(0, i as int));
            assert(items@.subrange(0, i + 1).last() == items@[i as int]);
        }
        match &item.content {
            Some(b) => {
                if b.len() as u64 > MAX_ENTRY_CONTENT {
                    proof {
                        assert(!within_entry_limit(items@[i as int]));
                    }
                    return Err(ErrorKind::IOFailure);
                }
                match builder.add_file(item.rel_name.as_str(), b.as_slice()) {
                    Ok(_) => {},
                    Err(_) => {
                        return Err(ErrorKind::IOFailure);
                    },
                }
            },
            None => {
                skipped.push(item.rel_name.clone());
                proof {
                    assert(names_view(skipped@) =~= skipped_names(
                        items@.subrange(0, i + 1),
                    ));
                }
            },
        }
        i = i + 1;
    }
    proof {
        assert(items@.subrange(0, n as int) =~= items@);
    }
    match builder.finish() {
        Ok(bytes) => Ok((bytes, skipped)),
        Err(_) => Err(ErrorKind::IOFailure),
    }
}

/// A walk in which every file was readable is archived in full: one
/// entry per file, in walk order, with its exact name and content,
/// and nothing is skipped.
pub proof fn lemma_full_walk_archived(s: Seq<WalkItem>)
    requires
        forall|i: int| 0 <= i < s.len() ==> (#[trigger] s[i].content) is Some,
    ensures
        good_entries(s).len() == s.len(),
        forall|i: int|
            0 <= i < s.len() ==> (#[trigger] good_entries(s)[i]) == (
                s[i].rel_name@,
                s[i].content.arrow_Some_0()@,
            ),
        skipped_names(s).len() == 0,
    decreases s.len(),
{
    if s.len() > 0 {
        assert(forall|i: int|
            0 <= i < s.drop_last().len() ==> (#[trigger] s.drop_last()[i].content) is Some);
        lemma_full_walk_archived(s.drop_last());
        assert(forall|i: int| 0 <= i < s.len() - 1 ==> s.drop_last()[i] == s[i]);
        assert(s[s.len() - 1].content is Some);
    }
}

} // verus!
