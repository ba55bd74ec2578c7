//! The directory tree reported by the structure endpoint, and the
//! verified half of building it: partitioning one directory listing
//! into the files recorded at this level and the subdirectories still
//! to walk. The walk itself is file-system work and runs outside,
//! feeding each level's listing in.

use vstd::prelude::*;
use vstd::string::*;
use crate::outcome::EntityKind;
use crate::paths::{names_view, spec_trim_slashes, trim_slashes};

verus! {

/// A directory's name, its files, and its subdirectories.
#[derive(Debug)]
pub struct DirTree {
    pub name: String,
    pub files: Vec<String>,
    pub dirs: Vec<DirTree>,
}

/// One entry of a directory listing: its name and what it is.
pub struct DirEntryInfo {
    pub name: String,
    pub kind: EntityKind,
}

/// The names of the regular files in a listing, in listing order.
pub open spec fn file_names(s: Seq<DirEntryInfo>) -> Seq<Seq<char>>
    decreases s.len(),
{
    if s.len() == 0 {
        Seq::empty()
    } else {
        let rest = file_names(s.drop_last());
        if s.last().kind is File {
            rest.push(s.last().name@)
        } else {
            rest
        }
    }
}

/// The names of the subdirectories in a listing, in listing order.
pub open spec fn dir_names(s: Seq<DirEntryInfo>) -> Seq<Seq<char>>
    decreases s.len(),
{
    if s.len() == 0 {
        Seq::empty()
    } else {
        let rest = dir_names(s.drop_last());
        if s.last().kind is Directory {
            rest.push(s.last().name@)
        } else {
            rest
        }
    }
}

impl DirTree {
    /// An empty tree under the given name.
    pub fn new(name: String) -> (t: DirTree)
        ensures
            t.name@ == name@,
            t.files@.len() == 0,
            t.dirs@.len() == 0,
    {
        DirTree { name, files: Vec::new(), dirs: Vec::new() }
    }

    /// Appends a fully built subtree.
    pub fn add_subtree(&mut self, sub: DirTree)
        ensures
            final(self).name == old(self).name,
            final(self).files == old(self).files,
            final(self).dirs@ == old(self).dirs@.push(sub),
    {
        self.dirs.push(sub);
    }
}

/// The piece of a sequence after its last '/' separator; the whole
/// sequence when it has none.
pub open spec fn after_last_slash(s: Seq<char>) -> Seq<char>
    decreases s.len(),
{
    if s.len() == 0 {
        s
    } else if s.last() == '/' {
        Seq::empty()
    } else {
        after_last_slash(s.drop_last()).push(s.last())
    }
}

/// The name the reported tree's root carries: the last segment of the
/// normalized relative path, or the user's name when the request
/// addressed the namespace root.
pub open spec fn spec_tree_root_name(rel: Seq<char>, user: Seq<char>) -> Seq<char> {
    let t = spec_trim_slashes(rel);
    if t.len() == 0 {
        user
    } else {
        after_last_slash(t)
    }
}

/// Computes the tree root's name from the request's relative path and
/// the user.
pub fn tree_root_name(rel: &str, user: &str) -> (r: String)
    ensures
        r@ == spec_tree_root_name(rel@, user@),
{
    let trimmed = trim_slashes(rel);
    let s = trimmed.as_str();
    let n = s.unicode_len();
    if n == 0 {
        return user.to_owned();
    }
    let mut j: usize = n;
    proof {
        assert(s@.subrange(0, n as int) =~= s@);
        assert(s@.subrange(n as int, n as int) =~= Seq::<char>::empty());
        assert(after_last_slash(s@) + s@.subrange(n as int, n as int) =~= after_last_slash(s@));
    }
    while j > 0 && s.get_char(j - 1) != '/'
        invariant
            n == s@.len(),
            j <= n,
            after_last_slash(s@) == after_last_slash(s@.subrange(0, j as int)) + s@.subrange(
                j as int,
                n as int,
            ),
        decreases j,
    {
        proof {
            assert(s@.subrange(0, j as int).drop_last() =~= s@.subrange(0, j - 1));
            assert(s@.subrange(0, j as int).last() == s@[j - 1]);
            assert(after_last_slash(s@.subrange(0, j - 1)).push(s@[j - 1]) + s@.subrange(
                j as int,
                n as int,
            ) =~= after_last_slash(s@.subrange(0, j - 1)) + s@.subrange(j - 1, n as int));
        }
        j = j - 1;
    }
    proof {
        if j == 0 {
            assert(s@.subrange(0, 0) =~= Seq::<char>::empty());
        } else {
            assert(after_last_slash(s@.subrange(0, j as int)) =~= Seq::<char>::empty());
        }
        assert(after_last_slash(s@) =~= s@.subrange(j as int, n as int));
    }
    s.substring_char(j, n).to_owned()
}

/// Builds one level of the tree from a directory listing: the files
/// become this level's entries, in order; the subdirectory names come
/// back for the caller to walk and attach.
pub fn build_dir_tree_level(name: String, entries: &Vec<DirEntryInfo>) -> (r: (
    DirTree,
    Vec<String>,
))
    ensures
        r.0.name@ == name@,
        names_view(r.0.files@) == file_names(entries@),
        r.0.dirs@.len() == 0,
        names_view(r.1@) == dir_names(entries@),
{
    let mut files: Vec<String> = Vec::new();
    let mut subdirs: Vec<String> = Vec::new();
    let n = entries.len();
    let mut i: usize = 0;
    proof {
        assert(entries@.subrange(0, 0) =~= Seq::<DirEntryInfo>::empty());
        assert(names_view(files@) =~= file_names(entries@.subrange(0, 0)));
        assert(names_view(subdirs@) =~= dir_names(entries@.subrange(0, 0)));
    }
    while i < n
        invariant
            n == entries@.len(),
            i <= n,
            names_view(files@) == file_names(entries@.subrange(0, i as int)),
            names_view(subdirs@) == dir_names(entries@.subrange(0, i as int)),
        decreases n - i,
    {
        let entry = &entries[i];
        proof {
            assert(entries@.subrange(0, i + 1).drop_last() =~= entries@.subrange(0, i as int));
            assert(entries@.subrange(0, i + 1).last() == entries@[i as int]);
        }
        match entry.kind {
            EntityKind::File => {
                files.push(entry.name.clone());
                proof {
                    assert(names_view(files@) =~= file_names(entries@.subrange(0, i + 1)));
                }
            },
            EntityKind::Directory => {
                subdirs.push(entry.name.clone());
                proof {
                    assert(names_view(subdirs@) =~= dir_names(entries@.subrange(0, i + 1)));
                }
            },
            EntityKind::Missing => {},
        }
        i = i + 1;
    }
    proof {
        assert(entries@.subrange(0, n as int) =~= entries@);
    }
    (DirTree { name, files, dirs: Vec::new() }, subdirs)
}

} // verus!
