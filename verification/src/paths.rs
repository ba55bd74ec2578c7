//! Path text handling: filename sanitization, detection of
//! parent-directory components, joining the per-user segments into one
//! path, and the `CanonicalPath` type that witnesses a successful
//! resolution under the configured root.
//!
//! Everything here works on the raw request strings, before any
//! file-system call: a traversal attempt must be rejected from the text
//! alone, never by trusting what the OS does with the path.

use vstd::prelude::*;
use vstd::string::*;
use crate::outcome::ErrorKind;

verus! {

/// Characters allowed to remain in a sanitized file name.
pub open spec fn allowed_name_char(c: char) -> bool {
    c != '/' && c != '\\'
}

/// A sanitized name: the input with every path separator removed.
pub open spec fn spec_sanitize(s: Seq<char>) -> Seq<char> {
    s.filter(|c: char| allowed_name_char(c))
}

/// Relies on String::push: appends the given character to the end of
/// the string.
#[verifier::external_body]
fn push_char(s: &mut String, c: char)
    ensures
        final(s)@ == old(s)@.push(c),
{
    s.push(c);
}

/// Strips '/' and '\\' from a file name so it cannot name a different
/// directory than the one the operation resolved.
pub fn sanitize_filename(name: &str) -> (r: String)
    ensures
        r@ == spec_sanitize(name@),
{
    let n = name.unicode_len();
    let mut out = String::new();
    let mut i: usize = 0;
    proof {
        reveal(Seq::filter);
        assert(name@.subrange(0, 0) =~= Seq::<char>::empty());
    }
    while i < n
        invariant
            n == name@.len(),
            i <= n,
            out@ == spec_sanitize(name@.subrange(0, i as int)),
        decreases n - i,
    {
        let c = name.get_char(i);
        proof {
            reveal(Seq::filter);
            assert(name@.subrange(0, i + 1).drop_last() =~= name@.subrange(0, i as int));
        }
        if c != '/' && c != '\\' {
            push_char(&mut out, c);
        }
        i = i + 1;
    }
    proof {
        assert(name@.subrange(0, n as int) =~= name@);
    }
    out
}

/// A parent-directory component ("..") starts at position `i`: two
/// dots delimited by the string ends or by '/' separators.
pub open spec fn parent_component_at(s: Seq<char>, i: int) -> bool {
    &&& 0 <= i
    &&& i + 2 <= s.len()
    &&& s[i] == '.'
    &&& s[i + 1] == '.'
    &&& (i == 0 || s[i - 1] == '/')
    &&& (i + 2 == s.len() || s[i + 2] == '/')
}

/// Whether any '/'-separated segment of the string is exactly "..".
pub open spec fn has_parent_component(s: Seq<char>) -> bool {
    exists|i: int| parent_component_at(s, i)
}

/// Scans the raw text for a ".." segment. This runs before any
/// file-system access, so a traversal attempt is rejected even when the
/// OS would happily resolve it.
pub fn contains_parent_component(s: &str) -> (r: bool)
    ensures
        r == has_parent_component(s@),
{
    let n = s.unicode_len();
    let mut i: usize = 0;
    while i < n
        invariant
            n == s@.len(),
            i <= n,
            forall|j: int| 0 <= j < i ==> !(#[trigger] parent_component_at(s@, j)),
        decreases n - i,
    {
        if n - i >= 2 {
            let c0 = s.get_char(i);
            let c1 = s.get_char(i + 1);
            if c0 == '.' && c1 == '.' {
                let left_edge = i == 0 || s.get_char(i - 1) == '/';
                let right_edge = i + 2 == n || s.get_char(i + 2) == '/';
                if left_edge && right_edge {
                    proof {
                        assert(parent_component_at(s@, i as int));
                    }
                    return true;
                }
            }
        }
        i = i + 1;
    }
    false
}

/// The sequence with leading '/' characters removed.
pub open spec fn trim_leading_slashes(s: Seq<char>) -> Seq<char>
    decreases s.len(),
{
    if s.len() > 0 && s.first() == '/' {
        trim_leading_slashes(s.drop_first())
    } else {
        s
    }
}

/// The sequence with trailing '/' characters removed.
pub open spec fn trim_trailing_slashes(s: Seq<char>) -> Seq<char>
    decreases s.len(),
{
    if s.len() > 0 && s.last() == '/' {
        trim_trailing_slashes(s.drop_last())
    } else {
        s
    }
}

/// The sequence with '/' characters removed from both ends.
pub open spec fn spec_trim_slashes(s: Seq<char>) -> Seq<char> {
    trim_trailing_slashes(trim_leading_slashes(s))
}

/// Removes '/' from both ends of a relative path, the normalization
/// applied before a request path is joined under the user's directory.
pub fn trim_slashes(s: &str) -> (r: String)
    ensures
        r@ == spec_trim_slashes(s@),
{
    let n = s.unicode_len();
    let mut a: usize = 0;
    proof {
        assert(s@.subrange(0, n as int) =~= s@);
    }
    while a < n && s.get_char(a) == '/'
        invariant
            n == s@.len(),
            a <= n,
            trim_leading_slashes(s@) == trim_leading_slashes(s@.subrange(a as int, n as int)),
        decreases n - a,
    {
        proof {
            assert(s@.subrange(a as int, n as int).drop_first() =~= s@.subrange(
                a + 1,
                n as int,
            ));
        }
        a = a + 1;
    }
    proof {
        assert(trim_leading_slashes(s@) == s@.subrange(a as int, n as int));
    }
    let mut b: usize = n;
    while b > a && s.get_char(b - 1) == '/'
        invariant
            n == s@.len(),
            a <= b <= n,
            trim_leading_slashes(s@) == s@.subrange(a as int, n as int),
            trim_trailing_slashes(s@.subrange(a as int, n as int)) == trim_trailing_slashes(
                s@.subrange(a as int, b as int),
            ),
        decreases b,
    {
        proof {
            assert(s@.subrange(a as int, b as int).drop_last() =~= s@.subrange(
                a as int,
                b - 1,
            ));
        }
        b = b - 1;
    }
    proof {
        assert(trim_trailing_slashes(s@.subrange(a as int, n as int)) == s@.subrange(
            a as int,
            b as int,
        ));
    }
    s.substring_char(a, b).to_owned()
}

/// The joined path for an entity request: root, user and entity name
/// glued with single '/' separators, with the relative path normalized
/// and skipped entirely when it is empty.
pub open spec fn spec_join(root: Seq<char>, user: Seq<char>, rel: Seq<char>, name: Seq<char>)
    -> Seq<char> {
    let r = spec_trim_slashes(rel);
    if r.len() == 0 {
        root + "/"@ + user + "/"@ + name
    } else {
        root + "/"@ + user + "/"@ + r + "/"@ + name
    }
}

/// Joins the four request segments into the single path handed to
/// resolution.
pub fn join_entity_path(root: &str, user: &str, rel: &str, name: &str) -> (r: String)
    ensures
        r@ == spec_join(root@, user@, rel@, name@),
{
    let middle = trim_slashes(rel);
    let mut out = root.to_owned();
    out.append("/");
    out.append(user);
    out.append("/");
    if middle.unicode_len() > 0 {
        out.append(middle.as_str());
        out.append("/");
    }
    out.append(name);
    proof {
        assert(out@ =~= spec_join(root@, user@, rel@, name@));
    }
    out
}

/// The path a plain download reads: the file name directly under the
/// user's directory, or under the root itself when no user directory is
/// given.
pub open spec fn spec_user_directory_path(
    root: Seq<char>,
    user_directory: Seq<char>,
    filename: Seq<char>,
) -> Seq<char> {
    if user_directory.len() == 0 {
        root + "/"@ + filename
    } else {
        root + "/"@ + user_directory + "/"@ + filename
    }
}

/// Joins a file name under a user directory beneath the root.
pub fn join_user_directory(root: &str, user_directory: &str, filename: &str) -> (r: String)
    ensures
        r@ == spec_user_directory_path(root@, user_directory@, filename@),
{
    let mut out = root.to_owned();
    out.append("/");
    if user_directory.unicode_len() > 0 {
        out.append(user_directory);
        out.append("/");
    }
    out.append(filename);
    proof {
        assert(out@ =~= spec_user_directory_path(root@, user_directory@, filename@));
    }
    out
}

/// The texts of a vector of names.
pub open spec fn names_view(v: Seq<String>) -> Seq<Seq<char>> {
    v.map_values(|s: String| s@)
}

/// `p` is a (character-wise) prefix of `s`.
pub open spec fn is_prefix_of(p: Seq<char>, s: Seq<char>) -> bool {
    p.len() <= s.len() && s.subrange(0, p.len() as int) == p
}

/// The resolved path lies under the configured root: it is the root
/// itself or continues past it with a '/' separator.
pub open spec fn spec_under_root(root: Seq<char>, p: Seq<char>) -> bool {
    ||| p == root
    ||| (p.len() > root.len() && is_prefix_of(root, p) && p[root.len() as int] == '/')
}

/// Character-wise check that `p` starts with `root` followed by '/'
/// (or equals it). Defense must not depend on OS behavior alone, so
/// this runs on every resolved path even when resolution succeeded.
pub fn check_under_root(root: &str, p: &str) -> (r: bool)
    ensures
        r == spec_under_root(root@, p@),
{
    let rn = root.unicode_len();
    let pn = p.unicode_len();
    if pn < rn {
        return false;
    }
    let mut i: usize = 0;
    while i < rn
        invariant
            rn == root@.len(),
            pn == p@.len(),
            rn <= pn,
            i <= rn,
            forall|j: int| 0 <= j < i ==> p@[j] == root@[j],
        decreases rn - i,
    {
        if p.get_char(i) != root.get_char(i) {
            proof {
                assert(p@.subrange(0, rn as int)[i as int] != root@[i as int]);
            }
            return false;
        }
        i = i + 1;
    }
    proof {
        assert(p@.subrange(0, rn as int) =~= root@);
    }
    if pn == rn {
        proof {
            assert(p@ =~= root@);
        }
        return true;
    }
    p.get_char(rn) == '/'
}

/// An absolute path that has been resolved by the OS and then
/// re-checked to lie under the configured root with no ".." component
/// left. Produced only here; immutable once produced.
pub struct CanonicalPath {
    path: String,
}

impl View for CanonicalPath {
    type V = Seq<char>;

    closed spec fn view(&self) -> Seq<char> {
        self.path@
    }
}

impl CanonicalPath {
    /// Well-formedness with respect to the configured root.
    pub open spec fn wf(&self, root: Seq<char>) -> bool {
        spec_under_root(root, self@) && !has_parent_component(self@)
    }

    /// Accepts an OS-resolved path as canonical, or rejects it as a
    /// traversal. This is the only constructor.
    pub fn accept(root: &str, resolved: String) -> (r: Result<CanonicalPath, ErrorKind>)
        ensures
            match r {
                Ok(c) => c@ == resolved@ && c.wf(root@),
                Err(e) => {
                    &&& e == ErrorKind::Traversal
                    &&& !(spec_under_root(root@, resolved@) && !has_parent_component(
                        resolved@,
                    ))
                },
            },
    {
        if contains_parent_component(resolved.as_str()) {
            return Err(ErrorKind::Traversal);
        }
        if !check_under_root(root, resolved.as_str()) {
            return Err(ErrorKind::Traversal);
        }
        Ok(CanonicalPath { path: resolved })
    }

    /// The path text, for the process that performs the actual
    /// file-system call.
    pub fn as_str(&self) -> (r: &str)
        ensures
            r@ == self@,
    {
        self.path.as_str()
    }

    /// Whether two canonical paths name the same entity.
    pub fn same_entity(&self, other: &CanonicalPath) -> (r: bool)
        ensures
            r == (self@ == other@),
    {
        self.path == other.path
    }
}

impl Clone for CanonicalPath {
    fn clone(&self) -> (r: Self)
        ensures
            r@ == self@,
    {
        CanonicalPath { path: self.path.clone() }
    }
}

} // verus!
