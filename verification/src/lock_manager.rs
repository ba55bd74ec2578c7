//! The per-path lock table: one reference-counted exclusive lock per
//! canonical path, created lazily on first acquisition and removed
//! opportunistically once the last holder releases it.
//!
//! The table records, per path, whether the lock is held and how many
//! tasks are waiting. The process around the library parks and wakes
//! tasks; this module owns the bookkeeping and its guarantees: a held
//! path is never granted again, and balanced acquire/release cycles
//! leave no entry behind.

use vstd::prelude::*;
use crate::paths::CanonicalPath;

verus! {

/// The state the table records for one canonical path.
pub ghost struct LockState {
    /// Whether some task currently holds the exclusive lock.
    pub held: bool,
    /// How many tasks are waiting for it.
    pub waiters: nat,
}

/// What acquisition does to the table: create the entry as held,
/// take over a released entry, or join its waiters.
pub open spec fn spec_acquire(m: Map<Seq<char>, LockState>, p: Seq<char>) -> Map<
    Seq<char>,
    LockState,
> {
    if !m.dom().contains(p) {
        m.insert(p, LockState { held: true, waiters: 0 })
    } else if !m[p].held {
        m.insert(p, LockState { held: true, waiters: m[p].waiters })
    } else {
        m.insert(p, LockState { held: true, waiters: m[p].waiters + 1 })
    }
}

/// Acquisition is granted immediately exactly when nobody holds the
/// path's lock.
pub open spec fn spec_acquire_granted(m: Map<Seq<char>, LockState>, p: Seq<char>) -> bool {
    !(m.dom().contains(p) && m[p].held)
}

/// What release does to the table: drop the entry when nobody is
/// waiting, otherwise leave it released for a waiter to take.
pub open spec fn spec_release(m: Map<Seq<char>, LockState>, p: Seq<char>) -> Map<
    Seq<char>,
    LockState,
> {
    if m.dom().contains(p) {
        if m[p].waiters == 0 {
            m.remove(p)
        } else {
            m.insert(p, LockState { held: false, waiters: m[p].waiters })
        }
    } else {
        m
    }
}

/// What waking one waiter does to the table: it becomes the holder.
pub open spec fn spec_grant(m: Map<Seq<char>, LockState>, p: Seq<char>) -> Map<
    Seq<char>,
    LockState,
> {
    m.insert(p, LockState { held: true, waiters: (m[p].waiters - 1) as nat })
}

/// A scoped acquisition token for one canonical path, owned by the one
/// task the lock was granted to. Consumed on release, so a handle can
/// be given back at most once.
pub struct LockHandle {
    path: CanonicalPath,
}

impl View for LockHandle {
    type V = Seq<char>;

    closed spec fn view(&self) -> Seq<char> {
        self.path@
    }
}

impl LockHandle {
    /// The canonical path this handle locks.
    pub fn path(&self) -> (r: &CanonicalPath)
        ensures
            r@ == self@,
    {
        &self.path
    }
}

/// The result of an acquisition attempt: the lock, or the obligation
/// to wait until the current holder releases it.
pub enum AcquireOutcome {
    Granted(LockHandle),
    MustWait,
}

struct LockEntry {
    path: CanonicalPath,
    held: bool,
    waiters: u64,
}

/// The state a table entry stands for.
spec fn entry_state(e: LockEntry) -> LockState {
    LockState { held: e.held, waiters: e.waiters as nat }
}

/// The map a sequence of entries stands for.
spec fn entries_map(s: Seq<LockEntry>) -> Map<Seq<char>, LockState>
    decreases s.len(),
{
    if s.len() == 0 {
        Map::empty()
    } else {
        entries_map(s.drop_last()).insert(s.last().path@, entry_state(s.last()))
    }
}

/// At most one entry per canonical path, the table's invariant.
spec fn distinct_paths(s: Seq<LockEntry>) -> bool {
    forall|i: int, j: int|
        0 <= i < j < s.len() ==> (#[trigger] s[i].path@) != (#[trigger] s[j].path@)
}

proof fn lemma_entries_map_dom(s: Seq<LockEntry>)
    ensures
        forall|k: Seq<char>|
            #[trigger] entries_map(s).dom().contains(k) <==> exists|i: int|
                0 <= i < s.len() && (#[trigger] s[i].path@) == k,
    decreases s.len(),
{
    if s.len() > 0 {
        lemma_entries_map_dom(s.drop_last());
        assert forall|k: Seq<char>| #[trigger]
            entries_map(s).dom().contains(k) implies exists|i: int|
            0 <= i < s.len() && (#[trigger] s[i].path@) == k by {
            if k == s.last().path@ {
                assert(s[s.len() - 1].path@ == k);
            } else {
                assert(entries_map(s.drop_last()).dom().contains(k));
                let i = choose|i: int|
                    0 <= i < s.drop_last().len() && (#[trigger] s.drop_last()[i].path@) == k;
                assert(s.drop_last()[i] == s[i]);
                assert(s[i].path@ == k);
            }
        }
        assert forall|k: Seq<char>|
            (exists|i: int| 0 <= i < s.len() && (#[trigger] s[i].path@) == k) implies #[trigger]
            entries_map(s).dom().contains(k) by {
            let i = choose|i: int| 0 <= i < s.len() && (#[trigger] s[i].path@) == k;
            if i < s.len() - 1 {
                assert(s.drop_last()[i].path@ == k);
                assert(entries_map(s.drop_last()).dom().contains(k));
            }
        }
    }
}

proof fn lemma_entries_map_index(s: Seq<LockEntry>, i: int)
    requires
        distinct_paths(s),
        0 <= i < s.len(),
    ensures
        entries_map(s).dom().contains(s[i].path@),
        entries_map(s)[s[i].path@] == entry_state(s[i]),
    decreases s.len(),
{
    lemma_entries_map_dom(s);
    if i < s.len() - 1 {
        lemma_entries_map_index(s.drop_last(), i);
        assert(s.drop_last()[i] == s[i]);
    }
}

proof fn lemma_entries_map_update(s: Seq<LockEntry>, i: int, e: LockEntry)
    requires
        distinct_paths(s),
        0 <= i < s.len(),
        e.path@ == s[i].path@,
    ensures
        distinct_paths(s.update(i, e)),
        entries_map(s.update(i, e)) == entries_map(s).insert(e.path@, entry_state(e)),
    decreases s.len(),
{
    let t = s.update(i, e);
    if i == s.len() - 1 {
        assert(t.drop_last() =~= s.drop_last());
        assert(entries_map(t) =~= entries_map(s).insert(e.path@, entry_state(e)));
    } else {
        lemma_entries_map_update(s.drop_last(), i, e);
        assert(t.drop_last() =~= s.drop_last().update(i, e));
        assert(t.last() == s.last());
        lemma_entries_map_dom(s.drop_last());
        assert(entries_map(t) =~= entries_map(s).insert(e.path@, entry_state(e)));
    }
}

proof fn lemma_entries_map_remove(s: Seq<LockEntry>, i: int)
    requires
        distinct_paths(s),
        0 <= i < s.len(),
    ensures
        distinct_paths(s.remove(i)),
        entries_map(s.remove(i)) == entries_map(s).remove(s[i].path@),
    decreases s.len(),
{
    let t = s.remove(i);
    lemma_entries_map_dom(s.drop_last());
    if i == s.len() - 1 {
        assert(t =~= s.drop_last());
        assert(!entries_map(s.drop_last()).dom().contains(s[i].path@));
        assert(entries_map(t) =~= entries_map(s).remove(s[i].path@));
    } else {
        lemma_entries_map_remove(s.drop_last(), i);
        assert(t.drop_last() =~= s.drop_last().remove(i));
        assert(t.last() == s.last());
        assert(entries_map(t) =~= entries_map(s).remove(s[i].path@));
    }
}

proof fn lemma_entries_map_len(s: Seq<LockEntry>)
    requires
        distinct_paths(s),
    ensures
        entries_map(s).dom().finite(),
        entries_map(s).dom().len() == s.len(),
    decreases s.len(),
{
    if s.len() > 0 {
        lemma_entries_map_len(s.drop_last());
        lemma_entries_map_dom(s.drop_last());
        assert(!entries_map(s.drop_last()).dom().contains(s.last().path@));
        assert(entries_map(s).dom() =~= entries_map(s.drop_last()).dom().insert(
            s.last().path@,
        ));
    }
}

/// Maps each canonical path to its shared exclusive lock's state.
/// There is at most one entry per path at any instant, and an entry
/// exists only while some task holds or waits for its lock.
pub struct DirectoryLockManager {
    entries: Vec<LockEntry>,
}

impl View for DirectoryLockManager {
    type V = Map<Seq<char>, LockState>;

    closed spec fn view(&self) -> Map<Seq<char>, LockState> {
        entries_map(self.entries@)
    }
}

impl DirectoryLockManager {
    /// The table's own invariant: one entry per path.
    pub closed spec fn wf(&self) -> bool {
        distinct_paths(self.entries@)
    }

    /// An empty table.
    pub fn new() -> (r: DirectoryLockManager)
        ensures
            r.wf(),
            r@ == Map::<Seq<char>, LockState>::empty(),
    {
        DirectoryLockManager { entries: Vec::new() }
    }

    fn find_entry(&self, p: &CanonicalPath) -> (r: Option<usize>)
        ensures
            match r {
                Some(i) => i < self.entries@.len() && self.entries@[i as int].path@ == p@,
                None => forall|i: int|
                    0 <= i < self.entries@.len() ==> (#[trigger] self.entries@[i].path@) != p@,
            },
    {
        let n = self.entries.len();
        let mut i: usize = 0;
        while i < n
            invariant
                n == self.entries@.len(),
                i <= n,
                forall|j: int| 0 <= j < i ==> (#[trigger] self.entries@[j].path@) != p@,
            decreases n - i,
        {
            if self.entries[i].path.same_entity(p) {
                return Some(i);
            }
            i = i + 1;
        }
        None
    }

    /// Obtains or creates the per-path lock. The caller receives the
    /// handle at once when nobody holds it; otherwise it is recorded
    /// as a waiter and must suspend until the holder releases.
    pub fn acquire(&mut self, p: &CanonicalPath) -> (r: AcquireOutcome)
        requires
            old(self).wf(),
            old(self)@.dom().contains(p@) ==> old(self)@[p@].waiters < u64::MAX,
        ensures
            final(self).wf(),
            final(self)@ == spec_acquire(old(self)@, p@),
            match r {
                AcquireOutcome::Granted(h) => spec_acquire_granted(old(self)@, p@) && h@ == p@,
                AcquireOutcome::MustWait => !spec_acquire_granted(old(self)@, p@),
            },
    {
        proof {
            lemma_entries_map_dom(self.entries@);
        }
        match self.find_entry(p) {
            None => {
                self.entries.push(LockEntry { path: p.clone(), held: true, waiters: 0 });
                proof {
                    assert(self.entries@.drop_last() =~= old(self).entries@);
                    lemma_entries_map_dom(old(self).entries@);
                }
                AcquireOutcome::Granted(LockHandle { path: p.clone() })
            },
            Some(i) => {
                proof {
                    lemma_entries_map_index(self.entries@, i as int);
                }
                let held = self.entries[i].held;
                let waiters = self.entries[i].waiters;
                if !held {
                    let e = LockEntry { path: p.clone(), held: true, waiters };
                    proof {
                        lemma_entries_map_update(self.entries@, i as int, e);
                    }
                    self.entries.set(i, e);
                    AcquireOutcome::Granted(LockHandle { path: p.clone() })
                } else {
                    let e = LockEntry { path: p.clone(), held: true, waiters: waiters + 1 };
                    proof {
                        lemma_entries_map_update(self.entries@, i as int, e);
                    }
                    self.entries.set(i, e);
                    AcquireOutcome::MustWait
                }
            },
        }
    }

    /// Hands the lock to one recorded waiter after a release that left
    /// the entry in place.
    pub fn grant_to_waiter(&mut self, p: &CanonicalPath) -> (h: LockHandle)
        requires
            old(self).wf(),
            old(self)@.dom().contains(p@),
            !old(self)@[p@].held,
            old(self)@[p@].waiters > 0,
        ensures
            final(self).wf(),
            final(self)@ == spec_grant(old(self)@, p@),
            h@ == p@,
    {
        proof {
            lemma_entries_map_dom(self.entries@);
        }
        match self.find_entry(p) {
            Some(i) => {
                proof {
                    lemma_entries_map_index(self.entries@, i as int);
                }
                let waiters = self.entries[i].waiters;
                let e = LockEntry { path: p.clone(), held: true, waiters: waiters - 1 };
                proof {
                    lemma_entries_map_update(self.entries@, i as int, e);
                }
                self.entries.set(i, e);
                LockHandle { path: p.clone() }
            },
            None => {
                proof {
                    assert(false);
                }
                LockHandle { path: p.clone() }
            },
        }
    }

    /// A woken waiter's attempt to take the lock over: granted exactly
    /// when the entry still exists, nobody holds it, and a waiter is
    /// recorded — otherwise the table is left untouched and the caller
    /// keeps waiting.
    pub fn try_take_over(&mut self, p: &CanonicalPath) -> (r: Option<LockHandle>)
        requires
            old(self).wf(),
        ensures
            final(self).wf(),
            ({
                let free = old(self)@.dom().contains(p@) && !old(self)@[p@].held && old(
                    self,
                )@[p@].waiters > 0;
                match r {
                    Some(h) => free && h@ == p@ && final(self)@ == spec_grant(old(self)@, p@),
                    None => !free && final(self)@ == old(self)@,
                }
            }),
    {
        proof {
            lemma_entries_map_dom(self.entries@);
        }
        match self.find_entry(p) {
            Some(i) => {
                proof {
                    lemma_entries_map_index(self.entries@, i as int);
                }
                let held = self.entries[i].held;
                let waiters = self.entries[i].waiters;
                if !held && waiters > 0 {
                    let e = LockEntry { path: p.clone(), held: true, waiters: waiters - 1 };
                    proof {
                        lemma_entries_map_update(self.entries@, i as int, e);
                    }
                    self.entries.set(i, e);
                    Some(LockHandle { path: p.clone() })
                } else {
                    None
                }
            },
            None => None,
        }
    }

    /// Gives the lock back, consuming the handle. Best-effort cleanup:
    /// when no other task holds or waits, the entry is removed so the
    /// table's size stays bounded by the paths actually in use.
    pub fn release(&mut self, h: LockHandle)
        requires
            old(self).wf(),
            old(self)@.dom().contains(h@),
            old(self)@[h@].held,
        ensures
            final(self).wf(),
            final(self)@ == spec_release(old(self)@, h@),
    {
        proof {
            lemma_entries_map_dom(self.entries@);
        }
        match self.find_entry(h.path()) {
            Some(i) => {
                proof {
                    lemma_entries_map_index(self.entries@, i as int);
                }
                let waiters = self.entries[i].waiters;
                if waiters == 0 {
                    proof {
                        lemma_entries_map_remove(self.entries@, i as int);
                    }
                    self.entries.remove(i);
                } else {
                    let e = LockEntry { path: h.path().clone(), held: false, waiters };
                    proof {
                        lemma_entries_map_update(self.entries@, i as int, e);
                    }
                    self.entries.set(i, e);
                }
            },
            None => {
                proof {
                    assert(false);
                }
            },
        }
    }

    /// How many paths currently have an entry.
    pub fn table_len(&self) -> (n: usize)
        requires
            self.wf(),
        ensures
            n == self@.dom().len(),
    {
        proof {
            lemma_entries_map_len(self.entries@);
        }
        self.entries.len()
    }
}

/// At most one task holds a path's lock at a time: while the lock is
/// held, another acquisition is never granted, only recorded as a
/// waiter.
pub proof fn lemma_exclusive_acquisition(m: Map<Seq<char>, LockState>, p: Seq<char>)
    requires
        m.dom().contains(p),
        m[p].held,
    ensures
        !spec_acquire_granted(m, p),
        spec_acquire(m, p)[p].waiters == m[p].waiters + 1,
{
}

/// A granted acquisition leaves the path held, so a later acquisition
/// of the same path cannot be granted until a release.
pub proof fn lemma_granted_path_is_held(m: Map<Seq<char>, LockState>, p: Seq<char>)
    ensures
        spec_acquire(m, p).dom().contains(p),
        spec_acquire(m, p)[p].held,
        !spec_acquire_granted(spec_acquire(m, p), p),
{
}

/// Operations on different canonical paths never block each other
/// through this mechanism: whether an acquisition is granted at once
/// depends only on its own path's entry, which no other path's
/// acquire, release or hand-over touches.
pub proof fn lemma_distinct_paths_independent(
    m: Map<Seq<char>, LockState>,
    p: Seq<char>,
    q: Seq<char>,
)
    requires
        p != q,
    ensures
        spec_acquire_granted(spec_acquire(m, p), q) == spec_acquire_granted(m, q),
        spec_acquire_granted(spec_release(m, p), q) == spec_acquire_granted(m, q),
        spec_acquire_granted(spec_grant(m, p), q) == spec_acquire_granted(m, q),
{
}

/// One balanced acquire/release cycle on a path nobody else uses
/// leaves the table exactly as it was: no entry leaks.
pub proof fn lemma_acquire_release_restores(m: Map<Seq<char>, LockState>, p: Seq<char>)
    requires
        !m.dom().contains(p),
    ensures
        spec_release(spec_acquire(m, p), p) == m,
{
    assert(spec_release(spec_acquire(m, p), p) =~= m);
}

/// One balanced acquire/release cycle on one path.
pub open spec fn spec_cycle(m: Map<Seq<char>, LockState>, p: Seq<char>) -> Map<
    Seq<char>,
    LockState,
> {
    spec_release(spec_acquire(m, p), p)
}

/// A sequence of balanced cycles, run left to right.
pub open spec fn run_cycles(m: Map<Seq<char>, LockState>, ps: Seq<Seq<char>>) -> Map<
    Seq<char>,
    LockState,
> {
    ps.fold_left(m, |acc: Map<Seq<char>, LockState>, p: Seq<char>| spec_cycle(acc, p))
}

/// Any sequence of non-overlapping acquire/release cycles leaves the
/// table exactly as it started; in particular, starting from an empty
/// table its size returns to zero.
pub proof fn lemma_cycles_leave_no_entries(m: Map<Seq<char>, LockState>, ps: Seq<Seq<char>>)
    requires
        forall|i: int| 0 <= i < ps.len() ==> !m.dom().contains(#[trigger] ps[i]),
    ensures
        run_cycles(m, ps) == m,
    decreases ps.len(),
{
    if ps.len() > 0 {
        lemma_cycles_leave_no_entries(m, ps.drop_last());
        lemma_acquire_release_restores(run_cycles(m, ps.drop_last()), ps.last());
    }
}

} // verus!
