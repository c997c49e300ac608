//! The program-name store: derives a display name from a path, keeps the
//! current name behind a lock, and hands out immutable snapshots.

use std::sync::Arc;
use vstd::prelude::*;
use vstd::rwlock::{RwLock, RwLockPredicate};
use vstd::string::StrSliceExecFns;

verus! {

/// Index of the last path separator in `s`, or `-1` if there is none.
pub open spec fn last_sep(s: Seq<char>) -> int
    decreases s.len(),
{
    if s.len() == 0 {
        -1
    } else if s[s.len() - 1] == '/' {
        s.len() - 1
    } else {
        last_sep(s.drop_last())
    }
}

/// The component that names the current directory.
pub open spec fn is_cur_dir(s: Seq<char>) -> bool {
    s.len() == 1 && s[0] == '.'
}

/// The component that names the parent directory.
pub open spec fn is_parent_dir(s: Seq<char>) -> bool {
    s.len() == 2 && s[0] == '.' && s[1] == '.'
}

/// The final path component of `s`, if any: the last component that is not
/// empty and not the current directory, provided it is an ordinary name.
/// `None` when the path is empty, names only directories relative to the
/// current one, or ends in a parent-directory component.
pub open spec fn file_name_spec(s: Seq<char>) -> Option<Seq<char>>
    decreases s.len(),
{
    let j = last_sep(s);
    if 0 <= j < s.len() {
        let tail = s.subrange(j + 1, s.len() as int);
        if tail.len() == 0 || is_cur_dir(tail) {
            file_name_spec(s.subrange(0, j))
        } else if is_parent_dir(tail) {
            None
        } else {
            Some(tail)
        }
    } else {
        if s.len() == 0 || is_cur_dir(s) || is_parent_dir(s) {
            None
        } else {
            Some(s)
        }
    }
}

/// The name stored for a path: its final component, or the path itself
/// verbatim when no final component exists.
pub open spec fn progname_from(p: Seq<char>) -> Seq<char> {
    match file_name_spec(p) {
        Some(c) => c,
        None => p,
    }
}

/// How an optional name renders as text: the name itself, or empty.
pub open spec fn name_text(o: Option<Seq<char>>) -> Seq<char> {
    match o {
        Some(n) => n,
        None => Seq::empty(),
    }
}

/// The character sequences held by an optional owned string.
pub open spec fn opt_name_view(o: Option<String>) -> Option<Seq<char>> {
    match o {
        Some(s) => Some(s@),
        None => None,
    }
}

/// The character sequences held by an optional string slice.
pub open spec fn opt_str_view(o: Option<&str>) -> Option<Seq<char>> {
    match o {
        Some(s) => Some(s@),
        None => None,
    }
}

/// `last_sep` stays in range, points at a separator, and nothing after it
/// is a separator.
pub proof fn lemma_last_sep_props(s: Seq<char>)
    ensures
        -1 <= last_sep(s) < s.len(),
        last_sep(s) >= 0 ==> s[last_sep(s)] == '/',
        forall|i: int| last_sep(s) < i < s.len() ==> s[i] != '/',
    decreases s.len(),
{
    if s.len() > 0 && s[s.len() - 1] != '/' {
        lemma_last_sep_props(s.drop_last());
        assert(forall|i: int| 0 <= i < s.len() - 1 ==> s[i] == s.drop_last()[i]);
    }
}

/// A sequence without separators has no last separator.
pub proof fn lemma_last_sep_none(s: Seq<char>)
    requires
        forall|i: int| 0 <= i < s.len() ==> s[i] != '/',
    ensures
        last_sep(s) == -1,
    decreases s.len(),
{
    if s.len() > 0 {
        assert(forall|i: int| 0 <= i < s.len() - 1 ==> s.drop_last()[i] == s[i]);
        lemma_last_sep_none(s.drop_last());
    }
}

/// A separator with none after it is the last one.
pub proof fn lemma_last_sep_at(s: Seq<char>, k: int)
    requires
        0 <= k < s.len(),
        s[k] == '/',
        forall|i: int| k < i < s.len() ==> s[i] != '/',
    ensures
        last_sep(s) == k,
    decreases s.len(),
{
    if k < s.len() - 1 {
        assert(forall|i: int| 0 <= i < s.len() - 1 ==> s.drop_last()[i] == s[i]);
        lemma_last_sep_at(s.drop_last(), k);
    }
}

/// The final path component of `path`, as `file_name_spec` describes it.
pub fn file_name_of(path: &str) -> (r: Option<String>)
    ensures
        opt_name_view(r) == file_name_spec(path@),
{
    let n: usize = path.unicode_len();
    let mut end: usize = n;
    proof {
        assert(path@.subrange(0, n as int) =~= path@);
    }
    loop
        invariant
            end <= n,
            n == path@.len(),
            file_name_spec(path@.subrange(0, end as int)) == file_name_spec(path@),
        decreases end,
    {
        let ghost pre = path@.subrange(0, end as int);
        // Scan backwards to the separator that bounds the last raw component.
        let mut j: usize = end;
        while j > 0 && path.get_char(j - 1) != '/'
            invariant
                j <= end,
                end <= n,
                n == path@.len(),
                forall|i: int| j <= i < end ==> path@[i] != '/',
            decreases j,
        {
            j = j - 1;
        }
        let ghost tail = pre.subrange(j as int, end as int);
        proof {
            assert(forall|i: int| 0 <= i < end ==> pre[i] == path@[i]);
            assert(tail =~= path@.subrange(j as int, end as int));
            if j == 0 {
                lemma_last_sep_none(pre);
            } else {
                lemma_last_sep_at(pre, j - 1);
            }
        }
        let len: usize = end - j;
        let is_dot = len == 1 && path.get_char(j) == '.';
        let is_dot_dot = len == 2 && path.get_char(j) == '.' && path.get_char(j + 1) == '.';
        proof {
            assert(is_dot == is_cur_dir(tail));
            assert(is_dot_dot == is_parent_dir(tail));
        }
        if j == 0 {
            if len == 0 || is_dot || is_dot_dot {
                proof {
                    assert(pre =~= tail);
                }
                return None;
            } else {
                let name = path.substring_char(0, end).to_owned();
                proof {
                    assert(pre =~= tail);
                }
                return Some(name);
            }
        } else {
            if len == 0 || is_dot {
                proof {
                    assert(pre.subrange(0, j - 1) =~= path@.subrange(0, j - 1));
                }
                end = j - 1;
            } else if is_dot_dot {
                return None;
            } else {
                let name = path.substring_char(j, end).to_owned();
                return Some(name);
            }
        }
    }
}

/// The name the store derives from a path: its final component, or the
/// path itself when there is none.
pub fn derive_progname(path: &str) -> (r: String)
    ensures
        r@ == progname_from(path@),
{
    match file_name_of(path) {
        Some(c) => c,
        None => path.to_owned(),
    }
}

/// Relies on `Arc::clone` of the standard library: the clone is another
/// handle to the same allocation, so it carries the same value; only the
/// reference count changes.
#[verifier::external_body]
fn clone_name_arc(v: &Arc<Option<String>>) -> (r: Arc<Option<String>>)
    ensures
        r == *v,
{
    v.clone()
}

/// The current program name: an optional immutable value, replaced as a
/// whole by `setprogname` and shared with readers through reference-counted
/// snapshots that later replacements never touch.
pub struct NameStore {
    name: Arc<Option<String>>,
}

/// The name a store starts with: derived from the executable's path when
/// the caller could obtain one, absent otherwise.
pub open spec fn init_name_spec(seed: Option<Seq<char>>) -> Option<Seq<char>> {
    match seed {
        Some(p) => file_name_spec(p),
        None => None,
    }
}

impl View for NameStore {
    type V = Option<Seq<char>>;

    closed spec fn view(&self) -> Option<Seq<char>> {
        opt_name_view(*self.name)
    }
}

impl NameStore {
    /// Creates the store, deriving the initial name from the executable
    /// path in `seed` if the caller has one; the name is absent when the
    /// lookup was unavailable or the path has no final component.
    pub fn new(seed: Option<&str>) -> (s: Self)
        ensures
            s@ == init_name_spec(opt_str_view(seed)),
    {
        let name: Option<String> = match seed {
            Some(p) => file_name_of(p),
            None => None,
        };
        NameStore { name: Arc::new(name) }
    }

    /// Replaces the current name with the one derived from `path`: its
    /// final component, or `path` verbatim when there is none.
    pub fn setprogname(&mut self, path: &str)
        ensures
            final(self)@ == Some(progname_from(path@)),
    {
        let name = derive_progname(path);
        self.name = Arc::new(Some(name));
    }

    /// The current name as text: the name itself, or empty when absent.
    pub fn getprogname(&self) -> (r: String)
        ensures
            r@ == name_text(self@),
    {
        match &*self.name {
            Some(s) => s.clone(),
            None => String::new(),
        }
    }

    /// A read-only snapshot of the current name: a reference-count bump,
    /// not a copy, and unaffected by later `setprogname` calls.
    pub fn getprogname_arc(&self) -> (r: Arc<Option<String>>)
        ensures
            opt_name_view(*r) == self@,
    {
        clone_name_arc(&self.name)
    }
}

/// Predicate for the shared store's lock: any name value may be stored.
struct AnyName;

impl RwLockPredicate<NameStore> for AnyName {
    open spec fn inv(self, v: NameStore) -> bool {
        true
    }
}

/// The process-wide store: a `NameStore` behind a verified reader-writer
/// lock, safe for arbitrary concurrent `setprogname` and snapshot calls.
/// Writers are linearized by the lock; each reader obtains the value some
/// writer left, never a partial one. The lock is held only for the pointer
/// read or swap: the name is derived before the write lock is taken, and a
/// snapshot costs a reference-count bump.
pub struct SharedNameStore {
    lock: RwLock<NameStore, AnyName>,
}

impl SharedNameStore {
    /// Creates the shared store; the seed is handled as in
    /// `NameStore::new`.
    pub fn new(seed: Option<&str>) -> (s: Self) {
        SharedNameStore { lock: RwLock::new(NameStore::new(seed), Ghost(AnyName)) }
    }

    /// Replaces the current name with the one derived from `path`, as a
    /// single swap under the lock. Racing writers leave the store in the
    /// state of whichever acquired the lock last.
    pub fn setprogname(&self, path: &str) {
        let name = derive_progname(path);
        let arc = Arc::new(Some(name));
        let (_, handle) = self.lock.acquire_write();
        handle.release_write(NameStore { name: arc });
    }

    /// A snapshot of the name some completed `setprogname` (or the
    /// initialization) left: taken under the lock, so never a partially
    /// replaced value, and unaffected by later replacements.
    pub fn getprogname_arc(&self) -> (r: Arc<Option<String>>) {
        let handle = self.lock.acquire_read();
        let snap = handle.borrow().getprogname_arc();
        handle.release_read();
        snap
    }

    /// The current name as text: the name of a snapshot taken during the
    /// call, or empty when that snapshot holds none.
    pub fn getprogname(&self) -> (r: String) {
        let snap = self.getprogname_arc();
        match &*snap {
            Some(s) => s.clone(),
            None => String::new(),
        }
    }
}

/// Law: a name set from a string without path separators reads back
/// verbatim afterwards.
pub proof fn lemma_set_get_verbatim(s: Seq<char>)
    requires
        forall|i: int| 0 <= i < s.len() ==> s[i] != '/',
    ensures
        name_text(Some(progname_from(s))) == s,
{
    lemma_last_sep_none(s);
}

/// Law: a name set from a path with separators whose final component is an
/// ordinary name reads back as exactly that component afterwards, and the
/// component contains no separator itself.
pub proof fn lemma_set_get_final_component(p: Seq<char>)
    requires
        0 <= last_sep(p),
        p.subrange(last_sep(p) + 1, p.len() as int).len() > 0,
        !is_cur_dir(p.subrange(last_sep(p) + 1, p.len() as int)),
        !is_parent_dir(p.subrange(last_sep(p) + 1, p.len() as int)),
    ensures
        name_text(Some(progname_from(p))) == p.subrange(last_sep(p) + 1, p.len() as int),
        forall|i: int|
            0 <= i < p.len() - last_sep(p) - 1 ==> #[trigger] p.subrange(
                last_sep(p) + 1,
                p.len() as int,
            )[i] != '/',
{
    lemma_last_sep_props(p);
}

/// Law, snapshot isolation: a snapshot records the store's view at the
/// time it was taken. A later replacement builds a fresh value for the
/// store and never touches the snapshot (`setprogname` has exclusive
/// access to the store alone), so the snapshot still denotes the earlier
/// name, and agrees with the replaced store only if old and new names
/// coincide.
pub proof fn lemma_snapshot_isolation(
    snap: Arc<Option<String>>,
    taken_from: NameStore,
    later: NameStore,
    p: Seq<char>,
)
    requires
        opt_name_view(*snap) == taken_from@,
        later@ == Some(progname_from(p)),
    ensures
        opt_name_view(*snap) == taken_from@,
        taken_from@ != Some(progname_from(p)) ==> opt_name_view(*snap) != later@,
{
}

} // verus!
