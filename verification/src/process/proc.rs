//! Process ids, file descriptor tables and the state of a process.

use vstd::prelude::*;
use vstd::std_specs::btree::spec_keys_iter;
use vstd::std_specs::iter::IteratorSpec;

use std::collections::BTreeMap;

use crate::signal::delivery::ProcessSignals;
use crate::syscall::{SysError, SysResult};

verus! {

broadcast use {vstd::std_specs::btree::group_btree_axioms, vstd::laws_cmp::group_laws_cmp};

/// A process id.
#[derive(Debug, Clone, Copy, PartialEq, Eq, Structural)]
pub struct Pid(pub usize);

impl Pid {
    /// The pid of the init process.
    pub const INIT: usize = 1;

    /// A pid that is yet to be assigned.
    pub fn new() -> (p: Self)
        ensures
            p.0 == 0,
    {
        Pid(0)
    }

    pub fn get(&self) -> (n: usize)
        ensures
            n == self.0,
    {
        self.0
    }

    /// Whether this is the init process.
    pub fn is_init(&self) -> (b: bool)
        ensures
            b == (self.0 == Pid::INIT),
    {
        self.0 == Self::INIT
    }
}

/// The lowest key at `from` or above that `m` does not hold.
pub open spec fn is_lowest_free<V>(m: Map<usize, V>, from: usize, k: usize) -> bool {
    &&& from <= k
    &&& !m.contains_key(k)
    &&& forall|j: usize| from <= j < k ==> m.contains_key(j)
}

proof fn lemma_range_in_map<V>(m: Map<usize, V>, from: usize, k: usize)
    requires
        m.dom().finite(),
        from <= k,
        forall|j: usize| from <= j < k ==> m.contains_key(j),
    ensures
        k - from <= m.dom().len(),
    decreases k - from,
{
    if k > from {
        let last = (k - 1) as usize;
        let m2 = m.remove(last);
        assert forall|j: usize| from <= j < last implies m2.contains_key(j) by {
            assert(m.contains_key(j));
        }
        lemma_range_in_map(m2, from, last);
        assert(m.dom().contains(last));
        assert(m2.dom() =~= m.dom().remove(last));
    }
}

/// Where `m` holds fewer keys than there are numbers from `from` up to the
/// largest word, one of them is free.
proof fn lemma_free_key_exists<V>(m: Map<usize, V>, from: usize)
    requires
        m.dom().finite(),
        from + m.dom().len() < usize::MAX,
    ensures
        exists|k: usize| from <= k < usize::MAX && !m.contains_key(k),
{
    let top = (from + m.dom().len() + 1) as usize;
    if forall|j: usize| from <= j < top ==> m.contains_key(j) {
        lemma_range_in_map(m, from, top);
    } else {
        let j = choose|j: usize| from <= j < top && !m.contains_key(j);
        assert(from <= j < usize::MAX && !m.contains_key(j));
    }
}

/// The lowest key at `from` or above that `m` does not hold, where there is
/// one below the largest word.
pub fn first_free_key<V>(m: &BTreeMap<usize, V>, from: usize) -> (k: usize)
    requires
        exists|k: usize| from <= k < usize::MAX && !m@.contains_key(k),
    ensures
        is_lowest_free(m@, from, k),
{
    let ghost w = choose|k: usize| from <= k < usize::MAX && !m@.contains_key(k);
    let mut k = from;
    while m.contains_key(&k)
        invariant
            from <= k <= w,
            w < usize::MAX,
            !m@.contains_key(w),
            forall|j: usize| from <= j < k ==> m@.contains_key(j),
        decreases w - k,
    {
        k = k + 1;
    }
    k
}

/// The lowest key at `from` or above that `m` does not hold. There is one
/// when the keys from `from` up fit in a machine word.
pub fn lowest_free_key<V>(m: &BTreeMap<usize, V>, from: usize) -> (k: usize)
    requires
        from + m@.dom().len() < usize::MAX,
    ensures
        is_lowest_free(m@, from, k),
{
    proof {
        lemma_free_key_exists(m@, from);
    }
    first_free_key(m, from)
}

/// What a file descriptor refers to: an open file (by the id of its open
/// file description) or a socket (by its id).
#[derive(Debug, Clone, Copy, PartialEq, Eq, Structural)]
pub enum FileLike {
    File { description: usize, cloexec: bool },
    Socket { socket: usize },
}

/// A process's table of open file descriptors.
pub struct FdTable {
    files: BTreeMap<usize, FileLike>,
}

impl FdTable {
    /// The table: descriptor to what it refers to.
    pub closed spec fn view(&self) -> Map<usize, FileLike> {
        self.files@
    }

    /// Whether a new descriptor can still be numbered.
    pub open spec fn has_room(&self) -> bool {
        self.view().dom().len() + 1 < usize::MAX
    }

    pub fn new() -> (t: Self)
        ensures
            t.view() == Map::<usize, FileLike>::empty(),
    {
        FdTable { files: BTreeMap::new() }
    }

    /// The number of open descriptors.
    pub fn len(&self) -> (n: usize)
        ensures
            n == self.view().dom().len(),
    {
        self.files.len()
    }

    /// Whether `fd` is open.
    pub fn contains(&self, fd: usize) -> (b: bool)
        ensures
            b == self.view().contains_key(fd),
    {
        self.files.contains_key(&fd)
    }

    /// The lowest free descriptor.
    pub fn get_free_fd(&self) -> (fd: usize)
        requires
            self.has_room(),
        ensures
            is_lowest_free(self.view(), 0, fd),
    {
        lowest_free_key(&self.files, 0)
    }

    /// The lowest free descriptor at `arg` or above; there must be one below
    /// the largest word.
    pub fn get_free_fd_from(&self, arg: usize) -> (fd: usize)
        requires
            exists|k: usize| arg <= k < usize::MAX && !self.view().contains_key(k),
        ensures
            is_lowest_free(self.view(), arg, fd),
    {
        first_free_key(&self.files, arg)
    }

    /// Opens `file` at the lowest free descriptor and returns it.
    pub fn add_file(&mut self, file: FileLike) -> (fd: usize)
        requires
            old(self).has_room(),
        ensures
            is_lowest_free(old(self).view(), 0, fd),
            final(self).view() == old(self).view().insert(fd, file),
            final(self).view().dom().len() == old(self).view().dom().len() + 1,
    {
        let fd = self.get_free_fd();
        self.files.insert(fd, file);
        proof {
            assert(self.files@.dom() =~= old(self).files@.dom().insert(fd));
        }
        fd
    }

    /// Sets what `fd` refers to, closing what it referred to before.
    pub fn insert(&mut self, fd: usize, file: FileLike)
        ensures
            final(self).view() == old(self).view().insert(fd, file),
    {
        self.files.insert(fd, file);
    }

    /// Closes `fd`; gives what it referred to, if it was open.
    pub fn remove(&mut self, fd: usize) -> (r: Option<FileLike>)
        ensures
            final(self).view() == old(self).view().remove(fd),
            r == (if old(self).view().contains_key(fd) { Some(old(self).view()[fd]) } else { None::<FileLike> }),
    {
        self.files.remove(&fd)
    }

    /// What `fd` refers to, or `EBADF` if it is not open.
    pub fn get_file_like(&self, fd: usize) -> (r: Result<FileLike, SysError>)
        ensures
            r == (if self.view().contains_key(fd) { Ok(self.view()[fd]) } else { Err::<FileLike, SysError>(SysError::EBADF) }),
    {
        match self.files.get(&fd) {
            Some(f) => Ok(*f),
            None => Err(SysError::EBADF),
        }
    }

    /// The open file description of `fd`; `EBADF` if `fd` is not open or is a socket.
    pub fn get_file(&self, fd: usize) -> (r: Result<usize, SysError>)
        ensures
            r == (if self.view().contains_key(fd) && self.view()[fd] is File {
                Ok(self.view()[fd]->description)
            } else {
                Err::<usize, SysError>(SysError::EBADF)
            }),
    {
        match self.get_file_like(fd)? {
            FileLike::File { description, .. } => Ok(description),
            FileLike::Socket { .. } => Err(SysError::EBADF),
        }
    }

    /// The socket of `fd`; `EBADF` if `fd` is not open or is not a socket.
    pub fn get_socket(&self, fd: usize) -> (r: Result<usize, SysError>)
        ensures
            r == (if self.view().contains_key(fd) && self.view()[fd] is Socket {
                Ok(self.view()[fd]->socket)
            } else {
                Err::<usize, SysError>(SysError::EBADF)
            }),
    {
        match self.get_file_like(fd)? {
            FileLike::Socket { socket } => Ok(socket),
            FileLike::File { .. } => Err(SysError::EBADF),
        }
    }

    /// `close`: closes `fd`, or fails with `EBADF` if it is not open.
    pub fn close(&mut self, fd: usize) -> (r: SysResult)
        ensures
            final(self).view() == old(self).view().remove(fd),
            r == (if old(self).view().contains_key(fd) { Ok::<usize, SysError>(0) } else { Err::<usize, SysError>(SysError::EBADF) }),
    {
        match self.files.remove(&fd) {
            Some(_) => Ok(0),
            None => Err(SysError::EBADF),
        }
    }

    /// `dup2`: closes `fd2` if it is open, then makes it refer to what `fd1`
    /// refers to and returns `fd2`; `EBADF` if `fd1` is not open (then
    /// `fd2` stays closed, so `dup2(fd, fd)` closes `fd`).
    pub fn dup2(&mut self, fd1: usize, fd2: usize) -> (r: SysResult)
        ensures
            old(self).view().remove(fd2).contains_key(fd1) ==> r == Ok::<usize, SysError>(fd2)
                && final(self).view() == old(self).view().insert(fd2, old(self).view()[fd1]),
            !old(self).view().remove(fd2).contains_key(fd1) ==> r == Err::<usize, SysError>(SysError::EBADF)
                && final(self).view() == old(self).view().remove(fd2),
    {
        self.files.remove(&fd2);
        let file = match self.get_file_like(fd1) {
            Ok(f) => f,
            Err(e) => return Err(e),
        };
        self.files.insert(fd2, file);
        proof {
            assert(final(self).view() =~= old(self).view().insert(fd2, old(self).view()[fd1]));
        }
        Ok(fd2)
    }

    /// The open descriptors, in increasing order.
    pub fn fds(&self) -> (v: Vec<usize>)
        ensures
            v@.to_set() == self.view().dom(),
            v@.no_duplicates(),
    {
        let mut v: Vec<usize> = Vec::new();
        let ghost keys = spec_keys_iter(&self.files).remaining().unref();
        proof {
            broadcast use vstd::std_specs::btree::axiom_spec_keys_iter;
            assert(keys.to_set() == self.files@.dom());
        }
        for k in it: self.files.keys()
            invariant
                it.seq().unref() == keys,
                v@ == keys.take(it.index() as int),
        {
            v.push(*k);
        }
        proof {
            assert(v@ =~= keys);
        }
        v
    }

    /// A table with the same descriptors, referring to the same open file
    /// descriptions.
    pub fn clone_table(&self) -> (t: FdTable)
        ensures
            t.view() == self.view(),
    {
        FdTable { files: self.files.clone() }
    }

    /// Whether `fd` is closed when the process calls `exec`.
    pub open spec fn closes_on_exec(&self, fd: usize) -> bool {
        self.view()[fd] matches FileLike::File { cloexec: true, .. }
    }

    /// Closes every descriptor that is marked close-on-exec.
    pub fn close_on_exec(&mut self)
        ensures
            final(self).view() == old(self).view().restrict(
                old(self).view().dom().filter(|fd: usize| !old(self).closes_on_exec(fd)),
            ),
    {
        let keys = self.fds();
        let ghost keep = old(self).view().dom().filter(|fd: usize| !old(self).closes_on_exec(fd));
        let mut i: usize = 0;
        while i < keys.len()
            invariant
                i <= keys@.len(),
                keys@.to_set() == old(self).view().dom(),
                keys@.no_duplicates(),
                keep == old(self).view().dom().filter(|fd: usize| !old(self).closes_on_exec(fd)),
                self.view() == old(self).view().restrict(
                    keep.union(old(self).view().dom().difference(keys@.take(i as int).to_set())),
                ),
            decreases keys.len() - i,
        {
            let fd = keys[i];
            let close = match self.files.get(&fd) {
                Some(FileLike::File { cloexec, .. }) => *cloexec,
                _ => false,
            };
            if close {
                self.files.remove(&fd);
            }
            proof {
                assert(keys@.take(i + 1) =~= keys@.take(i as int).push(fd));
                keys@.take(i as int).lemma_push_to_set_commute(fd);
                assert(self.view() =~= old(self).view().restrict(
                    keep.union(old(self).view().dom().difference(keys@.take(i + 1).to_set())),
                ));
            }
            i = i + 1;
        }
        proof {
            assert(keys@.take(keys@.len() as int) =~= keys@);
            assert(keep.union(old(self).view().dom().difference(keys@.to_set())) =~= keep);
        }
    }
}

/// Closing the descriptor that `add_file` opened gives back the table as it
/// was.
pub proof fn lemma_close_after_add(table: Map<usize, FileLike>, fd: usize, file: FileLike)
    requires
        is_lowest_free(table, 0, fd),
    ensures
        table.insert(fd, file).remove(fd) == table,
{
    assert(table.insert(fd, file).remove(fd) =~= table);
}

/// A process exits with `exit_code`: every descriptor is closed, its
/// parent, where it still exists, records the code under the process's
/// pid (and is to be notified: the result), and no thread is left.
pub fn process_exit(
    files: &mut FdTable,
    threads: &mut Vec<usize>,
    parent_exit_codes: &mut BTreeMap<usize, usize>,
    parent_alive: bool,
    pid: usize,
    exit_code: usize,
) -> (notify_parent: bool)
    ensures
        final(files).view() == Map::<usize, FileLike>::empty(),
        final(threads)@ == Seq::<usize>::empty(),
        final(parent_exit_codes)@ == if parent_alive {
            old(parent_exit_codes)@.insert(pid, exit_code)
        } else {
            old(parent_exit_codes)@
        },
        notify_parent == parent_alive,
{
    *files = FdTable::new();
    if parent_alive {
        parent_exit_codes.insert(pid, exit_code);
    }
    threads.clear();
    parent_alive
}

/// The state of a process that its logic reads and changes. Its memory,
/// semaphores and shared memory are kept apart.
pub struct Process {
    pub files: FdTable,
    /// the current working directory
    pub cwd: String,
    /// the program it runs
    pub exec_path: String,
    /// the futex of each user address, by the futex's id
    pub futexes: BTreeMap<usize, usize>,
    pub pid: usize,
    pub pgid: i32,
    /// the parent's pid
    pub parent: usize,
    /// whether the parent still exists
    pub parent_alive: bool,
    /// the pids of the children
    pub children: Vec<usize>,
    /// the tids of its threads
    pub threads: Vec<usize>,
    /// the exit codes that children left, by their pid
    pub child_exit_code: BTreeMap<usize, usize>,
    pub signals: ProcessSignals,
}

impl Process {
    /// The futex of user address `uaddr`: the one the process has there, or
    /// else `new_futex`, which it keeps there from now on.
    pub fn get_futex(&mut self, uaddr: usize, new_futex: usize) -> (f: usize)
        ensures
            old(self).futexes@.contains_key(uaddr) ==> f == old(self).futexes@[uaddr]
                && final(self).futexes@ == old(self).futexes@,
            !old(self).futexes@.contains_key(uaddr) ==> f == new_futex
                && final(self).futexes@ == old(self).futexes@.insert(uaddr, new_futex),
            *final(self) == (Process { futexes: final(self).futexes, ..*old(self) }),
    {
        if !self.futexes.contains_key(&uaddr) {
            self.futexes.insert(uaddr, new_futex);
        }
        match self.futexes.get(&uaddr) {
            Some(f) => *f,
            None => new_futex,
        }
    }

    /// The process exits with `exit_code`, as `process_exit` says; the
    /// parent's table of exit codes is `parent_exit_codes`. Returns whether
    /// the parent is to be notified.
    pub fn exit(&mut self, exit_code: usize, parent_exit_codes: &mut BTreeMap<usize, usize>) -> (notify_parent: bool)
        ensures
            final(self).files.view() == Map::<usize, FileLike>::empty(),
            final(self).threads@ == Seq::<usize>::empty(),
            final(parent_exit_codes)@ == if old(self).parent_alive {
                old(parent_exit_codes)@.insert(old(self).pid, exit_code)
            } else {
                old(parent_exit_codes)@
            },
            notify_parent == old(self).parent_alive,
            *final(self) == (Process { files: final(self).files, threads: final(self).threads, ..*old(self) }),
    {
        process_exit(&mut self.files, &mut self.threads, parent_exit_codes, self.parent_alive, self.pid, exit_code)
    }

    /// Whether the process has exited: no thread is left.
    pub fn exited(&self) -> (b: bool)
        ensures
            b == (self.threads@.len() == 0),
    {
        self.threads.len() == 0
    }
}

/// Puts `v` into a table of threads or processes under a fresh id: the
/// lowest from `Pid::INIT` up that is free. Gives the id.
pub fn add_to_table<V>(table: &mut BTreeMap<usize, V>, v: V) -> (id: usize)
    requires
        Pid::INIT + old(table)@.dom().len() < usize::MAX,
    ensures
        is_lowest_free(old(table)@, Pid::INIT, id),
        final(table)@ == old(table)@.insert(id, v),
{
    let id = lowest_free_key(table, Pid::INIT);
    table.insert(id, v);
    id
}

/// The processes of group `pgid`, by pid in increasing order, from the
/// group of each process.
pub fn process_group(pgids: &BTreeMap<usize, i32>, pgid: i32) -> (pids: Vec<usize>)
    ensures
        pids@.to_set() == pgids@.dom().filter(|pid: usize| pgids@[pid] == pgid),
        pids@.no_duplicates(),
{
    let mut pids: Vec<usize> = Vec::new();
    let ghost keys = spec_keys_iter(pgids).remaining().unref();
    let ghost want = |pid: usize| pgids@[pid] == pgid;
    proof {
        broadcast use vstd::std_specs::btree::axiom_spec_keys_iter;
        assert(keys.to_set() == pgids@.dom());
    }
    for k in it: pgids.keys()
        invariant
            it.seq().unref() == keys,
            keys.no_duplicates(),
            keys.to_set() == pgids@.dom(),
            want == (|pid: usize| pgids@[pid] == pgid),
            pids@ == keys.take(it.index() as int).filter(want),
            pids@.no_duplicates(),
            forall|x: usize| pids@.contains(x) ==> keys.take(it.index() as int).contains(x),
    {
        let ghost i = it.index();
        proof {
            assert(keys.take(i + 1) =~= keys.take(i as int).push(*k));
            keys.take(i as int).lemma_filter_push(*k, want);
            assert(keys[i as int] == *k);
            assert(!keys.take(i as int).contains(*k)) by {
                if keys.take(i as int).contains(*k) {
                    let j = choose|j: int| 0 <= j < i && keys.take(i as int)[j] == *k;
                    assert(keys[j] == keys[i as int]);
                }
            }
            assert forall|x: usize| keys.take(i as int).contains(x) implies keys.take(i + 1).contains(x) by {
                let j = choose|j: int| 0 <= j < i && keys.take(i as int)[j] == x;
                assert(keys.take(i + 1)[j] == x);
            }
            assert(keys.take(i + 1)[i as int] == *k);
        }
        let g = match pgids.get(k) {
            Some(g) => *g,
            None => pgid + 1,
        };
        let ghost before = pids@;
        if g == pgid {
            pids.push(*k);
        }
        proof {
            assert forall|x: usize| pids@.contains(x) implies keys.take(i + 1).contains(x) by {
                if before.contains(x) {
                    assert(keys.take(i as int).contains(x));
                } else {
                    assert(x == *k);
                }
            }
            if pids@.len() > before.len() {
                assert(!before.contains(*k));
                assert forall|a: int, b: int| 0 <= a < b < pids@.len() implies pids@[a] != pids@[b] by {
                    if b == before.len() {
                        assert(before.contains(pids@[a]));
                    }
                }
            }
        }
    }
    proof {
        assert(keys.take(keys.len() as int) =~= keys);
        assert forall|pid: usize| pids@.to_set().contains(pid) <==> pgids@.dom().filter(want).contains(pid) by {
            if pgids@.dom().filter(want).contains(pid) {
                assert(keys.to_set().contains(pid));
                keys.lemma_filter_contains_rev(want, pid);
            }
            if pids@.contains(pid) {
                let j = choose|j: int| 0 <= j < pids@.len() && pids@[j] == pid;
                keys.lemma_filter_pred(want, j);
                assert(keys.to_set().contains(pid));
            }
        }
        assert(pids@.to_set() =~= pgids@.dom().filter(want));
    }
    pids
}

} // verus!
