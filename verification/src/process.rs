//! The process table as it stood at one scan, and the walk from a process to
//! the shell that started it.

use vstd::prelude::*;

verus! {

/// What one scan recorded of one process.
pub struct ProcessHandle {
    pub pid: u32,
    /// The process that started this one, where the scan could tell.
    pub parent: Option<u32>,
    /// The bytes of the path of the program it runs; empty where unknown.
    pub exe: Vec<u8>,
}

/// Every process that one scan recorded. Where an id stands twice, the first
/// handle is the one that counts.
pub struct ProcessSnapshot {
    pub handles: Vec<ProcessHandle>,
}

/// Why a walk to the parent gave nothing.
#[derive(Clone, Copy, Debug, PartialEq, Eq, Structural)]
pub enum LookupError {
    /// The snapshot has no handle for the process itself.
    ProcessNotFound,
    /// The process has no parent.
    NoParent,
    /// The parent had gone when the snapshot was taken.
    ParentNotFound,
}

impl ProcessSnapshot {
    /// Whether the snapshot has a handle for `pid`.
    pub open spec fn has(&self, pid: u32) -> bool {
        exists|i: int| 0 <= i < self.handles@.len() && (#[trigger] self.handles@[i]).pid == pid
    }

    /// Whether the handle at `i` is the first one for `pid`.
    pub open spec fn is_first(&self, pid: u32, i: int) -> bool {
        &&& 0 <= i < self.handles@.len()
        &&& self.handles@[i].pid == pid
        &&& forall|j: int| 0 <= j < i ==> (#[trigger] self.handles@[j]).pid != pid
    }

    /// The place of the handle that counts for `pid`.
    pub open spec fn place(&self, pid: u32) -> int {
        choose|i: int| self.is_first(pid, i)
    }

    /// The handle of the parent of `pid`, or why there is none.
    pub open spec fn parent_of(&self, pid: u32) -> Result<ProcessHandle, LookupError> {
        if !self.has(pid) {
            Err(LookupError::ProcessNotFound)
        } else {
            match self.handles@[self.place(pid)].parent {
                None => Err(LookupError::NoParent),
                Some(parent) => if self.has(parent) {
                    Ok(self.handles@[self.place(parent)])
                } else {
                    Err(LookupError::ParentNotFound)
                },
            }
        }
    }

    /// The place of the first handle for `pid`, or `None` where there is none.
    pub fn find(&self, pid: u32) -> (found: Option<usize>)
        ensures
            match found {
                Some(i) => self.has(pid) && i == self.place(pid) && self.is_first(pid, i as int),
                None => !self.has(pid),
            },
    {
        let mut i: usize = 0;
        while i < self.handles.len()
            invariant
                i <= self.handles.len(),
                forall|j: int| 0 <= j < i ==> (#[trigger] self.handles@[j]).pid != pid,
            decreases self.handles.len() - i,
        {
            if self.handles[i].pid == pid {
                assert(self.is_first(pid, i as int));
                return Some(i);
            }
            i = i + 1;
        }
        None
    }

    /// The handle of the process that started `pid`.
    pub fn find_parent(&self, pid: u32) -> (found: Result<&ProcessHandle, LookupError>)
        ensures
            match found {
                Ok(handle) => self.parent_of(pid) == Ok::<ProcessHandle, LookupError>(*handle),
                Err(error) => self.parent_of(pid) == Err::<ProcessHandle, LookupError>(error),
            },
    {
        match self.find(pid) {
            None => Err(LookupError::ProcessNotFound),
            Some(own) => match self.handles[own].parent {
                None => Err(LookupError::NoParent),
                Some(parent) => match self.find(parent) {
                    None => Err(LookupError::ParentNotFound),
                    Some(place) => Ok(&self.handles[place]),
                },
            },
        }
    }

    /// The path of the program that the parent of `pid` runs.
    pub fn resolve_parent_executable(&self, pid: u32) -> (path: Result<Vec<u8>, LookupError>)
        ensures
            match path {
                Ok(bytes) => self.parent_of(pid) is Ok && bytes@ == self.parent_of(pid)->Ok_0.exe@,
                Err(error) => self.parent_of(pid) == Err::<ProcessHandle, LookupError>(error),
            },
    {
        match self.find_parent(pid) {
            Ok(handle) => Ok(handle.exe.clone()),
            Err(error) => Err(error),
        }
    }

    /// The shell that started `pid`: the path of its parent's program, or
    /// `None` where the walk fails.
    pub fn find_shell(&self, pid: u32) -> (shell: Option<Vec<u8>>)
        ensures
            match shell {
                Some(bytes) => self.parent_of(pid) is Ok && bytes@ == self.parent_of(pid)->Ok_0.exe@,
                None => self.parent_of(pid) is Err,
            },
    {
        match self.resolve_parent_executable(pid) {
            Ok(bytes) => Some(bytes),
            Err(_) => None,
        }
    }

    /// The process to signal so that the parent of `pid` ends: the parent as
    /// this snapshot shows it, or why there is nothing left to signal.
    pub fn terminate_parent_process(&self, pid: u32) -> (target: Result<u32, LookupError>)
        ensures
            match target {
                Ok(parent) => self.parent_of(pid) is Ok && parent == self.parent_of(pid)->Ok_0.pid,
                Err(error) => self.parent_of(pid) == Err::<ProcessHandle, LookupError>(error),
            },
    {
        match self.find_parent(pid) {
            Ok(handle) => Ok(handle.pid),
            Err(error) => Err(error),
        }
    }
}

/// Where the handle at `own` is the first for `pid`, names `parent` as its
/// parent, and the handle at `shell` is the first for `parent`, the walk from
/// `pid` ends at the handle at `shell`: its path is the parent's path, and its
/// id is the parent's id.
pub proof fn walk_ends_at_parent(
    snapshot: ProcessSnapshot,
    pid: u32,
    own: int,
    parent: u32,
    shell: int,
)
    requires
        snapshot.is_first(pid, own),
        snapshot.handles@[own].parent == Some(parent),
        snapshot.is_first(parent, shell),
    ensures
        snapshot.parent_of(pid) == Ok::<ProcessHandle, LookupError>(snapshot.handles@[shell]),
        snapshot.parent_of(pid)->Ok_0.pid == parent,
{
    assert(snapshot.is_first(pid, snapshot.place(pid)));
    assert(snapshot.is_first(parent, snapshot.place(parent)));
}

/// Where the snapshot has no handle for the parent that the handle of `pid`
/// names, the walk fails for want of the parent.
pub proof fn gone_parent_is_not_found(snapshot: ProcessSnapshot, pid: u32, own: int, parent: u32)
    requires
        snapshot.is_first(pid, own),
        snapshot.handles@[own].parent == Some(parent),
        !snapshot.has(parent),
    ensures
        snapshot.parent_of(pid) == Err::<ProcessHandle, LookupError>(LookupError::ParentNotFound),
{
    assert(snapshot.is_first(pid, snapshot.place(pid)));
}

} // verus!
