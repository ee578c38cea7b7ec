//! The scoped resource handle: ownership and lifecycle of a claimed path.
//!
//! A handle owns exactly one freshly created filesystem path. It starts
//! `Active` with cleanup armed. Closing it, explicitly or at scope exit,
//! disarms it and hands the caller the one cleanup action to perform;
//! persisting it disarms it and hands back the raw path. Both `Closed` and
//! `Persisted` are terminal: once a handle leaves `Active`, no transition
//! ever hands out a cleanup action again, so cleanup is attempted at most
//! once per handle.

use vstd::prelude::*;

verus! {

/// Whether the claimed path is a single file or a directory tree.
#[derive(Clone, Copy, PartialEq, Eq, Structural, Debug)]
pub enum ResourceKind {
    /// Cleanup is a single unlink.
    File,
    /// Cleanup removes the directory and everything beneath it.
    Directory,
}

/// Lifecycle state of a handle.
#[derive(Clone, Copy, PartialEq, Eq, Structural, Debug)]
pub enum HandleState {
    /// The handle owns its path and cleanup is armed.
    Active,
    /// Ownership of the path was transferred out; cleanup is disarmed.
    Persisted,
    /// Cleanup has been handed out; the handle owns nothing to clean.
    Closed,
}

/// The one deletion a closed handle asks its caller to perform.
#[derive(Debug)]
pub struct CleanupAction {
    /// The path to remove.
    pub path: String,
    /// How to remove it: unlink a file, or remove a directory recursively.
    pub kind: ResourceKind,
}

/// A handle that exclusively owns one claimed filesystem path.
#[derive(Debug)]
pub struct ScopedHandle {
    path: String,
    kind: ResourceKind,
    state: HandleState,
}

impl ScopedHandle {
    /// The path this handle is about.
    pub closed spec fn spec_path(&self) -> Seq<char> {
        self.path@
    }

    /// Whether the path is a file or a directory.
    pub closed spec fn spec_kind(&self) -> ResourceKind {
        self.kind
    }

    /// Lifecycle state of the handle.
    pub closed spec fn spec_state(&self) -> HandleState {
        self.state
    }

    /// Cleanup is armed exactly while the handle is `Active`.
    pub open spec fn cleanup_armed(&self) -> bool {
        self.spec_state() == HandleState::Active
    }

    /// Wrap a path that was just claimed. The new handle is `Active`:
    /// cleanup is armed and will be handed out exactly once.
    pub fn new(path: String, kind: ResourceKind) -> (h: ScopedHandle)
        ensures
            h.spec_state() == HandleState::Active,
            h.spec_path() == path@,
            h.spec_kind() == kind,
    {
        ScopedHandle { path, kind, state: HandleState::Active }
    }

    /// The owned path, for use while the handle is still `Active`.
    pub fn path(&self) -> (p: &str)
        requires
            self.spec_state() == HandleState::Active,
        ensures
            p@ == self.spec_path(),
    {
        self.path.as_str()
    }

    /// Lifecycle state of the handle, for callers that track their own
    /// cleanup obligations.
    pub fn state(&self) -> (s: HandleState)
        ensures
            s == self.spec_state(),
    {
        self.state
    }

    /// Whether the path is a file or a directory.
    pub fn kind(&self) -> (k: ResourceKind)
        ensures
            k == self.spec_kind(),
    {
        self.kind
    }

    /// Transfer ownership of the path out of the managed lifecycle. The
    /// handle becomes `Persisted`, which is terminal: cleanup is disarmed
    /// permanently and no filesystem operation occurs.
    pub fn into_path(&mut self) -> (p: String)
        requires
            old(self).spec_state() == HandleState::Active,
        ensures
            p@ == old(self).spec_path(),
            final(self).spec_state() == HandleState::Persisted,
            final(self).spec_path() == old(self).spec_path(),
            final(self).spec_kind() == old(self).spec_kind(),
    {
        self.state = HandleState::Persisted;
        self.path.clone()
    }

    /// Disarm the handle and hand out its cleanup action, if it is still
    /// owed. Exactly the first call on an `Active` handle returns the
    /// action, for the handle's own path and kind; every later call, and
    /// every call on a `Persisted` handle, returns nothing. This is the
    /// single entry point for both explicit close and scope-exit
    /// finalization: the caller decides whether a failure of the returned
    /// deletion is surfaced or suppressed.
    pub fn close(&mut self) -> (action: Option<CleanupAction>)
        ensures
            final(self).spec_path() == old(self).spec_path(),
            final(self).spec_kind() == old(self).spec_kind(),
            old(self).cleanup_armed() ==> {
                &&& final(self).spec_state() == HandleState::Closed
                &&& action matches Some(a) && a.path@ == old(self).spec_path() && a.kind
                    == old(self).spec_kind()
            },
            !old(self).cleanup_armed() ==> {
                &&& final(self).spec_state() == old(self).spec_state()
                &&& action is None
            },
            !final(self).cleanup_armed(),
    {
        match self.state {
            HandleState::Active => {
                self.state = HandleState::Closed;
                Some(CleanupAction { path: self.path.clone(), kind: self.kind })
            },
            HandleState::Persisted => None,
            HandleState::Closed => None,
        }
    }
}

} // verus!
