use vstd::prelude::*;

use crate::error::TdJsonError;
use crate::library_path::{
    duplicate, is_absolute_path, path_is_absolute, paths_equal, same_path, LibraryPath,
};

verus! {

/// The process-global state of the loader as the proofs see it: the library the process
/// is bound to (its path, the handle that keeps it loaded, and the symbol table loaded
/// from it), and whether an owner of the JSON interface is active.
pub struct ProcessModel<L, S> {
    pub bound: Option<(LibraryPath, L, S)>,
    pub owner_active: bool,
}

/// How a load request is answered in a given state.
pub enum LoadOutcome<S> {
    /// Refused: the path is relative.
    RelativePath,
    /// Refused: another owner is active.
    OwnerActive,
    /// Refused: the process is bound to a different path.
    PathMismatch,
    /// Accepted: the resident library is reused with its symbol table.
    Reuse(S),
    /// Accepted: the library must be opened and its symbols looked up.
    Open,
}

/// The answer to a load of the path encoded as `requested` in state `m`: relative paths
/// are refused first, then an active owner, then a path different from the bound one.
pub open spec fn load_outcome<L, S>(m: ProcessModel<L, S>, requested: Seq<u8>) -> LoadOutcome<S> {
    if !path_is_absolute(requested) {
        LoadOutcome::RelativePath
    } else if m.owner_active {
        LoadOutcome::OwnerActive
    } else {
        match m.bound {
            Some((path, _, symbols)) => if paths_equal(path@, requested) {
                LoadOutcome::Reuse(symbols)
            } else {
                LoadOutcome::PathMismatch
            },
            None => LoadOutcome::Open,
        }
    }
}

impl<L, S> ProcessModel<L, S> {
    /// Whether the state is one the loader can reach: a bound path is absolute.
    pub open spec fn well_formed(self) -> bool {
        self.bound matches Some((path, _, _)) ==> path_is_absolute(path@)
    }

    /// The state after the library at `path` was opened as `library` with `symbols` and
    /// recorded.
    pub open spec fn after_record(self, path: LibraryPath, library: L, symbols: S) -> ProcessModel<
        L,
        S,
    > {
        ProcessModel { bound: Some((path, library, symbols)), owner_active: self.owner_active }
    }

    /// The state after an owner became active.
    pub open spec fn after_activate(self) -> ProcessModel<L, S> {
        ProcessModel { bound: self.bound, owner_active: true }
    }

    /// The state after the active owner was released.
    pub open spec fn after_release(self) -> ProcessModel<L, S> {
        ProcessModel { bound: self.bound, owner_active: false }
    }

    /// The state after a load of `requested` that succeeded; `library` and `opened` are the
    /// handle and the symbol table obtained when the library had to be opened.
    pub open spec fn after_successful_load(
        self,
        requested: LibraryPath,
        library: L,
        opened: S,
    ) -> ProcessModel<L, S> {
        match load_outcome(self, requested@) {
            LoadOutcome::Open => self.after_record(requested, library, opened).after_activate(),
            _ => self.after_activate(),
        }
    }
}

/// The first check of a load, made before the process-global state is consulted: a
/// relative path is refused, an absolute one is handed back.
pub fn check_library_path(path: LibraryPath) -> (checked: Result<LibraryPath, TdJsonError>)
    ensures
        path_is_absolute(path@) ==> (checked matches Ok(p) && p == path),
        !path_is_absolute(path@) ==> (checked matches Err(
            TdJsonError::RelativeLibraryPath { path: p },
        ) && p == path),
{
    if is_absolute_path(&path) {
        Ok(path)
    } else {
        Err(TdJsonError::RelativeLibraryPath { path })
    }
}

/// What a caller does next when a load is accepted.
pub enum LoadPlan<S> {
    /// Use the symbol table of the library that is already resident.
    UseBound(S),
    /// Open the library at this path, look up its symbols and record them.
    OpenLibrary(LibraryPath),
}

/// A library the process is permanently bound to. The library handle is never read: it is
/// kept so that the library stays loaded while the process runs.
#[allow(dead_code)]
pub struct BoundLibrary<L, S> {
    path: LibraryPath,
    library: L,
    symbols: S,
}

/// The process-global state of the loader: the library it is bound to, if any, which is
/// kept for the life of the process, and whether an owner is active.
pub struct ProcessBinding<L, S> {
    bound: Option<BoundLibrary<L, S>>,
    owner_active: bool,
}

impl<L, S> ProcessBinding<L, S> {
    /// Only absolute paths are ever bound.
    #[verifier::type_invariant]
    spec fn bound_path_is_absolute(self) -> bool {
        self@.well_formed()
    }
}

impl<L, S> View for ProcessBinding<L, S> {
    type V = ProcessModel<L, S>;

    closed spec fn view(&self) -> ProcessModel<L, S> {
        ProcessModel {
            bound: match self.bound {
                Some(b) => Some((b.path, b.library, b.symbols)),
                None => None,
            },
            owner_active: self.owner_active,
        }
    }
}

impl<L, S: Copy> ProcessBinding<L, S> {
    /// A process that is bound to no library and has no owner.
    pub fn new() -> (process: Self)
        ensures
            process@.bound is None,
            !process@.owner_active,
            process@.well_formed(),
    {
        ProcessBinding { bound: None, owner_active: false }
    }

    /// Whether an owner is active.
    pub fn owner_active(&self) -> (active: bool)
        ensures
            active == self@.owner_active,
            self@.well_formed(),
    {
        proof {
            use_type_invariant(self);
        }
        self.owner_active
    }

    /// Whether the process is bound to a library.
    pub fn is_bound(&self) -> (bound: bool)
        ensures
            bound == self@.bound is Some,
            self@.well_formed(),
    {
        proof {
            use_type_invariant(self);
        }
        self.bound.is_some()
    }

    /// Decides a load of `requested`: the refusal, or how to obtain the symbol table.
    /// The state is not changed.
    pub fn plan_load(&self, requested: LibraryPath) -> (plan: Result<LoadPlan<S>, TdJsonError>)
        ensures
            match load_outcome(self@, requested@) {
                LoadOutcome::RelativePath => plan matches Err(
                    TdJsonError::RelativeLibraryPath { path },
                ) && path == requested,
                LoadOutcome::OwnerActive => plan matches Err(TdJsonError::OwnerAlreadyActive),
                LoadOutcome::PathMismatch => plan matches Err(
                    TdJsonError::LibraryPathMismatch { loaded_path, requested_path },
                ) && self@.bound matches Some((bound_path, _, _)) && loaded_path@ == bound_path@
                    && loaded_path.path_buf() == bound_path.path_buf() && requested_path
                    == requested,
                LoadOutcome::Reuse(symbols) => plan matches Ok(LoadPlan::UseBound(s))
                    && s == symbols,
                LoadOutcome::Open => plan matches Ok(LoadPlan::OpenLibrary(path)) && path
                    == requested,
            },
            self@.bound matches Some((bound_path, _, symbols)) ==> (bound_path@ == requested@
                && path_is_absolute(requested@) && !self@.owner_active ==> (plan matches Ok(
                LoadPlan::UseBound(s),
            ) && s == symbols)),
            self@.well_formed(),
    {
        proof {
            use_type_invariant(self);
        }
        if !is_absolute_path(&requested) {
            return Err(TdJsonError::RelativeLibraryPath { path: requested });
        }
        if self.owner_active {
            return Err(TdJsonError::OwnerAlreadyActive);
        }
        match &self.bound {
            Some(bound) => {
                if !same_path(&bound.path, &requested) {
                    return Err(
                        TdJsonError::LibraryPathMismatch {
                            loaded_path: duplicate(&bound.path),
                            requested_path: requested,
                        },
                    );
                }
                Ok(LoadPlan::UseBound(bound.symbols))
            },
            None => Ok(LoadPlan::OpenLibrary(requested)),
        }
    }

    /// Records the library just opened at `path` with its handle and symbol table; the
    /// process stays bound to it, and keeps the handle, for good. Only an unbound process
    /// records, and only an absolute path; otherwise nothing changes and `false` is
    /// returned (a load planned by `plan_load` always records).
    pub fn record_library(&mut self, path: LibraryPath, library: L, symbols: S) -> (recorded:
        bool)
        ensures
            recorded == (old(self)@.bound is None && path_is_absolute(path@)),
            recorded ==> final(self)@ == old(self)@.after_record(path, library, symbols),
            !recorded ==> final(self)@ == old(self)@,
            final(self)@.well_formed(),
    {
        proof {
            use_type_invariant(&*self);
        }
        if self.bound.is_some() || !is_absolute_path(&path) {
            return false;
        }
        self.bound = Some(BoundLibrary { path, library, symbols });
        true
    }

    /// Completes a load planned with `OpenLibrary(path)` from the outcome of opening the
    /// library and looking up its symbols. A failure is returned as it is and changes
    /// nothing. On success the load is decided again in the current state: when the
    /// library is still to be opened, it is recorded and its owner made active; otherwise
    /// the answer is the one `plan_load` gives now (a reuse activates the owner).
    pub fn finish_load(
        &mut self,
        path: LibraryPath,
        opened: Result<(L, S), TdJsonError>,
    ) -> (loaded: Result<S, TdJsonError>)
        ensures
            final(self)@.well_formed(),
            match opened {
                Err(e) => loaded == Err::<S, TdJsonError>(e) && final(self)@ == old(self)@,
                Ok((library, symbols)) => match load_outcome(old(self)@, path@) {
                    LoadOutcome::Open => loaded == Ok::<S, TdJsonError>(symbols) && final(self)@
                        == old(self)@.after_record(path, library, symbols).after_activate(),
                    LoadOutcome::Reuse(bound) => loaded == Ok::<S, TdJsonError>(bound)
                        && final(self)@ == old(self)@.after_activate(),
                    LoadOutcome::RelativePath => loaded matches Err(
                        TdJsonError::RelativeLibraryPath { path: p },
                    ) && p == path && final(self)@ == old(self)@,
                    LoadOutcome::OwnerActive => loaded matches Err(
                        TdJsonError::OwnerAlreadyActive,
                    ) && final(self)@ == old(self)@,
                    LoadOutcome::PathMismatch => loaded matches Err(
                        TdJsonError::LibraryPathMismatch { loaded_path, requested_path },
                    ) && old(self)@.bound matches Some((bound_path, _, _)) && loaded_path@
                        == bound_path@ && requested_path == path && final(self)@ == old(self)@,
                },
            },
    {
        proof {
            use_type_invariant(&*self);
        }
        let (library, symbols) = match opened {
            Ok(found) => found,
            Err(e) => return Err(e),
        };
        match self.plan_load(path) {
            Err(e) => Err(e),
            Ok(LoadPlan::UseBound(bound)) => {
                self.activate_owner();
                Ok(bound)
            },
            Ok(LoadPlan::OpenLibrary(path)) => {
                self.record_library(path, library, symbols);
                self.activate_owner();
                Ok(symbols)
            },
        }
    }

    /// Marks an owner active and tells whether one already was.
    pub fn activate_owner(&mut self) -> (was_active: bool)
        ensures
            was_active == old(self)@.owner_active,
            final(self)@ == old(self)@.after_activate(),
            final(self)@.well_formed(),
    {
        proof {
            use_type_invariant(&*self);
        }
        let was_active = self.owner_active;
        self.owner_active = true;
        was_active
    }

    /// Releases the active owner; the bound library stays resident.
    pub fn release_owner(&mut self)
        ensures
            final(self)@ == old(self)@.after_release(),
            final(self)@.well_formed(),
    {
        proof {
            use_type_invariant(&*self);
        }
        self.owner_active = false;
    }
}

} // verus!
