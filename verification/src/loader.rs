//! The module-load protocol: from a load request to the addon's exports.
//!
//! Loading proceeds in fixed steps — capability check, dynamic load,
//! registration-entry discovery, entry invocation — and ends in one of four
//! outcomes: denied, load failed, no entry point, or loaded. The steps that
//! touch the outside world (the capability policy, the platform loader, the
//! symbol table, the foreign entry point, engine-object creation) run in the
//! unverified host shell, which feeds each outcome into this state machine;
//! every decision between the steps is made and specified here.
//!
//! A successfully opened library is retained for the remaining process
//! lifetime — never unloaded — because the addon may have registered
//! function-pointer callbacks that the host can invoke at arbitrary future
//! times. The machine records the retained handle and no transition ever
//! clears it.

use vstd::prelude::*;
use vstd::string::StringExecFns;

use crate::abi::NapiModule;
use crate::abi::NAPI_SUPPORTED_VERSION;

verus! {

/// Capability policy consulted before any load attempt: given an optional
/// filesystem path, approve it or give a denial reason. Implemented by the
/// embedding host, outside the verified bridge.
pub trait NapiPermissions {
    fn check(&mut self, path: Option<&str>) -> Result<(), String>;
}

/// Terminal failure of a load request. Loader-level failures are always
/// recoverable and reported with context; none of them panics.
#[derive(Debug)]
pub enum NapiLoadError {
    /// The capability check rejected the path; carries the denial reason.
    /// No dynamic-load attempt was made.
    Denied(String),
    /// The platform loader failed to open the library; carries its error
    /// text, mapped to the generic-failure category.
    LoadFailed(String),
    /// The library exposes neither an ambient Registration Descriptor nor
    /// the legacy entry-point symbol; carries the load path.
    NoEntryPoint(String),
}

impl NapiLoadError {
    /// The human-readable message reported to the caller of the load.
    pub fn message(&self) -> (r: String)
        ensures
            self matches NapiLoadError::Denied(m) ==> r@ == m@,
            self matches NapiLoadError::LoadFailed(m) ==> r@ == m@,
            self matches NapiLoadError::NoEntryPoint(p) ==> r@
                == "Unable to find register Node-API module at "@ + p@,
    {
        match self {
            NapiLoadError::Denied(m) => m.clone(),
            NapiLoadError::LoadFailed(m) => m.clone(),
            NapiLoadError::NoEntryPoint(p) => {
                let mut r = String::new();
                r.append("Unable to find register Node-API module at ");
                r.append(p.as_str());
                r
            },
        }
    }
}

/// Where a load request stands.
#[derive(Clone, Copy, Debug, PartialEq, Eq, Structural)]
pub enum LoadPhase {
    /// Nothing checked yet.
    Start,
    /// The capability check approved the path; the dynamic load may proceed.
    PermissionChecked,
    /// The library is open (and permanently retained); the ambient
    /// registration slot is consulted next.
    LibraryOpened,
    /// No ambient descriptor was present; the legacy well-known symbol is
    /// looked up next.
    AwaitingLegacySymbol,
    /// A registration entry point was found and may be invoked.
    EntryFound { register_func: u64 },
    /// The load completed; `exports` is the value returned to the caller.
    Loaded { exports: u64 },
    /// The load ended in one of the failure outcomes.
    Failed,
}

/// Whether the machine permits a dynamic-load attempt: only right after the
/// capability check approved the path.
pub open spec fn load_attempt_allowed(m: ModuleLoad) -> bool {
    m.phase is PermissionChecked
}

/// One load request: the requested path, the current phase, and the
/// permanently retained library handle once the load succeeded in opening it.
pub struct ModuleLoad {
    pub path: String,
    pub phase: LoadPhase,
    pub retained_library: Option<u64>,
}

impl ModuleLoad {
    /// A fresh load request for `path`.
    pub fn new(path: String) -> (m: Self)
        ensures
            m.path == path,
            m.phase is Start,
            m.retained_library is None,
    {
        ModuleLoad { path, phase: LoadPhase::Start, retained_library: None }
    }

    /// Record the capability check's verdict. On denial the load fails
    /// immediately with the denial reason and the machine never permits a
    /// dynamic-load attempt — the filesystem is not touched.
    pub fn check_permission(&mut self, capability: Result<(), String>) -> (r: Result<
        (),
        NapiLoadError,
    >)
        requires
            old(self).phase is Start,
        ensures
            final(self).path == old(self).path,
            final(self).retained_library == old(self).retained_library,
            capability is Ok ==> r is Ok && final(self).phase is PermissionChecked,
            capability matches Err(reason) ==> r == Err::<(), NapiLoadError>(
                NapiLoadError::Denied(reason),
            ) && final(self).phase is Failed && !load_attempt_allowed(*final(self)),
    {
        match capability {
            Ok(()) => {
                self.phase = LoadPhase::PermissionChecked;
                Ok(())
            },
            Err(reason) => {
                self.phase = LoadPhase::Failed;
                Err(NapiLoadError::Denied(reason))
            },
        }
    }

    /// Record the platform loader's outcome for the approved path. On success
    /// the opened library is retained for the remaining process lifetime; on
    /// failure the loader's error text becomes the generic load failure.
    pub fn open_library(&mut self, loaded: Result<u64, String>) -> (r: Result<(), NapiLoadError>)
        requires
            load_attempt_allowed(*old(self)),
        ensures
            final(self).path == old(self).path,
            loaded matches Ok(library) ==> r is Ok && final(self).phase is LibraryOpened
                && final(self).retained_library == Some(library),
            loaded matches Err(text) ==> r == Err::<(), NapiLoadError>(
                NapiLoadError::LoadFailed(text),
            ) && final(self).phase is Failed
                && final(self).retained_library == old(self).retained_library,
    {
        match loaded {
            Ok(library) => {
                self.retained_library = Some(library);
                self.phase = LoadPhase::LibraryOpened;
                Ok(())
            },
            Err(text) => {
                self.phase = LoadPhase::Failed;
                Err(NapiLoadError::LoadFailed(text))
            },
        }
    }

    /// Consume the ambient registration slot's content, read and cleared
    /// exactly once per load by the host shell (set, if at all, by the
    /// addon's own static initialization during the load). A present
    /// descriptor must carry the one supported ABI version — anything else is
    /// an addon defect the host shell aborts on before reaching here. With no
    /// descriptor, the legacy symbol lookup is next.
    pub fn take_ambient_module(&mut self, ambient: Option<NapiModule>) -> (found: bool)
        requires
            old(self).phase is LibraryOpened,
            ambient matches Some(m) ==> m.nm_version == NAPI_SUPPORTED_VERSION,
        ensures
            final(self).path == old(self).path,
            final(self).retained_library == old(self).retained_library,
            ambient matches Some(m) ==> found && final(self).phase == (LoadPhase::EntryFound {
                register_func: m.nm_register_func,
            }),
            ambient is None ==> !found && final(self).phase is AwaitingLegacySymbol,
    {
        match ambient {
            Some(m) => {
                self.phase = LoadPhase::EntryFound { register_func: m.nm_register_func };
                true
            },
            None => {
                self.phase = LoadPhase::AwaitingLegacySymbol;
                false
            },
        }
    }

    /// Record the legacy well-known-symbol lookup's outcome. If the symbol is
    /// absent the load fails with the "no entry point" outcome carrying the
    /// path — while the already-opened library stays retained, never
    /// unloaded, exactly as on every other path through the machine.
    pub fn resolve_legacy_symbol(&mut self, symbol: Option<u64>) -> (r: Result<(), NapiLoadError>)
        requires
            old(self).phase is AwaitingLegacySymbol,
        ensures
            final(self).path == old(self).path,
            final(self).retained_library == old(self).retained_library,
            symbol matches Some(register_func) ==> r is Ok && final(self).phase
                == (LoadPhase::EntryFound { register_func }),
            symbol is None ==> r == Err::<(), NapiLoadError>(
                NapiLoadError::NoEntryPoint(old(self).path),
            ) && final(self).phase is Failed,
    {
        match symbol {
            Some(register_func) => {
                self.phase = LoadPhase::EntryFound { register_func };
                Ok(())
            },
            None => {
                self.phase = LoadPhase::Failed;
                Err(NapiLoadError::NoEntryPoint(self.path.clone()))
            },
        }
    }

    /// Record the entry point's return value and finish the load. The entry
    /// point was invoked with a freshly created empty exports object; if it
    /// returned a non-null value that value is the addon's exports, otherwise
    /// the originally created empty object is.
    pub fn complete_registration(
        &mut self,
        fresh_exports: u64,
        entry_return: Option<u64>,
    ) -> (exports: u64)
        requires
            old(self).phase is EntryFound,
        ensures
            final(self).path == old(self).path,
            final(self).retained_library == old(self).retained_library,
            final(self).phase == (LoadPhase::Loaded { exports }),
            entry_return matches Some(v) ==> exports == v,
            entry_return is None ==> exports == fresh_exports,
    {
        let exports = match entry_return {
            Some(v) => v,
            None => fresh_exports,
        };
        self.phase = LoadPhase::Loaded { exports };
        exports
    }
}

/// Once a load has failed — in particular when the capability check denied
/// the path — the machine permits no dynamic-load attempt: the one transition
/// that records a load outcome is only enabled right after the capability
/// check approved the path.
pub proof fn lemma_failed_load_blocks_attempt(m: ModuleLoad)
    requires
        m.phase is Failed,
    ensures
        !load_attempt_allowed(m),
{
}

} // verus!
