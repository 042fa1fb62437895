//! The per-addon execution context: the live handle an addon's callbacks
//! receive on every invocation, and the state shared across every context of
//! one loaded addon.
//!
//! Engine-side values (the current JS context, the owning engine instance,
//! cached host objects, saved exception values) are opaque handles here: the
//! bridge stores and returns them but never looks inside. The last-error
//! record implements the ABI's own non-throwing error-reporting convention,
//! distinct from the engine's exception mechanism.

use vstd::prelude::*;

use crate::abi::napi_cleanup_hook;
use crate::abi::napi_extended_error_info;
use crate::abi::napi_finalize;
use crate::abi::napi_ok;
use crate::hooks::CleanupHookError;
use crate::hooks::CleanupHooks;
use crate::hooks::rindex_of_pair;
use crate::liveness::AsyncWorkSender;
use crate::liveness::ExternalOpsTracker;

verus! {

/// The single "instance data" entry an addon may attach to its environment:
/// an opaque pointer, an optional finalizer, and the finalizer's hint.
#[derive(Debug)]
pub struct InstanceData {
    pub data: u64,
    pub finalize_cb: Option<napi_finalize>,
    pub finalize_hint: u64,
}

/// State shared between all execution contexts of one loaded addon. It
/// strictly outlives every `Env` built against it; the owning load session
/// destroys it last.
#[derive(Debug)]
pub struct EnvShared {
    pub instance_data: Option<InstanceData>,
    pub napi_wrap: u64,
    pub type_tag: u64,
    pub finalize: Option<napi_finalize>,
    pub finalize_hint: u64,
    pub filename: String,
}

impl EnvShared {
    /// Fresh shared state for a newly loaded addon: no instance data, no
    /// default finalizer, a null finalizer hint, and the two private-symbol
    /// handles used to tag wrapped-native and type-tagged host objects.
    pub fn new(napi_wrap: u64, type_tag: u64, filename: String) -> (r: Self)
        ensures
            r.instance_data is None,
            r.napi_wrap == napi_wrap,
            r.type_tag == type_tag,
            r.finalize is None,
            r.finalize_hint == 0,
            r.filename == filename,
    {
        EnvShared {
            instance_data: None,
            napi_wrap,
            type_tag,
            finalize: None,
            finalize_hint: 0,
            filename,
        }
    }
}

/// The execution context handed to every addon callback: engine handles, the
/// ABI-level error slots, the scope-depth check counter, the shared state
/// pointer, the cross-thread work sender, the shared cleanup-hook list, and
/// the liveness counter.
pub struct Env {
    /// Handle to the current JS execution context.
    pub context: u64,
    /// Handle to the owning engine instance.
    pub isolate_ptr: u64,
    /// Count of currently open handle-scope-like regions: an invariant check,
    /// not a resource.
    pub open_handle_scopes: usize,
    /// The shared per-addon state; attached after construction, once the
    /// private-symbol handles exist.
    pub shared: Option<EnvShared>,
    /// Cross-thread work transport.
    pub async_work_sender: AsyncWorkSender,
    /// The shared, ordered cleanup-hook list.
    pub cleanup_hooks: CleanupHooks,
    /// External-liveness counter for the host run loop.
    pub external_ops_tracker: ExternalOpsTracker,
    /// Outcome of the most recent ABI-level operation.
    pub last_error: napi_extended_error_info,
    /// Most recent uncaught exception saved by the bridge, if any.
    pub last_exception: Option<u64>,
    /// Cached handle to the global object.
    pub global: u64,
    /// Cached handle to the buffer-constructing function.
    pub buffer_constructor: u64,
    /// Cached handle to the error-reporting function.
    pub report_error: u64,
}

impl Env {
    /// A fresh execution context: empty last-error (status `napi_ok`, no
    /// message), no pending exception, zero open scopes, and no shared state
    /// attached yet.
    pub fn new(
        isolate_ptr: u64,
        context: u64,
        global: u64,
        buffer_constructor: u64,
        report_error: u64,
        sender: AsyncWorkSender,
        cleanup_hooks: CleanupHooks,
        external_ops_tracker: ExternalOpsTracker,
    ) -> (r: Self)
        ensures
            r.context == context,
            r.isolate_ptr == isolate_ptr,
            r.open_handle_scopes == 0,
            r.shared is None,
            r.async_work_sender == sender,
            r.cleanup_hooks == cleanup_hooks,
            r.external_ops_tracker == external_ops_tracker,
            r.last_error == (napi_extended_error_info {
                error_message: 0,
                engine_reserved: 0,
                engine_error_code: 0,
                error_code: napi_ok,
            }),
            r.last_exception is None,
            r.global == global,
            r.buffer_constructor == buffer_constructor,
            r.report_error == report_error,
    {
        Env {
            context,
            isolate_ptr,
            open_handle_scopes: 0,
            shared: None,
            async_work_sender: sender,
            cleanup_hooks,
            external_ops_tracker,
            last_error: napi_extended_error_info {
                error_message: 0,
                engine_reserved: 0,
                engine_error_code: 0,
                error_code: napi_ok,
            },
            last_exception: None,
            global,
            buffer_constructor,
            report_error,
        }
    }

    /// Read-only access to the shared per-addon state. Valid only while this
    /// context is alive and after the shared state was attached; attachment
    /// is a caller obligation stated in the precondition.
    pub fn shared(&self) -> (r: &EnvShared)
        requires
            self.shared is Some,
        ensures
            self.shared == Some(*r),
    {
        self.shared.as_ref().unwrap()
    }

    /// Mutable access to the shared per-addon state, under the same caller
    /// obligation as `shared`. Every other field is left untouched.
    pub fn shared_mut(&mut self) -> (r: &mut EnvShared)
        requires
            old(self).shared is Some,
        ensures
            old(self).shared == Some(*r),
            final(self).shared == Some(*final(r)),
            final(self).context == old(self).context,
            final(self).isolate_ptr == old(self).isolate_ptr,
            final(self).open_handle_scopes == old(self).open_handle_scopes,
            final(self).async_work_sender == old(self).async_work_sender,
            final(self).cleanup_hooks == old(self).cleanup_hooks,
            final(self).external_ops_tracker == old(self).external_ops_tracker,
            final(self).last_error == old(self).last_error,
            final(self).last_exception == old(self).last_exception,
            final(self).global == old(self).global,
            final(self).buffer_constructor == old(self).buffer_constructor,
            final(self).report_error == old(self).report_error,
    {
        self.shared.as_mut().unwrap()
    }

    /// Submit a single-use unit of work to run later, off the current call
    /// stack; the primitive under the liveness/async bridge.
    pub fn add_async_work(&mut self, async_work: u64)
        ensures
            final(self).async_work_sender.pending@ == old(self).async_work_sender.pending@.push(
                async_work,
            ),
            *final(self) == (Env {
                async_work_sender: final(self).async_work_sender,
                ..*old(self)
            }),
    {
        self.async_work_sender.spawn(async_work);
    }

    /// The owning engine-instance handle. Usable only on the JS thread; the
    /// instance outlives this context.
    pub fn isolate(&mut self) -> (r: u64)
        ensures
            r == old(self).isolate_ptr,
            *final(self) == *old(self),
    {
        self.isolate_ptr
    }

    /// The stored JS-context handle, from which the host shell opens a
    /// callback-entry scope. A handle-scope-equivalent must already be active
    /// on the calling thread — because the call originates inside an engine
    /// callback, or because the addon opened one — which is a caller
    /// invariant, not checked here.
    pub fn scope(&self) -> (r: u64)
        ensures
            r == self.context,
    {
        self.context
    }

    /// One more thread-safe-function liveness reference: the host run loop
    /// must stay alive for pending async work.
    pub fn threadsafe_function_ref(&mut self)
        requires
            old(self).external_ops_tracker.count < u64::MAX,
        ensures
            final(self).external_ops_tracker.count == old(self).external_ops_tracker.count + 1,
            *final(self) == (Env {
                external_ops_tracker: final(self).external_ops_tracker,
                ..*old(self)
            }),
    {
        self.external_ops_tracker.ref_op();
    }

    /// Release one thread-safe-function liveness reference. Pairing with a
    /// prior ref is a caller obligation, stated in the precondition.
    pub fn threadsafe_function_unref(&mut self)
        requires
            old(self).external_ops_tracker.count > 0,
        ensures
            final(self).external_ops_tracker.count == old(self).external_ops_tracker.count - 1,
            *final(self) == (Env {
                external_ops_tracker: final(self).external_ops_tracker,
                ..*old(self)
            }),
    {
        self.external_ops_tracker.unref_op();
    }

    /// Register a cleanup hook: append the (function, data) pair to the
    /// shared ordered list. Returns an error — which the host shell escalates
    /// to a fatal abort, since a duplicate registration is an addon defect
    /// with no defined recovery — if and only if the identical pair is
    /// already registered; registering a pair again after it was removed
    /// succeeds.
    pub fn add_cleanup_hook(&mut self, hook: napi_cleanup_hook, data: u64) -> (r: Result<
        (),
        CleanupHookError,
    >)
        ensures
            old(self).cleanup_hooks@.contains((hook, data)) ==> r == Err::<(), CleanupHookError>(
                CleanupHookError::AlreadyRegistered,
            ) && final(self).cleanup_hooks@ == old(self).cleanup_hooks@,
            !old(self).cleanup_hooks@.contains((hook, data)) ==> r == Ok::<(), CleanupHookError>(())
                && final(self).cleanup_hooks@ == old(self).cleanup_hooks@.push((hook, data)),
            *final(self) == (Env { cleanup_hooks: final(self).cleanup_hooks, ..*old(self) }),
    {
        self.cleanup_hooks.register(hook, data)
    }

    /// Remove the most recently registered occurrence of the (function, data)
    /// pair (reverse scan). Returns an error — fatal at the host shell, for
    /// the same reason as `add_cleanup_hook` — if and only if no such pair is
    /// currently registered.
    pub fn remove_cleanup_hook(&mut self, hook: napi_cleanup_hook, data: u64) -> (r: Result<
        (),
        CleanupHookError,
    >)
        ensures
            !old(self).cleanup_hooks@.contains((hook, data)) ==> r == Err::<(), CleanupHookError>(
                CleanupHookError::NotRegistered,
            ) && final(self).cleanup_hooks@ == old(self).cleanup_hooks@,
            old(self).cleanup_hooks@.contains((hook, data)) ==> r == Ok::<(), CleanupHookError>(())
                && final(self).cleanup_hooks@ == old(self).cleanup_hooks@.remove(
                rindex_of_pair(old(self).cleanup_hooks@, (hook, data)),
            ),
            *final(self) == (Env { cleanup_hooks: final(self).cleanup_hooks, ..*old(self) }),
    {
        self.cleanup_hooks.unregister(hook, data)
    }
}

} // verus!
