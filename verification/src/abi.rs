//! ABI surface definitions: the fixed vocabulary external compiled addons are
//! built against. Status codes, value-type tags, typed-array element kinds,
//! property attributes, key-enumeration modes, and the record shapes that
//! mirror the published specification's field order.
//!
//! Raw pointers and function pointers of the published ABI are carried here as
//! opaque 64-bit handles: the bridge's logic never dereferences them, it only
//! stores, compares and hands them back to the unverified boundary.

#![allow(non_camel_case_types)]
#![allow(non_upper_case_globals)]

use vstd::prelude::*;

verus! {

/// Status code returned by every ABI-level operation.
pub type napi_status = i32;

pub const napi_ok: napi_status = 0;
pub const napi_invalid_arg: napi_status = 1;
pub const napi_object_expected: napi_status = 2;
pub const napi_string_expected: napi_status = 3;
pub const napi_name_expected: napi_status = 4;
pub const napi_function_expected: napi_status = 5;
pub const napi_number_expected: napi_status = 6;
pub const napi_boolean_expected: napi_status = 7;
pub const napi_array_expected: napi_status = 8;
pub const napi_generic_failure: napi_status = 9;
pub const napi_pending_exception: napi_status = 10;
pub const napi_cancelled: napi_status = 11;
pub const napi_escape_called_twice: napi_status = 12;
pub const napi_handle_scope_mismatch: napi_status = 13;
pub const napi_callback_scope_mismatch: napi_status = 14;
pub const napi_queue_full: napi_status = 15;
pub const napi_closing: napi_status = 16;
pub const napi_bigint_expected: napi_status = 17;
pub const napi_date_expected: napi_status = 18;
pub const napi_arraybuffer_expected: napi_status = 19;
pub const napi_detachable_arraybuffer_expected: napi_status = 20;
pub const napi_would_deadlock: napi_status = 21;
pub const napi_no_external_buffers_allowed: napi_status = 22;
pub const napi_cannot_run_js: napi_status = 23;

/// Number of defined status codes: `napi_ok` through `napi_cannot_run_js`.
pub const NAPI_STATUS_COUNT: usize = 24;

/// The canonical human-readable message for each status code, index-aligned
/// with the code's numeric value.
pub open spec fn message_table() -> Seq<Seq<char>> {
    seq![
        ""@,
        "Invalid argument"@,
        "An object was expected"@,
        "A string was expected"@,
        "A string or symbol was expected"@,
        "A function was expected"@,
        "A number was expected"@,
        "A boolean was expected"@,
        "An array was expected"@,
        "Unknown failure"@,
        "An exception is pending"@,
        "The async work item was cancelled"@,
        "napi_escape_handle already called on scope"@,
        "Invalid handle scope usage"@,
        "Invalid callback scope usage"@,
        "Thread-safe function queue is full"@,
        "Thread-safe function handle is closing"@,
        "A bigint was expected"@,
        "A date was expected"@,
        "An arraybuffer was expected"@,
        "A detachable arraybuffer was expected"@,
        "Main thread would deadlock"@,
        "External buffers are not allowed"@,
        "Cannot run JavaScript"@,
    ]
}

/// The message describing a status code, for every defined code.
pub open spec fn status_message(code: int) -> Seq<char> {
    if 0 <= code < NAPI_STATUS_COUNT {
        message_table()[code]
    } else {
        Seq::empty()
    }
}

/// The canonical message for one defined status code.
pub fn error_message(status: napi_status) -> (r: &'static str)
    requires
        0 <= status < NAPI_STATUS_COUNT,
    ensures
        r@ == status_message(status as int),
{
    if status == 0 {
        ""
    } else if status == 1 {
        "Invalid argument"
    } else if status == 2 {
        "An object was expected"
    } else if status == 3 {
        "A string was expected"
    } else if status == 4 {
        "A string or symbol was expected"
    } else if status == 5 {
        "A function was expected"
    } else if status == 6 {
        "A number was expected"
    } else if status == 7 {
        "A boolean was expected"
    } else if status == 8 {
        "An array was expected"
    } else if status == 9 {
        "Unknown failure"
    } else if status == 10 {
        "An exception is pending"
    } else if status == 11 {
        "The async work item was cancelled"
    } else if status == 12 {
        "napi_escape_handle already called on scope"
    } else if status == 13 {
        "Invalid handle scope usage"
    } else if status == 14 {
        "Invalid callback scope usage"
    } else if status == 15 {
        "Thread-safe function queue is full"
    } else if status == 16 {
        "Thread-safe function handle is closing"
    } else if status == 17 {
        "A bigint was expected"
    } else if status == 18 {
        "A date was expected"
    } else if status == 19 {
        "An arraybuffer was expected"
    } else if status == 20 {
        "A detachable arraybuffer was expected"
    } else if status == 21 {
        "Main thread would deadlock"
    } else if status == 22 {
        "External buffers are not allowed"
    } else {
        "Cannot run JavaScript"
    }
}

/// The status-code table and its message table are the same length and
/// index-aligned: for every defined status code, the entry at the code's
/// numeric value is the canonical message describing that code.
pub proof fn lemma_status_messages_aligned()
    ensures
        message_table().len() == NAPI_STATUS_COUNT,
        forall|code: int|
            0 <= code < NAPI_STATUS_COUNT ==> status_message(code) == #[trigger] message_table()[code],
        status_message(napi_ok as int) == ""@,
        status_message(napi_invalid_arg as int) == "Invalid argument"@,
        status_message(napi_object_expected as int) == "An object was expected"@,
        status_message(napi_string_expected as int) == "A string was expected"@,
        status_message(napi_name_expected as int) == "A string or symbol was expected"@,
        status_message(napi_function_expected as int) == "A function was expected"@,
        status_message(napi_number_expected as int) == "A number was expected"@,
        status_message(napi_boolean_expected as int) == "A boolean was expected"@,
        status_message(napi_array_expected as int) == "An array was expected"@,
        status_message(napi_generic_failure as int) == "Unknown failure"@,
        status_message(napi_pending_exception as int) == "An exception is pending"@,
        status_message(napi_cancelled as int) == "The async work item was cancelled"@,
        status_message(napi_escape_called_twice as int)
            == "napi_escape_handle already called on scope"@,
        status_message(napi_handle_scope_mismatch as int) == "Invalid handle scope usage"@,
        status_message(napi_callback_scope_mismatch as int) == "Invalid callback scope usage"@,
        status_message(napi_queue_full as int) == "Thread-safe function queue is full"@,
        status_message(napi_closing as int) == "Thread-safe function handle is closing"@,
        status_message(napi_bigint_expected as int) == "A bigint was expected"@,
        status_message(napi_date_expected as int) == "A date was expected"@,
        status_message(napi_arraybuffer_expected as int) == "An arraybuffer was expected"@,
        status_message(napi_detachable_arraybuffer_expected as int)
            == "A detachable arraybuffer was expected"@,
        status_message(napi_would_deadlock as int) == "Main thread would deadlock"@,
        status_message(napi_no_external_buffers_allowed as int)
            == "External buffers are not allowed"@,
        status_message(napi_cannot_run_js as int) == "Cannot run JavaScript"@,
{
}

/// The full message table in executable form: one entry per defined status
/// code, index-aligned with the code's numeric value.
pub fn error_messages() -> (table: Vec<&'static str>)
    ensures
        table@.len() == NAPI_STATUS_COUNT,
        forall|code: int|
            0 <= code < NAPI_STATUS_COUNT ==> #[trigger] table@[code]@ == status_message(code),
{
    let mut table: Vec<&'static str> = Vec::new();
    let mut code: i32 = 0;
    while code < NAPI_STATUS_COUNT as i32
        invariant
            0 <= code <= NAPI_STATUS_COUNT,
            table@.len() == code,
            forall|c: int| 0 <= c < code ==> #[trigger] table@[c]@ == status_message(c),
        decreases NAPI_STATUS_COUNT - code,
    {
        table.push(error_message(code));
        code = code + 1;
    }
    table
}

/// Tag identifying the kind of a JS value.
pub type napi_valuetype = i32;

pub const napi_undefined: napi_valuetype = 0;
pub const napi_null: napi_valuetype = 1;
pub const napi_boolean: napi_valuetype = 2;
pub const napi_number: napi_valuetype = 3;
pub const napi_string: napi_valuetype = 4;
pub const napi_symbol: napi_valuetype = 5;
pub const napi_object: napi_valuetype = 6;
pub const napi_function: napi_valuetype = 7;
pub const napi_external: napi_valuetype = 8;
pub const napi_bigint: napi_valuetype = 9;

/// Release mode handed to a thread-safe function's release operation.
pub type napi_threadsafe_function_release_mode = i32;

pub const napi_tsfn_release: napi_threadsafe_function_release_mode = 0;
pub const napi_tsfn_abort: napi_threadsafe_function_release_mode = 1;

/// Blocking mode of a thread-safe function call.
pub type napi_threadsafe_function_call_mode = i32;

pub const napi_tsfn_nonblocking: napi_threadsafe_function_call_mode = 0;
pub const napi_tsfn_blocking: napi_threadsafe_function_call_mode = 1;

/// Key-enumeration collection mode.
pub type napi_key_collection_mode = i32;

pub const napi_key_include_prototypes: napi_key_collection_mode = 0;
pub const napi_key_own_only: napi_key_collection_mode = 1;

/// Key-enumeration filter bit flags.
pub type napi_key_filter = i32;

pub const napi_key_all_properties: napi_key_filter = 0;
pub const napi_key_writable: napi_key_filter = 1;
pub const napi_key_enumerable: napi_key_filter = 1 << 1;
pub const napi_key_configurable: napi_key_filter = 1 << 2;
pub const napi_key_skip_strings: napi_key_filter = 1 << 3;
pub const napi_key_skip_symbols: napi_key_filter = 1 << 4;

/// Key-enumeration numeric-key conversion mode.
pub type napi_key_conversion = i32;

pub const napi_key_keep_numbers: napi_key_conversion = 0;
pub const napi_key_numbers_to_strings: napi_key_conversion = 1;

/// Element-kind tag of a typed array.
pub type napi_typedarray_type = i32;

pub const napi_int8_array: napi_typedarray_type = 0;
pub const napi_uint8_array: napi_typedarray_type = 1;
pub const napi_uint8_clamped_array: napi_typedarray_type = 2;
pub const napi_int16_array: napi_typedarray_type = 3;
pub const napi_uint16_array: napi_typedarray_type = 4;
pub const napi_int32_array: napi_typedarray_type = 5;
pub const napi_uint32_array: napi_typedarray_type = 6;
pub const napi_float32_array: napi_typedarray_type = 7;
pub const napi_float64_array: napi_typedarray_type = 8;
pub const napi_bigint64_array: napi_typedarray_type = 9;
pub const napi_biguint64_array: napi_typedarray_type = 10;

/// Property attribute bit flags.
pub type napi_property_attributes = i32;

pub const napi_default: napi_property_attributes = 0;
pub const napi_writable: napi_property_attributes = 1 << 0;
pub const napi_enumerable: napi_property_attributes = 1 << 1;
pub const napi_configurable: napi_property_attributes = 1 << 2;
pub const napi_static: napi_property_attributes = 1 << 10;
pub const napi_default_method: napi_property_attributes = napi_writable | napi_configurable;
pub const napi_default_jsproperty: napi_property_attributes = napi_enumerable | napi_configurable
    | napi_writable;

/// Sentinel length meaning "the string is NUL-terminated; measure it".
pub const NAPI_AUTO_LENGTH: usize = usize::MAX;

/// Opaque handle to the execution context an addon callback receives.
pub type napi_env = u64;

/// Opaque handle to a JS value.
pub type napi_value = u64;

/// Opaque handle to callback-invocation information.
pub type napi_callback_info = u64;

/// Opaque handle to a deferred (promise-resolution) record.
pub type napi_deferred = u64;

/// Opaque handle to a persistent value reference.
pub type napi_ref = u64;

/// Opaque handle to a thread-safe function.
pub type napi_threadsafe_function = u64;

/// Opaque handle to a handle scope.
pub type napi_handle_scope = u64;

/// Opaque handle to a callback scope.
pub type napi_callback_scope = u64;

/// Opaque handle to an escapable handle scope.
pub type napi_escapable_handle_scope = u64;

/// Opaque handle to an async-cleanup-hook registration.
pub type napi_async_cleanup_hook_handle = u64;

/// Opaque handle to an async work item.
pub type napi_async_work = u64;

/// Opaque handle to an async context.
pub type napi_async_context = u64;

/// Foreign function pointer of shape `(env, callback_info) -> value`.
pub type napi_callback = u64;

/// Foreign finalizer pointer of shape `(env, data, hint)`.
pub type napi_finalize = u64;

/// Foreign async-execute pointer of shape `(env, data)`.
pub type napi_async_execute_callback = u64;

/// Foreign async-complete pointer of shape `(env, status, data)`.
pub type napi_async_complete_callback = u64;

/// Foreign thread-safe-call pointer of shape `(env, js_callback, context, data)`.
pub type napi_threadsafe_function_call_js = u64;

/// Foreign async-cleanup-hook pointer of shape `(handle, data)`.
pub type napi_async_cleanup_hook = u64;

/// Foreign cleanup-hook pointer of shape `(data)`.
pub type napi_cleanup_hook = u64;

/// Foreign registration entry-point pointer of shape `(env, exports) -> exports`.
pub type napi_addon_register_func = u64;

/// Static record an addon may expose to describe itself: the supported ABI
/// version, a flags word, its register entry point, and reserved padding that
/// mirrors the published record's layout.
#[derive(Clone)]
pub struct NapiModule {
    pub nm_version: i32,
    pub nm_flags: u32,
    pub nm_filename: u64,
    pub nm_register_func: napi_addon_register_func,
    pub nm_modname: u64,
    pub nm_priv: u64,
    pub reserved: [u64; 4],
}

/// The one ABI version this bridge supports; a Registration Descriptor must
/// carry exactly this value.
pub const NAPI_SUPPORTED_VERSION: i32 = 1;

/// A 128-bit tag used to mark host objects with a type identity.
#[derive(Clone, Copy, Debug, PartialEq, Eq, Structural)]
pub struct napi_type_tag {
    pub lower: u64,
    pub upper: u64,
}

/// Property-descriptor record, mirroring the published field order.
#[derive(Copy, Clone, Debug)]
pub struct napi_property_descriptor {
    pub utf8name: u64,
    pub name: napi_value,
    pub method: Option<napi_callback>,
    pub getter: Option<napi_callback>,
    pub setter: Option<napi_callback>,
    pub value: napi_value,
    pub attributes: napi_property_attributes,
    pub data: u64,
}

/// Extended error record addons query through the ABI's own error channel.
#[derive(Copy, Clone, Debug, PartialEq, Eq, Structural)]
pub struct napi_extended_error_info {
    pub error_message: u64,
    pub engine_reserved: u64,
    pub engine_error_code: i32,
    pub error_code: napi_status,
}

/// Host version record, mirroring the published field order.
#[derive(Copy, Clone, Debug)]
pub struct napi_node_version {
    pub major: u32,
    pub minor: u32,
    pub patch: u32,
    pub release: u64,
}

} // verus!
