//! A verified model of a native-addon bridge: the ABI surface a precompiled
//! addon is linked against, the per-addon execution context, the cleanup-hook
//! lifecycle, the liveness/async accounting, and the module-load protocol.
//!
//! Engine handles and foreign pointers are opaque to the bridge's logic; they
//! are carried as plain integer handles. The unverified host shell performs
//! the actual dynamic loading and foreign calls and feeds their outcomes into
//! the state machines defined here.

pub mod abi;
pub mod diagnostics;
pub mod env;
pub mod hooks;
pub mod liveness;
pub mod loader;

pub use abi::napi_cleanup_hook;
pub use abi::napi_extended_error_info;
pub use abi::napi_node_version;
pub use abi::napi_property_descriptor;
pub use abi::napi_status;
pub use abi::napi_type_tag;
pub use abi::NapiModule;
pub use diagnostics::print_import_map_diagnostics;
pub use env::Env;
pub use env::EnvShared;
pub use env::InstanceData;
pub use hooks::CleanupHooks;
pub use hooks::NapiState;
pub use hooks::TeardownPass;
pub use liveness::AsyncWorkSender;
pub use liveness::ExternalOpsTracker;
pub use loader::ModuleLoad;
pub use loader::NapiPermissions;
