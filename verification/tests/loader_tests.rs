use napi_bridge::abi::NapiModule;
use napi_bridge::loader::LoadPhase;
use napi_bridge::loader::ModuleLoad;
use napi_bridge::loader::NapiLoadError;

fn module_with_register_func(register_func: u64) -> NapiModule {
    NapiModule {
        nm_version: 1,
        nm_flags: 0,
        nm_filename: 0,
        nm_register_func: register_func,
        nm_modname: 0,
        nm_priv: 0,
        reserved: [0; 4],
    }
}

#[test]
fn denied_path_fails_with_reason_and_never_attempts_load() {
    let mut load = ModuleLoad::new(String::from("/tmp/addon.so"));
    let denial = load.check_permission(Err(String::from("ffi access to /tmp/addon.so denied")));
    match denial {
        Err(NapiLoadError::Denied(reason)) => {
            assert_eq!(reason, "ffi access to /tmp/addon.so denied");
        }
        _ => panic!("expected a denial"),
    }
    // The machine reached the failed outcome without a load attempt: no
    // library handle was ever recorded, and the load transition is disabled.
    assert_eq!(load.phase, LoadPhase::Failed);
    assert!(load.retained_library.is_none());
}

#[test]
fn failed_platform_load_wraps_loader_error_text() {
    let mut load = ModuleLoad::new(String::from("/tmp/missing.so"));
    assert!(load.check_permission(Ok(())).is_ok());
    let failed = load.open_library(Err(String::from(
        "/tmp/missing.so: cannot open shared object file",
    )));
    match failed {
        Err(e @ NapiLoadError::LoadFailed(_)) => {
            assert_eq!(e.message(), "/tmp/missing.so: cannot open shared object file");
        }
        _ => panic!("expected a load failure"),
    }
    assert_eq!(load.phase, LoadPhase::Failed);
    assert!(load.retained_library.is_none());
}

#[test]
fn missing_entry_point_fails_but_retains_library() {
    let mut load = ModuleLoad::new(String::from("/tmp/plain.so"));
    assert!(load.check_permission(Ok(())).is_ok());
    assert!(load.open_library(Ok(77)).is_ok());
    // No ambient Registration Descriptor was set by the load's side effects.
    assert!(!load.take_ambient_module(None));
    // The legacy well-known symbol is absent too.
    let missing = load.resolve_legacy_symbol(None);
    match missing {
        Err(e @ NapiLoadError::NoEntryPoint(_)) => {
            assert_eq!(
                e.message(),
                "Unable to find register Node-API module at /tmp/plain.so"
            );
        }
        _ => panic!("expected a no-entry-point failure"),
    }
    // The library stays retained for the process lifetime even on this path.
    assert_eq!(load.retained_library, Some(77));
    assert_eq!(load.phase, LoadPhase::Failed);
}

#[test]
fn ambient_descriptor_takes_precedence() {
    let mut load = ModuleLoad::new(String::from("/tmp/addon.so"));
    assert!(load.check_permission(Ok(())).is_ok());
    assert!(load.open_library(Ok(11)).is_ok());
    assert!(load.take_ambient_module(Some(module_with_register_func(500))));
    assert_eq!(
        load.phase,
        LoadPhase::EntryFound { register_func: 500 }
    );
    // The entry point returned a non-null exports value: it wins.
    let exports = load.complete_registration(60, Some(61));
    assert_eq!(exports, 61);
    assert_eq!(load.phase, LoadPhase::Loaded { exports: 61 });
    assert_eq!(load.retained_library, Some(11));
}

#[test]
fn legacy_symbol_is_used_when_no_ambient_descriptor() {
    let mut load = ModuleLoad::new(String::from("/tmp/legacy.so"));
    assert!(load.check_permission(Ok(())).is_ok());
    assert!(load.open_library(Ok(12)).is_ok());
    assert!(!load.take_ambient_module(None));
    assert!(load.resolve_legacy_symbol(Some(900)).is_ok());
    assert_eq!(
        load.phase,
        LoadPhase::EntryFound { register_func: 900 }
    );
}

#[test]
fn null_entry_return_keeps_fresh_exports_object() {
    let mut load = ModuleLoad::new(String::from("/tmp/addon.so"));
    assert!(load.check_permission(Ok(())).is_ok());
    assert!(load.open_library(Ok(13)).is_ok());
    assert!(load.take_ambient_module(Some(module_with_register_func(501))));
    // The entry point returned null: the freshly created empty exports object
    // is what the caller gets.
    let exports = load.complete_registration(42, None);
    assert_eq!(exports, 42);
    assert_eq!(load.phase, LoadPhase::Loaded { exports: 42 });
}

#[test]
fn denial_message_is_the_reason_itself() {
    let e = NapiLoadError::Denied(String::from("denied by policy"));
    assert_eq!(e.message(), "denied by policy");
}
