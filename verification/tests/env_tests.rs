use napi_bridge::abi::napi_ok;
use napi_bridge::env::Env;
use napi_bridge::env::EnvShared;
use napi_bridge::env::InstanceData;
use napi_bridge::hooks::CleanupHookError;
use napi_bridge::hooks::CleanupHooks;
use napi_bridge::liveness::AsyncWorkSender;
use napi_bridge::liveness::ExternalOpsTracker;

fn fresh_env() -> Env {
    Env::new(
        0x1000,
        0x2000,
        0x3000,
        0x4000,
        0x5000,
        AsyncWorkSender::new(),
        CleanupHooks::new(),
        ExternalOpsTracker::new(),
    )
}

#[test]
fn new_env_starts_clean() {
    let env = fresh_env();
    assert_eq!(env.isolate_ptr, 0x1000);
    assert_eq!(env.context, 0x2000);
    assert_eq!(env.global, 0x3000);
    assert_eq!(env.buffer_constructor, 0x4000);
    assert_eq!(env.report_error, 0x5000);
    assert_eq!(env.open_handle_scopes, 0);
    assert!(env.shared.is_none());
    assert!(env.last_exception.is_none());
    assert_eq!(env.last_error.error_code, napi_ok);
    assert_eq!(env.last_error.error_message, 0);
    assert_eq!(env.last_error.engine_reserved, 0);
    assert_eq!(env.last_error.engine_error_code, 0);
    assert_eq!(env.cleanup_hooks.len(), 0);
    assert_eq!(env.external_ops_tracker.count, 0);
}

#[test]
fn new_env_shared_starts_empty() {
    let shared = EnvShared::new(0xA, 0xB, String::from("/tmp/addon.so"));
    assert!(shared.instance_data.is_none());
    assert_eq!(shared.napi_wrap, 0xA);
    assert_eq!(shared.type_tag, 0xB);
    assert!(shared.finalize.is_none());
    assert_eq!(shared.finalize_hint, 0);
    assert_eq!(shared.filename, "/tmp/addon.so");
}

#[test]
fn shared_accessors_reach_attached_state() {
    let mut env = fresh_env();
    env.shared = Some(EnvShared::new(0xA, 0xB, String::from("/tmp/addon.so")));
    assert_eq!(env.shared().filename, "/tmp/addon.so");

    env.shared_mut().instance_data = Some(InstanceData {
        data: 0x77,
        finalize_cb: None,
        finalize_hint: 0,
    });
    let inst = env.shared().instance_data.as_ref().unwrap();
    assert_eq!(inst.data, 0x77);
    // The untouched fields survive the mutable access.
    assert_eq!(env.context, 0x2000);
    assert_eq!(env.shared().napi_wrap, 0xA);
}

#[test]
fn isolate_and_scope_return_stored_handles() {
    let mut env = fresh_env();
    assert_eq!(env.isolate(), 0x1000);
    assert_eq!(env.scope(), 0x2000);
}

#[test]
fn async_work_is_delivered_in_submission_order() {
    let mut env = fresh_env();
    env.add_async_work(31);
    env.add_async_work(32);
    env.add_async_work(33);
    assert_eq!(env.async_work_sender.take_next(), Some(31));
    assert_eq!(env.async_work_sender.take_next(), Some(32));
    env.add_async_work(34);
    assert_eq!(env.async_work_sender.take_next(), Some(33));
    assert_eq!(env.async_work_sender.take_next(), Some(34));
    assert_eq!(env.async_work_sender.take_next(), None);
}

#[test]
fn liveness_refs_and_unrefs_balance_out() {
    let mut env = fresh_env();
    let n = 100;
    for _ in 0..n {
        env.threadsafe_function_ref();
    }
    assert_eq!(env.external_ops_tracker.count, n);
    for _ in 0..n {
        env.threadsafe_function_unref();
    }
    assert_eq!(env.external_ops_tracker.count, 0);
}

#[test]
fn interleaved_liveness_ops_have_only_aggregate_effect() {
    let mut env = fresh_env();
    env.threadsafe_function_ref();
    env.threadsafe_function_ref();
    env.threadsafe_function_unref();
    env.threadsafe_function_ref();
    env.threadsafe_function_unref();
    env.threadsafe_function_unref();
    assert_eq!(env.external_ops_tracker.count, 0);
}

#[test]
fn hooks_registered_through_env_run_at_state_teardown() {
    // The environment registers the hooks; teardown runs over the same list,
    // owned by the host-side state for the load session.
    let mut env = fresh_env();
    assert!(env.add_cleanup_hook(61, 1).is_ok());
    assert!(env.add_cleanup_hook(62, 2).is_ok());
    let mut state = napi_bridge::hooks::NapiState {
        env_cleanup_hooks: env.cleanup_hooks,
    };

    let mut order = Vec::new();
    let mut pass = state.begin_teardown();
    while let Some(hook) = pass.next_hook(&state.env_cleanup_hooks) {
        order.push(hook);
        pass.finish_hook(&mut state.env_cleanup_hooks);
    }
    assert_eq!(order, vec![(62, 2), (61, 1)]);
}

#[test]
fn env_cleanup_hook_registration_and_removal() {
    let mut env = fresh_env();
    assert!(env.add_cleanup_hook(51, 1).is_ok());
    assert!(env.add_cleanup_hook(52, 2).is_ok());
    assert_eq!(
        env.add_cleanup_hook(51, 1),
        Err(CleanupHookError::AlreadyRegistered)
    );
    assert!(env.remove_cleanup_hook(51, 1).is_ok());
    assert_eq!(
        env.remove_cleanup_hook(51, 1),
        Err(CleanupHookError::NotRegistered)
    );
    // Re-registering the removed pair succeeds.
    assert!(env.add_cleanup_hook(51, 1).is_ok());
    assert_eq!(env.cleanup_hooks.len(), 2);
}
