use napi_bridge::hooks::CleanupHookError;
use napi_bridge::hooks::CleanupHooks;
use napi_bridge::hooks::NapiState;

/// Drive a full teardown pass in which no hook mutates the registry, and
/// collect the invocation order.
fn run_inert_teardown(state: &mut NapiState) -> Vec<(u64, u64)> {
    let mut order = Vec::new();
    let mut pass = state.begin_teardown();
    loop {
        match pass.next_hook(&state.env_cleanup_hooks) {
            Some(hook) => {
                order.push(hook);
                pass.finish_hook(&mut state.env_cleanup_hooks);
            }
            None => break,
        }
    }
    order
}

#[test]
fn teardown_runs_in_reverse_registration_order() {
    let mut hooks = CleanupHooks::new();
    for i in 1..=5u64 {
        assert!(hooks.register(100 + i, i).is_ok());
    }
    let mut state = NapiState {
        env_cleanup_hooks: hooks,
    };
    let order = run_inert_teardown(&mut state);
    assert_eq!(
        order,
        vec![(105, 5), (104, 4), (103, 3), (102, 2), (101, 1)]
    );
    assert_eq!(state.env_cleanup_hooks.len(), 0);
}

#[test]
fn teardown_of_empty_registry_invokes_nothing() {
    let mut state = NapiState {
        env_cleanup_hooks: CleanupHooks::new(),
    };
    let order = run_inert_teardown(&mut state);
    assert!(order.is_empty());
}

#[test]
fn hook_removed_by_earlier_hook_is_never_invoked() {
    // G is registered before H, so H runs first in the pass. H's invocation
    // removes G from the live list; the pass must then skip G.
    let g = (201u64, 1u64);
    let h = (202u64, 2u64);
    let mut hooks = CleanupHooks::new();
    assert!(hooks.register(g.0, g.1).is_ok());
    assert!(hooks.register(h.0, h.1).is_ok());
    let mut state = NapiState {
        env_cleanup_hooks: hooks,
    };

    let mut invoked = Vec::new();
    let mut pass = state.begin_teardown();
    while let Some(hook) = pass.next_hook(&state.env_cleanup_hooks) {
        invoked.push(hook);
        if hook == h {
            // H's side effect while running: it unregisters G.
            assert!(state.env_cleanup_hooks.unregister(g.0, g.1).is_ok());
        }
        pass.finish_hook(&mut state.env_cleanup_hooks);
    }

    assert_eq!(invoked, vec![h]);
    assert_eq!(state.env_cleanup_hooks.len(), 0);
}

#[test]
fn duplicate_registration_fails_and_reregistration_after_removal_succeeds() {
    let mut hooks = CleanupHooks::new();
    assert!(hooks.register(7, 1).is_ok());
    let dup = hooks.register(7, 1);
    assert_eq!(dup, Err(CleanupHookError::AlreadyRegistered));
    assert_eq!(
        dup.unwrap_err().message(),
        "Cannot register cleanup hook with same data twice"
    );
    // Same function with different data is a different hook.
    assert!(hooks.register(7, 2).is_ok());

    assert!(hooks.unregister(7, 1).is_ok());
    assert!(hooks.register(7, 1).is_ok());
    assert_eq!(hooks.len(), 2);
}

#[test]
fn removing_unregistered_pair_fails() {
    let mut hooks = CleanupHooks::new();
    let missing = hooks.unregister(9, 9);
    assert_eq!(missing, Err(CleanupHookError::NotRegistered));
    assert_eq!(
        missing.unwrap_err().message(),
        "Cannot remove cleanup hook which was not registered"
    );

    assert!(hooks.register(9, 8).is_ok());
    // Same function, different data: still not registered.
    assert_eq!(hooks.unregister(9, 9), Err(CleanupHookError::NotRegistered));
}

#[test]
fn registry_keeps_registration_order() {
    let mut hooks = CleanupHooks::new();
    assert!(hooks.register(1, 10).is_ok());
    assert!(hooks.register(2, 20).is_ok());
    assert!(hooks.register(3, 30).is_ok());
    assert_eq!(hooks.len(), 3);
    assert_eq!(hooks.get(0), (1, 10));
    assert_eq!(hooks.get(1), (2, 20));
    assert_eq!(hooks.get(2), (3, 30));
    assert!(hooks.contains_pair(2, 20));
    assert!(!hooks.contains_pair(2, 10));

    assert!(hooks.unregister(2, 20).is_ok());
    assert_eq!(hooks.len(), 2);
    assert_eq!(hooks.get(0), (1, 10));
    assert_eq!(hooks.get(1), (3, 30));
}

#[test]
fn hook_readded_during_its_own_run_does_not_run_again_in_the_pass() {
    // A hook that re-registers its own identical pair while running: the
    // removal step after its invocation strikes the re-added pair too, so it
    // does not run twice in this pass.
    let a = (301u64, 1u64);
    let b = (302u64, 2u64);
    let mut hooks = CleanupHooks::new();
    assert!(hooks.register(a.0, a.1).is_ok());
    assert!(hooks.register(b.0, b.1).is_ok());
    let mut state = NapiState {
        env_cleanup_hooks: hooks,
    };

    let mut invoked = Vec::new();
    let mut pass = state.begin_teardown();
    while let Some(hook) = pass.next_hook(&state.env_cleanup_hooks) {
        invoked.push(hook);
        if hook == b {
            // B was handed out for invocation but not struck yet; it removes
            // itself and registers the identical pair again.
            assert!(state.env_cleanup_hooks.unregister(b.0, b.1).is_ok());
            assert!(state.env_cleanup_hooks.register(b.0, b.1).is_ok());
        }
        pass.finish_hook(&mut state.env_cleanup_hooks);
    }

    assert_eq!(invoked, vec![b, a]);
    assert_eq!(state.env_cleanup_hooks.len(), 0);
}
