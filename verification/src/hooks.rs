//! Cleanup-hook bookkeeping and the teardown protocol.
//!
//! A cleanup hook is an identity pair of a foreign function pointer and an
//! opaque data pointer, both carried as opaque handles. Hooks are kept in
//! registration order and torn down in reverse (LIFO). A hook that runs during
//! teardown may mutate the registry (for example remove hooks registered
//! later), so the pass snapshots the list first and re-checks each snapshotted
//! entry against the live list immediately before handing it out for
//! invocation.
//!
//! The foreign invocation itself cannot be verified; the unverified host shell
//! drives [`TeardownPass`], invokes each hook the pass hands out, and reports
//! completion. Everything the pass decides — which hook is next, which entries
//! are skipped, what the live list becomes — is specified here.

use vstd::prelude::*;

use crate::abi::napi_cleanup_hook;

verus! {

/// A registered cleanup hook: the foreign function handle and its opaque data
/// handle. Two entries with the same pair are the same hook.
pub type CleanupHookPair = (napi_cleanup_hook, u64);

/// Violation of the cleanup-hook registry's contract by foreign code. The ABI
/// defines no recovery for these: the host shell escalates them to a process
/// abort, exactly as the published protocol demands.
#[derive(Clone, Copy, Debug, PartialEq, Eq, Structural)]
pub enum CleanupHookError {
    /// The identical (function, data) pair is already registered.
    AlreadyRegistered,
    /// No such (function, data) pair is currently registered.
    NotRegistered,
}

impl CleanupHookError {
    /// The diagnostic the host shell prints when aborting on this violation.
    pub fn message(&self) -> (r: &'static str)
        ensures
            *self is AlreadyRegistered ==> r@ == "Cannot register cleanup hook with same data twice"@,
            *self is NotRegistered ==> r@ == "Cannot remove cleanup hook which was not registered"@,
    {
        match self {
            CleanupHookError::AlreadyRegistered => "Cannot register cleanup hook with same data twice",
            CleanupHookError::NotRegistered => "Cannot remove cleanup hook which was not registered",
        }
    }
}

/// Index of the last occurrence of `p` in `s`, or -1 if absent.
pub open spec fn rindex_of_pair(s: Seq<CleanupHookPair>, p: CleanupHookPair) -> int
    decreases s.len(),
{
    if s.len() == 0 {
        -1
    } else if s.last() == p {
        s.len() - 1
    } else {
        rindex_of_pair(s.drop_last(), p)
    }
}

/// `s` with every occurrence of `p` removed, order of the rest kept.
pub open spec fn remove_pair_all(s: Seq<CleanupHookPair>, p: CleanupHookPair) -> Seq<
    CleanupHookPair,
>
    decreases s.len(),
{
    if s.len() == 0 {
        Seq::empty()
    } else if s.last() == p {
        remove_pair_all(s.drop_last(), p)
    } else {
        remove_pair_all(s.drop_last(), p).push(s.last())
    }
}

/// No two entries of `s` are the same (function, data) pair.
pub open spec fn distinct_pairs(s: Seq<CleanupHookPair>) -> bool {
    forall|i: int, j: int| 0 <= i < j < s.len() ==> s[i] != s[j]
}

pub proof fn lemma_rindex_of_pair_properties(s: Seq<CleanupHookPair>, p: CleanupHookPair)
    ensures
        s.contains(p) ==> {
            &&& 0 <= rindex_of_pair(s, p) < s.len()
            &&& s[rindex_of_pair(s, p)] == p
            &&& forall|k: int| rindex_of_pair(s, p) < k < s.len() ==> s[k] != p
        },
        !s.contains(p) ==> rindex_of_pair(s, p) == -1,
    decreases s.len(),
{
    if s.len() == 0 {
    } else if s.last() == p {
    } else {
        lemma_rindex_of_pair_properties(s.drop_last(), p);
        assert(forall|i: int| 0 <= i < s.len() - 1 ==> s[i] == s.drop_last()[i]);
        if s.contains(p) {
            let w = choose|w: int| 0 <= w < s.len() && s[w] == p;
            assert(s.drop_last()[w] == p);
            assert(s.drop_last().contains(p));
        } else {
            if s.drop_last().contains(p) {
                let w = choose|w: int| 0 <= w < s.len() - 1 && s.drop_last()[w] == p;
                assert(s[w] == p);
            }
        }
    }
}

pub proof fn lemma_remove_pair_all_properties(s: Seq<CleanupHookPair>, p: CleanupHookPair)
    ensures
        forall|q: CleanupHookPair| #[trigger] remove_pair_all(s, p).contains(q) ==> s.contains(q),
        !remove_pair_all(s, p).contains(p),
        !s.contains(p) ==> remove_pair_all(s, p) == s,
    decreases s.len(),
{
    if s.len() == 0 {
        assert(remove_pair_all(s, p) =~= s);
    } else {
        lemma_remove_pair_all_properties(s.drop_last(), p);
        assert(forall|q: CleanupHookPair| #[trigger] s.drop_last().contains(q) ==> s.contains(q));
        if s.last() == p {
            assert(s[s.len() - 1] == p);
            assert(s.contains(p));
        } else {
            assert forall|q: CleanupHookPair|
                #[trigger] remove_pair_all(s, p).contains(q) implies s.contains(q) by {
                let r = remove_pair_all(s, p);
                let prefix = remove_pair_all(s.drop_last(), p);
                let w = choose|w: int| 0 <= w < r.len() && r[w] == q;
                if w < prefix.len() {
                    assert(prefix[w] == q);
                    assert(prefix.contains(q));
                    assert(s.drop_last().contains(q));
                } else {
                    assert(q == s.last());
                    assert(s[s.len() - 1] == q);
                }
            }
            if !s.contains(p) {
                if s.drop_last().contains(p) {
                    let w = choose|w: int| 0 <= w < s.len() - 1 && s.drop_last()[w] == p;
                    assert(s[w] == p);
                }
                assert(remove_pair_all(s.drop_last(), p) == s.drop_last());
                assert(remove_pair_all(s, p) =~= s);
            }
        }
    }
}

/// The shared, ordered list of registered cleanup hooks. Order is registration
/// order; entries are unique by (function, data) identity, which registration
/// enforces.
pub struct CleanupHooks {
    entries: Vec<CleanupHookPair>,
}

impl View for CleanupHooks {
    type V = Seq<CleanupHookPair>;

    closed spec fn view(&self) -> Seq<CleanupHookPair> {
        self.entries@
    }
}

impl CleanupHooks {
    /// An empty registry.
    pub fn new() -> (r: Self)
        ensures
            r@ == Seq::<CleanupHookPair>::empty(),
    {
        CleanupHooks { entries: Vec::new() }
    }

    /// Number of registered hooks.
    pub fn len(&self) -> (n: usize)
        ensures
            n == self@.len(),
    {
        self.entries.len()
    }

    /// The hook at a registration-order position.
    pub fn get(&self, i: usize) -> (r: CleanupHookPair)
        requires
            i < self@.len(),
        ensures
            r == self@[i as int],
    {
        self.entries[i]
    }

    /// Whether the identical (function, data) pair is currently registered.
    pub fn contains_pair(&self, hook: napi_cleanup_hook, data: u64) -> (r: bool)
        ensures
            r == self@.contains((hook, data)),
    {
        let n = self.entries.len();
        let mut i: usize = 0;
        while i < n
            invariant
                n == self@.len(),
                i <= n,
                forall|k: int| 0 <= k < i ==> self@[k] != (hook, data),
            decreases n - i,
        {
            let e = self.entries[i];
            if e.0 == hook && e.1 == data {
                assert(self@[i as int] == (hook, data));
                return true;
            }
            i = i + 1;
        }
        false
    }

    /// Append a new (function, data) pair. Fails — a contract violation by the
    /// addon, which the host shell must treat as fatal — if and only if the
    /// identical pair is already registered.
    pub fn register(&mut self, hook: napi_cleanup_hook, data: u64) -> (r: Result<
        (),
        CleanupHookError,
    >)
        ensures
            old(self)@.contains((hook, data)) ==> r == Err::<(), CleanupHookError>(
                CleanupHookError::AlreadyRegistered,
            ) && final(self)@ == old(self)@,
            !old(self)@.contains((hook, data)) ==> r == Ok::<(), CleanupHookError>(())
                && final(self)@ == old(self)@.push((hook, data)),
    {
        if self.contains_pair(hook, data) {
            Err(CleanupHookError::AlreadyRegistered)
        } else {
            self.entries.push((hook, data));
            Ok(())
        }
    }

    /// Remove the most recently registered occurrence of the (function, data)
    /// pair (reverse scan). Fails — fatally, at the host shell — if and only
    /// if no such pair is registered.
    pub fn unregister(&mut self, hook: napi_cleanup_hook, data: u64) -> (r: Result<
        (),
        CleanupHookError,
    >)
        ensures
            !old(self)@.contains((hook, data)) ==> r == Err::<(), CleanupHookError>(
                CleanupHookError::NotRegistered,
            ) && final(self)@ == old(self)@,
            old(self)@.contains((hook, data)) ==> r == Ok::<(), CleanupHookError>(())
                && final(self)@ == old(self)@.remove(rindex_of_pair(old(self)@, (hook, data))),
    {
        let n = self.entries.len();
        let mut i: usize = n;
        while i > 0
            invariant
                self == old(self),
                n == self@.len(),
                i <= n,
                forall|k: int| i <= k < n ==> self@[k] != (hook, data),
            decreases i,
        {
            let e = self.entries[i - 1];
            if e.0 == hook && e.1 == data {
                proof {
                    assert(self@[i - 1] == (hook, data));
                    lemma_rindex_of_pair_properties(self@, (hook, data));
                    assert(self@.contains((hook, data)));
                    let ri = rindex_of_pair(self@, (hook, data));
                    assert(i - 1 <= ri < n);
                    assert(ri == i - 1);
                }
                self.entries.remove(i - 1);
                return Ok(());
            }
            i = i - 1;
        }
        proof {
            if self@.contains((hook, data)) {
                let w = choose|w: int| 0 <= w < self@.len() && self@[w] == (hook, data);
                assert(self@[w] != (hook, data));
            }
        }
        Err(CleanupHookError::NotRegistered)
    }

    /// The registry with every occurrence of the pair dropped, as a fresh
    /// list; used by the teardown pass after a hook has been invoked.
    fn removed_all(&self, p: CleanupHookPair) -> (out: Vec<CleanupHookPair>)
        ensures
            out@ == remove_pair_all(self@, p),
    {
        let n = self.entries.len();
        let mut out: Vec<CleanupHookPair> = Vec::new();
        let mut i: usize = 0;
        while i < n
            invariant
                n == self@.len(),
                i <= n,
                out@ == remove_pair_all(self@.take(i as int), p),
            decreases n - i,
        {
            let e = self.entries[i];
            proof {
                assert(self@.take(i + 1).drop_last() =~= self@.take(i as int));
                assert(self@.take(i + 1).last() == self@[i as int]);
            }
            if !(e.0 == p.0 && e.1 == p.1) {
                out.push(e);
            }
            i = i + 1;
        }
        proof {
            assert(self@.take(n as int) =~= self@);
        }
        out
    }
}

/// Host-side state owning the shared cleanup-hook list for one load session.
/// Teardown of this state runs the hooks through a [`TeardownPass`].
pub struct NapiState {
    pub env_cleanup_hooks: CleanupHooks,
}

/// The index the teardown pass visits next: the highest position `j` below
/// `idx` whose snapshotted entry is still in the live list, or `None` when no
/// snapshotted entry below `idx` is still registered.
pub open spec fn pick_next(
    snapshot: Seq<CleanupHookPair>,
    idx: int,
    live: Seq<CleanupHookPair>,
) -> Option<int>
    decreases idx,
{
    if idx <= 0 {
        None
    } else if live.contains(snapshot[idx - 1]) {
        Some(idx - 1)
    } else {
        pick_next(snapshot, idx - 1, live)
    }
}

/// The full invocation order of a teardown pass over `snapshot[0..idx]` with
/// live list `live`, assuming the hooks themselves do not mutate the registry
/// while running: each snapshotted entry is visited in reverse, skipped if no
/// longer live, and every occurrence of an invoked pair is removed from the
/// live list once it has run.
pub open spec fn teardown_run(
    snapshot: Seq<CleanupHookPair>,
    idx: int,
    live: Seq<CleanupHookPair>,
) -> Seq<CleanupHookPair>
    decreases idx,
{
    if idx <= 0 {
        Seq::empty()
    } else if live.contains(snapshot[idx - 1]) {
        seq![snapshot[idx - 1]] + teardown_run(
            snapshot,
            idx - 1,
            remove_pair_all(live, snapshot[idx - 1]),
        )
    } else {
        teardown_run(snapshot, idx - 1, live)
    }
}

/// One teardown pass: a snapshot of the hook list taken when teardown began,
/// and a cursor walking it in reverse. The host shell alternates
/// [`TeardownPass::next_hook`] (which picks the next still-registered hook),
/// the foreign invocation, and [`TeardownPass::finish_hook`] (which strikes
/// the invoked pair from the live list so it cannot run again).
pub struct TeardownPass {
    /// The hook list as it stood when teardown began (copy, not a live view).
    pub snapshot: Vec<CleanupHookPair>,
    /// Snapshot entries at positions below this are not yet visited.
    pub remaining: usize,
    /// A hook has been handed out by `next_hook` and not yet finished.
    pub pending: bool,
}

impl NapiState {
    /// Begin teardown: snapshot the current hook list. Hooks run from the
    /// snapshot, in reverse registration order, while membership is re-checked
    /// against the live list before each invocation.
    pub fn begin_teardown(&self) -> (pass: TeardownPass)
        ensures
            pass.snapshot@ == self.env_cleanup_hooks@,
            pass.remaining == self.env_cleanup_hooks@.len(),
            !pass.pending,
    {
        let n = self.env_cleanup_hooks.len();
        let mut snapshot: Vec<CleanupHookPair> = Vec::new();
        let mut i: usize = 0;
        while i < n
            invariant
                n == self.env_cleanup_hooks@.len(),
                i <= n,
                snapshot@ == self.env_cleanup_hooks@.take(i as int),
            decreases n - i,
        {
            snapshot.push(self.env_cleanup_hooks.get(i));
            proof {
                assert(snapshot@ =~= self.env_cleanup_hooks@.take(i + 1));
            }
            i = i + 1;
        }
        proof {
            assert(self.env_cleanup_hooks@.take(n as int) =~= self.env_cleanup_hooks@);
        }
        TeardownPass { snapshot, remaining: n, pending: false }
    }
}

impl TeardownPass {
    /// Find the next hook to invoke: the most recently registered snapshot
    /// entry not yet visited that is still present in the live list. Entries
    /// no longer present — removed by a hook that already ran — are skipped
    /// without being invoked. Returns `None` when the pass is complete.
    pub fn next_hook(&mut self, live: &CleanupHooks) -> (r: Option<CleanupHookPair>)
        requires
            !old(self).pending,
            old(self).remaining <= old(self).snapshot@.len(),
        ensures
            final(self).snapshot@ == old(self).snapshot@,
            pick_next(old(self).snapshot@, old(self).remaining as int, live@) is None ==> r
                is None && final(self).remaining == 0 && !final(self).pending,
            pick_next(old(self).snapshot@, old(self).remaining as int, live@) matches Some(j) ==> r
                == Some(old(self).snapshot@[j]) && final(self).remaining == j + 1
                && final(self).pending,
    {
        let mut i: usize = self.remaining;
        while i > 0
            invariant
                self.snapshot@ == old(self).snapshot@,
                self.remaining == old(self).remaining,
                !self.pending,
                i <= old(self).remaining,
                old(self).remaining <= self.snapshot@.len(),
                pick_next(self.snapshot@, old(self).remaining as int, live@) == pick_next(
                    self.snapshot@,
                    i as int,
                    live@,
                ),
            decreases i,
        {
            let e = self.snapshot[i - 1];
            if live.contains_pair(e.0, e.1) {
                proof {
                    assert(live@.contains(self.snapshot@[i - 1]));
                    assert(pick_next(self.snapshot@, i as int, live@) == Some(i - 1));
                }
                self.remaining = i;
                self.pending = true;
                return Some(e);
            }
            proof {
                assert(pick_next(self.snapshot@, i as int, live@) == pick_next(
                    self.snapshot@,
                    i - 1,
                    live@,
                ));
            }
            i = i - 1;
        }
        self.remaining = 0;
        None
    }

    /// Record that the hook most recently handed out by `next_hook` has been
    /// invoked: remove its (function, data) pair from the live list — it has
    /// run and must not run again, even if something re-added the identical
    /// pair while it ran — and step the cursor past it.
    pub fn finish_hook(&mut self, live: &mut CleanupHooks)
        requires
            old(self).pending,
            0 < old(self).remaining <= old(self).snapshot@.len(),
        ensures
            final(self).snapshot@ == old(self).snapshot@,
            final(self).remaining == old(self).remaining - 1,
            !final(self).pending,
            final(live)@ == remove_pair_all(
                old(live)@,
                old(self).snapshot@[old(self).remaining - 1],
            ),
    {
        let e = self.snapshot[self.remaining - 1];
        let out = live.removed_all(e);
        live.entries = out;
        self.remaining = self.remaining - 1;
        self.pending = false;
    }
}

/// Registration keeps the entries unique: appending a pair that is not yet
/// present — the only append `register` performs — preserves distinctness.
/// Every list built through the registration API therefore satisfies the
/// distinctness hypothesis of [`lemma_teardown_reverse_order`].
pub proof fn lemma_register_preserves_distinct(s: Seq<CleanupHookPair>, p: CleanupHookPair)
    requires
        distinct_pairs(s),
        !s.contains(p),
    ensures
        distinct_pairs(s.push(p)),
{
    assert forall|i: int, j: int| 0 <= i < j < s.push(p).len() implies s.push(p)[i] != s.push(
        p,
    )[j] by {
        if j == s.len() {
            if s[i] == p {
                assert(s.contains(p));
            }
        }
    }
}

/// Removal also keeps the entries unique: striking any one position — the
/// only removal `unregister` performs — preserves distinctness. Together with
/// [`lemma_register_preserves_distinct`] this shows the registered pairs are
/// unique by identity at all times.
pub proof fn lemma_unregister_preserves_distinct(s: Seq<CleanupHookPair>, i: int)
    requires
        distinct_pairs(s),
        0 <= i < s.len(),
    ensures
        distinct_pairs(s.remove(i)),
{
    let t = s.remove(i);
    assert forall|a: int, b: int| 0 <= a < b < t.len() implies t[a] != t[b] by {
        let a0 = if a < i {
            a
        } else {
            a + 1
        };
        let b0 = if b < i {
            b
        } else {
            b + 1
        };
        assert(t[a] == s[a0]);
        assert(t[b] == s[b0]);
    }
}

/// The pass the executable machine takes — find the next still-live entry
/// with `pick_next`, invoke it, strike it from the live list — produces
/// exactly the invocation order `teardown_run` describes: a `None` pick ends
/// the run, and a picked hook heads the run of what remains.
pub proof fn lemma_teardown_run_follows_pick(
    s: Seq<CleanupHookPair>,
    idx: int,
    live: Seq<CleanupHookPair>,
)
    ensures
        pick_next(s, idx, live) is None ==> teardown_run(s, idx, live) == Seq::<
            CleanupHookPair,
        >::empty(),
        pick_next(s, idx, live) matches Some(j) ==> teardown_run(s, idx, live) == seq![s[j]]
            + teardown_run(s, j, remove_pair_all(live, s[j])),
    decreases idx,
{
    if idx <= 0 {
    } else if live.contains(s[idx - 1]) {
    } else {
        lemma_teardown_run_follows_pick(s, idx - 1, live);
    }
}

/// When the registered pairs are distinct and no hook mutates the registry
/// while running, a full teardown pass invokes every hook exactly once, in
/// exactly reverse registration order.
pub proof fn lemma_teardown_reverse_order(s: Seq<CleanupHookPair>)
    requires
        distinct_pairs(s),
    ensures
        teardown_run(s, s.len() as int, s) == s.reverse(),
{
    lemma_teardown_reverse_order_step(s, s.len() as int);
    assert(s.take(s.len() as int) =~= s);
}

proof fn lemma_teardown_reverse_order_step(s: Seq<CleanupHookPair>, j: int)
    requires
        distinct_pairs(s),
        0 <= j <= s.len(),
    ensures
        teardown_run(s, j, s.take(j)) == s.take(j).reverse(),
    decreases j,
{
    if j <= 0 {
        assert(s.take(0).reverse() =~= Seq::<CleanupHookPair>::empty());
    } else {
        let live = s.take(j);
        let p = s[j - 1];
        assert(live[j - 1] == p);
        assert(live.contains(p));
        assert(live.drop_last() =~= s.take(j - 1));
        assert(live.last() == p);
        lemma_remove_pair_all_properties(s.take(j - 1), p);
        if s.take(j - 1).contains(p) {
            let w = choose|w: int| 0 <= w < j - 1 && (#[trigger] s.take(j - 1)[w]) == p;
            assert(s[w] == p);
            assert(false);
        }
        assert(remove_pair_all(live, p) == remove_pair_all(s.take(j - 1), p));
        assert(remove_pair_all(live, p) == s.take(j - 1));
        lemma_teardown_reverse_order_step(s, j - 1);
        assert(teardown_run(s, j, live) == seq![p] + s.take(j - 1).reverse());
        assert((seq![p] + s.take(j - 1).reverse()) =~= s.take(j).reverse());
    }
}

/// A hook that is no longer in the live list when its turn comes is never
/// picked for invocation. In particular, if a hook that ran earlier in the
/// pass removed a hook registered before it, the removed hook is skipped: the
/// pass only ever hands out pairs drawn from the live list at the moment of
/// their turn.
pub proof fn lemma_absent_hook_never_picked(
    s: Seq<CleanupHookPair>,
    idx: int,
    live: Seq<CleanupHookPair>,
    g: CleanupHookPair,
)
    requires
        !live.contains(g),
    ensures
        pick_next(s, idx, live) matches Some(j) ==> s[j] != g,
    decreases idx,
{
    if idx <= 0 {
    } else if live.contains(s[idx - 1]) {
    } else {
        lemma_absent_hook_never_picked(s, idx - 1, live, g);
    }
}

/// Once a pair is absent from the live list, the remainder of an otherwise
/// inert teardown pass never invokes it: the pass's own removals only shrink
/// the live list further.
pub proof fn lemma_removed_hook_never_runs(
    s: Seq<CleanupHookPair>,
    idx: int,
    live: Seq<CleanupHookPair>,
    g: CleanupHookPair,
)
    requires
        !live.contains(g),
    ensures
        !teardown_run(s, idx, live).contains(g),
    decreases idx,
{
    if idx <= 0 {
    } else if live.contains(s[idx - 1]) {
        let p = s[idx - 1];
        let rest = teardown_run(s, idx - 1, remove_pair_all(live, p));
        lemma_remove_pair_all_properties(live, p);
        lemma_removed_hook_never_runs(s, idx - 1, remove_pair_all(live, p), g);
        if (seq![p] + rest).contains(g) {
            let w = choose|w: int| 0 <= w < 1 + rest.len() && (seq![p] + rest)[w] == g;
            if w == 0 {
                assert(p == g);
            } else {
                assert(rest[w - 1] == g);
                assert(rest.contains(g));
            }
            assert(false);
        }
    } else {
        lemma_removed_hook_never_runs(s, idx - 1, live, g);
    }
}

} // verus!
