//! The background monitor's sweep, as a pure planning step.
//!
//! Each tick the driver hands the monitor a snapshot of the active sessions
//! and their on-ledger balances; the monitor answers with the top-ups to
//! submit and the sessions to clean up. The plan is a function of the
//! snapshot and the clock alone, so an expired session is flagged exactly
//! once per tick and again on every later tick until a cleanup finally
//! lands — one session's cleanup failure never blocks the others.

use vstd::prelude::*;
use crate::funding::AutoDepositCalculator;

verus! {

/// What the monitor knows of one session when it plans a tick.
#[derive(Clone, Copy, Debug, PartialEq, Eq, Structural)]
pub struct SessionSummary {
    pub id: u128,
    pub active: bool,
    pub expires_at: i64,
    /// The vault's balance as last read from the ledger, in lamports.
    pub vault_balance: u64,
    /// Forecasted number of transactions until the next tick.
    pub forecast_tx_count: u64,
}

/// One top-up the driver must submit: a parent-to-vault transfer.
#[derive(Clone, Copy, Debug, PartialEq, Eq, Structural)]
pub struct TopUpAction {
    pub session_id: u128,
    pub amount: u64,
}

/// Everything one tick asks the driver to do.
pub struct TickPlan {
    pub top_ups: Vec<TopUpAction>,
    pub cleanups: Vec<u128>,
}

/// Whether the monitor must flag `s` for cleanup at time `now`.
pub open spec fn spec_needs_cleanup(s: SessionSummary, now: i64) -> bool {
    s.active && s.expires_at <= now
}

/// Whether the monitor must top `s` up, and by how much.
pub open spec fn spec_top_up_amount(calc: AutoDepositCalculator, s: SessionSummary) -> int {
    calc.spec_optimal_deposit(s.forecast_tx_count, s.vault_balance)
}

/// The session identifiers a tick flags for cleanup, in snapshot order.
pub open spec fn spec_cleanup_ids(s: Seq<SessionSummary>, now: i64) -> Seq<u128>
    decreases s.len(),
{
    if s.len() == 0 {
        Seq::empty()
    } else {
        let rest = spec_cleanup_ids(s.drop_first(), now);
        if spec_needs_cleanup(s[0], now) {
            seq![s[0].id] + rest
        } else {
            rest
        }
    }
}

/// The top-ups a tick triggers, in snapshot order: one per active session
/// whose optimal deposit is positive.
pub open spec fn spec_top_ups(calc: AutoDepositCalculator, s: Seq<SessionSummary>) -> Seq<
    TopUpAction,
>
    decreases s.len(),
{
    if s.len() == 0 {
        Seq::empty()
    } else {
        let rest = spec_top_ups(calc, s.drop_first());
        if s[0].active && spec_top_up_amount(calc, s[0]) > 0 {
            seq![TopUpAction { session_id: s[0].id, amount: spec_top_up_amount(calc, s[0]) as u64 }]
                + rest
        } else {
            rest
        }
    }
}

/// Appending a snapshot row extends the flagged identifiers on the right.
pub proof fn lemma_cleanup_ids_push(s: Seq<SessionSummary>, x: SessionSummary, now: i64)
    ensures
        spec_cleanup_ids(s.push(x), now) == spec_cleanup_ids(s, now)
            + (if spec_needs_cleanup(x, now) { seq![x.id] } else { Seq::<u128>::empty() }),
    decreases s.len(),
{
    let pushed = s.push(x);
    let tail = (if spec_needs_cleanup(x, now) { seq![x.id] } else { Seq::<u128>::empty() });
    if s.len() == 0 {
        assert(pushed.drop_first() =~= Seq::<SessionSummary>::empty());
        assert(spec_cleanup_ids(Seq::<SessionSummary>::empty(), now) == Seq::<u128>::empty());
        assert(pushed[0] == x);
        assert(spec_cleanup_ids(pushed, now) =~= spec_cleanup_ids(s, now) + tail);
    } else {
        assert(pushed.drop_first() =~= s.drop_first().push(x));
        assert(pushed[0] == s[0]);
        lemma_cleanup_ids_push(s.drop_first(), x, now);
        assert(spec_cleanup_ids(pushed, now) =~= spec_cleanup_ids(s, now) + tail);
    }
}

/// Appending a snapshot row extends the triggered top-ups on the right.
pub proof fn lemma_top_ups_push(calc: AutoDepositCalculator, s: Seq<SessionSummary>, x: SessionSummary)
    ensures
        spec_top_ups(calc, s.push(x)) == spec_top_ups(calc, s)
            + (if x.active && spec_top_up_amount(calc, x) > 0 {
                seq![TopUpAction { session_id: x.id, amount: spec_top_up_amount(calc, x) as u64 }]
            } else {
                Seq::<TopUpAction>::empty()
            }),
    decreases s.len(),
{
    let pushed = s.push(x);
    let tail = (if x.active && spec_top_up_amount(calc, x) > 0 {
        seq![TopUpAction { session_id: x.id, amount: spec_top_up_amount(calc, x) as u64 }]
    } else {
        Seq::<TopUpAction>::empty()
    });
    if s.len() == 0 {
        assert(pushed.drop_first() =~= Seq::<SessionSummary>::empty());
        assert(spec_top_ups(calc, Seq::<SessionSummary>::empty()) == Seq::<TopUpAction>::empty());
        assert(pushed[0] == x);
        assert(spec_top_ups(calc, pushed) =~= spec_top_ups(calc, s) + tail);
    } else {
        assert(pushed.drop_first() =~= s.drop_first().push(x));
        assert(pushed[0] == s[0]);
        lemma_top_ups_push(calc, s.drop_first(), x);
        assert(spec_top_ups(calc, pushed) =~= spec_top_ups(calc, s) + tail);
    }
}

/// How often `id` occurs in a list of flagged identifiers.
pub open spec fn spec_count_matches(ids: Seq<u128>, id: u128) -> int
    decreases ids.len(),
{
    if ids.len() == 0 {
        0
    } else {
        (if ids[0] == id {
            1int
        } else {
            0int
        }) + spec_count_matches(ids.drop_first(), id)
    }
}

/// A one-element list counts one match or none.
pub proof fn lemma_count_matches_singleton(x: u128, id: u128)
    ensures
        spec_count_matches(seq![x], id) == (if x == id { 1int } else { 0int }),
{
    assert(seq![x].drop_first() =~= Seq::<u128>::empty());
    assert(spec_count_matches(Seq::<u128>::empty(), id) == 0);
}

/// Concatenation adds occurrence counts.
pub proof fn lemma_count_matches_add(a: Seq<u128>, b: Seq<u128>, id: u128)
    ensures
        spec_count_matches(a + b, id) == spec_count_matches(a, id) + spec_count_matches(b, id),
    decreases a.len(),
{
    if a.len() == 0 {
        assert(a + b =~= b);
    } else {
        assert((a + b).drop_first() =~= a.drop_first() + b);
        assert((a + b)[0] == a[0]);
        lemma_count_matches_add(a.drop_first(), b, id);
    }
}

/// An identifier no snapshot row carries is never flagged.
pub proof fn lemma_cleanup_ids_absent(s: Seq<SessionSummary>, now: i64, id: u128)
    requires
        forall|j: int| 0 <= j < s.len() ==> (#[trigger] s[j]).id != id,
    ensures
        spec_count_matches(spec_cleanup_ids(s, now), id) == 0,
    decreases s.len(),
{
    if s.len() > 0 {
        assert(forall|j: int|
            0 <= j < s.drop_first().len() ==> (#[trigger] s.drop_first()[j]).id != id);
        lemma_cleanup_ids_absent(s.drop_first(), now, id);
        if spec_needs_cleanup(s[0], now) {
            lemma_count_matches_add(seq![s[0].id], spec_cleanup_ids(s.drop_first(), now), id);
            lemma_count_matches_singleton(s[0].id, id);
        }
    }
}

/// Law: when the snapshot's identifiers are distinct, an expired active
/// session is flagged exactly once per tick — and, the plan being a
/// function of snapshot and clock alone, again on every later tick whose
/// snapshot still shows it active and expired.
pub proof fn lemma_expired_flagged_exactly_once(s: Seq<SessionSummary>, now: i64, k: int)
    requires
        forall|i: int, j: int|
            0 <= i < s.len() && 0 <= j < s.len() && i != j
                ==> (#[trigger] s[i]).id != (#[trigger] s[j]).id,
        0 <= k < s.len(),
        spec_needs_cleanup(s[k], now),
    ensures
        spec_count_matches(spec_cleanup_ids(s, now), s[k].id) == 1,
    decreases s.len(),
{
    let rest = s.drop_first();
    assert(forall|j: int| 0 <= j < rest.len() ==> rest[j] == (#[trigger] s[j + 1]));
    if k == 0 {
        assert(forall|j: int| 0 <= j < rest.len() ==> (#[trigger] rest[j]).id != s[0].id);
        lemma_cleanup_ids_absent(rest, now, s[0].id);
        lemma_count_matches_add(seq![s[0].id], spec_cleanup_ids(rest, now), s[0].id);
        lemma_count_matches_singleton(s[0].id, s[0].id);
    } else {
        assert(rest[k - 1] == s[k]);
        lemma_expired_flagged_exactly_once(rest, now, k - 1);
        if spec_needs_cleanup(s[0], now) {
            lemma_count_matches_add(seq![s[0].id], spec_cleanup_ids(rest, now), s[k].id);
            lemma_count_matches_singleton(s[0].id, s[k].id);
        }
    }
}

/// Plans each tick of the reclamation sweep.
pub struct VaultMonitor {
    /// Seconds between ticks; configuration for the driver, not used in
    /// planning.
    pub poll_interval_secs: u64,
    pub calc: AutoDepositCalculator,
}

impl VaultMonitor {
    pub fn new(poll_interval_secs: u64, calc: AutoDepositCalculator) -> (m: Self)
        ensures
            m.poll_interval_secs == poll_interval_secs,
            m.calc == calc,
    {
        VaultMonitor { poll_interval_secs, calc }
    }

    /// One tick's plan: a top-up for every active session whose optimal
    /// deposit is positive, and a cleanup flag for every active session
    /// past its expiry, both in snapshot order.
    pub fn plan_tick(&self, sessions: &Vec<SessionSummary>, now: i64) -> (plan: TickPlan)
        ensures
            plan.cleanups@ == spec_cleanup_ids(sessions@, now),
            plan.top_ups@ == spec_top_ups(self.calc, sessions@),
    {
        let mut top_ups: Vec<TopUpAction> = Vec::new();
        let mut cleanups: Vec<u128> = Vec::new();
        let n = sessions.len();
        let mut i: usize = 0;
        while i < n
            invariant
                n == sessions@.len(),
                i <= n,
                cleanups@ == spec_cleanup_ids(sessions@.subrange(0, i as int), now),
                top_ups@ == spec_top_ups(self.calc, sessions@.subrange(0, i as int)),
            decreases n - i,
        {
            let s = sessions[i];
            if s.active {
                let amount = self.calc.calculate_optimal_deposit(
                    s.forecast_tx_count,
                    s.vault_balance,
                );
                if amount > 0 {
                    top_ups.push(TopUpAction { session_id: s.id, amount });
                }
                if s.expires_at <= now {
                    cleanups.push(s.id);
                }
            }
            proof {
                let prefix = sessions@.subrange(0, i as int);
                lemma_cleanup_ids_push(prefix, sessions@[i as int], now);
                lemma_top_ups_push(self.calc, prefix, sessions@[i as int]);
                assert(prefix.push(sessions@[i as int]) =~= sessions@.subrange(0, i + 1 as int));
                assert(cleanups@ =~= spec_cleanup_ids(sessions@.subrange(0, i + 1 as int), now));
                assert(top_ups@ =~= spec_top_ups(self.calc, sessions@.subrange(0, i + 1 as int)));
            }
            i = i + 1;
        }
        proof {
            assert(sessions@.subrange(0, n as int) =~= sessions@);
        }
        TickPlan { top_ups, cleanups }
    }
}

} // verus!
