//! Funding sizing: how much a vault should hold to cover upcoming fees.
//!
//! Pure calculation, no I/O. All amounts are lamports (10^-9 of one unit of
//! the ledger's native token), so the arithmetic is exact. The safety buffer
//! guards against fee starvation from stale balance reads; the cap bounds the
//! blast radius of a compromised or buggy caller. Both are configuration
//! inputs, not constants.

use vstd::prelude::*;

verus! {

/// Sizes top-up deposits for a vault from forecasted transaction counts.
pub struct AutoDepositCalculator {
    /// Average fee one transaction is expected to cost, in lamports.
    pub avg_fee_lamports: u64,
    /// Safety buffer added on top of the forecasted cost, in lamports.
    pub buffer_lamports: u64,
    /// Upper bound on any single deposit, in lamports.
    pub max_cap_lamports: u64,
}

impl AutoDepositCalculator {
    /// What `tx_count` transactions are forecast to cost, plus the buffer.
    pub open spec fn spec_required(&self, tx_count: u64) -> int {
        tx_count * self.avg_fee_lamports + self.buffer_lamports
    }

    /// The deposit that brings `current_balance` up to the requirement,
    /// clamped to `[0, max_cap_lamports]`.
    pub open spec fn spec_optimal_deposit(&self, tx_count: u64, current_balance: u64) -> int {
        let shortfall = self.spec_required(tx_count) - current_balance;
        if shortfall <= 0 {
            0
        } else if shortfall >= self.max_cap_lamports {
            self.max_cap_lamports as int
        } else {
            shortfall
        }
    }

    pub fn new(avg_fee_lamports: u64, buffer_lamports: u64, max_cap_lamports: u64) -> (c: Self)
        ensures
            c.avg_fee_lamports == avg_fee_lamports,
            c.buffer_lamports == buffer_lamports,
            c.max_cap_lamports == max_cap_lamports,
    {
        AutoDepositCalculator { avg_fee_lamports, buffer_lamports, max_cap_lamports }
    }

    /// Forecasted fee spending for `tx_count` transactions, without the buffer.
    pub fn estimate_trading_cost(&self, tx_count: u64) -> (cost: u128)
        ensures
            cost == tx_count * self.avg_fee_lamports,
            cost <= (u64::MAX as u128) * (u64::MAX as u128),
    {
        let fee = self.avg_fee_lamports;
        assert((tx_count as u128) * (fee as u128) <= (u64::MAX as u128) * (u64::MAX as u128))
            by (nonlinear_arith)
            requires tx_count <= u64::MAX && fee <= u64::MAX,
        ;
        let cost: u128 = (tx_count as u128) * (fee as u128);
        cost
    }

    /// Forecasted fee spending plus the safety buffer.
    pub fn required_lamports(&self, tx_count: u64) -> (required: u128)
        ensures
            required == self.spec_required(tx_count),
    {
        let cost = self.estimate_trading_cost(tx_count);
        assert(cost + self.buffer_lamports < u128::MAX) by (nonlinear_arith)
            requires
                cost <= (u64::MAX as u128) * (u64::MAX as u128),
                self.buffer_lamports <= u64::MAX,
        ;
        cost + (self.buffer_lamports as u128)
    }

    /// The amount a top-up should transfer: the shortfall against the
    /// requirement, never negative and never above the cap.
    pub fn calculate_optimal_deposit(&self, tx_count: u64, current_balance: u64) -> (deposit: u64)
        ensures
            deposit == self.spec_optimal_deposit(tx_count, current_balance),
            deposit <= self.max_cap_lamports,
    {
        let required = self.required_lamports(tx_count);
        let balance = current_balance as u128;
        if required <= balance {
            0
        } else {
            let shortfall = required - balance;
            if shortfall >= self.max_cap_lamports as u128 {
                self.max_cap_lamports
            } else {
                shortfall as u64
            }
        }
    }

    /// Whether the monitor must trigger a top-up at all.
    pub fn needs_top_up(&self, tx_count: u64, current_balance: u64) -> (needed: bool)
        ensures
            needed == (self.spec_optimal_deposit(tx_count, current_balance) > 0),
    {
        self.calculate_optimal_deposit(tx_count, current_balance) > 0
    }
}

} // verus!
