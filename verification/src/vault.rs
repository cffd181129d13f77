//! The on-ledger vault authority, modelled as an explicit state machine.
//!
//! The ledger executes each instruction as an indivisible unit, so this type
//! is the single atomicity boundary: every instruction re-validates its own
//! preconditions and either rejects (leaving the account unchanged) or
//! applies its whole effect. Lamport movements are modelled as explicit
//! balance arguments and returned split amounts; every state change returns
//! an immutable event record for off-chain reconciliation.

use vstd::prelude::*;
use crate::errors::VaultError;
use crate::keys::{bytes_eq, is_wallet_key, spec_vault_address, derive_vault_address};

verus! {

/// Seconds a delegation stays usable after `approve_delegate`.
pub const DELEGATION_WINDOW_SECS: i64 = 3600;

/// Seconds of inactivity required before `cleanup_vault` may sweep.
pub const CLEANUP_INACTIVITY_SECS: i64 = 3600;

/// Divisor giving the cleaner's incentive share of a swept balance.
pub const CLEANER_REWARD_DIVISOR: u64 = 100;

/// Emitted when a vault account is initialised.
#[derive(Debug)]
pub struct VaultCreated {
    pub user: Vec<u8>,
    pub vault_pda: Vec<u8>,
    pub approved_amount: u64,
    pub timestamp: i64,
}

/// Emitted when the owner grants a delegate spending authority.
#[derive(Debug)]
pub struct DelegateApproved {
    pub user: Vec<u8>,
    pub vault_pda: Vec<u8>,
    pub delegate: Vec<u8>,
    pub timestamp: i64,
}

/// Emitted when the owner tops the vault up.
#[derive(Debug)]
pub struct AutoDepositEvent {
    pub user: Vec<u8>,
    pub vault_pda: Vec<u8>,
    pub amount: u64,
    pub total_deposited: u64,
    pub timestamp: i64,
}

/// Emitted when the delegate spends from the vault.
#[derive(Debug)]
pub struct TradeExecuted {
    pub delegate: Vec<u8>,
    pub vault_pda: Vec<u8>,
    pub trade_fee: u64,
    pub trade_amount: u64,
    pub timestamp: i64,
}

/// Emitted when the owner revokes delegated access.
#[derive(Debug)]
pub struct AccessRevoked {
    pub user: Vec<u8>,
    pub vault_pda: Vec<u8>,
    pub timestamp: i64,
}

/// Emitted when an expired, inactive vault is swept.
#[derive(Debug)]
pub struct VaultCleaned {
    pub cleaner: Vec<u8>,
    pub user_wallet: Vec<u8>,
    pub vault_pda: Vec<u8>,
    pub timestamp: i64,
}

/// How a swept balance is split between the owner and the caller that
/// performed the sweep.
#[derive(Debug)]
pub struct SweepSplit {
    pub to_owner: u64,
    pub to_cleaner: u64,
}

/// The authoritative per-user vault account.
#[derive(Debug)]
pub struct EphemeralVault {
    pub user_wallet: Vec<u8>,
    pub vault_pda: Vec<u8>,
    pub created_at: i64,
    pub last_activity: i64,
    pub approved_amount: u64,
    pub used_amount: u64,
    pub available_amount: u64,
    pub delegate_wallet: Option<Vec<u8>>,
    pub delegated_at: Option<i64>,
    pub total_deposited: u64,
    pub is_active: bool,
    pub bump: u8,
}

impl EphemeralVault {
    /// Structural invariant of a vault account: the address is derived from
    /// the owner, cumulative deposits never pass the approved cap, spendable
    /// funds never pass what was deposited, and timestamps are unix seconds.
    pub open spec fn wf(&self) -> bool {
        &&& is_wallet_key(self.user_wallet@)
        &&& self.vault_pda@ == spec_vault_address(self.user_wallet@)
        &&& self.total_deposited <= self.approved_amount
        &&& self.available_amount <= self.total_deposited
        &&& 0 <= self.created_at
        &&& 0 <= self.last_activity
        &&& match self.delegate_wallet {
            Option::Some(d) => is_wallet_key(d@),
            Option::None => true,
        }
        &&& match self.delegated_at {
            Option::Some(t) => 0 <= t,
            Option::None => true,
        }
    }

    /// The delegate recorded on the vault, as bytes, if any.
    pub open spec fn spec_delegate(&self) -> Option<Seq<u8>> {
        match self.delegate_wallet {
            Option::Some(d) => Option::Some(d@),
            Option::None => Option::None,
        }
    }

    /// Initialise a vault account for `user`, deterministically addressed.
    /// All counters start at zero and the vault starts active.
    pub fn create_ephemeral_vault(user: Vec<u8>, approved_amount: u64, now: i64, bump: u8)
        -> (r: (EphemeralVault, VaultCreated))
        requires
            is_wallet_key(user@),
            0 <= now,
        ensures
            r.0.wf(),
            r.0.user_wallet@ == user@,
            r.0.vault_pda@ == spec_vault_address(user@),
            r.0.created_at == now,
            r.0.last_activity == now,
            r.0.approved_amount == approved_amount,
            r.0.used_amount == 0,
            r.0.available_amount == 0,
            r.0.total_deposited == 0,
            r.0.delegate_wallet is None,
            r.0.delegated_at is None,
            r.0.is_active,
            r.0.bump == bump,
            r.1.user@ == user@,
            r.1.vault_pda@ == spec_vault_address(user@),
            r.1.approved_amount == approved_amount,
            r.1.timestamp == now,
    {
        let vault_pda = derive_vault_address(&user);
        let event = VaultCreated {
            user: user.clone(),
            vault_pda: vault_pda.clone(),
            approved_amount,
            timestamp: now,
        };
        let vault = EphemeralVault {
            user_wallet: user,
            vault_pda,
            created_at: now,
            last_activity: now,
            approved_amount,
            used_amount: 0,
            available_amount: 0,
            delegate_wallet: Option::None,
            delegated_at: Option::None,
            total_deposited: 0,
            is_active: true,
            bump,
        };
        (vault, event)
    }

    /// Record `delegate` as the vault's spender. Only the owner may call.
    pub fn approve_delegate(&mut self, caller: &Vec<u8>, delegate: Vec<u8>, now: i64)
        -> (r: Result<DelegateApproved, VaultError>)
        requires
            old(self).wf(),
            is_wallet_key(delegate@),
            0 <= now,
        ensures
            final(self).wf(),
            final(self).used_amount >= old(self).used_amount,
            final(self).total_deposited >= old(self).total_deposited,
            r is Ok <==> caller@ == old(self).user_wallet@,
            r is Err ==> *final(self) == *old(self) && (r matches Err(e) && e == VaultError::Unauthorized),
            r is Ok ==> {
                &&& final(self).spec_delegate() == Option::Some(delegate@)
                &&& final(self).delegated_at == Option::Some(now)
                &&& final(self).last_activity == now
                &&& final(self).user_wallet == old(self).user_wallet
                &&& final(self).vault_pda == old(self).vault_pda
                &&& final(self).created_at == old(self).created_at
                &&& final(self).approved_amount == old(self).approved_amount
                &&& final(self).used_amount == old(self).used_amount
                &&& final(self).available_amount == old(self).available_amount
                &&& final(self).total_deposited == old(self).total_deposited
                &&& final(self).is_active == old(self).is_active
                &&& final(self).bump == old(self).bump
            },
            r matches Ok(ev) ==> {
                &&& ev.user@ == old(self).user_wallet@
                &&& ev.vault_pda@ == old(self).vault_pda@
                &&& ev.delegate@ == delegate@
                &&& ev.timestamp == now
            },
    {
        if !bytes_eq(caller, &self.user_wallet) {
            return Result::Err(VaultError::Unauthorized);
        }
        let event = DelegateApproved {
            user: self.user_wallet.clone(),
            vault_pda: self.vault_pda.clone(),
            delegate: delegate.clone(),
            timestamp: now,
        };
        self.delegate_wallet = Option::Some(delegate);
        self.delegated_at = Option::Some(now);
        self.last_activity = now;
        Result::Ok(event)
    }

    /// Whether a deposit of `amount` by `caller` would be accepted.
    pub open spec fn spec_deposit_allowed(&self, caller: Seq<u8>, amount: u64) -> bool {
        &&& caller == self.user_wallet@
        &&& self.total_deposited + amount <= self.approved_amount
    }

    /// Top the vault up by `amount`. Only the owner may call; a deposit that
    /// would push `total_deposited` past `approved_amount` is rejected with
    /// `OverDeposit` and leaves the account unchanged.
    pub fn auto_deposit_for_trade(&mut self, caller: &Vec<u8>, amount: u64, now: i64)
        -> (r: Result<AutoDepositEvent, VaultError>)
        requires
            old(self).wf(),
            0 <= now,
        ensures
            final(self).wf(),
            r is Ok <==> old(self).spec_deposit_allowed(caller@, amount),
            r is Err ==> *final(self) == *old(self),
            r matches Err(e) ==> (if caller@ != old(self).user_wallet@ {
                e == VaultError::Unauthorized
            } else {
                e == VaultError::OverDeposit
            }),
            r is Ok ==> {
                &&& final(self).total_deposited == old(self).total_deposited + amount
                &&& final(self).available_amount == old(self).available_amount + amount
                &&& final(self).last_activity == now
                &&& final(self).user_wallet == old(self).user_wallet
                &&& final(self).vault_pda == old(self).vault_pda
                &&& final(self).created_at == old(self).created_at
                &&& final(self).approved_amount == old(self).approved_amount
                &&& final(self).used_amount == old(self).used_amount
                &&& final(self).delegate_wallet == old(self).delegate_wallet
                &&& final(self).delegated_at == old(self).delegated_at
                &&& final(self).is_active == old(self).is_active
            },
            final(self).total_deposited <= final(self).approved_amount,
            final(self).used_amount >= old(self).used_amount,
            final(self).total_deposited >= old(self).total_deposited,
            *final(self) == old(self).spec_after_deposit(caller@, amount, now),
            r matches Ok(ev) ==> {
                &&& ev.user@ == old(self).user_wallet@
                &&& ev.vault_pda@ == old(self).vault_pda@
                &&& ev.amount == amount
                &&& ev.total_deposited == final(self).total_deposited
                &&& ev.timestamp == now
            },
    {
        if !bytes_eq(caller, &self.user_wallet) {
            return Result::Err(VaultError::Unauthorized);
        }
        if amount > self.approved_amount - self.total_deposited {
            return Result::Err(VaultError::OverDeposit);
        }
        self.total_deposited = self.total_deposited + amount;
        self.available_amount = self.available_amount + amount;
        self.last_activity = now;
        let event = AutoDepositEvent {
            user: self.user_wallet.clone(),
            vault_pda: self.vault_pda.clone(),
            amount,
            total_deposited: self.total_deposited,
            timestamp: now,
        };
        Result::Ok(event)
    }

    /// The state after one `auto_deposit_for_trade` call: the full effect
    /// when the deposit is allowed, the unchanged account when it is
    /// rejected.
    pub open spec fn spec_after_deposit(self, caller: Seq<u8>, amount: u64, now: i64)
        -> EphemeralVault
    {
        if self.spec_deposit_allowed(caller, amount) {
            EphemeralVault {
                total_deposited: (self.total_deposited + amount) as u64,
                available_amount: (self.available_amount + amount) as u64,
                last_activity: now,
                ..self
            }
        } else {
            self
        }
    }

    /// The state after a whole sequence of `auto_deposit_for_trade` calls,
    /// each given as (caller, amount, now).
    pub open spec fn spec_apply_deposits(self, calls: Seq<(Seq<u8>, u64, i64)>) -> EphemeralVault
        decreases calls.len(),
    {
        if calls.len() == 0 {
            self
        } else {
            self.spec_after_deposit(calls[0].0, calls[0].1, calls[0].2)
                .spec_apply_deposits(calls.drop_first())
        }
    }

    /// Law: however many deposits are attempted, in whatever order and by
    /// whomever, `total_deposited` never exceeds `approved_amount`; the
    /// attempts that would exceed it leave the account unchanged.
    pub proof fn lemma_deposit_cap(self, calls: Seq<(Seq<u8>, u64, i64)>)
        requires
            self.total_deposited <= self.approved_amount,
        ensures
            self.spec_apply_deposits(calls).total_deposited
                <= self.spec_apply_deposits(calls).approved_amount,
        decreases calls.len(),
    {
        if calls.len() > 0 {
            let next = self.spec_after_deposit(calls[0].0, calls[0].1, calls[0].2);
            next.lemma_deposit_cap(calls.drop_first());
        }
    }

    /// The rejection, if any, that a trade by `caller` would meet, in the
    /// order the authority checks its preconditions.
    pub open spec fn spec_trade_rejection(&self, caller: Seq<u8>, trade_fee: u64, now: i64)
        -> Option<VaultError>
    {
        if !self.is_active {
            Option::Some(VaultError::VaultInactive)
        } else if self.spec_delegate() != Option::Some(caller) {
            Option::Some(VaultError::Unauthorized)
        } else if match self.delegated_at {
            Option::Some(t) => now - t >= DELEGATION_WINDOW_SECS,
            Option::None => false,
        } {
            Option::Some(VaultError::SessionExpired)
        } else if self.available_amount < trade_fee {
            Option::Some(VaultError::InsufficientFunds)
        } else {
            Option::None
        }
    }

    /// Spend `trade_fee` from the vault on behalf of a trade moving
    /// `trade_amount`. Only the current delegate may call, only while the
    /// vault is active and the delegation window has not elapsed, and only
    /// when the vault still holds the fee.
    pub fn execute_trade(&mut self, caller: &Vec<u8>, trade_fee: u64, trade_amount: u64, now: i64)
        -> (r: Result<TradeExecuted, VaultError>)
        requires
            old(self).wf(),
            0 <= now,
        ensures
            final(self).wf(),
            r is Ok <==> old(self).spec_trade_rejection(caller@, trade_fee, now) is None,
            r matches Err(e) ==>
                *final(self) == *old(self)
                && old(self).spec_trade_rejection(caller@, trade_fee, now) == Option::Some(e),
            r is Ok ==> {
                &&& final(self).available_amount == old(self).available_amount - trade_fee
                &&& final(self).used_amount ==
                    (if old(self).used_amount + trade_amount <= u64::MAX {
                        old(self).used_amount + trade_amount
                    } else {
                        u64::MAX as int
                    })
                &&& final(self).last_activity == now
                &&& final(self).user_wallet == old(self).user_wallet
                &&& final(self).vault_pda == old(self).vault_pda
                &&& final(self).created_at == old(self).created_at
                &&& final(self).approved_amount == old(self).approved_amount
                &&& final(self).total_deposited == old(self).total_deposited
                &&& final(self).delegate_wallet == old(self).delegate_wallet
                &&& final(self).delegated_at == old(self).delegated_at
                &&& final(self).is_active == old(self).is_active
                &&& final(self).bump == old(self).bump
            },
            final(self).used_amount >= old(self).used_amount,
            final(self).total_deposited >= old(self).total_deposited,
            r matches Ok(ev) ==> {
                &&& ev.delegate@ == caller@
                &&& ev.vault_pda@ == old(self).vault_pda@
                &&& ev.trade_fee == trade_fee
                &&& ev.trade_amount == trade_amount
                &&& ev.timestamp == now
            },
    {
        if !self.is_active {
            return Result::Err(VaultError::VaultInactive);
        }
        let authorized = match &self.delegate_wallet {
            Option::Some(d) => bytes_eq(caller, d),
            Option::None => false,
        };
        if !authorized {
            return Result::Err(VaultError::Unauthorized);
        }
        match self.delegated_at {
            Option::Some(t) => {
                if now - t >= DELEGATION_WINDOW_SECS {
                    return Result::Err(VaultError::SessionExpired);
                }
            },
            Option::None => {},
        }
        if self.available_amount < trade_fee {
            return Result::Err(VaultError::InsufficientFunds);
        }
        self.available_amount = self.available_amount - trade_fee;
        self.used_amount = self.used_amount.saturating_add(trade_amount);
        self.last_activity = now;
        let event = TradeExecuted {
            delegate: caller.clone(),
            vault_pda: self.vault_pda.clone(),
            trade_fee,
            trade_amount,
            timestamp: now,
        };
        Result::Ok(event)
    }

    /// Clear the delegation, return the balance above the rent-exempt
    /// minimum to the owner, and deactivate the vault. Only the owner may
    /// call. Returns the lamports handed back to the owner.
    pub fn revoke_access(&mut self, caller: &Vec<u8>, now: i64, vault_lamports: u64, rent_exempt: u64)
        -> (r: Result<(AccessRevoked, u64), VaultError>)
        requires
            old(self).wf(),
            0 <= now,
        ensures
            final(self).wf(),
            final(self).used_amount >= old(self).used_amount,
            final(self).total_deposited >= old(self).total_deposited,
            r is Ok <==> caller@ == old(self).user_wallet@,
            r is Err ==> *final(self) == *old(self) && (r matches Err(e) && e == VaultError::Unauthorized),
            r is Ok ==> {
                &&& final(self).delegate_wallet is None
                &&& final(self).delegated_at is None
                &&& !final(self).is_active
                &&& final(self).last_activity == now
                &&& final(self).user_wallet == old(self).user_wallet
                &&& final(self).vault_pda == old(self).vault_pda
                &&& final(self).created_at == old(self).created_at
                &&& final(self).approved_amount == old(self).approved_amount
                &&& final(self).used_amount == old(self).used_amount
                &&& final(self).available_amount == old(self).available_amount
                &&& final(self).total_deposited == old(self).total_deposited
                &&& final(self).bump == old(self).bump
            },
            r matches Ok(ok) ==> {
                &&& ok.1 == (if vault_lamports > rent_exempt { vault_lamports - rent_exempt } else { 0int })
                &&& ok.0.user@ == old(self).user_wallet@
                &&& ok.0.vault_pda@ == old(self).vault_pda@
                &&& ok.0.timestamp == now
            },
    {
        if !bytes_eq(caller, &self.user_wallet) {
            return Result::Err(VaultError::Unauthorized);
        }
        self.delegate_wallet = Option::None;
        self.delegated_at = Option::None;
        let returned: u64 = if vault_lamports > rent_exempt {
            vault_lamports - rent_exempt
        } else {
            0
        };
        self.is_active = false;
        self.last_activity = now;
        let event = AccessRevoked {
            user: self.user_wallet.clone(),
            vault_pda: self.vault_pda.clone(),
            timestamp: now,
        };
        Result::Ok((event, returned))
    }

    /// Mark the vault active again. Only the owner may call.
    pub fn reactivate_vault(&mut self, caller: &Vec<u8>, now: i64) -> (r: Result<(), VaultError>)
        requires
            old(self).wf(),
            0 <= now,
        ensures
            final(self).wf(),
            final(self).used_amount >= old(self).used_amount,
            final(self).total_deposited >= old(self).total_deposited,
            r is Ok <==> caller@ == old(self).user_wallet@,
            r is Err ==> *final(self) == *old(self) && (r matches Err(e) && e == VaultError::Unauthorized),
            r is Ok ==> {
                &&& final(self).is_active
                &&& final(self).last_activity == now
                &&& final(self).user_wallet == old(self).user_wallet
                &&& final(self).vault_pda == old(self).vault_pda
                &&& final(self).created_at == old(self).created_at
                &&& final(self).approved_amount == old(self).approved_amount
                &&& final(self).used_amount == old(self).used_amount
                &&& final(self).available_amount == old(self).available_amount
                &&& final(self).delegate_wallet == old(self).delegate_wallet
                &&& final(self).delegated_at == old(self).delegated_at
                &&& final(self).total_deposited == old(self).total_deposited
                &&& final(self).bump == old(self).bump
            },
    {
        if !bytes_eq(caller, &self.user_wallet) {
            return Result::Err(VaultError::Unauthorized);
        }
        self.is_active = true;
        self.last_activity = now;
        Result::Ok(())
    }

    /// The moment the inactivity clock for cleanup starts: the delegation
    /// time if one was recorded, the last activity otherwise.
    pub open spec fn spec_inactivity_start(&self) -> i64 {
        match self.delegated_at {
            Option::Some(t) => t,
            Option::None => self.last_activity,
        }
    }

    /// The rejection, if any, that a cleanup attempt would meet.
    pub open spec fn spec_cleanup_rejection(&self, now: i64) -> Option<VaultError> {
        if self.is_active {
            Option::Some(VaultError::VaultInactive)
        } else if now - self.spec_inactivity_start() <= CLEANUP_INACTIVITY_SECS {
            Option::Some(VaultError::SessionNotExpired)
        } else {
            Option::None
        }
    }

    /// Sweep a deactivated, long-inactive vault. Any caller may invoke it;
    /// the balance above the rent-exempt minimum is split between the owner
    /// and the cleaner as an incentive. Fails with `VaultInactive` on a
    /// still-active vault and with `SessionNotExpired` before the
    /// inactivity threshold has elapsed.
    pub fn cleanup_vault(&mut self, cleaner: &Vec<u8>, now: i64, vault_lamports: u64, rent_exempt: u64)
        -> (r: Result<(VaultCleaned, SweepSplit), VaultError>)
        requires
            old(self).wf(),
            0 <= now,
        ensures
            final(self).wf(),
            final(self).used_amount >= old(self).used_amount,
            final(self).total_deposited >= old(self).total_deposited,
            r is Ok <==> old(self).spec_cleanup_rejection(now) is None,
            r matches Err(e) ==>
                *final(self) == *old(self)
                && old(self).spec_cleanup_rejection(now) == Option::Some(e),
            r is Ok ==> {
                &&& !final(self).is_active
                &&& final(self).user_wallet == old(self).user_wallet
                &&& final(self).vault_pda == old(self).vault_pda
                &&& final(self).created_at == old(self).created_at
                &&& final(self).last_activity == old(self).last_activity
                &&& final(self).approved_amount == old(self).approved_amount
                &&& final(self).used_amount == old(self).used_amount
                &&& final(self).available_amount == old(self).available_amount
                &&& final(self).delegate_wallet == old(self).delegate_wallet
                &&& final(self).delegated_at == old(self).delegated_at
                &&& final(self).total_deposited == old(self).total_deposited
                &&& final(self).bump == old(self).bump
            },
            r matches Ok(ok) ==> {
                &&& ok.1.to_cleaner ==
                    (if vault_lamports > rent_exempt { vault_lamports - rent_exempt } else { 0int })
                        / CLEANER_REWARD_DIVISOR as int
                &&& ok.1.to_owner + ok.1.to_cleaner ==
                    (if vault_lamports > rent_exempt { vault_lamports - rent_exempt } else { 0int })
                &&& ok.0.cleaner@ == cleaner@
                &&& ok.0.user_wallet@ == old(self).user_wallet@
                &&& ok.0.vault_pda@ == old(self).vault_pda@
                &&& ok.0.timestamp == now
            },
    {
        if self.is_active {
            return Result::Err(VaultError::VaultInactive);
        }
        let start = match self.delegated_at {
            Option::Some(t) => t,
            Option::None => self.last_activity,
        };
        if now - start <= CLEANUP_INACTIVITY_SECS {
            return Result::Err(VaultError::SessionNotExpired);
        }
        let available: u64 = if vault_lamports > rent_exempt {
            vault_lamports - rent_exempt
        } else {
            0
        };
        let reward = available / CLEANER_REWARD_DIVISOR;
        let to_owner = available - reward;
        let event = VaultCleaned {
            cleaner: cleaner.clone(),
            user_wallet: self.user_wallet.clone(),
            vault_pda: self.vault_pda.clone(),
            timestamp: now,
        };
        Result::Ok((event, SweepSplit { to_owner, to_cleaner: reward }))
    }
}

} // verus!
