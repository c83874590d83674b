//! The settlement ledger: balance accounting, escrow custody, and the
//! authority-gated mint. Every primitive is atomic — it either carries the
//! whole movement out or reports an error and leaves every balance as it was.

use vstd::prelude::*;
use std::collections::HashMap;
use crate::attestation::computation_verified;
use crate::attestation::verify_computation;
use crate::errors::ErrorCode;

verus! {

broadcast use vstd::std_specs::hash::group_hash_axioms;

/// The sub-ledger that owns all balances. `escrow` is the custody pot that
/// funds enter at task creation and leave exactly once, at completion or
/// failure; `authority` is the only identity allowed to issue new funds.
pub struct Ledger {
    /// The identity permitted to issue (mint) new funds.
    pub authority: u64,
    /// The funds currently held in custody for open and assigned tasks.
    pub escrow: u64,
    /// The balance of each account that ever received funds.
    pub balances: HashMap<u64, u64>,
}

impl Ledger {
    /// The balance the ledger holds for an account; an account never touched
    /// holds zero.
    pub open spec fn balance_spec(self, account: u64) -> u64 {
        if self.balances@.contains_key(account) {
            self.balances@[account]
        } else {
            0
        }
    }

    /// Creates the ledger for one deployment: the given issuing authority, no
    /// balances, nothing in custody.
    pub fn initialize(authority: u64) -> (l: Ledger)
        ensures
            l.authority == authority,
            l.escrow == 0,
            forall|a: u64| l.balance_spec(a) == 0,
    {
        Ledger { authority, escrow: 0, balances: HashMap::new() }
    }

    /// Reads an account's balance.
    pub fn balance_of(&self, account: u64) -> (r: u64)
        ensures
            r == self.balance_spec(account),
    {
        match self.balances.get(&account) {
            Some(b) => *b,
            None => 0,
        }
    }

    /// Adds `amount` to one account, failing only on balance overflow.
    fn credit(&mut self, account: u64, amount: u64) -> (ok: bool)
        ensures
            ok == (old(self).balance_spec(account) + amount <= u64::MAX),
            ok ==> final(self).balance_spec(account) == old(self).balance_spec(account) + amount,
            !ok ==> *final(self) == *old(self),
            forall|a: u64| a != account
                ==> final(self).balance_spec(a) == old(self).balance_spec(a),
            final(self).authority == old(self).authority,
            final(self).escrow == old(self).escrow,
    {
        let cur = self.balance_of(account);
        if cur <= u64::MAX - amount {
            self.balances.insert(account, cur + amount);
            true
        } else {
            false
        }
    }

    /// Takes `amount` out of one account, failing only on a short balance.
    fn debit(&mut self, account: u64, amount: u64) -> (ok: bool)
        ensures
            ok == (amount <= old(self).balance_spec(account)),
            ok ==> final(self).balance_spec(account) == old(self).balance_spec(account) - amount,
            !ok ==> *final(self) == *old(self),
            forall|a: u64| a != account
                ==> final(self).balance_spec(a) == old(self).balance_spec(a),
            final(self).authority == old(self).authority,
            final(self).escrow == old(self).escrow,
    {
        let cur = self.balance_of(account);
        if amount <= cur {
            self.balances.insert(account, cur - amount);
            true
        } else {
            false
        }
    }

    /// Books funds arriving from outside the ledger (the calling layer's
    /// transfer-in edge) into an account.
    pub fn deposit(&mut self, account: u64, amount: u64) -> (r: Result<(), ErrorCode>)
        ensures
            r is Ok <==> old(self).balance_spec(account) + amount <= u64::MAX,
            r is Ok ==> final(self).balance_spec(account) == old(self).balance_spec(account)
                + amount,
            r is Err ==> *final(self) == *old(self) && r == Err::<(), ErrorCode>(
                ErrorCode::InsufficientReward,
            ),
            forall|a: u64| a != account
                ==> final(self).balance_spec(a) == old(self).balance_spec(a),
            final(self).authority == old(self).authority,
            final(self).escrow == old(self).escrow,
    {
        if self.credit(account, amount) {
            Ok(())
        } else {
            Err(ErrorCode::InsufficientReward)
        }
    }

    /// Moves `amount` from `from`'s balance into escrow custody, atomically:
    /// it fails — with the ledger untouched — exactly when the balance is
    /// short or the custody pot would overflow.
    pub fn hold(&mut self, from: u64, amount: u64) -> (r: Result<(), ErrorCode>)
        ensures
            r is Ok <==> (amount <= old(self).balance_spec(from) && old(self).escrow + amount
                <= u64::MAX),
            r is Ok ==> final(self).escrow == old(self).escrow + amount
                && final(self).balance_spec(from) == old(self).balance_spec(from) - amount,
            r is Err ==> *final(self) == *old(self) && r == Err::<(), ErrorCode>(
                ErrorCode::InsufficientReward,
            ),
            forall|a: u64| a != from ==> final(self).balance_spec(a) == old(self).balance_spec(a),
            final(self).authority == old(self).authority,
    {
        if self.escrow > u64::MAX - amount {
            return Err(ErrorCode::InsufficientReward);
        }
        if !self.debit(from, amount) {
            return Err(ErrorCode::InsufficientReward);
        }
        self.escrow = self.escrow + amount;
        Ok(())
    }

    /// Moves `amount` out of escrow custody into `to`'s balance, atomically:
    /// it fails — with the ledger untouched — exactly when custody holds less
    /// than `amount` or the receiving balance would overflow.
    pub fn release(&mut self, to: u64, amount: u64) -> (r: Result<(), ErrorCode>)
        ensures
            r is Ok <==> (amount <= old(self).escrow && old(self).balance_spec(to) + amount
                <= u64::MAX),
            r is Ok ==> final(self).escrow == old(self).escrow - amount
                && final(self).balance_spec(to) == old(self).balance_spec(to) + amount,
            r is Err ==> *final(self) == *old(self) && r == Err::<(), ErrorCode>(
                ErrorCode::InsufficientReward,
            ),
            forall|a: u64| a != to ==> final(self).balance_spec(a) == old(self).balance_spec(a),
            final(self).authority == old(self).authority,
    {
        if amount > self.escrow {
            return Err(ErrorCode::InsufficientReward);
        }
        if !self.credit(to, amount) {
            return Err(ErrorCode::InsufficientReward);
        }
        self.escrow = self.escrow - amount;
        Ok(())
    }

    /// Issues (mints) `amount` of new funds to `to`. Only the ledger's
    /// authority may issue; custody is untouched.
    pub fn issue(&mut self, caller: u64, to: u64, amount: u64) -> (r: Result<(), ErrorCode>)
        ensures
            r is Ok <==> (caller == old(self).authority && old(self).balance_spec(to) + amount
                <= u64::MAX),
            r is Ok ==> final(self).balance_spec(to) == old(self).balance_spec(to) + amount,
            caller != old(self).authority ==> r == Err::<(), ErrorCode>(ErrorCode::Unauthorized),
            caller == old(self).authority && old(self).balance_spec(to) + amount > u64::MAX
                ==> r == Err::<(), ErrorCode>(ErrorCode::InsufficientReward),
            r is Err ==> *final(self) == *old(self),
            forall|a: u64| a != to ==> final(self).balance_spec(a) == old(self).balance_spec(a),
            final(self).authority == old(self).authority,
            final(self).escrow == old(self).escrow,
    {
        if caller != self.authority {
            return Err(ErrorCode::Unauthorized);
        }
        if self.credit(to, amount) {
            Ok(())
        } else {
            Err(ErrorCode::InsufficientReward)
        }
    }

    /// Mints a reward to a worker against a compute proof: the standalone
    /// reward path of the token program. The proof is checked first, before
    /// any mutation; a rejected proof mints nothing.
    pub fn mint_reward(
        &mut self,
        caller: u64,
        to: u64,
        amount: u64,
        compute_proof: &Vec<u8>,
        result_bytes: &Vec<u8>,
        requirements: &Vec<u8>,
    ) -> (r: Result<(), ErrorCode>)
        ensures
            r is Ok <==> (computation_verified(compute_proof@, result_bytes@, requirements@)
                && caller == old(self).authority && old(self).balance_spec(to) + amount
                <= u64::MAX),
            r is Ok ==> final(self).balance_spec(to) == old(self).balance_spec(to) + amount,
            !computation_verified(compute_proof@, result_bytes@, requirements@) ==> r == Err::<
                (),
                ErrorCode,
            >(ErrorCode::InvalidComputeProof),
            computation_verified(compute_proof@, result_bytes@, requirements@) && caller != old(
                self,
            ).authority ==> r == Err::<(), ErrorCode>(ErrorCode::Unauthorized),
            r is Err ==> *final(self) == *old(self),
            forall|a: u64| a != to ==> final(self).balance_spec(a) == old(self).balance_spec(a),
            final(self).authority == old(self).authority,
            final(self).escrow == old(self).escrow,
    {
        if !verify_computation(compute_proof, result_bytes, requirements) {
            return Err(ErrorCode::InvalidComputeProof);
        }
        self.issue(caller, to, amount)
    }
}

} // verus!
