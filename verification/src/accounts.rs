//! The records that the vesting program keeps: one vesting account per
//! company, one treasury beside it, and one employee account per beneficiary
//! and vesting account.

use crate::address::Address;
use crate::schedule::{
    claim_outcome, claimable_amount, lemma_vested_bounded, vested_amount, ErrorCode,
};
use vstd::prelude::*;

verus! {

/// The longest company name, in bytes.
pub const MAX_COMPANY_NAME_LEN: usize = 50;

/// The record of a company that issues allocations. It is written once, when
/// the account is created, and never changed.
#[derive(Clone, Debug, PartialEq, Eq)]
pub struct VestingAccount {
    /// The issuer, who alone may grant allocations.
    pub owner: Address,
    /// The token type held in custody.
    pub mint: Address,
    /// The custody account that holds the locked tokens.
    pub treasury_token_account: Address,
    /// The name that the account's address is derived from.
    pub company_name: String,
    /// The bump seed of the treasury's address.
    pub treasury_bump: u8,
    /// The bump seed of the account's own address.
    pub bump: u8,
}

/// What a vesting account holds, with the company name as its characters.
pub struct VestingAccountView {
    pub owner: Address,
    pub mint: Address,
    pub treasury_token_account: Address,
    pub company_name: Seq<char>,
    pub treasury_bump: u8,
    pub bump: u8,
}

impl View for VestingAccount {
    type V = VestingAccountView;

    open spec fn view(&self) -> VestingAccountView {
        VestingAccountView {
            owner: self.owner,
            mint: self.mint,
            treasury_token_account: self.treasury_token_account,
            company_name: self.company_name@,
            treasury_bump: self.treasury_bump,
            bump: self.bump,
        }
    }
}

/// The custody account of a company. Its spending authority is its own
/// address, which no key controls: only the program can sign for it. The
/// balance is kept by the token ledger.
#[derive(Clone, Copy, Debug, PartialEq, Eq)]
pub struct TreasuryAccount {
    /// The token type held.
    pub mint: Address,
    /// Who may spend from the account.
    pub authority: Address,
}

/// The allocation of one beneficiary under one vesting account.
#[derive(Clone, Copy, Debug, PartialEq, Eq)]
pub struct EmployeeAccount {
    /// Who is entitled to the allocation.
    pub beneficiary: Address,
    /// When vesting starts, in seconds.
    pub start_time: i64,
    /// When the whole allocation has vested, in seconds.
    pub end_time: i64,
    /// The time before which nothing can be claimed, in seconds.
    pub cliff_time: i64,
    /// The vesting account that the allocation comes from.
    pub vesting_account: Address,
    /// The whole allocation, fixed at creation.
    pub total_amount: u64,
    /// What has been released so far.
    pub total_withdrawn: u64,
    /// The bump seed of the account's address.
    pub bump: u8,
}

impl VestingAccount {
    /// The record of a new vesting account.
    pub fn new(
        owner: Address,
        mint: Address,
        treasury_token_account: Address,
        company_name: String,
        treasury_bump: u8,
        bump: u8,
    ) -> (account: VestingAccount)
        ensures
            account@ == (VestingAccountView {
                owner,
                mint,
                treasury_token_account,
                company_name: company_name@,
                treasury_bump,
                bump,
            }),
    {
        VestingAccount { owner, mint, treasury_token_account, company_name, treasury_bump, bump }
    }
}

impl EmployeeAccount {
    /// Whether no more has been withdrawn than was allocated.
    pub open spec fn well_formed(&self) -> bool {
        self.total_withdrawn <= self.total_amount
    }

    /// The amount that has vested at `now`.
    pub open spec fn vested(&self, now: int) -> nat {
        vested_amount(self.start_time as int, self.end_time as int, self.total_amount as nat, now)
    }

    /// What a claim at `now` yields: the amount, or why there is none.
    pub open spec fn claim_outcome(&self, now: i64) -> Result<u64, ErrorCode> {
        claim_outcome(
            now,
            self.start_time,
            self.end_time,
            self.cliff_time,
            self.total_amount,
            self.total_withdrawn,
        )
    }

    /// The account after `amount` has been released from it.
    pub open spec fn after_claim(&self, amount: u64) -> EmployeeAccount {
        EmployeeAccount { total_withdrawn: (self.total_withdrawn + amount) as u64, ..*self }
    }

    /// The account after a claim at `now`: unchanged where the claim fails.
    pub open spec fn after_claim_at(&self, now: i64) -> EmployeeAccount {
        match self.claim_outcome(now) {
            Ok(amount) => self.after_claim(amount),
            Err(_) => *self,
        }
    }

    /// The record of a new allocation, of which nothing is withdrawn. The
    /// times are taken as they are given, in whatever order.
    pub fn new(
        beneficiary: Address,
        vesting_account: Address,
        start_time: i64,
        end_time: i64,
        total_amount: u64,
        cliff_time: i64,
        bump: u8,
    ) -> (account: EmployeeAccount)
        ensures
            account == (EmployeeAccount {
                beneficiary,
                start_time,
                end_time,
                cliff_time,
                vesting_account,
                total_amount,
                total_withdrawn: 0,
                bump,
            }),
            account.well_formed(),
    {
        EmployeeAccount {
            beneficiary,
            start_time,
            end_time,
            cliff_time,
            vesting_account,
            total_amount,
            total_withdrawn: 0,
            bump,
        }
    }

    /// The amount that the beneficiary can claim at `now`, or why there is
    /// none. The account is not changed.
    pub fn claimable(&self, now: i64) -> (outcome: Result<u64, ErrorCode>)
        ensures
            outcome == self.claim_outcome(now),
    {
        claimable_amount(
            now,
            self.start_time,
            self.end_time,
            self.cliff_time,
            self.total_amount,
            self.total_withdrawn,
        )
    }

    /// Claims at `now`: where something can be claimed, adds it to what was
    /// withdrawn and returns it; else returns the reason and leaves the
    /// account as it was.
    ///
    /// After a claim, what was withdrawn is exactly what has vested at `now`.
    pub fn claim(&mut self, now: i64) -> (outcome: Result<u64, ErrorCode>)
        ensures
            outcome == old(self).claim_outcome(now),
            *final(self) == old(self).after_claim_at(now),
            outcome is Err ==> *final(self) == *old(self),
            outcome matches Ok(amount) ==> {
                &&& amount > 0
                &&& final(self).total_withdrawn == old(self).total_withdrawn + amount
                &&& final(self).total_withdrawn == old(self).vested(now as int)
                &&& final(self).well_formed()
            },
    {
        let amount = claimable_amount(
            now,
            self.start_time,
            self.end_time,
            self.cliff_time,
            self.total_amount,
            self.total_withdrawn,
        )?;
        self.total_withdrawn = self.total_withdrawn + amount;
        Ok(amount)
    }
}

/// A successful claim releases a positive amount, raises what was withdrawn
/// by exactly that amount and to no more than has vested, and changes
/// nothing else.
pub proof fn lemma_claim_releases_what_vested(account: EmployeeAccount, now: i64)
    requires
        account.claim_outcome(now) is Ok,
    ensures
        ({
            let amount = account.claim_outcome(now)->Ok_0;
            let after = account.after_claim_at(now);
            &&& amount > 0
            &&& after.total_withdrawn == account.total_withdrawn + amount
            &&& after.total_withdrawn > account.total_withdrawn
            &&& after.total_withdrawn <= after.vested(now as int)
            &&& after.total_withdrawn <= after.total_amount
            &&& after == (EmployeeAccount { total_withdrawn: after.total_withdrawn, ..account })
        }),
{
    lemma_vested_bounded(
        account.start_time as int,
        account.end_time as int,
        account.total_amount as nat,
        now as int,
    );
}

/// A claim that follows a successful claim with no time between them finds
/// nothing to claim and leaves the account as the first claim left it.
pub proof fn lemma_repeated_claim_finds_nothing(account: EmployeeAccount, now: i64)
    requires
        account.claim_outcome(now) is Ok,
    ensures
        account.after_claim_at(now).claim_outcome(now) == Err::<u64, ErrorCode>(
            ErrorCode::NothingtoClaim,
        ),
        account.after_claim_at(now).after_claim_at(now) == account.after_claim_at(now),
{
    lemma_vested_bounded(
        account.start_time as int,
        account.end_time as int,
        account.total_amount as nat,
        now as int,
    );
}

/// What has been withdrawn never decreases, and a claim keeps an account
/// well formed.
pub proof fn lemma_withdrawn_never_decreases(account: EmployeeAccount, now: i64)
    ensures
        account.after_claim_at(now).total_withdrawn >= account.total_withdrawn,
        account.well_formed() ==> account.after_claim_at(now).well_formed(),
{
    lemma_vested_bounded(
        account.start_time as int,
        account.end_time as int,
        account.total_amount as nat,
        now as int,
    );
}

} // verus!
