//! Settling claims: a beneficiary claims what has vested of an allocation,
//! the amount is recorded as released, and the order to move it out of the
//! treasury is handed out.
//!
//! A request names the accounts it works on. They are confirmed against the
//! addresses that the seeds and the recorded bump seeds derive, and against
//! each other, before anything changes: a claim that fails leaves the
//! account space as it was.

use crate::accounts::{EmployeeAccount, VestingAccountView};
use crate::address::{
    created_program_address, employee_address, employee_seeds, treasury_address,
    treasury_seed_list, treasury_seeds, vesting_account_address, vesting_account_seeds, with_bump,
    Address,
};
use crate::error::VestingError;
use crate::ledger::{
    all_derived, consistent, employee_at, employee_consistent, employee_derived, vesting_at,
    vesting_consistent, vesting_derived, AccountView, Ledger,
};
use crate::schedule::ErrorCode;
use vstd::prelude::*;

verus! {

/// The accounts of a request to claim what has vested.
#[derive(Clone, Copy, Debug, PartialEq, Eq)]
pub struct ClaimTokens {
    /// The requester, who must be the beneficiary of the allocation.
    pub beneficiary: Address,
    /// The allocation to claim from.
    pub employee_account: Address,
    /// The vesting account that the allocation comes from.
    pub vesting_account: Address,
    /// The token type to move.
    pub mint: Address,
    /// The treasury to move the tokens out of.
    pub treasury_token_account: Address,
    /// The beneficiary's account, to move the tokens into.
    pub employee_token_account: Address,
}

/// The right to spend from a treasury: the seeds by which the program signs
/// for it. Only a claim that was settled hands one out.
#[derive(Debug)]
pub struct TreasuryAuthority {
    treasury: Address,
    seeds: Vec<Vec<u8>>,
}

impl TreasuryAuthority {
    /// The treasury that the authority is over.
    pub closed spec fn treasury(&self) -> Address {
        self.treasury
    }

    /// The seeds that derive the treasury's address, the bump seed last.
    pub closed spec fn seeds(&self) -> Seq<Seq<u8>> {
        self.seeds.deep_view()
    }

    /// The treasury that the authority is over.
    pub fn treasury_address(&self) -> (treasury: Address)
        ensures
            treasury == self.treasury(),
    {
        self.treasury
    }

    /// The seeds to sign with.
    pub fn signer_seeds(&self) -> (seeds: &Vec<Vec<u8>>)
        ensures
            seeds.deep_view() == self.seeds(),
    {
        &self.seeds
    }
}

/// The order to move tokens out of a treasury, for the token ledger to
/// carry out together with the claim that it settles.
#[derive(Debug)]
pub struct Transfer {
    /// The treasury that pays.
    pub from: Address,
    /// The token type moved.
    pub mint: Address,
    /// The account that receives.
    pub to: Address,
    /// The right to spend from the treasury.
    pub authority: TreasuryAuthority,
    /// How much is moved.
    pub amount: u64,
    /// The decimal precision of the token type, as the request gave it.
    pub decimals: u8,
}

/// The allocation that a claim works on, where the request names the right
/// accounts, and else why it does not.
///
/// Both accounts must exist. The employee account must be the one derived
/// for the beneficiary and the vesting account named, must entitle the
/// requester, and must belong to the vesting account named. The vesting
/// account must be the one derived from the company name, and must refer to
/// the treasury and the token type named.
pub open spec fn confirmed_accounts(
    accounts: Map<Address, AccountView>,
    ctx: ClaimTokens,
    employee_pda: Option<Address>,
    vesting_pda: Option<Address>,
) -> Result<EmployeeAccount, VestingError> {
    match (employee_at(accounts, ctx.employee_account), vesting_at(accounts, ctx.vesting_account)) {
        (Some(employee), Some(vesting)) => {
            if employee_pda != Some(ctx.employee_account) {
                Err(VestingError::AddressMismatch)
            } else if employee.beneficiary != ctx.beneficiary {
                Err(VestingError::Unauthorized)
            } else if employee.vesting_account != ctx.vesting_account {
                Err(VestingError::ReferenceMismatch)
            } else if vesting_pda != Some(ctx.vesting_account) {
                Err(VestingError::AddressMismatch)
            } else if vesting.treasury_token_account != ctx.treasury_token_account {
                Err(VestingError::ReferenceMismatch)
            } else if vesting.mint != ctx.mint {
                Err(VestingError::ReferenceMismatch)
            } else {
                Ok(employee)
            }
        },
        _ => Err(VestingError::AccountNotFound),
    }
}

/// What a claim does to the records, and how much it releases, given the
/// addresses that the recorded bump seeds derive for the employee account,
/// the vesting account and the treasury.
///
/// The request must name the right accounts: see `confirmed_accounts`. The
/// schedule must allow a claim at `now`. The treasury must be the one that
/// the program can sign for. Then the amount is added to what the employee
/// account has released.
pub open spec fn claim_tokens_step(
    accounts: Map<Address, AccountView>,
    ctx: ClaimTokens,
    now: i64,
    employee_pda: Option<Address>,
    vesting_pda: Option<Address>,
    treasury_pda: Option<Address>,
) -> Result<(Map<Address, AccountView>, u64), VestingError> {
    match confirmed_accounts(accounts, ctx, employee_pda, vesting_pda) {
        Err(error) => Err(error),
        Ok(employee) => match employee.claim_outcome(now) {
            Err(code) => Err(VestingError::Claim(code)),
            Ok(amount) => {
                if treasury_pda != Some(ctx.treasury_token_account) {
                    Err(VestingError::AddressMismatch)
                } else {
                    Ok(
                        (
                            accounts.insert(
                                ctx.employee_account,
                                AccountView::Employee(employee.after_claim(amount)),
                            ),
                            amount,
                        ),
                    )
                }
            },
        },
    }
}

/// The seeds by which the program signs for the treasury of a vesting
/// account.
pub open spec fn signer_seeds_of(vesting: VestingAccountView) -> Seq<Seq<u8>> {
    with_bump(treasury_seeds(vesting.company_name), vesting.treasury_bump)
}

/// What a claim does to the records of a program, and how much it releases.
pub open spec fn claim_tokens_outcome(
    accounts: Map<Address, AccountView>,
    program_id: Address,
    ctx: ClaimTokens,
    company_name: Seq<char>,
    now: i64,
) -> Result<(Map<Address, AccountView>, u64), VestingError> {
    claim_tokens_step(
        accounts,
        ctx,
        now,
        match employee_at(accounts, ctx.employee_account) {
            Some(employee) => created_program_address(
                with_bump(employee_seeds(ctx.beneficiary, ctx.vesting_account), employee.bump),
                program_id,
            ),
            None => None,
        },
        match vesting_at(accounts, ctx.vesting_account) {
            Some(vesting) => created_program_address(
                with_bump(vesting_account_seeds(company_name), vesting.bump),
                program_id,
            ),
            None => None,
        },
        match vesting_at(accounts, ctx.vesting_account) {
            Some(vesting) => created_program_address(signer_seeds_of(vesting), program_id),
            None => None,
        },
    )
}

/// A claim that succeeds releases a positive amount, raises what the
/// employee account has released by exactly that amount and to no more than
/// has vested, and changes no other record and nothing else of the
/// employee account. It keeps the records consistent.
pub proof fn lemma_settled_claim_releases_what_vested(
    accounts: Map<Address, AccountView>,
    ctx: ClaimTokens,
    now: i64,
    employee_pda: Option<Address>,
    vesting_pda: Option<Address>,
    treasury_pda: Option<Address>,
)
    requires
        claim_tokens_step(accounts, ctx, now, employee_pda, vesting_pda, treasury_pda) is Ok,
    ensures
        ({
            let (after, amount) = claim_tokens_step(
                accounts,
                ctx,
                now,
                employee_pda,
                vesting_pda,
                treasury_pda,
            )->Ok_0;
            let before = employee_at(accounts, ctx.employee_account)->0;
            let employee = employee_at(after, ctx.employee_account)->0;
            &&& employee_at(accounts, ctx.employee_account) is Some
            &&& employee_at(after, ctx.employee_account) is Some
            &&& amount > 0
            &&& employee.total_withdrawn == before.total_withdrawn + amount
            &&& employee.total_withdrawn > before.total_withdrawn
            &&& employee.total_withdrawn <= employee.vested(now as int)
            &&& employee.total_withdrawn <= employee.total_amount
            &&& employee == (EmployeeAccount {
                total_withdrawn: employee.total_withdrawn,
                ..before
            })
            &&& after == accounts.insert(ctx.employee_account, AccountView::Employee(employee))
            &&& consistent(accounts) ==> consistent(after)
        }),
{
    let (after, amount) = claim_tokens_step(
        accounts,
        ctx,
        now,
        employee_pda,
        vesting_pda,
        treasury_pda,
    )->Ok_0;
    let before = employee_at(accounts, ctx.employee_account)->0;
    crate::accounts::lemma_claim_releases_what_vested(before, now);
    if consistent(accounts) {
        assert forall|address: Address| #[trigger] employee_consistent(after, address) by {
            assert(employee_consistent(accounts, address));
            assert(employee_consistent(accounts, ctx.employee_account));
        }
        assert forall|address: Address| #[trigger] vesting_consistent(after, address) by {
            assert(vesting_consistent(accounts, address));
        }
    }
}

/// A claim that follows a successful claim with no time between them, on
/// the same accounts, fails because there is nothing to claim.
pub proof fn lemma_repeated_settlement_finds_nothing(
    accounts: Map<Address, AccountView>,
    program_id: Address,
    ctx: ClaimTokens,
    company_name: Seq<char>,
    now: i64,
)
    requires
        claim_tokens_outcome(accounts, program_id, ctx, company_name, now) is Ok,
    ensures
        claim_tokens_outcome(
            claim_tokens_outcome(accounts, program_id, ctx, company_name, now)->Ok_0.0,
            program_id,
            ctx,
            company_name,
            now,
        ) == Err::<(Map<Address, AccountView>, u64), VestingError>(
            VestingError::Claim(ErrorCode::NothingtoClaim),
        ),
{
    let before = employee_at(accounts, ctx.employee_account)->0;
    crate::accounts::lemma_repeated_claim_finds_nothing(before, now);
}

/// A claim before the cliff fails because it is too early, whatever has
/// vested and whatever was released, where the request names the right
/// accounts.
pub proof fn lemma_claim_before_cliff_fails(
    accounts: Map<Address, AccountView>,
    ctx: ClaimTokens,
    now: i64,
    employee_pda: Option<Address>,
    vesting_pda: Option<Address>,
    treasury_pda: Option<Address>,
)
    requires
        confirmed_accounts(accounts, ctx, employee_pda, vesting_pda) matches Ok(employee) && now
            < employee.cliff_time,
    ensures
        claim_tokens_step(accounts, ctx, now, employee_pda, vesting_pda, treasury_pda) == Err::<
            (Map<Address, AccountView>, u64),
            VestingError,
        >(VestingError::Claim(ErrorCode::ClaimNotAvailableYet)),
{
}

/// Where every record lives at the address that its seeds and its bump
/// seed derive, a claim that names an allocation, its beneficiary, its
/// vesting account under its company name, and the treasury and token type
/// of that vesting account, is decided by the schedule alone: it releases
/// what the schedule allows at `now`, or fails for the schedule's reason.
pub proof fn lemma_claim_on_derived_accounts(
    accounts: Map<Address, AccountView>,
    program_id: Address,
    ctx: ClaimTokens,
    company_name: Seq<char>,
    now: i64,
)
    requires
        all_derived(accounts, program_id),
        employee_at(accounts, ctx.employee_account) matches Some(employee) && employee.beneficiary
            == ctx.beneficiary && employee.vesting_account == ctx.vesting_account,
        vesting_at(accounts, ctx.vesting_account) matches Some(vesting) && vesting.company_name
            == company_name && vesting.treasury_token_account == ctx.treasury_token_account
            && vesting.mint == ctx.mint,
    ensures
        ({
            let employee = employee_at(accounts, ctx.employee_account)->0;
            claim_tokens_outcome(accounts, program_id, ctx, company_name, now)
                == match employee.claim_outcome(now) {
                Ok(amount) => Ok(
                    (
                        accounts.insert(
                            ctx.employee_account,
                            AccountView::Employee(employee.after_claim(amount)),
                        ),
                        amount,
                    ),
                ),
                Err(code) => Err(VestingError::Claim(code)),
            }
        }),
        claim_tokens_outcome(accounts, program_id, ctx, company_name, now) matches Ok(
            (after, _),
        ) ==> all_derived(after, program_id),
{
    assert(employee_derived(accounts, program_id, ctx.employee_account));
    assert(vesting_derived(accounts, program_id, ctx.vesting_account));
    if claim_tokens_outcome(accounts, program_id, ctx, company_name, now) is Ok {
        lemma_claim_keeps_derived(
            accounts,
            program_id,
            ctx,
            now,
            created_program_address(
                with_bump(
                    employee_seeds(ctx.beneficiary, ctx.vesting_account),
                    employee_at(accounts, ctx.employee_account)->0.bump,
                ),
                program_id,
            ),
            created_program_address(
                with_bump(
                    vesting_account_seeds(company_name),
                    vesting_at(accounts, ctx.vesting_account)->0.bump,
                ),
                program_id,
            ),
            created_program_address(
                signer_seeds_of(vesting_at(accounts, ctx.vesting_account)->0),
                program_id,
            ),
        );
    }
}

proof fn lemma_claim_keeps_derived(
    accounts: Map<Address, AccountView>,
    program_id: Address,
    ctx: ClaimTokens,
    now: i64,
    employee_pda: Option<Address>,
    vesting_pda: Option<Address>,
    treasury_pda: Option<Address>,
)
    requires
        all_derived(accounts, program_id),
        claim_tokens_step(accounts, ctx, now, employee_pda, vesting_pda, treasury_pda) is Ok,
    ensures
        ({
            let (after, _) = claim_tokens_step(
                accounts,
                ctx,
                now,
                employee_pda,
                vesting_pda,
                treasury_pda,
            )->Ok_0;
            all_derived(after, program_id)
        }),
{
    let (after, _) = claim_tokens_step(
        accounts,
        ctx,
        now,
        employee_pda,
        vesting_pda,
        treasury_pda,
    )->Ok_0;
    assert forall|address: Address| #[trigger] vesting_derived(after, program_id, address) by {
        assert(vesting_derived(accounts, program_id, address));
    }
    assert forall|address: Address| #[trigger] employee_derived(after, program_id, address) by {
        assert(employee_derived(accounts, program_id, address));
    }
}

fn derives(derived: Option<Address>, named: &Address) -> (same: bool)
    ensures
        same == (derived == Some(*named)),
{
    match derived {
        Some(address) => address == *named,
        None => false,
    }
}

/// Settles a claim at `now`, given the addresses that the recorded bump
/// seeds derive: see `claim_tokens_step`. Where the claim succeeds, what
/// was released is recorded and the order to move it out of the treasury is
/// returned. A claim that fails changes nothing.
pub fn settle_claim(
    ledger: &mut Ledger,
    ctx: &ClaimTokens,
    now: i64,
    decimals: u8,
    employee_pda: Option<Address>,
    vesting_pda: Option<Address>,
    treasury_pda: Option<Address>,
) -> (outcome: Result<Transfer, VestingError>)
    requires
        old(ledger).wf(),
    ensures
        final(ledger).wf(),
        final(ledger).program() == old(ledger).program(),
        old(ledger).derived() ==> final(ledger).derived(),
        match claim_tokens_step(old(ledger)@, *ctx, now, employee_pda, vesting_pda, treasury_pda) {
            Ok((accounts, amount)) => {
                &&& final(ledger)@ == accounts
                &&& outcome matches Ok(transfer)
                &&& transfer.amount == amount
                &&& transfer.decimals == decimals
                &&& transfer.from == ctx.treasury_token_account
                &&& transfer.to == ctx.employee_token_account
                &&& transfer.mint == ctx.mint
                &&& transfer.authority.treasury() == ctx.treasury_token_account
                &&& transfer.authority.seeds() == signer_seeds_of(
                    vesting_at(old(ledger)@, ctx.vesting_account)->0,
                )
            },
            Err(error) => {
                &&& final(ledger)@ == old(ledger)@
                &&& outcome matches Err(refusal)
                &&& refusal == error
            },
        },
{
    let mut employee = match ledger.employee_account(&ctx.employee_account) {
        Some(employee) => employee,
        None => {
            return Err(VestingError::AccountNotFound);
        },
    };
    let vesting = match ledger.vesting_account(&ctx.vesting_account) {
        Some(vesting) => vesting,
        None => {
            return Err(VestingError::AccountNotFound);
        },
    };
    if !derives(employee_pda, &ctx.employee_account) {
        return Err(VestingError::AddressMismatch);
    }
    if employee.beneficiary != ctx.beneficiary {
        return Err(VestingError::Unauthorized);
    }
    if employee.vesting_account != ctx.vesting_account {
        return Err(VestingError::ReferenceMismatch);
    }
    if !derives(vesting_pda, &ctx.vesting_account) {
        return Err(VestingError::AddressMismatch);
    }
    if vesting.treasury_token_account != ctx.treasury_token_account {
        return Err(VestingError::ReferenceMismatch);
    }
    if vesting.mint != ctx.mint {
        return Err(VestingError::ReferenceMismatch);
    }
    let amount = match employee.claim(now) {
        Ok(amount) => amount,
        Err(code) => {
            return Err(VestingError::Claim(code));
        },
    };
    if !derives(treasury_pda, &ctx.treasury_token_account) {
        return Err(VestingError::AddressMismatch);
    }
    let seeds = treasury_seed_list(vesting.company_name.as_str(), Some(vesting.treasury_bump));
    proof {
        ledger.lemma_wf_consistent();
        lemma_settled_claim_releases_what_vested(
            ledger@,
            *ctx,
            now,
            employee_pda,
            vesting_pda,
            treasury_pda,
        );
        if ledger.derived() {
            lemma_claim_keeps_derived(
                ledger@,
                ledger.program(),
                *ctx,
                now,
                employee_pda,
                vesting_pda,
                treasury_pda,
            );
        }
    }
    ledger.put_employee(ctx.employee_account, employee);
    Ok(
        Transfer {
            from: ctx.treasury_token_account,
            mint: ctx.mint,
            to: ctx.employee_token_account,
            authority: TreasuryAuthority { treasury: ctx.treasury_token_account, seeds },
            amount,
            decimals,
        },
    )
}

/// Claims at `now` what has vested of an allocation and was not released
/// yet: see `claim_tokens_outcome`. The accounts are confirmed against the
/// addresses that the company name, the beneficiary and the recorded bump
/// seeds derive under the ledger's program. Where the claim succeeds, the
/// returned order moves the amount from the treasury to the beneficiary's
/// account, under seeds that derive the treasury's own address. A claim
/// that fails changes nothing.
pub fn claim_tokens(
    ledger: &mut Ledger,
    ctx: &ClaimTokens,
    company_name: String,
    now: i64,
    decimals: u8,
) -> (outcome: Result<Transfer, VestingError>)
    requires
        old(ledger).wf(),
    ensures
        final(ledger).wf(),
        final(ledger).program() == old(ledger).program(),
        old(ledger).derived() ==> final(ledger).derived(),
        match claim_tokens_outcome(
            old(ledger)@,
            old(ledger).program(),
            *ctx,
            company_name@,
            now,
        ) {
            Ok((accounts, amount)) => {
                &&& final(ledger)@ == accounts
                &&& outcome matches Ok(transfer)
                &&& transfer.amount == amount
                &&& transfer.decimals == decimals
                &&& transfer.from == ctx.treasury_token_account
                &&& transfer.to == ctx.employee_token_account
                &&& transfer.mint == ctx.mint
                &&& transfer.authority.treasury() == ctx.treasury_token_account
                &&& transfer.authority.seeds() == signer_seeds_of(
                    vesting_at(old(ledger)@, ctx.vesting_account)->0,
                )
                &&& created_program_address(transfer.authority.seeds(), old(ledger).program())
                    == Some(ctx.treasury_token_account)
            },
            Err(error) => {
                &&& final(ledger)@ == old(ledger)@
                &&& outcome matches Err(refusal)
                &&& refusal == error
            },
        },
{
    let program_id = ledger.program_id();
    let employee_pda = match ledger.employee_account(&ctx.employee_account) {
        Some(employee) => employee_address(
            &ctx.beneficiary,
            &ctx.vesting_account,
            employee.bump,
            &program_id,
        ),
        None => None,
    };
    let (vesting_pda, treasury_pda) = match ledger.vesting_account(&ctx.vesting_account) {
        Some(vesting) => (
            vesting_account_address(company_name.as_str(), vesting.bump, &program_id),
            treasury_address(vesting.company_name.as_str(), vesting.treasury_bump, &program_id),
        ),
        None => (None, None),
    };
    settle_claim(ledger, ctx, now, decimals, employee_pda, vesting_pda, treasury_pda)
}

} // verus!
