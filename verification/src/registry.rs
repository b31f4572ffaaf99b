//! The registry of vesting accounts: one per company name, each with its
//! treasury.
//!
//! The address of a vesting account is derived from the company name, so a
//! name has one account: creating a second one finds the first in its place.

use crate::accounts::{TreasuryAccount, VestingAccount, VestingAccountView, MAX_COMPANY_NAME_LEN};
use crate::address::{
    address_of, bump_of, created_program_address, find_treasury_address,
    find_vesting_account_address, found_program_address, treasury_seeds, vesting_account_seeds,
    with_bump, Address,
};
use crate::error::VestingError;
use crate::ledger::{
    all_derived, consistent, employee_consistent, employee_derived, vesting_consistent,
    vesting_derived, Account, AccountView, Ledger,
};
use vstd::prelude::*;

verus! {

/// The accounts of a request to create a vesting account.
#[derive(Clone, Copy, Debug, PartialEq, Eq)]
pub struct CreateVestingAccount {
    /// The requester, who becomes the owner.
    pub signer: Address,
    /// The vesting account to create.
    pub vesting_account: Address,
    /// The token type that the company grants.
    pub mint: Address,
    /// The treasury to create.
    pub treasury_token_account: Address,
}

/// The length of a company name as a record holds it, in bytes.
pub open spec fn name_length(company_name: Seq<char>) -> nat {
    vstd::utf8::encode_utf8(company_name).len()
}

/// What creating a vesting account does to the records, given what the
/// seeds of the vesting account and of the treasury derive.
///
/// The name must fit a record. Each of the two accounts must be the one
/// derived, and must not exist yet. Then the vesting account is recorded
/// with the derived bump seeds, and beside it an empty treasury of the
/// token type, whose authority is the treasury itself.
pub open spec fn create_vesting_account_step(
    accounts: Map<Address, AccountView>,
    ctx: CreateVestingAccount,
    company_name: Seq<char>,
    vesting_pda: Option<(Address, u8)>,
    treasury_pda: Option<(Address, u8)>,
) -> Result<Map<Address, AccountView>, VestingError> {
    if name_length(company_name) > MAX_COMPANY_NAME_LEN {
        Err(VestingError::NameTooLong)
    } else if address_of(vesting_pda) != Some(ctx.vesting_account) {
        Err(VestingError::AddressMismatch)
    } else if accounts.contains_key(ctx.vesting_account) {
        Err(VestingError::AlreadyInitialized)
    } else if address_of(treasury_pda) != Some(ctx.treasury_token_account) {
        Err(VestingError::AddressMismatch)
    } else if accounts.contains_key(ctx.treasury_token_account) || ctx.treasury_token_account
        == ctx.vesting_account {
        Err(VestingError::AlreadyInitialized)
    } else {
        Ok(
            accounts.insert(
                ctx.treasury_token_account,
                AccountView::Treasury(
                    TreasuryAccount { mint: ctx.mint, authority: ctx.treasury_token_account },
                ),
            ).insert(
                ctx.vesting_account,
                AccountView::Vesting(
                    VestingAccountView {
                        owner: ctx.signer,
                        mint: ctx.mint,
                        treasury_token_account: ctx.treasury_token_account,
                        company_name,
                        treasury_bump: bump_of(treasury_pda),
                        bump: bump_of(vesting_pda),
                    },
                ),
            ),
        )
    }
}

/// What creating a vesting account does to the records of a program.
pub open spec fn create_vesting_account_outcome(
    accounts: Map<Address, AccountView>,
    program_id: Address,
    ctx: CreateVestingAccount,
    company_name: Seq<char>,
) -> Result<Map<Address, AccountView>, VestingError> {
    create_vesting_account_step(
        accounts,
        ctx,
        company_name,
        found_program_address(vesting_account_seeds(company_name), program_id),
        found_program_address(treasury_seeds(company_name), program_id),
    )
}

/// Creating a vesting account keeps the records consistent.
pub proof fn lemma_create_vesting_account_consistent(
    accounts: Map<Address, AccountView>,
    ctx: CreateVestingAccount,
    company_name: Seq<char>,
    vesting_pda: Option<(Address, u8)>,
    treasury_pda: Option<(Address, u8)>,
)
    requires
        consistent(accounts),
        create_vesting_account_step(accounts, ctx, company_name, vesting_pda, treasury_pda) is Ok,
    ensures
        consistent(
            accounts.insert(
                ctx.treasury_token_account,
                AccountView::Treasury(
                    TreasuryAccount { mint: ctx.mint, authority: ctx.treasury_token_account },
                ),
            ),
        ),
        consistent(
            create_vesting_account_step(
                accounts,
                ctx,
                company_name,
                vesting_pda,
                treasury_pda,
            )->Ok_0,
        ),
{
    let treasury = AccountView::Treasury(
        TreasuryAccount { mint: ctx.mint, authority: ctx.treasury_token_account },
    );
    let funded = accounts.insert(ctx.treasury_token_account, treasury);
    let after = create_vesting_account_step(
        accounts,
        ctx,
        company_name,
        vesting_pda,
        treasury_pda,
    )->Ok_0;
    assert forall|address: Address| #[trigger] employee_consistent(funded, address) by {
        assert(employee_consistent(accounts, address));
    }
    assert forall|address: Address| #[trigger] vesting_consistent(funded, address) by {
        assert(vesting_consistent(accounts, address));
    }
    assert forall|address: Address| #[trigger] employee_consistent(after, address) by {
        assert(employee_consistent(funded, address));
    }
    assert forall|address: Address| #[trigger] vesting_consistent(after, address) by {
        assert(vesting_consistent(funded, address));
    }
}

/// A company name has one vesting account: once one is created under a
/// name, every further request under that name fails, as a duplicate where
/// it names the account that the name derives, and else because it names
/// another account than the derived one.
pub proof fn lemma_company_name_is_unique(
    accounts: Map<Address, AccountView>,
    program_id: Address,
    first: CreateVestingAccount,
    second: CreateVestingAccount,
    company_name: Seq<char>,
)
    requires
        create_vesting_account_outcome(accounts, program_id, first, company_name) is Ok,
    ensures
        ({
            let after = create_vesting_account_outcome(
                accounts,
                program_id,
                first,
                company_name,
            )->Ok_0;
            let again = create_vesting_account_outcome(after, program_id, second, company_name);
            &&& again is Err
            &&& second.vesting_account == first.vesting_account ==> again == Err::<
                Map<Address, AccountView>,
                VestingError,
            >(VestingError::AlreadyInitialized)
            &&& second.vesting_account != first.vesting_account ==> again == Err::<
                Map<Address, AccountView>,
                VestingError,
            >(VestingError::AddressMismatch)
        }),
{
}

/// Creates a vesting account and its treasury, given what the seeds derive:
/// see `create_vesting_account_step`. A request that fails changes nothing.
pub fn init_vesting_account(
    ledger: &mut Ledger,
    ctx: &CreateVestingAccount,
    company_name: String,
    vesting_pda: Option<(Address, u8)>,
    treasury_pda: Option<(Address, u8)>,
) -> (outcome: Result<(), VestingError>)
    requires
        old(ledger).wf(),
    ensures
        final(ledger).wf(),
        final(ledger).program() == old(ledger).program(),
        match create_vesting_account_step(
            old(ledger)@,
            *ctx,
            company_name@,
            vesting_pda,
            treasury_pda,
        ) {
            Ok(accounts) => outcome is Ok && final(ledger)@ == accounts,
            Err(error) => outcome == Err::<(), VestingError>(error) && final(ledger)@ == old(
                ledger,
            )@,
        },
{
    if company_name.as_str().as_bytes().len() > MAX_COMPANY_NAME_LEN {
        return Err(VestingError::NameTooLong);
    }
    let (vesting_address, bump) = match vesting_pda {
        Some(found) => found,
        None => {
            return Err(VestingError::AddressMismatch);
        },
    };
    if vesting_address != ctx.vesting_account {
        return Err(VestingError::AddressMismatch);
    }
    if ledger.contains(&ctx.vesting_account) {
        return Err(VestingError::AlreadyInitialized);
    }
    let (treasury_address, treasury_bump) = match treasury_pda {
        Some(found) => found,
        None => {
            return Err(VestingError::AddressMismatch);
        },
    };
    if treasury_address != ctx.treasury_token_account {
        return Err(VestingError::AddressMismatch);
    }
    if ledger.contains(&ctx.treasury_token_account) || ctx.treasury_token_account
        == ctx.vesting_account {
        return Err(VestingError::AlreadyInitialized);
    }
    proof {
        ledger.lemma_wf_consistent();
        lemma_create_vesting_account_consistent(
            ledger@,
            *ctx,
            company_name@,
            vesting_pda,
            treasury_pda,
        );
    }
    ledger.insert(
        ctx.treasury_token_account,
        Account::Treasury(
            TreasuryAccount { mint: ctx.mint, authority: ctx.treasury_token_account },
        ),
    );
    ledger.insert(
        ctx.vesting_account,
        Account::Vesting(
            VestingAccount::new(
                ctx.signer,
                ctx.mint,
                ctx.treasury_token_account,
                company_name,
                treasury_bump,
                bump,
            ),
        ),
    );
    Ok(())
}

proof fn lemma_create_vesting_account_derived(
    accounts: Map<Address, AccountView>,
    program_id: Address,
    ctx: CreateVestingAccount,
    company_name: Seq<char>,
    vesting_pda: Option<(Address, u8)>,
    treasury_pda: Option<(Address, u8)>,
)
    requires
        all_derived(accounts, program_id),
        create_vesting_account_step(accounts, ctx, company_name, vesting_pda, treasury_pda) is Ok,
        created_program_address(
            with_bump(vesting_account_seeds(company_name), bump_of(vesting_pda)),
            program_id,
        ) == address_of(vesting_pda),
        created_program_address(
            with_bump(treasury_seeds(company_name), bump_of(treasury_pda)),
            program_id,
        ) == address_of(treasury_pda),
    ensures
        all_derived(
            create_vesting_account_step(
                accounts,
                ctx,
                company_name,
                vesting_pda,
                treasury_pda,
            )->Ok_0,
            program_id,
        ),
{
    let after = create_vesting_account_step(
        accounts,
        ctx,
        company_name,
        vesting_pda,
        treasury_pda,
    )->Ok_0;
    assert forall|address: Address| #[trigger] vesting_derived(after, program_id, address) by {
        assert(vesting_derived(accounts, program_id, address));
    }
    assert forall|address: Address| #[trigger] employee_derived(after, program_id, address) by {
        assert(employee_derived(accounts, program_id, address));
    }
}

/// Creates the vesting account of a company and its treasury, at the
/// addresses that the company name derives under the ledger's program: see
/// `create_vesting_account_outcome`. A request that fails changes nothing.
///
/// The records are created at derived addresses, with the bump seeds that
/// confirm them: an account space whose records are all derived stays so.
pub fn create_vesting_account(
    ledger: &mut Ledger,
    ctx: &CreateVestingAccount,
    company_name: String,
) -> (outcome: Result<(), VestingError>)
    requires
        old(ledger).wf(),
    ensures
        final(ledger).wf(),
        final(ledger).program() == old(ledger).program(),
        match create_vesting_account_outcome(
            old(ledger)@,
            old(ledger).program(),
            *ctx,
            company_name@,
        ) {
            Ok(accounts) => outcome is Ok && final(ledger)@ == accounts,
            Err(error) => outcome == Err::<(), VestingError>(error) && final(ledger)@ == old(
                ledger,
            )@,
        },
        old(ledger).derived() ==> final(ledger).derived(),
{
    let program_id = ledger.program_id();
    let vesting_pda = find_vesting_account_address(company_name.as_str(), &program_id);
    let treasury_pda = find_treasury_address(company_name.as_str(), &program_id);
    proof {
        if ledger.derived() && create_vesting_account_step(
            ledger@,
            *ctx,
            company_name@,
            vesting_pda,
            treasury_pda,
        ) is Ok {
            lemma_create_vesting_account_derived(
                ledger@,
                program_id,
                *ctx,
                company_name@,
                vesting_pda,
                treasury_pda,
            );
        }
    }
    init_vesting_account(ledger, ctx, company_name, vesting_pda, treasury_pda)
}

} // verus!
