//! Granting allocations: one employee account per beneficiary and vesting
//! account, created by the owner of the vesting account.

use crate::accounts::EmployeeAccount;
use crate::address::{
    address_of, bump_of, created_program_address, employee_seeds, find_employee_address,
    found_program_address, with_bump, Address,
};
use crate::error::VestingError;
use crate::ledger::{
    all_derived, consistent, employee_consistent, employee_derived, vesting_at,
    vesting_consistent, vesting_derived, Account, AccountView, Ledger,
};
use vstd::prelude::*;

verus! {

/// The accounts of a request to grant an allocation.
#[derive(Clone, Copy, Debug, PartialEq, Eq)]
pub struct CreateEmployeeAccount {
    /// The requester, who must own the vesting account.
    pub owner: Address,
    /// Who receives the allocation.
    pub beneficiary: Address,
    /// The vesting account that the allocation comes from.
    pub vesting_account: Address,
    /// The employee account to create.
    pub employee_account: Address,
}

/// What granting an allocation does to the records, given what the seeds of
/// the employee account derive.
///
/// The vesting account must exist. The employee account must be the one
/// derived and must not exist yet. The requester must own the vesting
/// account. Then the allocation is recorded with nothing withdrawn. The
/// times are recorded as given, in whatever order they stand.
pub open spec fn create_employee_account_step(
    accounts: Map<Address, AccountView>,
    ctx: CreateEmployeeAccount,
    start_time: i64,
    end_time: i64,
    total_amount: u64,
    cliff_time: i64,
    employee_pda: Option<(Address, u8)>,
) -> Result<Map<Address, AccountView>, VestingError> {
    match vesting_at(accounts, ctx.vesting_account) {
        None => Err(VestingError::AccountNotFound),
        Some(vesting) => {
            if address_of(employee_pda) != Some(ctx.employee_account) {
                Err(VestingError::AddressMismatch)
            } else if accounts.contains_key(ctx.employee_account) {
                Err(VestingError::AlreadyInitialized)
            } else if vesting.owner != ctx.owner {
                Err(VestingError::Unauthorized)
            } else {
                Ok(
                    accounts.insert(
                        ctx.employee_account,
                        AccountView::Employee(
                            EmployeeAccount {
                                beneficiary: ctx.beneficiary,
                                start_time,
                                end_time,
                                cliff_time,
                                vesting_account: ctx.vesting_account,
                                total_amount,
                                total_withdrawn: 0,
                                bump: bump_of(employee_pda),
                            },
                        ),
                    ),
                )
            }
        },
    }
}

/// What granting an allocation does to the records of a program.
pub open spec fn create_employee_account_outcome(
    accounts: Map<Address, AccountView>,
    program_id: Address,
    ctx: CreateEmployeeAccount,
    start_time: i64,
    end_time: i64,
    total_amount: u64,
    cliff_time: i64,
) -> Result<Map<Address, AccountView>, VestingError> {
    create_employee_account_step(
        accounts,
        ctx,
        start_time,
        end_time,
        total_amount,
        cliff_time,
        found_program_address(employee_seeds(ctx.beneficiary, ctx.vesting_account), program_id),
    )
}

/// Granting an allocation keeps the records consistent.
pub proof fn lemma_create_employee_account_consistent(
    accounts: Map<Address, AccountView>,
    ctx: CreateEmployeeAccount,
    start_time: i64,
    end_time: i64,
    total_amount: u64,
    cliff_time: i64,
    employee_pda: Option<(Address, u8)>,
)
    requires
        consistent(accounts),
        create_employee_account_step(
            accounts,
            ctx,
            start_time,
            end_time,
            total_amount,
            cliff_time,
            employee_pda,
        ) is Ok,
    ensures
        consistent(
            create_employee_account_step(
                accounts,
                ctx,
                start_time,
                end_time,
                total_amount,
                cliff_time,
                employee_pda,
            )->Ok_0,
        ),
{
    let after = create_employee_account_step(
        accounts,
        ctx,
        start_time,
        end_time,
        total_amount,
        cliff_time,
        employee_pda,
    )->Ok_0;
    assert forall|address: Address| #[trigger] employee_consistent(after, address) by {
        assert(employee_consistent(accounts, address));
    }
    assert forall|address: Address| #[trigger] vesting_consistent(after, address) by {
        assert(vesting_consistent(accounts, address));
    }
}

/// A beneficiary has one allocation under a vesting account: once one is
/// granted, every further grant to the same beneficiary under the same
/// vesting account fails.
pub proof fn lemma_allocation_is_unique(
    accounts: Map<Address, AccountView>,
    program_id: Address,
    first: CreateEmployeeAccount,
    second: CreateEmployeeAccount,
    first_schedule: (i64, i64, u64, i64),
    second_schedule: (i64, i64, u64, i64),
)
    requires
        second.beneficiary == first.beneficiary,
        second.vesting_account == first.vesting_account,
        create_employee_account_outcome(
            accounts,
            program_id,
            first,
            first_schedule.0,
            first_schedule.1,
            first_schedule.2,
            first_schedule.3,
        ) is Ok,
    ensures
        create_employee_account_outcome(
            create_employee_account_outcome(
                accounts,
                program_id,
                first,
                first_schedule.0,
                first_schedule.1,
                first_schedule.2,
                first_schedule.3,
            )->Ok_0,
            program_id,
            second,
            second_schedule.0,
            second_schedule.1,
            second_schedule.2,
            second_schedule.3,
        ) is Err,
{
}

/// Grants an allocation, given what the seeds of the employee account
/// derive: see `create_employee_account_step`. A request that fails changes
/// nothing.
pub fn init_employee_account(
    ledger: &mut Ledger,
    ctx: &CreateEmployeeAccount,
    start_time: i64,
    end_time: i64,
    total_amount: u64,
    cliff_time: i64,
    employee_pda: Option<(Address, u8)>,
) -> (outcome: Result<(), VestingError>)
    requires
        old(ledger).wf(),
    ensures
        final(ledger).wf(),
        final(ledger).program() == old(ledger).program(),
        match create_employee_account_step(
            old(ledger)@,
            *ctx,
            start_time,
            end_time,
            total_amount,
            cliff_time,
            employee_pda,
        ) {
            Ok(accounts) => outcome is Ok && final(ledger)@ == accounts,
            Err(error) => outcome == Err::<(), VestingError>(error) && final(ledger)@ == old(
                ledger,
            )@,
        },
{
    let owner = match ledger.vesting_account(&ctx.vesting_account) {
        Some(vesting) => vesting.owner,
        None => {
            return Err(VestingError::AccountNotFound);
        },
    };
    let (employee_address, bump) = match employee_pda {
        Some(found) => found,
        None => {
            return Err(VestingError::AddressMismatch);
        },
    };
    if employee_address != ctx.employee_account {
        return Err(VestingError::AddressMismatch);
    }
    if ledger.contains(&ctx.employee_account) {
        return Err(VestingError::AlreadyInitialized);
    }
    if owner != ctx.owner {
        return Err(VestingError::Unauthorized);
    }
    proof {
        ledger.lemma_wf_consistent();
        lemma_create_employee_account_consistent(
            ledger@,
            *ctx,
            start_time,
            end_time,
            total_amount,
            cliff_time,
            employee_pda,
        );
    }
    ledger.insert(
        ctx.employee_account,
        Account::Employee(
            EmployeeAccount::new(
                ctx.beneficiary,
                ctx.vesting_account,
                start_time,
                end_time,
                total_amount,
                cliff_time,
                bump,
            ),
        ),
    );
    Ok(())
}

proof fn lemma_create_employee_account_derived(
    accounts: Map<Address, AccountView>,
    program_id: Address,
    ctx: CreateEmployeeAccount,
    schedule: (i64, i64, u64, i64),
    employee_pda: Option<(Address, u8)>,
)
    requires
        all_derived(accounts, program_id),
        create_employee_account_step(
            accounts,
            ctx,
            schedule.0,
            schedule.1,
            schedule.2,
            schedule.3,
            employee_pda,
        ) is Ok,
        created_program_address(
            with_bump(employee_seeds(ctx.beneficiary, ctx.vesting_account), bump_of(employee_pda)),
            program_id,
        ) == address_of(employee_pda),
    ensures
        all_derived(
            create_employee_account_step(
                accounts,
                ctx,
                schedule.0,
                schedule.1,
                schedule.2,
                schedule.3,
                employee_pda,
            )->Ok_0,
            program_id,
        ),
{
    let after = create_employee_account_step(
        accounts,
        ctx,
        schedule.0,
        schedule.1,
        schedule.2,
        schedule.3,
        employee_pda,
    )->Ok_0;
    assert forall|address: Address| #[trigger] vesting_derived(after, program_id, address) by {
        assert(vesting_derived(accounts, program_id, address));
    }
    assert forall|address: Address| #[trigger] employee_derived(after, program_id, address) by {
        assert(employee_derived(accounts, program_id, address));
    }
}

/// Grants a beneficiary an allocation under a vesting account, at the
/// address that the two derive under the ledger's program: see
/// `create_employee_account_outcome`. A request that fails changes nothing.
///
/// The record is created at the derived address, with the bump seed that
/// confirms it: an account space whose records are all derived stays so.
pub fn create_employee_account(
    ledger: &mut Ledger,
    ctx: &CreateEmployeeAccount,
    start_time: i64,
    end_time: i64,
    total_amount: u64,
    cliff_time: i64,
) -> (outcome: Result<(), VestingError>)
    requires
        old(ledger).wf(),
    ensures
        final(ledger).wf(),
        final(ledger).program() == old(ledger).program(),
        match create_employee_account_outcome(
            old(ledger)@,
            old(ledger).program(),
            *ctx,
            start_time,
            end_time,
            total_amount,
            cliff_time,
        ) {
            Ok(accounts) => outcome is Ok && final(ledger)@ == accounts,
            Err(error) => outcome == Err::<(), VestingError>(error) && final(ledger)@ == old(
                ledger,
            )@,
        },
        old(ledger).derived() ==> final(ledger).derived(),
{
    let program_id = ledger.program_id();
    let employee_pda = find_employee_address(&ctx.beneficiary, &ctx.vesting_account, &program_id);
    proof {
        if ledger.derived() && create_employee_account_step(
            ledger@,
            *ctx,
            start_time,
            end_time,
            total_amount,
            cliff_time,
            employee_pda,
        ) is Ok {
            lemma_create_employee_account_derived(
                ledger@,
                program_id,
                *ctx,
                (start_time, end_time, total_amount, cliff_time),
                employee_pda,
            );
        }
    }
    init_employee_account(
        ledger,
        ctx,
        start_time,
        end_time,
        total_amount,
        cliff_time,
        employee_pda,
    )
}

} // verus!
