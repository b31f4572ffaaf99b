//! The account space of the vesting program: which record lives at which
//! address. An address holds at most one record, of one kind, and a record
//! is never removed.

use crate::accounts::{EmployeeAccount, TreasuryAccount, VestingAccount, VestingAccountView};
use crate::address::{
    created_program_address, employee_seeds, treasury_seeds, vesting_account_seeds, with_bump,
    Address,
};
use vstd::prelude::*;

verus! {

/// A record of the account space, told apart by its kind.
#[derive(Clone, Debug, PartialEq, Eq)]
pub enum Account {
    Vesting(VestingAccount),
    Treasury(TreasuryAccount),
    Employee(EmployeeAccount),
}

/// What a record holds.
pub enum AccountView {
    Vesting(VestingAccountView),
    Treasury(TreasuryAccount),
    Employee(EmployeeAccount),
}

impl View for Account {
    type V = AccountView;

    open spec fn view(&self) -> AccountView {
        match self {
            Account::Vesting(account) => AccountView::Vesting(account@),
            Account::Treasury(account) => AccountView::Treasury(*account),
            Account::Employee(account) => AccountView::Employee(*account),
        }
    }
}

/// The vesting account at `address`, if there is one.
pub open spec fn vesting_at(accounts: Map<Address, AccountView>, address: Address) -> Option<
    VestingAccountView,
> {
    if accounts.contains_key(address) {
        match accounts[address] {
            AccountView::Vesting(account) => Some(account),
            _ => None,
        }
    } else {
        None
    }
}

/// The employee account at `address`, if there is one.
pub open spec fn employee_at(accounts: Map<Address, AccountView>, address: Address) -> Option<
    EmployeeAccount,
> {
    if accounts.contains_key(address) {
        match accounts[address] {
            AccountView::Employee(account) => Some(account),
            _ => None,
        }
    } else {
        None
    }
}

/// The treasury at `address`, if there is one.
pub open spec fn treasury_at(accounts: Map<Address, AccountView>, address: Address) -> Option<
    TreasuryAccount,
> {
    if accounts.contains_key(address) {
        match accounts[address] {
            AccountView::Treasury(account) => Some(account),
            _ => None,
        }
    } else {
        None
    }
}

/// Whether the record at `address`, if it is an employee account, has
/// released no more than its allocation and belongs to a vesting account.
pub open spec fn employee_consistent(accounts: Map<Address, AccountView>, address: Address) -> bool {
    match employee_at(accounts, address) {
        Some(employee) => employee.well_formed() && vesting_at(
            accounts,
            employee.vesting_account,
        ) is Some,
        None => true,
    }
}

/// Whether the record at `address`, if it is a vesting account, has its
/// treasury, of its token type and under the treasury's own authority.
pub open spec fn vesting_consistent(accounts: Map<Address, AccountView>, address: Address) -> bool {
    match vesting_at(accounts, address) {
        Some(vesting) => treasury_at(accounts, vesting.treasury_token_account) == Some(
            TreasuryAccount { mint: vesting.mint, authority: vesting.treasury_token_account },
        ),
        None => true,
    }
}

/// What holds of the records in every state that the program can reach:
/// no employee account has released more than its allocation, every
/// employee account belongs to a vesting account, and every vesting account
/// has its treasury.
pub open spec fn consistent(accounts: Map<Address, AccountView>) -> bool {
    &&& forall|address: Address| #[trigger] employee_consistent(accounts, address)
    &&& forall|address: Address| #[trigger] vesting_consistent(accounts, address)
}

/// Whether the record at `address`, if it is a vesting account, lives at
/// the address that its company name and bump seed derive under the
/// program, and has its treasury at the address that the name and the
/// treasury's bump seed derive.
pub open spec fn vesting_derived(
    accounts: Map<Address, AccountView>,
    program_id: Address,
    address: Address,
) -> bool {
    match vesting_at(accounts, address) {
        Some(vesting) => {
            &&& created_program_address(
                with_bump(vesting_account_seeds(vesting.company_name), vesting.bump),
                program_id,
            ) == Some(address)
            &&& created_program_address(
                with_bump(treasury_seeds(vesting.company_name), vesting.treasury_bump),
                program_id,
            ) == Some(vesting.treasury_token_account)
        },
        None => true,
    }
}

/// Whether the record at `address`, if it is an employee account, lives at
/// the address that its beneficiary, its vesting account and its bump seed
/// derive under the program.
pub open spec fn employee_derived(
    accounts: Map<Address, AccountView>,
    program_id: Address,
    address: Address,
) -> bool {
    match employee_at(accounts, address) {
        Some(employee) => created_program_address(
            with_bump(
                employee_seeds(employee.beneficiary, employee.vesting_account),
                employee.bump,
            ),
            program_id,
        ) == Some(address),
        None => true,
    }
}

/// Whether every record lives at the address that its seeds and its bump
/// seed derive under the program, as the records do that the program
/// created at the addresses it derived itself.
pub open spec fn all_derived(accounts: Map<Address, AccountView>, program_id: Address) -> bool {
    &&& forall|address: Address| #[trigger] vesting_derived(accounts, program_id, address)
    &&& forall|address: Address| #[trigger] employee_derived(accounts, program_id, address)
}

struct Slot {
    address: Address,
    account: Account,
}

/// The records of one program, each at its address.
pub struct Ledger {
    program_id: Address,
    slots: Vec<Slot>,
}

spec fn occupied(slots: Seq<Slot>, address: Address) -> bool {
    exists|i: int| 0 <= i < slots.len() && (#[trigger] slots[i]).address == address
}

spec fn slot_of(slots: Seq<Slot>, address: Address) -> int {
    choose|i: int| 0 <= i < slots.len() && (#[trigger] slots[i]).address == address
}

spec fn records(slots: Seq<Slot>) -> Map<Address, AccountView> {
    Map::new(
        |address: Address| occupied(slots, address),
        |address: Address| slots[slot_of(slots, address)].account@,
    )
}

spec fn distinct(slots: Seq<Slot>) -> bool {
    forall|i: int, j: int|
        0 <= i < slots.len() && 0 <= j < slots.len() && (#[trigger] slots[i]).address == (
        #[trigger] slots[j]).address ==> i == j
}

proof fn lemma_record_of_slot(slots: Seq<Slot>, i: int)
    requires
        distinct(slots),
        0 <= i < slots.len(),
    ensures
        records(slots).contains_key(slots[i].address),
        records(slots)[slots[i].address] == slots[i].account@,
{
    let address = slots[i].address;
    assert(occupied(slots, address));
    assert(slot_of(slots, address) == i);
}

proof fn lemma_records_after_push(slots: Seq<Slot>, slot: Slot)
    requires
        distinct(slots),
        !occupied(slots, slot.address),
    ensures
        distinct(slots.push(slot)),
        records(slots.push(slot)) == records(slots).insert(slot.address, slot.account@),
{
    let grown = slots.push(slot);
    assert forall|i: int, j: int|
        0 <= i < grown.len() && 0 <= j < grown.len() && (#[trigger] grown[i]).address == (
        #[trigger] grown[j]).address implies i == j by {
        if i < slots.len() {
            assert(grown[i] == slots[i]);
        }
        if j < slots.len() {
            assert(grown[j] == slots[j]);
        }
    }
    assert forall|address: Address|
        records(grown).contains_key(address) <==> #[trigger] records(slots).insert(
            slot.address,
            slot.account@,
        ).contains_key(address) by {
        if occupied(slots, address) {
            let i = slot_of(slots, address);
            assert(grown[i] == slots[i]);
        }
        if occupied(grown, address) && address != slot.address {
            let i = slot_of(grown, address);
            assert(grown[i] == slots[i]);
        }
        assert(grown[slots.len() as int] == slot);
    }
    assert forall|address: Address| #[trigger] records(grown).contains_key(address) implies records(
        grown,
    )[address] == records(slots).insert(slot.address, slot.account@)[address] by {
        let i = slot_of(grown, address);
        lemma_record_of_slot(grown, i);
        if i < slots.len() {
            assert(grown[i] == slots[i]);
            lemma_record_of_slot(slots, i);
        }
    }
    assert(records(grown) =~= records(slots).insert(slot.address, slot.account@));
}

proof fn lemma_records_after_update(slots: Seq<Slot>, i: int, account: Account)
    requires
        distinct(slots),
        0 <= i < slots.len(),
    ensures
        distinct(slots.update(i, Slot { address: slots[i].address, account })),
        records(slots.update(i, Slot { address: slots[i].address, account })) == records(
            slots,
        ).insert(slots[i].address, account@),
{
    let slot = Slot { address: slots[i].address, account };
    let changed = slots.update(i, slot);
    assert forall|j: int| 0 <= j < slots.len() implies (#[trigger] changed[j]).address
        == slots[j].address by {}
    assert forall|address: Address|
        records(changed).contains_key(address) <==> #[trigger] records(slots).insert(
            slot.address,
            account@,
        ).contains_key(address) by {
        if occupied(slots, address) {
            let j = slot_of(slots, address);
            assert(changed[j].address == address);
        }
        if occupied(changed, address) {
            let j = slot_of(changed, address);
            assert(slots[j].address == address);
        }
        assert(changed[i].address == slot.address);
    }
    assert forall|address: Address| #[trigger]
        records(changed).contains_key(address) implies records(changed)[address] == records(
        slots,
    ).insert(slot.address, account@)[address] by {
        let j = slot_of(changed, address);
        lemma_record_of_slot(changed, j);
        if j != i {
            assert(changed[j] == slots[j]);
            lemma_record_of_slot(slots, j);
        }
    }
    assert(records(changed) =~= records(slots).insert(slot.address, account@));
}

impl View for Ledger {
    type V = Map<Address, AccountView>;

    closed spec fn view(&self) -> Map<Address, AccountView> {
        records(self.slots@)
    }
}

impl Ledger {
    /// Whether the account space is one that the program can have reached:
    /// no address holds two records, and the records are consistent.
    pub closed spec fn wf(&self) -> bool {
        &&& distinct(self.slots@)
        &&& consistent(records(self.slots@))
    }

    /// The program that the records belong to, under which their addresses
    /// are derived.
    pub closed spec fn program(&self) -> Address {
        self.program_id
    }

    /// Whether every record lives at the address that its seeds and its
    /// bump seed derive under the program: see `all_derived`.
    pub open spec fn derived(&self) -> bool {
        all_derived(self@, self.program())
    }

    /// The records of a well-formed account space are consistent, and
    /// finitely many.
    pub proof fn lemma_wf_consistent(&self)
        requires
            self.wf(),
        ensures
            consistent(self@),
            self@.dom().finite(),
    {
        lemma_domain_size(self.slots@);
    }

    /// An empty account space for the program `program_id`.
    pub fn new(program_id: Address) -> (ledger: Ledger)
        ensures
            ledger.wf(),
            ledger.derived(),
            ledger@ == Map::<Address, AccountView>::empty(),
            ledger.program() == program_id,
    {
        let ledger = Ledger { program_id, slots: Vec::new() };
        assert(ledger@ =~= Map::<Address, AccountView>::empty());
        ledger
    }

    /// The program that the records belong to.
    pub fn program_id(&self) -> (program_id: Address)
        ensures
            program_id == self.program(),
    {
        self.program_id
    }

    /// The number of records.
    pub fn len(&self) -> (count: usize)
        requires
            self.wf(),
        ensures
            count == self@.dom().len(),
    {
        proof {
            lemma_domain_size(self.slots@);
        }
        self.slots.len()
    }

    fn position(&self, address: &Address) -> (found: Option<usize>)
        ensures
            match found {
                Some(i) => i < self.slots.len() && self.slots[i as int].address == *address,
                None => !self@.contains_key(*address),
            },
    {
        let mut i: usize = 0;
        while i < self.slots.len()
            invariant
                i <= self.slots.len(),
                forall|j: int| 0 <= j < i ==> (#[trigger] self.slots[j]).address != *address,
            decreases self.slots.len() - i,
        {
            if self.slots[i].address == *address {
                return Some(i);
            }
            i += 1;
        }
        None
    }

    /// Whether a record lives at `address`.
    pub fn contains(&self, address: &Address) -> (held: bool)
        requires
            self.wf(),
        ensures
            held == self@.contains_key(*address),
    {
        match self.position(address) {
            Some(i) => {
                proof {
                    lemma_record_of_slot(self.slots@, i as int);
                }
                true
            },
            None => false,
        }
    }

    /// The record at `address`, if there is one.
    pub fn get(&self, address: &Address) -> (held: Option<&Account>)
        requires
            self.wf(),
        ensures
            match held {
                Some(account) => self@.contains_key(*address) && self@[*address] == account@,
                None => !self@.contains_key(*address),
            },
    {
        match self.position(address) {
            Some(i) => {
                proof {
                    lemma_record_of_slot(self.slots@, i as int);
                }
                Some(&self.slots[i].account)
            },
            None => None,
        }
    }

    /// The vesting account at `address`, if there is one.
    pub fn vesting_account(&self, address: &Address) -> (held: Option<&VestingAccount>)
        requires
            self.wf(),
        ensures
            match held {
                Some(account) => vesting_at(self@, *address) == Some(account@),
                None => vesting_at(self@, *address) is None,
            },
    {
        match self.get(address) {
            Some(Account::Vesting(account)) => Some(account),
            _ => None,
        }
    }

    /// The treasury at `address`, if there is one.
    pub fn treasury_account(&self, address: &Address) -> (held: Option<TreasuryAccount>)
        requires
            self.wf(),
        ensures
            held == treasury_at(self@, *address),
    {
        match self.get(address) {
            Some(Account::Treasury(account)) => Some(*account),
            _ => None,
        }
    }

    /// The employee account at `address`, if there is one. It has released
    /// no more than its allocation.
    pub fn employee_account(&self, address: &Address) -> (held: Option<EmployeeAccount>)
        requires
            self.wf(),
        ensures
            held == employee_at(self@, *address),
            held matches Some(account) ==> account.well_formed(),
    {
        assert(employee_consistent(self@, *address));
        match self.get(address) {
            Some(Account::Employee(account)) => Some(*account),
            _ => None,
        }
    }

    /// Puts a record at an address that holds none.
    pub(crate) fn insert(&mut self, address: Address, account: Account)
        requires
            old(self).wf(),
            !old(self)@.contains_key(address),
            consistent(old(self)@.insert(address, account@)),
        ensures
            final(self).wf(),
            final(self)@ == old(self)@.insert(address, account@),
            final(self).program() == old(self).program(),
    {
        proof {
            lemma_records_after_push(self.slots@, Slot { address, account });
        }
        self.slots.push(Slot { address, account });
    }

    /// Replaces the employee account at an address that holds one.
    pub(crate) fn put_employee(&mut self, address: Address, account: EmployeeAccount)
        requires
            old(self).wf(),
            employee_at(old(self)@, address) is Some,
            consistent(old(self)@.insert(address, AccountView::Employee(account))),
        ensures
            final(self).wf(),
            final(self)@ == old(self)@.insert(address, AccountView::Employee(account)),
            final(self).program() == old(self).program(),
    {
        match self.position(&address) {
            Some(i) => {
                proof {
                    lemma_records_after_update(self.slots@, i as int, Account::Employee(account));
                }
                self.slots.set(i, Slot { address, account: Account::Employee(account) });
            },
            None => {},
        }
    }
}

proof fn lemma_domain_size(slots: Seq<Slot>)
    requires
        distinct(slots),
    ensures
        records(slots).dom().finite(),
        records(slots).dom().len() == slots.len(),
    decreases slots.len(),
{
    if slots.len() == 0 {
        assert(records(slots).dom() =~= Set::<Address>::empty());
    } else {
        let last = slots.last();
        let front = slots.drop_last();
        assert forall|i: int, j: int|
            0 <= i < front.len() && 0 <= j < front.len() && (#[trigger] front[i]).address == (
            #[trigger] front[j]).address implies i == j by {
            assert(front[i] == slots[i]);
            assert(front[j] == slots[j]);
        }
        if occupied(front, last.address) {
            let i = slot_of(front, last.address);
            assert(front[i] == slots[i]);
            assert(slots[slots.len() - 1] == last);
        }
        lemma_domain_size(front);
        assert(slots =~= front.push(last));
        lemma_records_after_push(front, last);
        assert(records(slots).dom() =~= records(front).dom().insert(last.address));
    }
}

} // verus!
