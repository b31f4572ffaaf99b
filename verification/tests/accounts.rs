use vesting::{Address, EmployeeAccount, ErrorCode, VestingAccount};

fn account_with(start_time: i64, end_time: i64, total_amount: u64, cliff_time: i64) -> EmployeeAccount {
    EmployeeAccount::new(
        Address::new([1; 32]),
        Address::new([2; 32]),
        start_time,
        end_time,
        total_amount,
        cliff_time,
        254,
    )
}

#[test]
fn a_new_allocation_has_nothing_withdrawn() {
    let account = account_with(10, 20, 300, 15);
    assert_eq!(account.beneficiary, Address::new([1; 32]));
    assert_eq!(account.vesting_account, Address::new([2; 32]));
    assert_eq!(account.start_time, 10);
    assert_eq!(account.end_time, 20);
    assert_eq!(account.cliff_time, 15);
    assert_eq!(account.total_amount, 300);
    assert_eq!(account.total_withdrawn, 0);
    assert_eq!(account.bump, 254);
}

#[test]
fn a_new_allocation_takes_times_in_any_order() {
    let account = account_with(20, 10, 300, 50);
    assert_eq!(account.start_time, 20);
    assert_eq!(account.end_time, 10);
    assert_eq!(account.cliff_time, 50);
    assert_eq!(account.claimable(60), Err(ErrorCode::InvalidVestingPeriod));
}

#[test]
fn a_new_vesting_account_holds_what_it_was_given() {
    let account = VestingAccount::new(
        Address::new([1; 32]),
        Address::new([2; 32]),
        Address::new([3; 32]),
        String::from("acme"),
        250,
        251,
    );
    assert_eq!(account.owner, Address::new([1; 32]));
    assert_eq!(account.mint, Address::new([2; 32]));
    assert_eq!(account.treasury_token_account, Address::new([3; 32]));
    assert_eq!(account.company_name, "acme");
    assert_eq!(account.treasury_bump, 250);
    assert_eq!(account.bump, 251);
}

#[test]
fn claims_follow_the_schedule() {
    let mut account = account_with(0, 1000, 1000, 0);

    assert_eq!(account.claim(0), Err(ErrorCode::NothingtoClaim));
    assert_eq!(account.total_withdrawn, 0);

    assert_eq!(account.claim(500), Ok(500));
    assert_eq!(account.total_withdrawn, 500);

    assert_eq!(account.claim(500), Err(ErrorCode::NothingtoClaim));
    assert_eq!(account.total_withdrawn, 500);

    assert_eq!(account.claim(1000), Ok(500));
    assert_eq!(account.total_withdrawn, 1000);

    assert_eq!(account.claim(2000), Err(ErrorCode::NothingtoClaim));
    assert_eq!(account.total_withdrawn, 1000);
}

#[test]
fn a_claim_raises_the_withdrawn_amount_by_what_it_returns() {
    let mut account = account_with(100, 200, 1000, 100);
    let mut now = 100;
    while now <= 210 {
        let before = account.total_withdrawn;
        match account.claim(now) {
            Ok(amount) => {
                assert!(amount > 0);
                assert_eq!(account.total_withdrawn, before + amount);
                assert!(account.total_withdrawn <= account.total_amount);
            }
            Err(code) => {
                assert_eq!(code, ErrorCode::NothingtoClaim);
                assert_eq!(account.total_withdrawn, before);
            }
        }
        now += 7;
    }
    assert_eq!(account.total_withdrawn, 1000);
}

#[test]
fn a_refused_claim_leaves_the_account_as_it_was() {
    let mut account = account_with(0, 1000, 1000, 600);
    let before = account;
    assert_eq!(account.claim(599), Err(ErrorCode::ClaimNotAvailableYet));
    assert_eq!(account, before);

    let mut flat = account_with(5, 5, 1000, 0);
    let before = flat;
    assert_eq!(flat.claim(10), Err(ErrorCode::InvalidVestingPeriod));
    assert_eq!(flat, before);

    let mut huge = account_with(0, 4, u64::MAX, 0);
    let before = huge;
    assert_eq!(huge.claim(3), Err(ErrorCode::CalculationOverflow));
    assert_eq!(huge, before);
}

#[test]
fn asking_what_is_claimable_changes_nothing() {
    let account = account_with(0, 1000, 1000, 0);
    assert_eq!(account.claimable(250), Ok(250));
    assert_eq!(account.claimable(250), Ok(250));
    assert_eq!(account.total_withdrawn, 0);
}

#[test]
fn an_account_that_released_too_much_releases_no_more() {
    let mut account = account_with(0, 1000, 1000, 0);
    account.total_withdrawn = 700;
    assert_eq!(account.claim(500), Err(ErrorCode::NothingtoClaim));
    assert_eq!(account.total_withdrawn, 700);
    assert_eq!(account.claim(800), Ok(100));
    assert_eq!(account.total_withdrawn, 800);
}
