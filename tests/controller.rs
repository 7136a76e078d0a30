use minter_controller::instructions::{
    accept_admin_transfer, add_minter, add_whitelisted_address, get_remaining_amount, mint_token,
    remove_whitelisted_address, start_admin_transfer, update_rate_limit, AcceptAdminTransfer,
    AddMinter, AddWhitelistedAddress, ControllerError, GetRemainingAmount, MintToken,
    RemoveWhitelistedAddress, StartAdminTransfer, UpdateRateLimit,
};
use minter_controller::pubkey::Pubkey;
use minter_controller::state::Registry;
use minter_controller::units::scale_amount;

fn key(n: u64) -> Pubkey {
    Pubkey::new(n, n + 1, n + 2, n + 3)
}

const ADMIN: u64 = 10;
const AUTH: u64 = 20;
const ASSET: u64 = 30;
const DEST: u64 = 40;
const MULTISIG: u64 = 50;

fn setup(capacity: u64, refill_per_second: u64) -> Registry {
    let mut reg = Registry::new();
    let a = AddMinter { admin: key(ADMIN), minter_authority: key(AUTH), mint_account: key(ASSET) };
    add_minter(&mut reg, a, capacity, refill_per_second).unwrap();
    reg
}

fn allow(reg: &mut Registry, dest: u64) -> Result<(), ControllerError> {
    let a = AddWhitelistedAddress {
        admin: key(ADMIN),
        minter_authority: key(AUTH),
        mint_account: key(ASSET),
        to_address: key(dest),
    };
    add_whitelisted_address(reg, a).map(|_| ())
}

fn request(caller: u64, dest: u64, decimals: u8) -> MintToken {
    MintToken {
        caller: key(caller),
        minter_authority: key(AUTH),
        mint_account: key(ASSET),
        mint_multisig: key(MULTISIG),
        to_address: key(dest),
        decimals,
    }
}

fn remaining(reg: &Registry, t: u64) -> u64 {
    let q = GetRemainingAmount { minter_authority: key(AUTH), mint_account: key(ASSET) };
    get_remaining_amount(reg, q, t).unwrap()
}

#[test]
fn add_minter_creates_empty_policy() {
    let reg = setup(1000, 10);
    let m = reg.get_minter(key(AUTH), key(ASSET)).unwrap();
    assert_eq!(m.admin, key(ADMIN));
    assert_eq!(m.pending_admin, None);
    assert_eq!(m.rate_limit.capacity, 1000);
    assert_eq!(m.rate_limit.refill_per_second, 10);
    assert_eq!(m.rate_limit.remaining_amount, 0);
    assert_eq!(m.rate_limit.last_refill_time, 0);
}

#[test]
fn add_minter_reports_event() {
    let mut reg = Registry::new();
    let a = AddMinter { admin: key(ADMIN), minter_authority: key(AUTH), mint_account: key(ASSET) };
    let e = add_minter(&mut reg, a, 7, 3).unwrap();
    assert_eq!(e.admin, key(ADMIN));
    assert_eq!(e.capacity, 7);
    assert_eq!(e.refill_per_second, 3);
}

#[test]
fn duplicate_policy_is_refused() {
    let mut reg = setup(1000, 10);
    let again = AddMinter { admin: key(99), minter_authority: key(AUTH), mint_account: key(ASSET) };
    assert_eq!(add_minter(&mut reg, again, 5, 5), Err(ControllerError::AlreadyExists));
    let m = reg.get_minter(key(AUTH), key(ASSET)).unwrap();
    assert_eq!(m.admin, key(ADMIN));
    assert_eq!(m.rate_limit.capacity, 1000);
}

#[test]
fn same_authority_other_asset_is_a_new_policy() {
    let mut reg = setup(1000, 10);
    let other = AddMinter { admin: key(ADMIN), minter_authority: key(AUTH), mint_account: key(31) };
    assert!(add_minter(&mut reg, other, 5, 5).is_ok());
    assert_eq!(reg.get_minter(key(AUTH), key(31)).unwrap().rate_limit.capacity, 5);
}

#[test]
fn duplicate_allow_list_entry_is_refused() {
    let mut reg = setup(1000, 10);
    assert_eq!(allow(&mut reg, DEST), Ok(()));
    assert_eq!(allow(&mut reg, DEST), Err(ControllerError::AlreadyExists));
    assert!(reg.is_permitted(key(AUTH), key(ASSET), key(DEST)));
}

#[test]
fn allow_list_needs_admin_and_policy() {
    let mut reg = setup(1000, 10);
    let wrong = AddWhitelistedAddress {
        admin: key(11),
        minter_authority: key(AUTH),
        mint_account: key(ASSET),
        to_address: key(DEST),
    };
    assert_eq!(add_whitelisted_address(&mut reg, wrong), Err(ControllerError::Unauthorized));
    let missing = AddWhitelistedAddress {
        admin: key(ADMIN),
        minter_authority: key(AUTH),
        mint_account: key(32),
        to_address: key(DEST),
    };
    assert_eq!(add_whitelisted_address(&mut reg, missing), Err(ControllerError::PolicyNotFound));
    assert!(!reg.is_permitted(key(AUTH), key(ASSET), key(DEST)));
}

#[test]
fn remove_allow_list_entry() {
    let mut reg = setup(1000, 10);
    allow(&mut reg, DEST).unwrap();
    allow(&mut reg, 41).unwrap();
    let rm = RemoveWhitelistedAddress {
        admin: key(ADMIN),
        minter_authority: key(AUTH),
        mint_account: key(ASSET),
        to_address: key(DEST),
    };
    let e = remove_whitelisted_address(&mut reg, rm).unwrap();
    assert_eq!(e.to_address, key(DEST));
    assert!(!reg.is_permitted(key(AUTH), key(ASSET), key(DEST)));
    assert!(reg.is_permitted(key(AUTH), key(ASSET), key(41)));
    assert_eq!(remove_whitelisted_address(&mut reg, rm), Err(ControllerError::NotFound));
    let wrong = RemoveWhitelistedAddress { admin: key(12), ..rm };
    assert_eq!(remove_whitelisted_address(&mut reg, wrong), Err(ControllerError::Unauthorized));
}

#[test]
fn admin_handoff_round_trip() {
    let mut reg = setup(1000, 10);
    let start = StartAdminTransfer { admin: key(ADMIN), minter_authority: key(AUTH), mint_account: key(ASSET) };
    let e = start_admin_transfer(&mut reg, start, key(60)).unwrap();
    assert_eq!(e.pending_admin, key(60));
    assert_eq!(reg.get_minter(key(AUTH), key(ASSET)).unwrap().pending_admin, Some(key(60)));
    let intruder = AcceptAdminTransfer { pending_admin: key(70), minter_authority: key(AUTH), mint_account: key(ASSET) };
    assert_eq!(accept_admin_transfer(&mut reg, intruder), Err(ControllerError::Unauthorized));
    let accept = AcceptAdminTransfer { pending_admin: key(60), ..intruder };
    let done = accept_admin_transfer(&mut reg, accept).unwrap();
    assert_eq!(done.admin, key(60));
    let m = reg.get_minter(key(AUTH), key(ASSET)).unwrap();
    assert_eq!(m.admin, key(60));
    assert_eq!(m.pending_admin, None);
    assert_eq!(start_admin_transfer(&mut reg, start, key(61)), Err(ControllerError::Unauthorized));
}

#[test]
fn accept_without_pending_transfer() {
    let mut reg = setup(1000, 10);
    let accept = AcceptAdminTransfer { pending_admin: key(60), minter_authority: key(AUTH), mint_account: key(ASSET) };
    assert_eq!(accept_admin_transfer(&mut reg, accept), Err(ControllerError::NoTransferPending));
    let missing = AcceptAdminTransfer { mint_account: key(33), ..accept };
    assert_eq!(accept_admin_transfer(&mut reg, missing), Err(ControllerError::PolicyNotFound));
}

#[test]
fn renomination_overwrites_and_self_nomination_changes_nothing() {
    let mut reg = setup(1000, 10);
    let start = StartAdminTransfer { admin: key(ADMIN), minter_authority: key(AUTH), mint_account: key(ASSET) };
    start_admin_transfer(&mut reg, start, key(60)).unwrap();
    start_admin_transfer(&mut reg, start, key(61)).unwrap();
    assert_eq!(reg.get_minter(key(AUTH), key(ASSET)).unwrap().pending_admin, Some(key(61)));
    assert!(start_admin_transfer(&mut reg, start, key(ADMIN)).is_ok());
    assert_eq!(reg.get_minter(key(AUTH), key(ASSET)).unwrap().pending_admin, Some(key(61)));
}

#[test]
fn update_rate_limit_keeps_balance_and_clock() {
    let mut reg = setup(1000, 10);
    allow(&mut reg, DEST).unwrap();
    mint_token(&mut reg, request(AUTH, DEST, 0), 100, 50).unwrap();
    let u = UpdateRateLimit { admin: key(ADMIN), minter_authority: key(AUTH), mint_account: key(ASSET) };
    let e = update_rate_limit(&mut reg, u, 200, 1).unwrap();
    assert_eq!(e.capacity, 200);
    let m = reg.get_minter(key(AUTH), key(ASSET)).unwrap();
    assert_eq!(m.rate_limit.capacity, 200);
    assert_eq!(m.rate_limit.refill_per_second, 1);
    assert_eq!(m.rate_limit.remaining_amount, 400);
    assert_eq!(m.rate_limit.last_refill_time, 50);
    assert_eq!(remaining(&reg, 50), 200);
    let wrong = UpdateRateLimit { admin: key(AUTH), ..u };
    assert_eq!(update_rate_limit(&mut reg, wrong, 1, 1), Err(ControllerError::Unauthorized));
}

#[test]
fn remaining_amount_query_changes_nothing() {
    let reg = setup(1000, 10);
    assert_eq!(remaining(&reg, 30), 300);
    assert_eq!(remaining(&reg, 30), 300);
    assert_eq!(reg.get_minter(key(AUTH), key(ASSET)).unwrap().rate_limit.last_refill_time, 0);
    let q = GetRemainingAmount { minter_authority: key(AUTH), mint_account: key(34) };
    assert_eq!(get_remaining_amount(&reg, q, 30), Err(ControllerError::PolicyNotFound));
}

#[test]
fn mint_scenario_full_bucket_then_limit() {
    let mut reg = setup(1000, 10);
    allow(&mut reg, DEST).unwrap();
    let (event, order) = mint_token(&mut reg, request(AUTH, DEST, 0), 500, 100).unwrap();
    assert_eq!(event.amount, 500);
    assert_eq!(event.minter_authority, key(AUTH));
    assert_eq!(event.mint_account, key(ASSET));
    assert_eq!(order.amount, 500);
    assert_eq!(order.to_address, key(DEST));
    assert_eq!(order.mint_multisig, key(MULTISIG));
    assert_eq!(reg.get_minter(key(AUTH), key(ASSET)).unwrap().rate_limit.remaining_amount, 500);
    assert_eq!(mint_token(&mut reg, request(AUTH, DEST, 0), 600, 100), Err(ControllerError::LimitExceeded));
    assert_eq!(reg.get_minter(key(AUTH), key(ASSET)).unwrap().rate_limit.remaining_amount, 500);
}

#[test]
fn mint_to_destination_not_allowed() {
    let mut reg = setup(1000, 10);
    allow(&mut reg, DEST).unwrap();
    assert_eq!(
        mint_token(&mut reg, request(AUTH, 41, 0), 1, 1000),
        Err(ControllerError::DestinationNotAllowed)
    );
    assert_eq!(reg.get_minter(key(AUTH), key(ASSET)).unwrap().rate_limit.last_refill_time, 0);
}

#[test]
fn mint_with_empty_bucket_is_limited_even_when_allowed() {
    let mut reg = setup(1000, 10);
    allow(&mut reg, DEST).unwrap();
    assert_eq!(mint_token(&mut reg, request(AUTH, DEST, 0), 1, 0), Err(ControllerError::LimitExceeded));
}

#[test]
fn rejected_mint_commits_refill() {
    let mut reg = setup(100, 1);
    allow(&mut reg, DEST).unwrap();
    assert_eq!(mint_token(&mut reg, request(AUTH, DEST, 0), 200, 50), Err(ControllerError::LimitExceeded));
    let m = reg.get_minter(key(AUTH), key(ASSET)).unwrap();
    assert_eq!(m.rate_limit.remaining_amount, 50);
    assert_eq!(m.rate_limit.last_refill_time, 50);
}

#[test]
fn mint_by_other_than_authority_is_refused() {
    let mut reg = setup(1000, 10);
    allow(&mut reg, DEST).unwrap();
    assert_eq!(mint_token(&mut reg, request(ADMIN, DEST, 0), 1, 100), Err(ControllerError::Unauthorized));
    let mut r = request(AUTH, DEST, 0);
    r.mint_account = key(35);
    assert_eq!(mint_token(&mut reg, r, 1, 100), Err(ControllerError::PolicyNotFound));
}

#[test]
fn mint_scales_by_decimals() {
    let mut reg = setup(1000, 10);
    allow(&mut reg, DEST).unwrap();
    let (event, order) = mint_token(&mut reg, request(AUTH, DEST, 6), 25, 100).unwrap();
    assert_eq!(event.amount, 25);
    assert_eq!(order.amount, 25_000_000);
}

#[test]
fn mint_overflowing_base_units_changes_nothing() {
    let mut reg = setup(1000, 10);
    allow(&mut reg, DEST).unwrap();
    assert_eq!(mint_token(&mut reg, request(AUTH, DEST, 19), 1000, 100), Err(ControllerError::AmountOverflow));
    let m = reg.get_minter(key(AUTH), key(ASSET)).unwrap();
    assert_eq!(m.rate_limit.remaining_amount, 0);
    assert_eq!(m.rate_limit.last_refill_time, 0);
}

#[test]
fn scale_amount_values() {
    assert_eq!(scale_amount(7, 0), Some(7));
    assert_eq!(scale_amount(7, 3), Some(7000));
    assert_eq!(scale_amount(0, 200), Some(0));
    assert_eq!(scale_amount(1, 19), Some(10_000_000_000_000_000_000));
    assert_eq!(scale_amount(2, 19), None);
    assert_eq!(scale_amount(1, 20), None);
}
