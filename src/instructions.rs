use vstd::prelude::*;
use crate::pubkey::Pubkey;
use crate::rate_limit::{available, consumed, refilled, LimitError, RateLimit};
use crate::state::{Minter, Registry, RegistryModel, WhitelistedAddress};
use crate::units::{scale_amount, scaled};

verus! {

/// Why an instruction was refused.
#[derive(Clone, Copy, Debug, PartialEq, Eq, Structural)]
pub enum ControllerError {
    /// The signer lacks the role the instruction needs.
    Unauthorized,
    /// No policy exists for (authority, asset).
    PolicyNotFound,
    /// The allow-list entry to remove does not exist.
    NotFound,
    /// The policy or allow-list entry to create exists already.
    AlreadyExists,
    /// No admin transfer is pending.
    NoTransferPending,
    /// The amount exceeds the tokens currently available.
    LimitExceeded,
    /// The destination is not allow-listed.
    DestinationNotAllowed,
    /// The amount in base units does not fit in 64 bits.
    AmountOverflow,
}

// Signers and records named by each instruction.

#[derive(Clone, Copy, Debug, PartialEq, Eq, Structural)]
pub struct AddMinter {
    pub admin: Pubkey,
    pub minter_authority: Pubkey,
    pub mint_account: Pubkey,
}

#[derive(Clone, Copy, Debug, PartialEq, Eq, Structural)]
pub struct UpdateRateLimit {
    pub admin: Pubkey,
    pub minter_authority: Pubkey,
    pub mint_account: Pubkey,
}

#[derive(Clone, Copy, Debug, PartialEq, Eq, Structural)]
pub struct StartAdminTransfer {
    pub admin: Pubkey,
    pub minter_authority: Pubkey,
    pub mint_account: Pubkey,
}

#[derive(Clone, Copy, Debug, PartialEq, Eq, Structural)]
pub struct AcceptAdminTransfer {
    pub pending_admin: Pubkey,
    pub minter_authority: Pubkey,
    pub mint_account: Pubkey,
}

#[derive(Clone, Copy, Debug, PartialEq, Eq, Structural)]
pub struct AddWhitelistedAddress {
    pub admin: Pubkey,
    pub minter_authority: Pubkey,
    pub mint_account: Pubkey,
    pub to_address: Pubkey,
}

#[derive(Clone, Copy, Debug, PartialEq, Eq, Structural)]
pub struct RemoveWhitelistedAddress {
    pub admin: Pubkey,
    pub minter_authority: Pubkey,
    pub mint_account: Pubkey,
    pub to_address: Pubkey,
}

#[derive(Clone, Copy, Debug, PartialEq, Eq, Structural)]
pub struct GetRemainingAmount {
    pub minter_authority: Pubkey,
    pub mint_account: Pubkey,
}

/// `caller` is the signer; `decimals` is the asset's unit precision.
#[derive(Clone, Copy, Debug, PartialEq, Eq, Structural)]
pub struct MintToken {
    pub caller: Pubkey,
    pub minter_authority: Pubkey,
    pub mint_account: Pubkey,
    pub mint_multisig: Pubkey,
    pub to_address: Pubkey,
    pub decimals: u8,
}

// Notifications for observers.

#[derive(Clone, Copy, Debug, PartialEq, Eq, Structural)]
pub struct MinterAdded {
    pub minter_authority: Pubkey,
    pub mint_account: Pubkey,
    pub admin: Pubkey,
    pub capacity: u64,
    pub refill_per_second: u64,
}

#[derive(Clone, Copy, Debug, PartialEq, Eq, Structural)]
pub struct RateLimitUpdated {
    pub minter_authority: Pubkey,
    pub mint_account: Pubkey,
    pub capacity: u64,
    pub refill_per_second: u64,
}

#[derive(Clone, Copy, Debug, PartialEq, Eq, Structural)]
pub struct AdminTransferStarted {
    pub minter_authority: Pubkey,
    pub mint_account: Pubkey,
    pub pending_admin: Pubkey,
}

#[derive(Clone, Copy, Debug, PartialEq, Eq, Structural)]
pub struct AdminTransferAccepted {
    pub minter_authority: Pubkey,
    pub mint_account: Pubkey,
    pub admin: Pubkey,
}

#[derive(Clone, Copy, Debug, PartialEq, Eq, Structural)]
pub struct WhitelistedAddressAdded {
    pub minter_authority: Pubkey,
    pub mint_account: Pubkey,
    pub to_address: Pubkey,
}

#[derive(Clone, Copy, Debug, PartialEq, Eq, Structural)]
pub struct WhitelistedAddressRemoved {
    pub minter_authority: Pubkey,
    pub mint_account: Pubkey,
    pub to_address: Pubkey,
}

#[derive(Clone, Copy, Debug, PartialEq, Eq, Structural)]
pub struct TokensMinted {
    pub minter_authority: Pubkey,
    pub mint_account: Pubkey,
    pub amount: u64,
}

/// The ledger mint that an authorized request calls for: `amount` base units
/// of `mint_account` to `to_address`, countersigned by `mint_multisig`, with
/// the policy of `minter_authority` as signer.
#[derive(Clone, Copy, Debug, PartialEq, Eq, Structural)]
pub struct MintOrder {
    pub minter_authority: Pubkey,
    pub mint_account: Pubkey,
    pub mint_multisig: Pubkey,
    pub to_address: Pubkey,
    pub amount: u64,
}

/// The error of an admin-only instruction on policy `k` signed by `signer`,
/// if the signer may not run it.
pub open spec fn admin_check(r: RegistryModel, k: (Pubkey, Pubkey), signer: Pubkey) -> Option<ControllerError> {
    if !r.minters.contains_key(k) {
        Some(ControllerError::PolicyNotFound)
    } else if r.minters[k].admin != signer {
        Some(ControllerError::Unauthorized)
    } else {
        None
    }
}

pub open spec fn with_minter(r: RegistryModel, m: Minter) -> RegistryModel {
    RegistryModel { minters: r.minters.insert((m.minter_authority, m.mint_account), m), whitelist: r.whitelist }
}

pub open spec fn add_minter_step(r: RegistryModel, a: AddMinter, capacity: u64, refill_per_second: u64)
    -> (RegistryModel, Result<MinterAdded, ControllerError>)
{
    let k = (a.minter_authority, a.mint_account);
    if r.minters.contains_key(k) {
        (r, Err(ControllerError::AlreadyExists))
    } else {
        let m = Minter {
            minter_authority: a.minter_authority,
            mint_account: a.mint_account,
            admin: a.admin,
            pending_admin: None,
            rate_limit: RateLimit {
                capacity,
                remaining_amount: 0,
                refill_per_second,
                last_refill_time: 0,
            },
        };
        (with_minter(r, m), Ok(MinterAdded {
            minter_authority: a.minter_authority,
            mint_account: a.mint_account,
            admin: a.admin,
            capacity,
            refill_per_second,
        }))
    }
}

pub open spec fn update_rate_limit_step(r: RegistryModel, a: UpdateRateLimit, capacity: u64, refill_per_second: u64)
    -> (RegistryModel, Result<RateLimitUpdated, ControllerError>)
{
    let k = (a.minter_authority, a.mint_account);
    match admin_check(r, k, a.admin) {
        Some(e) => (r, Err(e)),
        None => {
            let m = r.minters[k];
            let rl = RateLimit { capacity, refill_per_second, ..m.rate_limit };
            (with_minter(r, Minter { rate_limit: rl, ..m }), Ok(RateLimitUpdated {
                minter_authority: a.minter_authority,
                mint_account: a.mint_account,
                capacity,
                refill_per_second,
            }))
        },
    }
}

/// Nominating the current admin changes nothing.
pub open spec fn start_admin_transfer_step(r: RegistryModel, a: StartAdminTransfer, pending_admin: Pubkey)
    -> (RegistryModel, Result<AdminTransferStarted, ControllerError>)
{
    let k = (a.minter_authority, a.mint_account);
    match admin_check(r, k, a.admin) {
        Some(e) => (r, Err(e)),
        None => {
            let m = r.minters[k];
            let event = AdminTransferStarted {
                minter_authority: a.minter_authority,
                mint_account: a.mint_account,
                pending_admin,
            };
            if pending_admin == m.admin {
                (r, Ok(event))
            } else {
                (with_minter(r, Minter { pending_admin: Some(pending_admin), ..m }), Ok(event))
            }
        },
    }
}

pub open spec fn accept_admin_transfer_step(r: RegistryModel, a: AcceptAdminTransfer)
    -> (RegistryModel, Result<AdminTransferAccepted, ControllerError>)
{
    let k = (a.minter_authority, a.mint_account);
    if !r.minters.contains_key(k) {
        (r, Err(ControllerError::PolicyNotFound))
    } else if r.minters[k].pending_admin is None {
        (r, Err(ControllerError::NoTransferPending))
    } else if r.minters[k].pending_admin != Some(a.pending_admin) {
        (r, Err(ControllerError::Unauthorized))
    } else {
        let m = r.minters[k];
        (with_minter(r, Minter { admin: a.pending_admin, pending_admin: None, ..m }), Ok(AdminTransferAccepted {
            minter_authority: a.minter_authority,
            mint_account: a.mint_account,
            admin: a.pending_admin,
        }))
    }
}

pub open spec fn add_whitelisted_address_step(r: RegistryModel, a: AddWhitelistedAddress)
    -> (RegistryModel, Result<WhitelistedAddressAdded, ControllerError>)
{
    let k = (a.minter_authority, a.mint_account);
    let e = (a.minter_authority, a.mint_account, a.to_address);
    match admin_check(r, k, a.admin) {
        Some(err) => (r, Err(err)),
        None => if r.whitelist.contains(e) {
            (r, Err(ControllerError::AlreadyExists))
        } else {
            (RegistryModel { minters: r.minters, whitelist: r.whitelist.insert(e) }, Ok(WhitelistedAddressAdded {
                minter_authority: a.minter_authority,
                mint_account: a.mint_account,
                to_address: a.to_address,
            }))
        },
    }
}

pub open spec fn remove_whitelisted_address_step(r: RegistryModel, a: RemoveWhitelistedAddress)
    -> (RegistryModel, Result<WhitelistedAddressRemoved, ControllerError>)
{
    let k = (a.minter_authority, a.mint_account);
    let e = (a.minter_authority, a.mint_account, a.to_address);
    match admin_check(r, k, a.admin) {
        Some(err) => (r, Err(err)),
        None => if !r.whitelist.contains(e) {
            (r, Err(ControllerError::NotFound))
        } else {
            (RegistryModel { minters: r.minters, whitelist: r.whitelist.remove(e) }, Ok(WhitelistedAddressRemoved {
                minter_authority: a.minter_authority,
                mint_account: a.mint_account,
                to_address: a.to_address,
            }))
        },
    }
}

pub open spec fn remaining_amount_of(r: RegistryModel, a: GetRemainingAmount, timestamp: u64) -> Result<u64, ControllerError> {
    let k = (a.minter_authority, a.mint_account);
    if !r.minters.contains_key(k) {
        Err(ControllerError::PolicyNotFound)
    } else {
        Ok(available(r.minters[k].rate_limit, timestamp))
    }
}

/// A mint request: the policy must exist, the caller must be its minting
/// authority and the destination allow-listed; then the bucket is consumed
/// (a refused consumption still commits its refill), and the order is
/// issued when its amount in base units fits in 64 bits (else nothing
/// changes).
pub open spec fn mint_token_step(r: RegistryModel, a: MintToken, amount: u64, current_time: u64)
    -> (RegistryModel, Result<(TokensMinted, MintOrder), ControllerError>)
{
    let k = (a.minter_authority, a.mint_account);
    if !r.minters.contains_key(k) {
        (r, Err(ControllerError::PolicyNotFound))
    } else if a.caller != a.minter_authority {
        (r, Err(ControllerError::Unauthorized))
    } else if !r.whitelist.contains((a.minter_authority, a.mint_account, a.to_address)) {
        (r, Err(ControllerError::DestinationNotAllowed))
    } else {
        let m = r.minters[k];
        let (rl, res) = consumed(m.rate_limit, amount, current_time);
        if res is Err {
            (with_minter(r, Minter { rate_limit: rl, ..m }), Err(ControllerError::LimitExceeded))
        } else {
            match scaled(amount, a.decimals) {
                None => (r, Err(ControllerError::AmountOverflow)),
                Some(base) => (with_minter(r, Minter { rate_limit: rl, ..m }), Ok((
                    TokensMinted { minter_authority: a.minter_authority, mint_account: a.mint_account, amount },
                    MintOrder {
                        minter_authority: a.minter_authority,
                        mint_account: a.mint_account,
                        mint_multisig: a.mint_multisig,
                        to_address: a.to_address,
                        amount: base,
                    },
                ))),
            }
        }
    }
}

/// Creates the policy for (authority, asset) with an empty bucket.
pub fn add_minter(reg: &mut Registry, a: AddMinter, capacity: u64, refill_per_second: u64)
    -> (r: Result<MinterAdded, ControllerError>)
    requires
        old(reg).wf(),
    ensures
        final(reg).wf(),
        (final(reg)@, r) == add_minter_step(old(reg)@, a, capacity, refill_per_second),
{
    if reg.get_minter(a.minter_authority, a.mint_account).is_some() {
        return Err(ControllerError::AlreadyExists);
    }
    let m = Minter {
        minter_authority: a.minter_authority,
        mint_account: a.mint_account,
        admin: a.admin,
        pending_admin: None,
        rate_limit: RateLimit::new(capacity, refill_per_second),
    };
    reg.put_minter(m);
    Ok(MinterAdded {
        minter_authority: a.minter_authority,
        mint_account: a.mint_account,
        admin: a.admin,
        capacity,
        refill_per_second,
    })
}

/// The policy for (authority, asset) when `signer` is its admin.
fn policy_for_admin(reg: &Registry, minter_authority: Pubkey, mint_account: Pubkey, signer: Pubkey) -> (r: Result<Minter, ControllerError>)
    requires
        reg.wf(),
    ensures
        match admin_check(reg@, (minter_authority, mint_account), signer) {
            Some(e) => r == Err::<Minter, ControllerError>(e),
            None => r == Ok::<Minter, ControllerError>(reg@.minters[(minter_authority, mint_account)]),
        },
        r is Ok ==> r->Ok_0.wf() && r->Ok_0.minter_authority == minter_authority
            && r->Ok_0.mint_account == mint_account,
{
    match reg.get_minter(minter_authority, mint_account) {
        None => Err(ControllerError::PolicyNotFound),
        Some(m) => if m.admin == signer {
            Ok(m)
        } else {
            Err(ControllerError::Unauthorized)
        },
    }
}

/// Overwrites capacity and refill rate; balance and clock are kept.
pub fn update_rate_limit(reg: &mut Registry, a: UpdateRateLimit, capacity: u64, refill_per_second: u64)
    -> (r: Result<RateLimitUpdated, ControllerError>)
    requires
        old(reg).wf(),
    ensures
        final(reg).wf(),
        (final(reg)@, r) == update_rate_limit_step(old(reg)@, a, capacity, refill_per_second),
{
    let mut m = match policy_for_admin(reg, a.minter_authority, a.mint_account, a.admin) {
        Ok(m) => m,
        Err(e) => return Err(e),
    };
    m.rate_limit.capacity = capacity;
    m.rate_limit.refill_per_second = refill_per_second;
    reg.put_minter(m);
    Ok(RateLimitUpdated { minter_authority: a.minter_authority, mint_account: a.mint_account, capacity, refill_per_second })
}

/// Nominates `pending_admin` as the next admin, replacing any earlier nominee.
pub fn start_admin_transfer(reg: &mut Registry, a: StartAdminTransfer, pending_admin: Pubkey)
    -> (r: Result<AdminTransferStarted, ControllerError>)
    requires
        old(reg).wf(),
    ensures
        final(reg).wf(),
        (final(reg)@, r) == start_admin_transfer_step(old(reg)@, a, pending_admin),
{
    let mut m = match policy_for_admin(reg, a.minter_authority, a.mint_account, a.admin) {
        Ok(m) => m,
        Err(e) => return Err(e),
    };
    if pending_admin != m.admin {
        m.pending_admin = Some(pending_admin);
        reg.put_minter(m);
    }
    Ok(AdminTransferStarted { minter_authority: a.minter_authority, mint_account: a.mint_account, pending_admin })
}

/// The nominee takes over as admin.
pub fn accept_admin_transfer(reg: &mut Registry, a: AcceptAdminTransfer)
    -> (r: Result<AdminTransferAccepted, ControllerError>)
    requires
        old(reg).wf(),
    ensures
        final(reg).wf(),
        (final(reg)@, r) == accept_admin_transfer_step(old(reg)@, a),
{
    let mut m = match reg.get_minter(a.minter_authority, a.mint_account) {
        Some(m) => m,
        None => return Err(ControllerError::PolicyNotFound),
    };
    match m.pending_admin {
        None => return Err(ControllerError::NoTransferPending),
        Some(p) => if p != a.pending_admin {
            return Err(ControllerError::Unauthorized);
        },
    }
    m.admin = a.pending_admin;
    m.pending_admin = None;
    reg.put_minter(m);
    Ok(AdminTransferAccepted { minter_authority: a.minter_authority, mint_account: a.mint_account, admin: a.pending_admin })
}

/// Allow-lists a destination for the policy.
pub fn add_whitelisted_address(reg: &mut Registry, a: AddWhitelistedAddress)
    -> (r: Result<WhitelistedAddressAdded, ControllerError>)
    requires
        old(reg).wf(),
    ensures
        final(reg).wf(),
        (final(reg)@, r) == add_whitelisted_address_step(old(reg)@, a),
{
    match policy_for_admin(reg, a.minter_authority, a.mint_account, a.admin) {
        Ok(_) => {},
        Err(e) => return Err(e),
    }
    if reg.is_permitted(a.minter_authority, a.mint_account, a.to_address) {
        return Err(ControllerError::AlreadyExists);
    }
    reg.add_entry(WhitelistedAddress {
        minter_authority: a.minter_authority,
        mint_account: a.mint_account,
        to_address: a.to_address,
    });
    Ok(WhitelistedAddressAdded { minter_authority: a.minter_authority, mint_account: a.mint_account, to_address: a.to_address })
}

/// Takes a destination off the allow-list.
pub fn remove_whitelisted_address(reg: &mut Registry, a: RemoveWhitelistedAddress)
    -> (r: Result<WhitelistedAddressRemoved, ControllerError>)
    requires
        old(reg).wf(),
    ensures
        final(reg).wf(),
        (final(reg)@, r) == remove_whitelisted_address_step(old(reg)@, a),
{
    match policy_for_admin(reg, a.minter_authority, a.mint_account, a.admin) {
        Ok(_) => {},
        Err(e) => return Err(e),
    }
    if !reg.is_permitted(a.minter_authority, a.mint_account, a.to_address) {
        return Err(ControllerError::NotFound);
    }
    reg.remove_entry(a.minter_authority, a.mint_account, a.to_address);
    Ok(WhitelistedAddressRemoved { minter_authority: a.minter_authority, mint_account: a.mint_account, to_address: a.to_address })
}

/// The balance the policy's bucket would hold at `timestamp`; nothing changes.
pub fn get_remaining_amount(reg: &Registry, a: GetRemainingAmount, timestamp: u64) -> (r: Result<u64, ControllerError>)
    requires
        reg.wf(),
    ensures
        r == remaining_amount_of(reg@, a, timestamp),
{
    match reg.get_minter(a.minter_authority, a.mint_account) {
        Some(m) => Ok(m.rate_limit.refill(timestamp)),
        None => Err(ControllerError::PolicyNotFound),
    }
}

/// Decides a mint request at `current_time` and, when it is granted, returns
/// the notification and the ledger order to carry out.
pub fn mint_token(reg: &mut Registry, a: MintToken, amount: u64, current_time: u64)
    -> (r: Result<(TokensMinted, MintOrder), ControllerError>)
    requires
        old(reg).wf(),
    ensures
        final(reg).wf(),
        (final(reg)@, r) == mint_token_step(old(reg)@, a, amount, current_time),
{
    let mut m = match reg.get_minter(a.minter_authority, a.mint_account) {
        Some(m) => m,
        None => return Err(ControllerError::PolicyNotFound),
    };
    if a.caller != a.minter_authority {
        return Err(ControllerError::Unauthorized);
    }
    if !reg.is_permitted(a.minter_authority, a.mint_account, a.to_address) {
        return Err(ControllerError::DestinationNotAllowed);
    }
    let base = scale_amount(amount, a.decimals);
    match m.rate_limit.check_limit(amount, current_time) {
        Err(LimitError::LimitExceeded) => {
            reg.put_minter(m);
            Err(ControllerError::LimitExceeded)
        },
        Ok(_) => match base {
            None => Err(ControllerError::AmountOverflow),
            Some(base) => {
                reg.put_minter(m);
                Ok((
                    TokensMinted { minter_authority: a.minter_authority, mint_account: a.mint_account, amount },
                    MintOrder {
                        minter_authority: a.minter_authority,
                        mint_account: a.mint_account,
                        mint_multisig: a.mint_multisig,
                        to_address: a.to_address,
                        amount: base,
                    },
                ))
            },
        },
    }
}

} // verus!
