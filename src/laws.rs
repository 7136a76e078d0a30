use vstd::prelude::*;
use crate::pubkey::Pubkey;
use crate::rate_limit::available;
use crate::state::RegistryModel;
use crate::units::scaled;
use crate::instructions::{
    accept_admin_transfer_step, add_minter_step, add_whitelisted_address_step, mint_token_step,
    start_admin_transfer_step, AcceptAdminTransfer, AddMinter, AddWhitelistedAddress,
    AdminTransferAccepted, ControllerError, MintOrder, MintToken, MinterAdded, StartAdminTransfer,
    TokensMinted, WhitelistedAddressAdded,
};

verus! {

/// Handing over administration round-trips: once the admin nominates a
/// different identity, that nominee's acceptance makes it the admin with no
/// transfer pending, while anyone else's acceptance is refused as
/// unauthorized and changes nothing.
pub proof fn lemma_admin_handoff_round_trip(r: RegistryModel, a: StartAdminTransfer, nominee: Pubkey, other: Pubkey)
    requires
        r.wf(),
        r.minters.contains_key((a.minter_authority, a.mint_account)),
        r.minters[(a.minter_authority, a.mint_account)].admin == a.admin,
        nominee != a.admin,
        other != nominee,
    ensures
        ({
            let k = (a.minter_authority, a.mint_account);
            let (r1, started) = start_admin_transfer_step(r, a, nominee);
            let accept = AcceptAdminTransfer {
                pending_admin: nominee,
                minter_authority: a.minter_authority,
                mint_account: a.mint_account,
            };
            let (r2, accepted) = accept_admin_transfer_step(r1, accept);
            &&& started is Ok
            &&& accepted is Ok
            &&& r2.minters[k].admin == nominee
            &&& r2.minters[k].pending_admin is None
            &&& r2.minters[k].rate_limit == r.minters[k].rate_limit
            &&& r2.whitelist == r.whitelist
            &&& accept_admin_transfer_step(r1, AcceptAdminTransfer { pending_admin: other, ..accept })
                == (r1, Err::<AdminTransferAccepted, ControllerError>(ControllerError::Unauthorized))
        }),
{
}

/// Allow-listing is necessary: a request by the minting authority to a
/// destination that is not allow-listed is refused as such, whatever the
/// bucket holds, and changes nothing.
pub proof fn lemma_mint_needs_allow_list(r: RegistryModel, a: MintToken, amount: u64, current_time: u64)
    requires
        r.minters.contains_key((a.minter_authority, a.mint_account)),
        a.caller == a.minter_authority,
        !r.whitelist.contains((a.minter_authority, a.mint_account, a.to_address)),
    ensures
        mint_token_step(r, a, amount, current_time)
            == (r, Err::<(TokensMinted, MintOrder), ControllerError>(ControllerError::DestinationNotAllowed)),
{
}

/// Allow-listing is not sufficient: with no tokens available, a request for
/// a positive amount to an allow-listed destination is refused for the
/// limit.
pub proof fn lemma_mint_needs_capacity(r: RegistryModel, a: MintToken, amount: u64, current_time: u64)
    requires
        r.minters.contains_key((a.minter_authority, a.mint_account)),
        a.caller == a.minter_authority,
        r.whitelist.contains((a.minter_authority, a.mint_account, a.to_address)),
        available(r.minters[(a.minter_authority, a.mint_account)].rate_limit, current_time) == 0,
        amount > 0,
    ensures
        mint_token_step(r, a, amount, current_time).1
            == Err::<(TokensMinted, MintOrder), ControllerError>(ControllerError::LimitExceeded),
{
}

/// Together they suffice: a request by the minting authority to an
/// allow-listed destination, within the available tokens and with an amount
/// whose base units fit, is granted and debits exactly that amount.
pub proof fn lemma_mint_granted(r: RegistryModel, a: MintToken, amount: u64, current_time: u64)
    requires
        r.wf(),
        r.minters.contains_key((a.minter_authority, a.mint_account)),
        a.caller == a.minter_authority,
        r.whitelist.contains((a.minter_authority, a.mint_account, a.to_address)),
        amount <= available(r.minters[(a.minter_authority, a.mint_account)].rate_limit, current_time),
        scaled(amount, a.decimals) is Some,
    ensures
        ({
            let k = (a.minter_authority, a.mint_account);
            let (r1, res) = mint_token_step(r, a, amount, current_time);
            &&& res is Ok
            &&& res->Ok_0.1.amount == scaled(amount, a.decimals)->Some_0
            &&& r1.minters[k].rate_limit.remaining_amount
                == available(r.minters[k].rate_limit, current_time) - amount
            &&& r1.minters[k].rate_limit.last_refill_time == current_time
        }),
{
}

/// A policy cannot be created twice: after a creation for (authority,
/// asset), any further creation for that pair is refused as existing and
/// changes nothing.
pub proof fn lemma_duplicate_policy_refused(
    r: RegistryModel,
    a: AddMinter,
    capacity: u64,
    refill_per_second: u64,
    b: AddMinter,
    capacity2: u64,
    refill_per_second2: u64,
)
    requires
        b.minter_authority == a.minter_authority,
        b.mint_account == a.mint_account,
    ensures
        ({
            let r1 = add_minter_step(r, a, capacity, refill_per_second).0;
            add_minter_step(r1, b, capacity2, refill_per_second2)
                == (r1, Err::<MinterAdded, ControllerError>(ControllerError::AlreadyExists))
        }),
{
}

/// An allow-list entry cannot be added twice: once an addition succeeds,
/// repeating it is refused as existing and changes nothing.
pub proof fn lemma_duplicate_entry_refused(r: RegistryModel, a: AddWhitelistedAddress)
    requires
        add_whitelisted_address_step(r, a).1 is Ok,
    ensures
        ({
            let r1 = add_whitelisted_address_step(r, a).0;
            add_whitelisted_address_step(r1, a)
                == (r1, Err::<WhitelistedAddressAdded, ControllerError>(ControllerError::AlreadyExists))
        }),
{
}

} // verus!
