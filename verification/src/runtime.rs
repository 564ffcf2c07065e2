use vstd::prelude::*;

use pinocchio::AccountView;
use pinocchio::Address;
use pinocchio::Resize;
use pinocchio::cpi::Seed;
use pinocchio::cpi::Signer;
use pinocchio::sysvars::Sysvar;
use pinocchio::sysvars::rent::Rent;

use crate::error::EscrowError;

verus! {

#[verifier::external_type_specification]
#[verifier::external_body]
pub struct ExAccountView(AccountView);

/// The deterministic program-derived address for the seed tuple
/// `(tag, maker, seed-bytes, bump)` under the program `program`: a
/// pure SHA-256 digest of those inputs, the same on every machine.
pub uninterp spec fn pda_of(program: Seq<u8>, tag: Seq<u8>, maker: Seq<u8>, seed: u64, bump: u8) -> Seq<u8>;

/// The proof byte that the derivation scan settles on for the seed
/// tuple `(tag, maker, seed-bytes)` under `program`: the scan walks
/// proof bytes downward from 255 and takes the first whose derived
/// address is free of external-key ownership, a deterministic
/// function of the named inputs alone; `None` when no proof byte
/// yields such an address.
pub uninterp spec fn pda_bump_of(program: Seq<u8>, tag: Seq<u8>, maker: Seq<u8>, seed: u64) -> Option<u8>;

/// Relies on AccountView::address: the account's 32-byte address.
#[verifier::external_body]
pub(crate) fn account_key(a: &AccountView) -> (r: [u8; 32]) {
    *a.address().as_array()
}

/// Relies on AccountView::owned_by, with pinocchio_token's program ID:
/// whether the token-ledger sub-service owns the account.
#[verifier::external_body]
pub(crate) fn account_owned_by_token_program(a: &AccountView) -> (r: bool) {
    a.owned_by(&pinocchio_token::ID)
}

/// Relies on AccountView::is_signer: whether the account's owner
/// signed the current instruction.
#[verifier::external_body]
pub(crate) fn account_is_signer(a: &AccountView) -> (r: bool) {
    a.is_signer()
}

/// Relies on AccountView::data_len: the stored size of the account.
#[verifier::external_body]
pub(crate) fn account_data_len(a: &AccountView) -> (r: usize) {
    a.data_len()
}

/// Relies on AccountView::lamports: the account's native balance.
#[verifier::external_body]
pub(crate) fn account_lamports(a: &AccountView) -> (r: u64) {
    a.lamports()
}

/// Relies on AccountView::set_lamports: overwrites the account's
/// native balance with the given value.
#[verifier::external_body]
pub(crate) fn account_set_lamports(a: &mut AccountView, lamports: u64) {
    a.set_lamports(lamports);
}

/// Relies on AccountView::try_borrow: a copy of the account's data,
/// or an error while the data is exclusively borrowed.
#[verifier::external_body]
pub(crate) fn read_account_data(a: &AccountView) -> (r: Result<Vec<u8>, EscrowError>) {
    match a.try_borrow() {
        Ok(d) => Ok(d.to_vec()),
        Err(_) => Err(EscrowError::LedgerFailure),
    }
}

/// Relies on AccountView::try_borrow_mut: overwrites the account's
/// data with `bytes`; fails rather than write when the stored size
/// differs from the image or the data is already borrowed.
#[verifier::external_body]
pub(crate) fn write_account_data(a: &mut AccountView, bytes: &[u8]) -> (r: Result<
    (),
    EscrowError,
>) {
    match a.try_borrow_mut() {
        Ok(mut d) => {
            if d.len() != bytes.len() {
                return Err(EscrowError::LedgerFailure);
            }
            d.copy_from_slice(bytes);
            Ok(())
        },
        Err(_) => Err(EscrowError::LedgerFailure),
    }
}

/// Relies on pinocchio's Resize::resize: truncates or zero-extends
/// the account's data to the given size.
#[verifier::external_body]
pub(crate) fn account_resize(a: &mut AccountView, new_len: usize) -> (r: Result<
    (),
    EscrowError,
>) {
    match a.resize(new_len) {
        Ok(()) => Ok(()),
        Err(_) => Err(EscrowError::LedgerFailure),
    }
}

/// Relies on AccountView::close: zeroes the account's data length,
/// native balance and owner, closing it; its balance must have been
/// moved out beforehand.
#[verifier::external_body]
pub(crate) fn account_close(a: &mut AccountView) -> (r: Result<(), EscrowError>) {
    match a.close() {
        Ok(()) => Ok(()),
        Err(_) => Err(EscrowError::LedgerFailure),
    }
}

/// Relies on Rent::get and Rent::try_minimum_balance: the smallest
/// reserve the ledger demands for an account of the given size.
#[verifier::external_body]
pub(crate) fn rent_minimum_balance(size: usize) -> (r: Result<u64, EscrowError>) {
    match Rent::get() {
        Ok(rent) => match rent.try_minimum_balance(size) {
            Ok(v) => Ok(v),
            Err(_) => Err(EscrowError::LedgerFailure),
        },
        Err(_) => Err(EscrowError::LedgerFailure),
    }
}

/// Relies on Address::derive_program_address: iterates proof bytes
/// downward from 255 and returns the first derived address that no
/// external key can own, together with the proof byte that produced
/// it — a deterministic function of its inputs, named by
/// `pda_bump_of`; the address equals the derivation for that very
/// proof byte.
#[verifier::external_body]
pub(crate) fn find_record_address(
    program: &[u8],
    tag: &[u8],
    maker: &[u8; 32],
    seed: u64,
) -> (r: Option<([u8; 32], u8)>)
    requires
        program@.len() == 32,
        tag@.len() <= 32,
    ensures
        r is Some <==> pda_bump_of(program@, tag@, maker@, seed) is Some,
        r matches Some(p) ==> Some(p.1) == pda_bump_of(program@, tag@, maker@, seed) && p.0@
            == pda_of(program@, tag@, maker@, seed, p.1),
{
    let seed_le = seed.to_le_bytes();
    let seeds: [&[u8]; 3] = [tag, maker.as_slice(), seed_le.as_slice()];
    let id = Address::new_from_array(program.try_into().unwrap());
    match Address::derive_program_address(&seeds, &id) {
        Some((a, bump)) => Some((*a.as_array(), bump)),
        None => None,
    }
}

/// Relies on Address::derive_address: the deterministic derivation of
/// `(tag, maker, seed-bytes, bump)` under `program`, computed without
/// checking that the result is off-curve.
#[verifier::external_body]
pub(crate) fn compute_record_address(
    program: &[u8],
    tag: &[u8],
    maker: &[u8; 32],
    seed: u64,
    bump: u8,
) -> (r: [u8; 32])
    requires
        program@.len() == 32,
        tag@.len() <= 32,
    ensures
        r@ == pda_of(program@, tag@, maker@, seed, bump),
{
    let seed_le = seed.to_le_bytes();
    let seeds: [&[u8]; 3] = [tag, maker.as_slice(), seed_le.as_slice()];
    let id = Address::new_from_array(program.try_into().unwrap());
    *Address::derive_address(&seeds, Some(bump), &id).as_array()
}

/// Relies on pinocchio_system's CreateAccount::invoke_signed:
/// delegates to the account-creation service to allocate `to` with
/// the given size and reserve, owned by `owner`, signed with the
/// derivation capability for `(tag, maker, seed-bytes, bump)`.
#[verifier::external_body]
pub(crate) fn create_record_account(
    from: &AccountView,
    to: &AccountView,
    lamports: u64,
    space: u64,
    owner: &[u8],
    tag: &[u8],
    maker: &[u8; 32],
    seed: u64,
    bump: u8,
) -> (r: Result<(), EscrowError>)
    requires
        owner@.len() == 32,
{
    let id = Address::new_from_array(owner.try_into().unwrap());
    let seed_le = seed.to_le_bytes();
    let bump_arr = [bump];
    let seeds = [
        Seed::from(tag),
        Seed::from(maker.as_slice()),
        Seed::from(seed_le.as_slice()),
        Seed::from(bump_arr.as_slice()),
    ];
    let signer = [Signer::from(seeds.as_slice())];
    let ix = pinocchio_system::instructions::CreateAccount { from, to, lamports, space, owner: &id };
    match ix.invoke_signed(signer.as_slice()) {
        Ok(()) => Ok(()),
        Err(_) => Err(EscrowError::LedgerFailure),
    }
}

/// Relies on pinocchio_associated_token_account's Create::invoke:
/// delegates creation of the token-holding account `account` for
/// `wallet` and `mint`, funded by `funding`.
#[verifier::external_body]
pub(crate) fn create_holding_account(
    funding: &AccountView,
    account: &AccountView,
    wallet: &AccountView,
    mint: &AccountView,
    system_program: &AccountView,
    token_program: &AccountView,
) -> (r: Result<(), EscrowError>) {
    let ix = pinocchio_associated_token_account::instructions::Create {
        funding_account: funding,
        account,
        wallet,
        mint,
        system_program,
        token_program,
    };
    match ix.invoke() {
        Ok(()) => Ok(()),
        Err(_) => Err(EscrowError::LedgerFailure),
    }
}

/// Relies on pinocchio_associated_token_account's
/// CreateIdempotent::invoke: as Create, but succeeds silently when
/// the token-holding account already exists.
#[verifier::external_body]
pub(crate) fn create_holding_account_idempotent(
    funding: &AccountView,
    account: &AccountView,
    wallet: &AccountView,
    mint: &AccountView,
    system_program: &AccountView,
    token_program: &AccountView,
) -> (r: Result<(), EscrowError>) {
    let ix = pinocchio_associated_token_account::instructions::CreateIdempotent {
        funding_account: funding,
        account,
        wallet,
        mint,
        system_program,
        token_program,
    };
    match ix.invoke() {
        Ok(()) => Ok(()),
        Err(_) => Err(EscrowError::LedgerFailure),
    }
}

/// Relies on pinocchio_token's Transfer::invoke: delegates to the
/// token ledger to move `amount` units from `from` to `to`, under the
/// signature of `authority`.
#[verifier::external_body]
pub(crate) fn token_transfer(
    from: &AccountView,
    to: &AccountView,
    authority: &AccountView,
    amount: u64,
) -> (r: Result<(), EscrowError>) {
    let ix: pinocchio_token::instructions::Transfer<&AccountView> =
        pinocchio_token::instructions::Transfer::new(from, to, authority, amount);
    match ix.invoke() {
        Ok(()) => Ok(()),
        Err(_) => Err(EscrowError::LedgerFailure),
    }
}

/// Relies on pinocchio_token's Transfer::invoke_signed: as
/// token_transfer, but authorized by the derivation capability for
/// `(tag, maker, seed-bytes, bump)` instead of a personal signature.
#[verifier::external_body]
pub(crate) fn token_transfer_signed(
    from: &AccountView,
    to: &AccountView,
    authority: &AccountView,
    amount: u64,
    tag: &[u8],
    maker: &[u8; 32],
    seed: u64,
    bump: u8,
) -> (r: Result<(), EscrowError>) {
    let seed_le = seed.to_le_bytes();
    let bump_arr = [bump];
    let seeds = [
        Seed::from(tag),
        Seed::from(maker.as_slice()),
        Seed::from(seed_le.as_slice()),
        Seed::from(bump_arr.as_slice()),
    ];
    let signer = [Signer::from(seeds.as_slice())];
    let ix: pinocchio_token::instructions::Transfer<&AccountView> =
        pinocchio_token::instructions::Transfer::new(from, to, authority, amount);
    match ix.invoke_signed(signer.as_slice()) {
        Ok(()) => Ok(()),
        Err(_) => Err(EscrowError::LedgerFailure),
    }
}

/// Relies on pinocchio_token's CloseAccount::invoke_signed: delegates
/// to the token ledger to close the token-holding account, paying its
/// reserve to `destination`, authorized by the derivation capability.
#[verifier::external_body]
pub(crate) fn token_close_signed(
    account: &AccountView,
    destination: &AccountView,
    authority: &AccountView,
    tag: &[u8],
    maker: &[u8; 32],
    seed: u64,
    bump: u8,
) -> (r: Result<(), EscrowError>) {
    let seed_le = seed.to_le_bytes();
    let bump_arr = [bump];
    let seeds = [
        Seed::from(tag),
        Seed::from(maker.as_slice()),
        Seed::from(seed_le.as_slice()),
        Seed::from(bump_arr.as_slice()),
    ];
    let signer = [Signer::from(seeds.as_slice())];
    let ix: pinocchio_token::instructions::CloseAccount<&AccountView> =
        pinocchio_token::instructions::CloseAccount::new(account, destination, authority);
    match ix.invoke_signed(signer.as_slice()) {
        Ok(()) => Ok(()),
        Err(_) => Err(EscrowError::LedgerFailure),
    }
}

/// Relies on pinocchio_token's Account::from_account_view and
/// Account::amount: the token balance stored in a token-holding
/// account, after the token ledger's own owner and size validation.
#[verifier::external_body]
pub(crate) fn token_account_amount(a: &AccountView) -> (r: Result<u64, EscrowError>) {
    match pinocchio_token::state::Account::from_account_view(a) {
        Ok(acc) => Ok(acc.amount()),
        Err(_) => Err(EscrowError::LedgerFailure),
    }
}

} // verus!
