use vstd::prelude::*;

use pinocchio::AccountView;

use vstd::bytes::spec_u64_from_le_bytes;
use vstd::bytes::u64_from_le_bytes;
use vstd::slice::slice_index_get;
use vstd::slice::slice_subrange;

use crate::error::EscrowError;
use crate::helper::MintMeta;
use crate::helper::escrow_tag;
use crate::helper::mint_meta_check;
use crate::helper::mint_meta_ok;
use crate::helper::program_id;
use crate::helper::require_signer;
use crate::model::EscrowPhase;
use crate::model::LedgerModel;
use crate::model::MakeInput;
use crate::model::spec_derive;
use crate::runtime::account_data_len;
use crate::runtime::account_is_signer;
use crate::runtime::account_owned_by_token_program;
use crate::runtime::account_key;
use crate::runtime::create_holding_account;
use crate::runtime::create_record_account;
use crate::runtime::find_record_address;
use crate::runtime::rent_minimum_balance;
use crate::runtime::token_transfer;
use crate::runtime::write_account_data;
use crate::state::ESCROW_LEN;
use crate::state::Escrow;
use crate::state::key_eq;

verus! {

/// The values carried by a Make payload, in order:
/// `seed:u64 | receive:u64 | amount:u64`, little-endian.
pub open spec fn spec_offer_payload(data: Seq<u8>) -> (u64, u64, u64) {
    (
        spec_u64_from_le_bytes(data.subrange(0, 8)),
        spec_u64_from_le_bytes(data.subrange(8, 16)),
        spec_u64_from_le_bytes(data.subrange(16, 24)),
    )
}

/// Parses a Make payload; rejects any payload that is not exactly the
/// fixed 24-byte layout.
pub fn parse_offer_payload(data: &[u8]) -> (r: Result<(u64, u64, u64), EscrowError>)
    ensures
        data@.len() != 24 ==> r == Err::<(u64, u64, u64), EscrowError>(
            EscrowError::InvalidAccountData,
        ),
        data@.len() == 24 ==> r == Ok::<(u64, u64, u64), EscrowError>(spec_offer_payload(data@)),
{
    if data.len() != 24 {
        return Err(EscrowError::InvalidAccountData);
    }
    let seed = u64_from_le_bytes(slice_subrange(data, 0, 8));
    let receive = u64_from_le_bytes(slice_subrange(data, 8, 16));
    let amount = u64_from_le_bytes(slice_subrange(data, 16, 24));
    Ok((seed, receive, amount))
}

/// The record Make writes and the amount it locks, as a function of
/// what was read and derived: a zero amount or price is a domain
/// error, a record account off the derived address an integrity
/// error; otherwise the record holds exactly the given identities,
/// payload values and proof byte, and exactly `amount` is locked.
pub open spec fn spec_make_plan(
    maker: [u8; 32],
    mint_a: [u8; 32],
    mint_b: [u8; 32],
    seed: u64,
    receive: u64,
    amount: u64,
    escrow_key: [u8; 32],
    derived: [u8; 32],
    bump: u8,
) -> Result<(Escrow, u64), EscrowError> {
    if amount == 0 || receive == 0 {
        Err(EscrowError::InvalidAccountData)
    } else if escrow_key != derived {
        Err(EscrowError::InvalidAccountData)
    } else {
        Ok((Escrow { seed, maker, mint_a, mint_b, receive, bump }, amount))
    }
}

/// Decides what Make stores and moves, from plain values alone.
pub fn make_plan(
    maker: &[u8; 32],
    mint_a: &[u8; 32],
    mint_b: &[u8; 32],
    seed: u64,
    receive: u64,
    amount: u64,
    escrow_key: &[u8; 32],
    derived: &[u8; 32],
    bump: u8,
) -> (r: Result<(Escrow, u64), EscrowError>)
    ensures
        r == spec_make_plan(
            *maker,
            *mint_a,
            *mint_b,
            seed,
            receive,
            amount,
            *escrow_key,
            *derived,
            bump,
        ),
{
    if amount == 0 || receive == 0 {
        return Err(EscrowError::InvalidAccountData);
    }
    if !key_eq(escrow_key, derived) {
        return Err(EscrowError::InvalidAccountData);
    }
    Ok(
        (
            Escrow {
                seed,
                maker: *maker,
                mint_a: *mint_a,
                mint_b: *mint_b,
                receive,
                bump,
            },
            amount,
        ),
    )
}

/// The record Make writes and the amounts it moves follow the
/// modeled law: for every modeled ledger and any demanded reserve, a
/// successful modeled Make with these validated readings creates the
/// record that `make_plan` planned — every field equal to the
/// corresponding input — at the derived address, with the vault
/// holding exactly the locked amount and both funded from the
/// maker's balances alone; and it can fail only as a ledger failure.
pub proof fn lemma_make_follows_model(
    maker_key: [u8; 32],
    mint_a: MintMeta,
    mint_b: MintMeta,
    seed: u64,
    receive: u64,
    amount: u64,
    bump: u8,
)
    requires
        mint_meta_ok(mint_a),
        mint_meta_ok(mint_b),
        amount > 0,
        receive > 0,
    ensures
        forall|w: LedgerModel, rent: u64|
            #![trigger w.make_spec(MakeInput {
                maker: maker_key,
                maker_signed: true,
                mint_a,
                mint_b,
                record_key: spec_derive(maker_key, seed),
                seed,
                receive,
                amount,
                bump,
                rent,
            })]
            {
                let r = w.make_spec(
                    MakeInput {
                        maker: maker_key,
                        maker_signed: true,
                        mint_a,
                        mint_b,
                        record_key: spec_derive(maker_key, seed),
                        seed,
                        receive,
                        amount,
                        bump,
                        rent,
                    },
                );
                &&& r matches Ok(p) ==> p.phase == (EscrowPhase::Active {
                    record: Escrow {
                        seed,
                        maker: maker_key,
                        mint_a: mint_a.key,
                        mint_b: mint_b.key,
                        receive,
                        bump,
                    },
                    key: spec_derive(maker_key, seed),
                    reserve: rent,
                    vault: amount,
                }) && p.maker_a == w.maker_a - amount && p.maker_native == w.maker_native - rent
                    && p.maker_b == w.maker_b && p.taker_a == w.taker_a && p.taker_b == w.taker_b
                    && p.taker_native == w.taker_native
                &&& r is Err ==> r == Err::<LedgerModel, EscrowError>(EscrowError::LedgerFailure)
            },
{
}

/// The Make handler: opens a new escrow offer.
pub struct Make;

impl Make {
    /// Opens a new escrow. Accounts, in order: maker (signer), record
    /// account to create, the two mints, the maker's asset-A source,
    /// the vault to create, the account-creation service, the token
    /// ledger, and one reserved slot. Validates the account count,
    /// the maker's signature (`require_signer`), both mints
    /// (`mint_meta_check` on the wrapper readings) and the payload;
    /// derives the canonical record address and rejects a record
    /// account that does not sit on it (the decision stands in
    /// `make_plan`, whose contract fixes the record written and the
    /// amount locked);
    /// creates and funds the record account, writes the planned
    /// record, creates the vault with the record's address as its
    /// authority, and locks the planned amount of asset A in it.
    pub fn process(accounts: &[AccountView], instruction_data: &[u8]) -> (r: Result<
        (),
        EscrowError,
    >)
        ensures
            accounts@.len() != 9 ==> r == Err::<(), EscrowError>(EscrowError::NotEnoughAccountKeys),
            instruction_data@.len() != 24 ==> r is Err,
            r is Ok ==> spec_offer_payload(instruction_data@).1 > 0,
            r is Ok ==> spec_offer_payload(instruction_data@).2 > 0,
    {
        if accounts.len() != 9 {
            return Err(EscrowError::NotEnoughAccountKeys);
        }
        let maker = slice_index_get(accounts, 0);
        let escrow = slice_index_get(accounts, 1);
        let mint_a = slice_index_get(accounts, 2);
        let mint_b = slice_index_get(accounts, 3);
        let maker_ata_a = slice_index_get(accounts, 4);
        let vault = slice_index_get(accounts, 5);
        let system_program = slice_index_get(accounts, 6);
        let token_program = slice_index_get(accounts, 7);
        require_signer(account_is_signer(maker))?;
        let mint_a_owned = account_owned_by_token_program(mint_a);
        let mint_a_len = account_data_len(mint_a);
        mint_meta_check(mint_a_owned, mint_a_len)?;
        let mint_b_owned = account_owned_by_token_program(mint_b);
        let mint_b_len = account_data_len(mint_b);
        mint_meta_check(mint_b_owned, mint_b_len)?;
        let (seed, receive, amount) = parse_offer_payload(instruction_data)?;
        let maker_key = account_key(maker);
        let tag = escrow_tag();
        let pid = program_id();
        let (derived, bump) = match find_record_address(
            pid.as_slice(),
            tag.as_slice(),
            &maker_key,
            seed,
        ) {
            Some(p) => p,
            None => {
                return Err(EscrowError::InvalidAccountData);
            },
        };
        let escrow_key = account_key(escrow);
        let mint_a_key = account_key(mint_a);
        let mint_b_key = account_key(mint_b);
        let (record, lock_amount) = make_plan(
            &maker_key,
            &mint_a_key,
            &mint_b_key,
            seed,
            receive,
            amount,
            &escrow_key,
            &derived,
            bump,
        )?;
        proof {
            lemma_make_follows_model(
                maker_key,
                MintMeta {
                    key: mint_a_key,
                    owned_by_token_program: mint_a_owned,
                    data_len: mint_a_len,
                },
                MintMeta {
                    key: mint_b_key,
                    owned_by_token_program: mint_b_owned,
                    data_len: mint_b_len,
                },
                seed,
                receive,
                amount,
                bump,
            );
        }
        let rent = rent_minimum_balance(ESCROW_LEN)?;
        create_record_account(
            maker,
            escrow,
            rent,
            ESCROW_LEN as u64,
            pid.as_slice(),
            tag.as_slice(),
            &maker_key,
            seed,
            bump,
        )?;
        let image = record.to_bytes();
        let mut escrow_handle: AccountView = *escrow;
        write_account_data(&mut escrow_handle, image.as_slice())?;
        create_holding_account(maker, vault, escrow, mint_a, system_program, token_program)?;
        token_transfer(maker_ata_a, vault, maker, lock_amount)?;
        Ok(())
    }
}

} // verus!
