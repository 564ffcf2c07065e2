use vstd::prelude::*;

use pinocchio::AccountView;

use vstd::slice::slice_index_get;

use crate::error::EscrowError;
use crate::helper::escrow_tag;
use crate::helper::reclaim;
use crate::helper::require_signer;
use crate::helper::validate_settlement;
use crate::model::EscrowPhase;
use crate::model::LedgerModel;
use crate::model::RefundInput;
use crate::model::spec_derive;
use crate::state::Escrow;
use crate::runtime::account_close;
use crate::runtime::account_is_signer;
use crate::runtime::account_key;
use crate::runtime::account_lamports;
use crate::runtime::account_resize;
use crate::runtime::account_set_lamports;
use crate::runtime::read_account_data;
use crate::runtime::token_account_amount;
use crate::runtime::token_close_signed;
use crate::runtime::token_transfer_signed;

verus! {

/// The amounts Refund hands to the ledger follow the modeled law:
/// for every modeled ledger whose record is the one settlement
/// validation accepted, at the address derived from the signing
/// maker, a successful modeled Refund returns exactly the vault
/// balance to the maker's asset-A balance and the reserve to the
/// maker's native balance, closes the record, and leaves every taker
/// balance and the maker's asset-B balance untouched; and it can
/// fail only as a ledger failure.
pub proof fn lemma_refund_follows_model(
    rec: Escrow,
    maker_key: [u8; 32],
    mint_a_key: [u8; 32],
    mint_b_key: [u8; 32],
)
    requires
        mint_a_key == rec.mint_a,
        mint_b_key == rec.mint_b,
    ensures
        forall|w: LedgerModel|
            #![trigger w.refund_spec(RefundInput {
                maker: maker_key,
                maker_signed: true,
                mint_a: mint_a_key,
                mint_b: mint_b_key,
            })]
            (w.phase matches EscrowPhase::Active { record, key, .. } && record == rec && key
                == spec_derive(maker_key, rec.seed)) ==> {
                let r = w.refund_spec(
                    RefundInput {
                        maker: maker_key,
                        maker_signed: true,
                        mint_a: mint_a_key,
                        mint_b: mint_b_key,
                    },
                );
                &&& r matches Ok(p) ==> p.phase is Absent && p.maker_a == w.maker_a
                    + w.phase->vault && p.maker_native == w.maker_native + w.phase->reserve
                    && p.maker_b == w.maker_b && p.taker_a == w.taker_a && p.taker_b == w.taker_b
                    && p.taker_native == w.taker_native
                &&& r is Err ==> r == Err::<LedgerModel, EscrowError>(EscrowError::LedgerFailure)
            },
{
}

/// The Refund handler: cancels an open escrow offer.
pub struct Refund;

impl Refund {
    /// Cancels an offer. Accounts, in order: maker (signer), record
    /// account, the two mints, the maker's asset-A receiving account,
    /// the vault, and one reserved slot. Validates the account count
    /// and the maker's signature (`require_signer`); the fail-closed
    /// record validation stands in `validate_settlement`, whose
    /// contract fixes exactly which record is accepted — the record
    /// account's address must re-derive from the signing maker and
    /// the stored seed and proof byte, which restricts cancellation
    /// to the maker named in the record — and
    /// `lemma_refund_follows_model` is discharged on the accepted
    /// record. Then it returns the vault's whole balance to the
    /// maker and closes the vault and the record, handing every
    /// reclaimed reserve back to the maker — the sum pinned by
    /// `reclaim`.
    ///
    /// Mutating the maker and record accounts goes through local
    /// copies of their views, which share the underlying runtime
    /// account.
    pub fn process(accounts: &[AccountView]) -> (r: Result<(), EscrowError>)
        ensures
            accounts@.len() != 7 ==> r == Err::<(), EscrowError>(
                EscrowError::NotEnoughAccountKeys,
            ),
    {
        if accounts.len() != 7 {
            return Err(EscrowError::NotEnoughAccountKeys);
        }
        let maker = slice_index_get(accounts, 0);
        let escrow = slice_index_get(accounts, 1);
        let mint_a = slice_index_get(accounts, 2);
        let mint_b = slice_index_get(accounts, 3);
        let maker_ata_a = slice_index_get(accounts, 4);
        let vault = slice_index_get(accounts, 5);
        require_signer(account_is_signer(maker))?;
        let image = read_account_data(escrow)?;
        let mint_a_key = account_key(mint_a);
        let mint_b_key = account_key(mint_b);
        let maker_key = account_key(maker);
        let escrow_key = account_key(escrow);
        let record = validate_settlement(
            image.as_slice(),
            &mint_a_key,
            &mint_b_key,
            &maker_key,
            &escrow_key,
        )?;
        proof {
            assert(mint_a_key =~= record.mint_a);
            assert(mint_b_key =~= record.mint_b);
            lemma_refund_follows_model(record, maker_key, mint_a_key, mint_b_key);
        }
        let tag = escrow_tag();
        let vault_amount = token_account_amount(vault)?;
        token_transfer_signed(
            vault,
            maker_ata_a,
            escrow,
            vault_amount,
            tag.as_slice(),
            &maker_key,
            record.seed,
            record.bump,
        )?;
        token_close_signed(
            vault,
            maker,
            escrow,
            tag.as_slice(),
            &maker_key,
            record.seed,
            record.bump,
        )?;
        let reclaimed = account_lamports(escrow);
        let maker_balance = account_lamports(maker);
        let new_balance = reclaim(maker_balance, reclaimed)?;
        let mut maker_handle: AccountView = *maker;
        account_set_lamports(&mut maker_handle, new_balance);
        let mut escrow_handle: AccountView = *escrow;
        account_resize(&mut escrow_handle, 1)?;
        account_close(&mut escrow_handle)?;
        Ok(())
    }
}

} // verus!
