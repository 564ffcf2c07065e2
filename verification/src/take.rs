use vstd::prelude::*;

use pinocchio::AccountView;

use vstd::slice::slice_index_get;

use crate::error::EscrowError;
use crate::helper::escrow_tag;
use crate::helper::reclaim;
use crate::helper::require_signer;
use crate::helper::validate_settlement;
use crate::model::EscrowPhase;
use crate::model::LedgerModel;
use crate::model::TakeInput;
use crate::model::spec_derive;
use crate::state::Escrow;
use crate::runtime::account_close;
use crate::runtime::account_is_signer;
use crate::runtime::account_key;
use crate::runtime::account_lamports;
use crate::runtime::account_resize;
use crate::runtime::account_set_lamports;
use crate::runtime::create_holding_account_idempotent;
use crate::runtime::read_account_data;
use crate::runtime::token_account_amount;
use crate::runtime::token_close_signed;
use crate::runtime::token_transfer;
use crate::runtime::token_transfer_signed;

verus! {

/// The amounts Take hands to the ledger follow the modeled law: for
/// every modeled ledger whose record is the one settlement validation
/// accepted, at the address derived from the supplied maker, a
/// successful modeled Take moves exactly the stored price to the
/// maker, the vault balance to the taker and the reserve to the
/// taker's native balance, closes the record, and leaves the maker's
/// other balances untouched; and it can fail only as a ledger
/// failure.
pub proof fn lemma_take_follows_model(
    rec: Escrow,
    maker_key: [u8; 32],
    mint_a_key: [u8; 32],
    mint_b_key: [u8; 32],
)
    requires
        mint_a_key == rec.mint_a,
        mint_b_key == rec.mint_b,
    ensures
        forall|w: LedgerModel|
            #![trigger w.take_spec(TakeInput {
                taker_signed: true,
                maker: maker_key,
                mint_a: mint_a_key,
                mint_b: mint_b_key,
            })]
            (w.phase matches EscrowPhase::Active { record, key, .. } && record == rec && key
                == spec_derive(maker_key, rec.seed)) ==> {
                let r = w.take_spec(
                    TakeInput {
                        taker_signed: true,
                        maker: maker_key,
                        mint_a: mint_a_key,
                        mint_b: mint_b_key,
                    },
                );
                &&& r matches Ok(p) ==> p.phase is Absent && p.maker_b == w.maker_b + rec.receive
                    && p.taker_b == w.taker_b - rec.receive && p.taker_a == w.taker_a
                    + w.phase->vault && p.taker_native == w.taker_native + w.phase->reserve
                    && p.maker_a == w.maker_a && p.maker_native == w.maker_native
                &&& r is Err ==> r == Err::<LedgerModel, EscrowError>(EscrowError::LedgerFailure)
            },
{
}

/// The Take handler: fulfills an open escrow offer.
pub struct Take;

impl Take {
    /// Fulfills an offer. Accounts, in order: taker (signer), maker,
    /// record account, the two mints, the maker's asset-B receiving
    /// account, the taker's asset-A receiving account, the taker's
    /// asset-B source, the vault, the account-creation service, the
    /// token ledger, and one reserved slot. Validates the account
    /// count and the taker's signature (`require_signer`); the
    /// fail-closed record validation — image decodes, supplied mints
    /// equal the stored mints, the record account's address
    /// re-derives from the supplied maker and the stored seed and
    /// proof byte — stands in `validate_settlement`, whose contract
    /// fixes exactly which record is accepted, and
    /// `lemma_take_follows_model` is discharged on the accepted
    /// record. Then it ensures both receiving accounts exist, pays
    /// the accepted record's price from taker to maker, releases the
    /// vault's whole balance to the taker under the record's
    /// derivation capability, and closes the vault and the record,
    /// handing every reclaimed reserve to the taker — the sum pinned
    /// by `reclaim`.
    ///
    /// Mutating the taker and record accounts goes through local
    /// copies of their views, which share the underlying runtime
    /// account.
    pub fn process(accounts: &[AccountView]) -> (r: Result<(), EscrowError>)
        ensures
            accounts@.len() != 12 ==> r == Err::<(), EscrowError>(
                EscrowError::NotEnoughAccountKeys,
            ),
    {
        if accounts.len() != 12 {
            return Err(EscrowError::NotEnoughAccountKeys);
        }
        let taker = slice_index_get(accounts, 0);
        let maker = slice_index_get(accounts, 1);
        let escrow = slice_index_get(accounts, 2);
        let mint_a = slice_index_get(accounts, 3);
        let mint_b = slice_index_get(accounts, 4);
        let maker_ata_b = slice_index_get(accounts, 5);
        let taker_ata_a = slice_index_get(accounts, 6);
        let taker_ata_b = slice_index_get(accounts, 7);
        let vault = slice_index_get(accounts, 8);
        let system_program = slice_index_get(accounts, 9);
        let token_program = slice_index_get(accounts, 10);
        require_signer(account_is_signer(taker))?;
        let image = read_account_data(escrow)?;
        let mint_a_key = account_key(mint_a);
        let mint_b_key = account_key(mint_b);
        let maker_key = account_key(maker);
        let escrow_key = account_key(escrow);
        let record = validate_settlement(
            image.as_slice(),
            &mint_a_key,
            &mint_b_key,
            &maker_key,
            &escrow_key,
        )?;
        proof {
            assert(mint_a_key =~= record.mint_a);
            assert(mint_b_key =~= record.mint_b);
            lemma_take_follows_model(record, maker_key, mint_a_key, mint_b_key);
        }
        let tag = escrow_tag();
        create_holding_account_idempotent(
            taker,
            maker_ata_b,
            maker,
            mint_b,
            system_program,
            token_program,
        )?;
        create_holding_account_idempotent(
            taker,
            taker_ata_a,
            taker,
            mint_a,
            system_program,
            token_program,
        )?;
        token_transfer(taker_ata_b, maker_ata_b, taker, record.receive)?;
        let vault_amount = token_account_amount(vault)?;
        token_transfer_signed(
            vault,
            taker_ata_a,
            escrow,
            vault_amount,
            tag.as_slice(),
            &maker_key,
            record.seed,
            record.bump,
        )?;
        token_close_signed(
            vault,
            taker,
            escrow,
            tag.as_slice(),
            &maker_key,
            record.seed,
            record.bump,
        )?;
        let reclaimed = account_lamports(escrow);
        let taker_balance = account_lamports(taker);
        let new_balance = reclaim(taker_balance, reclaimed)?;
        let mut taker_handle: AccountView = *taker;
        account_set_lamports(&mut taker_handle, new_balance);
        let mut escrow_handle: AccountView = *escrow;
        account_resize(&mut escrow_handle, 1)?;
        account_close(&mut escrow_handle)?;
        Ok(())
    }
}

} // verus!
