use vstd::prelude::*;

mod error;
mod helper;
mod make;
mod model;
mod refund;
mod runtime;
mod state;
mod take;

pub use error::EscrowError;
pub use helper::AccountCheck;
pub use helper::MINT_LEN;
pub use helper::MintAccount;
pub use helper::MintMeta;
pub use helper::escrow_tag;
pub use helper::find_record_key;
pub use helper::mint_meta_check;
pub use helper::program_id;
pub use helper::reclaim;
pub use helper::record_key_for;
pub use helper::require_signer;
pub use helper::validate_settlement;
pub use make::Make;
pub use make::make_plan;
pub use make::parse_offer_payload;
pub use refund::Refund;
pub use runtime::pda_bump_of;
pub use runtime::pda_of;
pub use take::Take;
pub use model::EscrowPhase;
pub use model::LedgerModel;
pub use model::MakeInput;
pub use model::RecordAddress;
pub use model::RefundInput;
pub use model::TakeInput;
pub use model::derive_address;
pub use state::ESCROW_LEN;
pub use state::Escrow;
pub use state::key_eq;

verus! {

} // verus!
