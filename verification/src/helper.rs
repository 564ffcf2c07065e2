use vstd::prelude::*;

use pinocchio::AccountView;

use crate::error::EscrowError;
use crate::runtime::account_data_len;
use crate::runtime::account_owned_by_token_program;
use crate::state::ESCROW_LEN;
use crate::state::Escrow;
use crate::state::key_eq;

verus! {

/// Stored size in bytes of a token-mint record.
pub const MINT_LEN: usize = 82;

/// What the account validator reads of a claimed token-mint account:
/// whether the token-ledger sub-service owns it, and its stored size.
#[derive(Clone, Copy, Debug, PartialEq, Eq)]
pub struct MintMeta {
    /// The account's address, i.e. the mint's identity.
    pub key: [u8; 32],
    /// Whether the account is owned by the token-ledger sub-service.
    pub owned_by_token_program: bool,
    /// The account's stored data size.
    pub data_len: usize,
}

/// The validator's verdict on a claimed mint account: an ownership
/// error when the token-ledger sub-service does not own it, a format
/// error when its stored size is not the fixed mint-record size.
pub open spec fn spec_mint_check(owned_by_token_program: bool, data_len: usize) -> Result<
    (),
    EscrowError,
> {
    if !owned_by_token_program {
        Err(EscrowError::InvalidAccountOwner)
    } else if data_len != MINT_LEN {
        Err(EscrowError::InvalidAccountData)
    } else {
        Ok(())
    }
}

/// A mint account passes validation exactly when it is owned by the
/// token-ledger sub-service and has the fixed mint-record size.
pub open spec fn mint_meta_ok(m: MintMeta) -> bool {
    m.owned_by_token_program && m.data_len == MINT_LEN
}

/// The error the validator reports for a mint account that fails:
/// ownership first, then format.
pub open spec fn mint_meta_err(m: MintMeta) -> EscrowError {
    if !m.owned_by_token_program {
        EscrowError::InvalidAccountOwner
    } else {
        EscrowError::InvalidAccountData
    }
}

/// Decides the validator's verdict from the plain values read off an
/// account.
pub fn mint_meta_check(owned_by_token_program: bool, data_len: usize) -> (r: Result<
    (),
    EscrowError,
>)
    ensures
        r == spec_mint_check(owned_by_token_program, data_len),
{
    if !owned_by_token_program {
        return Err(EscrowError::InvalidAccountOwner);
    }
    if data_len != MINT_LEN {
        return Err(EscrowError::InvalidAccountData);
    }
    Ok(())
}

/// A kind of account a caller may claim to supply, with its check:
/// a failure is an ownership error or a format error, never anything
/// else.
pub trait AccountCheck {
    /// Rejects the account unless it is of the expected kind.
    fn check(account: &AccountView) -> (r: Result<(), EscrowError>)
        ensures
            r is Err ==> r == Err::<(), EscrowError>(EscrowError::InvalidAccountOwner) || r
                == Err::<(), EscrowError>(EscrowError::InvalidAccountData),
    ;
}

/// The validator for claimed token-mint accounts.
pub struct MintAccount;

impl AccountCheck for MintAccount {
    /// Reads the account's owner and stored size through the trusted
    /// runtime layer and applies the validator's verdict,
    /// `spec_mint_check`, to what was read.
    fn check(account: &AccountView) -> (r: Result<(), EscrowError>) {
        let owned = account_owned_by_token_program(account);
        let len = account_data_len(account);
        mint_meta_check(owned, len)
    }
}

/// Gates an instruction on a required signature: success exactly when
/// the signature is present.
pub fn require_signer(signed: bool) -> (r: Result<(), EscrowError>)
    ensures
        signed ==> r == Ok::<(), EscrowError>(()),
        !signed ==> r == Err::<(), EscrowError>(EscrowError::MissingRequiredSignature),
{
    if signed {
        Ok(())
    } else {
        Err(EscrowError::MissingRequiredSignature)
    }
}

/// Adds a reclaimed reserve to a party's native balance: exactly the
/// sum on success, and a ledger failure when the ledger could not
/// represent it.
pub fn reclaim(balance: u64, reserve: u64) -> (r: Result<u64, EscrowError>)
    ensures
        balance + reserve <= u64::MAX ==> r == Ok::<u64, EscrowError>((balance + reserve) as u64),
        balance + reserve > u64::MAX ==> r == Err::<u64, EscrowError>(EscrowError::LedgerFailure),
{
    if balance > u64::MAX - reserve {
        return Err(EscrowError::LedgerFailure);
    }
    Ok(balance + reserve)
}

/// The namespace tag under which every escrow record address is
/// derived: the bytes of the word "escrow".
pub open spec fn spec_escrow_tag() -> Seq<u8> {
    seq![101u8, 115u8, 99u8, 114u8, 111u8, 119u8]
}

/// Builds the namespace tag for address derivation.
pub fn escrow_tag() -> (r: Vec<u8>)
    ensures
        r@ == spec_escrow_tag(),
{
    let mut v: Vec<u8> = Vec::new();
    v.push(101u8);
    v.push(115u8);
    v.push(99u8);
    v.push(114u8);
    v.push(111u8);
    v.push(119u8);
    proof {
        assert(v@ =~= spec_escrow_tag());
    }
    v
}

/// This program's own 32-byte identity, under which record accounts
/// are owned and from which their addresses are derived.
pub open spec fn spec_program_id() -> Seq<u8> {
    Seq::new(32, |i: int| 11u8)
}

/// Derives the canonical record address and its proof byte for
/// `(maker, seed)`, as Make does when it opens an offer. The result
/// is a deterministic function of `(maker, seed)`: whether a proof
/// byte exists, which one the scan settles on, and the address it
/// yields are all fixed by the derivation. Nothing comes back only in
/// the (practically unreachable) case that no proof byte produces an
/// address free of external-key ownership.
pub fn find_record_key(maker: &[u8; 32], seed: u64) -> (r: Option<([u8; 32], u8)>)
    ensures
        r is Some <==> crate::runtime::pda_bump_of(
            spec_program_id(),
            spec_escrow_tag(),
            maker@,
            seed,
        ) is Some,
        r matches Some(p) ==> Some(p.1) == crate::runtime::pda_bump_of(
            spec_program_id(),
            spec_escrow_tag(),
            maker@,
            seed,
        ) && p.0@ == crate::runtime::pda_of(
            spec_program_id(),
            spec_escrow_tag(),
            maker@,
            seed,
            p.1,
        ),
{
    let tag = escrow_tag();
    let pid = program_id();
    crate::runtime::find_record_address(pid.as_slice(), tag.as_slice(), maker, seed)
}

/// Recomputes the record address for `(maker, seed)` under a stored
/// proof byte, as Take and Refund do when they re-validate a record.
pub fn record_key_for(maker: &[u8; 32], seed: u64, bump: u8) -> (r: [u8; 32])
    ensures
        r@ == crate::runtime::pda_of(spec_program_id(), spec_escrow_tag(), maker@, seed, bump),
{
    let tag = escrow_tag();
    let pid = program_id();
    crate::runtime::compute_record_address(pid.as_slice(), tag.as_slice(), maker, seed, bump)
}

/// Holds when `rec` is the record that settlement validation accepts
/// for these readings: the image is a whole record that decodes to
/// `rec`, both supplied mint accounts equal the stored mints, and the
/// record account's address re-derives from the supplied maker, the
/// stored seed and the stored proof byte.
pub open spec fn settlement_ok(
    image: Seq<u8>,
    mint_a_key: Seq<u8>,
    mint_b_key: Seq<u8>,
    maker: Seq<u8>,
    escrow_key: Seq<u8>,
    rec: Escrow,
) -> bool {
    &&& image.len() == ESCROW_LEN
    &&& rec.decodes(image)
    &&& mint_a_key == rec.mint_a@
    &&& mint_b_key == rec.mint_b@
    &&& escrow_key == crate::runtime::pda_of(
        spec_program_id(),
        spec_escrow_tag(),
        maker,
        rec.seed,
        rec.bump,
    )
}

/// The fail-closed validation shared by Take and Refund: decodes the
/// record account's image and accepts exactly the record that
/// `settlement_ok` describes, rejecting a wrong-sized image, a mint
/// account that differs from the stored mints, and a record account
/// whose address does not re-derive from the supplied maker and the
/// stored seed and proof byte.
pub fn validate_settlement(
    image: &[u8],
    mint_a_key: &[u8; 32],
    mint_b_key: &[u8; 32],
    maker: &[u8; 32],
    escrow_key: &[u8; 32],
) -> (r: Result<Escrow, EscrowError>)
    ensures
        r matches Ok(rec) ==> settlement_ok(
            image@,
            mint_a_key@,
            mint_b_key@,
            maker@,
            escrow_key@,
            rec,
        ),
        r is Ok <==> (exists|rec: Escrow|
            settlement_ok(image@, mint_a_key@, mint_b_key@, maker@, escrow_key@, rec)),
        r is Err ==> r == Err::<Escrow, EscrowError>(EscrowError::InvalidAccountData),
{
    let rec = match Escrow::try_from_bytes(image) {
        Ok(rec) => rec,
        Err(e) => {
            return Err(e);
        },
    };
    if !key_eq(mint_a_key, &rec.mint_a) || !key_eq(mint_b_key, &rec.mint_b) {
        proof {
            lemma_no_other_settlement(image@, mint_a_key@, mint_b_key@, maker@, escrow_key@, rec);
        }
        return Err(EscrowError::InvalidAccountData);
    }
    let derived = record_key_for(maker, rec.seed, rec.bump);
    if !key_eq(escrow_key, &derived) {
        proof {
            lemma_no_other_settlement(image@, mint_a_key@, mint_b_key@, maker@, escrow_key@, rec);
        }
        return Err(EscrowError::InvalidAccountData);
    }
    Ok(rec)
}

/// When the record an image decodes to fails one of the settlement
/// checks, no record at all passes them: an image decodes to at most
/// one record.
proof fn lemma_no_other_settlement(
    image: Seq<u8>,
    mint_a_key: Seq<u8>,
    mint_b_key: Seq<u8>,
    maker: Seq<u8>,
    escrow_key: Seq<u8>,
    rec: Escrow,
)
    requires
        rec.decodes(image),
        mint_a_key != rec.mint_a@ || mint_b_key != rec.mint_b@ || escrow_key
            != crate::runtime::pda_of(
            spec_program_id(),
            spec_escrow_tag(),
            maker,
            rec.seed,
            rec.bump,
        ),
    ensures
        forall|rec2: Escrow| !settlement_ok(image, mint_a_key, mint_b_key, maker, escrow_key, rec2),
{
    assert forall|rec2: Escrow|
        !settlement_ok(image, mint_a_key, mint_b_key, maker, escrow_key, rec2) by {
        if rec2.decodes(image) {
            crate::state::lemma_decodes_unique(image, rec, rec2);
        }
    }
}

/// Builds the program's identity bytes.
pub fn program_id() -> (r: Vec<u8>)
    ensures
        r@ == spec_program_id(),
        r@.len() == 32,
{
    let mut v: Vec<u8> = Vec::new();
    let mut i: usize = 0;
    while i < 32
        invariant
            i <= 32,
            v@.len() == i,
            forall|j: int| 0 <= j < i ==> v@[j] == 11u8,
        decreases 32 - i,
    {
        v.push(11u8);
        i = i + 1;
    }
    proof {
        assert(v@ =~= spec_program_id());
    }
    v
}

} // verus!
