use vstd::prelude::*;

use crate::error::EscrowError;
use crate::helper::MintMeta;
use crate::helper::mint_meta_err;
use crate::helper::mint_meta_ok;
use crate::state::Escrow;
use crate::state::key_eq;

verus! {

/// The canonical derived address of an escrow record, modeled as the
/// content-addressed key it stands for: the derivation is a pure
/// function of the maker's identity and the maker-chosen seed, and two
/// records derive to the same address exactly when both inputs agree.
#[derive(Clone, Copy, Debug, PartialEq, Eq)]
#[verifier::ext_equal]
pub struct RecordAddress {
    /// The maker identity the address is derived from.
    pub maker: [u8; 32],
    /// The maker-chosen seed the address is derived from.
    pub seed: u64,
}

/// The canonical address for an escrow record of `maker` under `seed`.
pub open spec fn spec_derive(maker: [u8; 32], seed: u64) -> RecordAddress {
    RecordAddress { maker, seed }
}

/// Computes the canonical record address for `(maker, seed)`.
pub fn derive_address(maker: &[u8; 32], seed: u64) -> (r: RecordAddress)
    ensures
        r == spec_derive(*maker, seed),
{
    RecordAddress { maker: *maker, seed }
}

/// Compares two derived record addresses.
pub fn address_eq(a: &RecordAddress, b: &RecordAddress) -> (r: bool)
    ensures
        r == (*a == *b),
{
    let same_maker = key_eq(&a.maker, &b.maker);
    if same_maker && a.seed == b.seed {
        proof {
            assert(*a =~= *b);
        }
        true
    } else {
        false
    }
}

/// Lifecycle of one escrow: the record account either does not exist
/// (never created, or closed after settlement) or is fully initialized
/// with a funded vault. No partially settled state exists.
#[derive(Clone, Copy, Debug, PartialEq, Eq)]
pub enum EscrowPhase {
    /// No record account exists under the derived address.
    Absent,
    /// The record account exists, holds `record`, sits at the derived
    /// address `key`, and custodies `vault` units of asset A plus the
    /// `reserve` deposit that keeps the record and vault accounts alive.
    Active { record: Escrow, key: RecordAddress, reserve: u64, vault: u64 },
}

/// The slice of the ledger that one escrow offer touches: the record's
/// lifecycle phase and the two parties' asset and native balances.
#[derive(Clone, Copy, Debug, PartialEq, Eq)]
#[verifier::ext_equal]
pub struct LedgerModel {
    /// The record's lifecycle phase, vault balance and reserve.
    pub phase: EscrowPhase,
    /// The maker's balance of asset A (the locked asset).
    pub maker_a: u64,
    /// The maker's balance of asset B (the requested asset).
    pub maker_b: u64,
    /// The taker's balance of asset A.
    pub taker_a: u64,
    /// The taker's balance of asset B.
    pub taker_b: u64,
    /// The maker's native balance, out of which reserves are funded.
    pub maker_native: u64,
    /// The taker's native balance, into which reserves are reclaimed.
    pub taker_native: u64,
}

/// What a caller supplies to Make: identities, signature proof, the
/// validator's readings of the two mint accounts, the address of the
/// record account to create, the payload values, the derivation's
/// proof byte, and the reserve the account-creation service demands.
#[derive(Clone, Copy, Debug, PartialEq, Eq)]
pub struct MakeInput {
    /// The maker's identity.
    pub maker: [u8; 32],
    /// Whether the maker signed the instruction.
    pub maker_signed: bool,
    /// The validator's readings of the supplied asset-A mint account.
    pub mint_a: MintMeta,
    /// The validator's readings of the supplied asset-B mint account.
    pub mint_b: MintMeta,
    /// The address of the caller-supplied record account.
    pub record_key: RecordAddress,
    /// The maker-chosen seed.
    pub seed: u64,
    /// The amount of asset B demanded to fulfill the offer.
    pub receive: u64,
    /// The amount of asset A to lock in the vault.
    pub amount: u64,
    /// The proof byte completing the derivation for the record.
    pub bump: u8,
    /// The reserve deposit demanded for the record and vault accounts.
    pub rent: u64,
}

/// What a caller supplies to Take.
#[derive(Clone, Copy, Debug, PartialEq, Eq)]
pub struct TakeInput {
    /// Whether the taker signed the instruction.
    pub taker_signed: bool,
    /// The address of the supplied maker account.
    pub maker: [u8; 32],
    /// The address of the supplied asset-A mint account.
    pub mint_a: [u8; 32],
    /// The address of the supplied asset-B mint account.
    pub mint_b: [u8; 32],
}

/// What a caller supplies to Refund.
#[derive(Clone, Copy, Debug, PartialEq, Eq)]
pub struct RefundInput {
    /// The address of the supplied maker account, who must have signed.
    pub maker: [u8; 32],
    /// Whether that account signed the instruction.
    pub maker_signed: bool,
    /// The address of the supplied asset-A mint account.
    pub mint_a: [u8; 32],
    /// The address of the supplied asset-B mint account.
    pub mint_b: [u8; 32],
}

impl LedgerModel {
    /// A valid ledger slice: an active record sits at its own derived
    /// address and both its vault balance and its price are positive.
    pub open spec fn wf(self) -> bool {
        self.phase matches EscrowPhase::Active { record, key, vault, .. } ==> {
            &&& key == spec_derive(record.maker, record.seed)
            &&& vault > 0
            &&& record.receive > 0
        }
    }

    /// The exact outcome of Make: the first failing check decides the
    /// error, eagerly and before any state change; on success the
    /// record is created at the derived address with the payload's
    /// fields, the vault is funded with `amount` taken from the maker,
    /// and the reserve is funded from the maker's native balance.
    pub open spec fn make_spec(self, i: MakeInput) -> Result<LedgerModel, EscrowError> {
        if !i.maker_signed {
            Err(EscrowError::MissingRequiredSignature)
        } else if !mint_meta_ok(i.mint_a) {
            Err(mint_meta_err(i.mint_a))
        } else if !mint_meta_ok(i.mint_b) {
            Err(mint_meta_err(i.mint_b))
        } else if i.amount == 0 || i.receive == 0 {
            Err(EscrowError::InvalidAccountData)
        } else if i.record_key != spec_derive(i.maker, i.seed) {
            Err(EscrowError::InvalidAccountData)
        } else if !(self.phase is Absent) || self.maker_native < i.rent || self.maker_a
            < i.amount {
            Err(EscrowError::LedgerFailure)
        } else {
            Ok(
                LedgerModel {
                    phase: EscrowPhase::Active {
                        record: Escrow {
                            seed: i.seed,
                            maker: i.maker,
                            mint_a: i.mint_a.key,
                            mint_b: i.mint_b.key,
                            receive: i.receive,
                            bump: i.bump,
                        },
                        key: i.record_key,
                        reserve: i.rent,
                        vault: i.amount,
                    },
                    maker_a: (self.maker_a - i.amount) as u64,
                    maker_native: (self.maker_native - i.rent) as u64,
                    ..self
                },
            )
        }
    }

    /// The exact outcome of Take: validation fails closed unless the
    /// record exists, both supplied mints equal the stored mints, and
    /// the record account's address re-derives from the supplied maker
    /// and the stored seed; on success the price moves from taker to
    /// maker, the vault's whole balance moves to the taker, and the
    /// record and vault close, their reserve reclaimed by the taker.
    /// The two receiving accounts are modeled as already present, so
    /// their idempotent creation is a no-op here and charges the
    /// taker nothing.
    pub open spec fn take_spec(self, i: TakeInput) -> Result<LedgerModel, EscrowError> {
        if !i.taker_signed {
            Err(EscrowError::MissingRequiredSignature)
        } else if !(self.phase matches EscrowPhase::Active { .. }) {
            Err(EscrowError::InvalidAccountData)
        } else {
            let (record, key, reserve, vault) = self.active_parts();
            if i.mint_a != record.mint_a || i.mint_b != record.mint_b {
                Err(EscrowError::InvalidAccountData)
            } else if spec_derive(i.maker, record.seed) != key {
                Err(EscrowError::InvalidAccountData)
            } else if self.taker_b < record.receive || self.maker_b + record.receive > u64::MAX
                || self.taker_a + vault > u64::MAX || self.taker_native + reserve > u64::MAX {
                Err(EscrowError::LedgerFailure)
            } else {
                Ok(
                    LedgerModel {
                        phase: EscrowPhase::Absent,
                        maker_b: (self.maker_b + record.receive) as u64,
                        taker_b: (self.taker_b - record.receive) as u64,
                        taker_a: (self.taker_a + vault) as u64,
                        taker_native: (self.taker_native + reserve) as u64,
                        ..self
                    },
                )
            }
        }
    }

    /// The exact outcome of Refund: validation as in Take, but the
    /// signer is the supplied maker account; on success the vault's
    /// whole balance and the reserve return to the maker.
    pub open spec fn refund_spec(self, i: RefundInput) -> Result<LedgerModel, EscrowError> {
        if !i.maker_signed {
            Err(EscrowError::MissingRequiredSignature)
        } else if !(self.phase matches EscrowPhase::Active { .. }) {
            Err(EscrowError::InvalidAccountData)
        } else {
            let (record, key, reserve, vault) = self.active_parts();
            if i.mint_a != record.mint_a || i.mint_b != record.mint_b {
                Err(EscrowError::InvalidAccountData)
            } else if spec_derive(i.maker, record.seed) != key {
                Err(EscrowError::InvalidAccountData)
            } else if self.maker_a + vault > u64::MAX || self.maker_native + reserve > u64::MAX {
                Err(EscrowError::LedgerFailure)
            } else {
                Ok(
                    LedgerModel {
                        phase: EscrowPhase::Absent,
                        maker_a: (self.maker_a + vault) as u64,
                        maker_native: (self.maker_native + reserve) as u64,
                        ..self
                    },
                )
            }
        }
    }

    /// The pieces of an active phase.
    pub open spec fn active_parts(self) -> (Escrow, RecordAddress, u64, u64)
        recommends
            self.phase matches EscrowPhase::Active { .. },
    {
        (self.phase->record, self.phase->key, self.phase->reserve, self.phase->vault)
    }

    /// Opens a new escrow, checking every precondition eagerly.
    pub fn make(self, i: MakeInput) -> (r: Result<LedgerModel, EscrowError>)
        ensures
            r == self.make_spec(i),
            self.wf() && r is Ok ==> r->Ok_0.wf(),
    {
        if !i.maker_signed {
            return Err(EscrowError::MissingRequiredSignature);
        }
        match crate::helper::mint_meta_check(i.mint_a.owned_by_token_program, i.mint_a.data_len) {
            Err(e) => {
                return Err(e);
            },
            Ok(u) => {},
        }
        match crate::helper::mint_meta_check(i.mint_b.owned_by_token_program, i.mint_b.data_len) {
            Err(e) => {
                return Err(e);
            },
            Ok(u) => {},
        }
        if i.amount == 0 || i.receive == 0 {
            return Err(EscrowError::InvalidAccountData);
        }
        let expected = derive_address(&i.maker, i.seed);
        if !address_eq(&i.record_key, &expected) {
            return Err(EscrowError::InvalidAccountData);
        }
        let absent = match self.phase {
            EscrowPhase::Absent => true,
            EscrowPhase::Active { .. } => false,
        };
        if !absent || self.maker_native < i.rent || self.maker_a < i.amount {
            return Err(EscrowError::LedgerFailure);
        }
        Ok(
            LedgerModel {
                phase: EscrowPhase::Active {
                    record: Escrow {
                        seed: i.seed,
                        maker: i.maker,
                        mint_a: i.mint_a.key,
                        mint_b: i.mint_b.key,
                        receive: i.receive,
                        bump: i.bump,
                    },
                    key: i.record_key,
                    reserve: i.rent,
                    vault: i.amount,
                },
                maker_a: self.maker_a - i.amount,
                maker_native: self.maker_native - i.rent,
                ..self
            },
        )
    }

    /// Fulfills an open offer, failing closed on any mismatch.
    pub fn take(self, i: TakeInput) -> (r: Result<LedgerModel, EscrowError>)
        ensures
            r == self.take_spec(i),
            self.wf() && r is Ok ==> r->Ok_0.wf(),
    {
        if !i.taker_signed {
            return Err(EscrowError::MissingRequiredSignature);
        }
        let (record, key, reserve, vault) = match self.phase {
            EscrowPhase::Absent => {
                return Err(EscrowError::InvalidAccountData);
            },
            EscrowPhase::Active { record, key, reserve, vault } => (record, key, reserve, vault),
        };
        if !key_eq(&i.mint_a, &record.mint_a) || !key_eq(&i.mint_b, &record.mint_b) {
            return Err(EscrowError::InvalidAccountData);
        }
        let rederived = derive_address(&i.maker, record.seed);
        if !address_eq(&rederived, &key) {
            return Err(EscrowError::InvalidAccountData);
        }
        if self.taker_b < record.receive || self.maker_b > u64::MAX - record.receive
            || self.taker_a > u64::MAX - vault || self.taker_native > u64::MAX - reserve {
            return Err(EscrowError::LedgerFailure);
        }
        Ok(
            LedgerModel {
                phase: EscrowPhase::Absent,
                maker_b: self.maker_b + record.receive,
                taker_b: self.taker_b - record.receive,
                taker_a: self.taker_a + vault,
                taker_native: self.taker_native + reserve,
                ..self
            },
        )
    }

    /// Cancels an open offer, returning the locked funds to the maker.
    pub fn refund(self, i: RefundInput) -> (r: Result<LedgerModel, EscrowError>)
        ensures
            r == self.refund_spec(i),
            self.wf() && r is Ok ==> r->Ok_0.wf(),
    {
        if !i.maker_signed {
            return Err(EscrowError::MissingRequiredSignature);
        }
        let (record, key, reserve, vault) = match self.phase {
            EscrowPhase::Absent => {
                return Err(EscrowError::InvalidAccountData);
            },
            EscrowPhase::Active { record, key, reserve, vault } => (record, key, reserve, vault),
        };
        if !key_eq(&i.mint_a, &record.mint_a) || !key_eq(&i.mint_b, &record.mint_b) {
            return Err(EscrowError::InvalidAccountData);
        }
        let rederived = derive_address(&i.maker, record.seed);
        if !address_eq(&rederived, &key) {
            return Err(EscrowError::InvalidAccountData);
        }
        if self.maker_a > u64::MAX - vault || self.maker_native > u64::MAX - reserve {
            return Err(EscrowError::LedgerFailure);
        }
        Ok(
            LedgerModel {
                phase: EscrowPhase::Absent,
                maker_a: self.maker_a + vault,
                maker_native: self.maker_native + reserve,
                ..self
            },
        )
    }
}

/// For every accepted Make, the created record's fields equal the
/// inputs, the record sits at the canonical derived address for
/// `(maker, seed)`, and the vault holds exactly the locked amount,
/// funded out of the maker's asset-A balance.
pub proof fn lemma_make_creates_exact_record(w: LedgerModel, i: MakeInput)
    requires
        w.make_spec(i) is Ok,
    ensures
        ({
            let post = w.make_spec(i)->Ok_0;
            &&& post.phase matches EscrowPhase::Active { record, key, reserve, vault }
            &&& record == (Escrow {
                seed: i.seed,
                maker: i.maker,
                mint_a: i.mint_a.key,
                mint_b: i.mint_b.key,
                receive: i.receive,
                bump: i.bump,
            })
            &&& key == spec_derive(i.maker, i.seed)
            &&& vault == i.amount
            &&& reserve == i.rent
            &&& post.maker_a == w.maker_a - i.amount
        }),
{
}

/// Make rejects a zero locked amount, a record account whose address
/// does not match the derivation, and any mint that fails validation.
pub proof fn lemma_make_rejects(w: LedgerModel, i: MakeInput)
    ensures
        i.amount == 0 ==> w.make_spec(i) is Err,
        i.record_key != spec_derive(i.maker, i.seed) ==> w.make_spec(i) is Err,
        !mint_meta_ok(i.mint_a) ==> w.make_spec(i) is Err,
        !mint_meta_ok(i.mint_b) ==> w.make_spec(i) is Err,
{
}

/// Take succeeds only against an active record whose stored mints
/// equal the supplied mint accounts and whose address re-derives from
/// the supplied maker and the stored seed; that maker is therefore the
/// maker named in the record. On success the maker's asset-B balance
/// grows by exactly the stored price, the taker's asset-A balance by
/// exactly the vault's prior balance, and the record and vault are
/// gone, their reserve reclaimed by the taker.
pub proof fn lemma_take_settles_exactly_once(w: LedgerModel, i: TakeInput)
    requires
        w.wf(),
        w.take_spec(i) is Ok,
    ensures
        ({
            let post = w.take_spec(i)->Ok_0;
            &&& w.phase matches EscrowPhase::Active { record, key, reserve, vault }
            &&& i.mint_a == record.mint_a
            &&& i.mint_b == record.mint_b
            &&& key == spec_derive(i.maker, record.seed)
            &&& i.maker == record.maker
            &&& post.phase is Absent
            &&& post.maker_b == w.maker_b + record.receive
            &&& post.taker_b == w.taker_b - record.receive
            &&& post.taker_a == w.taker_a + vault
            &&& post.taker_native == w.taker_native + reserve
            &&& post.maker_a == w.maker_a
        }),
{
}

/// Refund is restricted to the maker named in the record: it succeeds
/// only when the supplied signing maker re-derives the record's own
/// address. On success the maker's asset-A balance grows by exactly
/// the vault's prior balance, the reserve returns to the maker, and
/// the record and vault are gone; the taker's balances are untouched.
pub proof fn lemma_refund_restricted_to_maker(w: LedgerModel, i: RefundInput)
    requires
        w.wf(),
        w.refund_spec(i) is Ok,
    ensures
        ({
            let post = w.refund_spec(i)->Ok_0;
            &&& w.phase matches EscrowPhase::Active { record, key, reserve, vault }
            &&& i.maker == record.maker
            &&& post.phase is Absent
            &&& post.maker_a == w.maker_a + vault
            &&& post.maker_native == w.maker_native + reserve
            &&& post.taker_a == w.taker_a
            &&& post.taker_b == w.taker_b
            &&& post.taker_native == w.taker_native
        }),
{
}

/// Settlement happens at most once: against a closed escrow, every
/// Take and every Refund fails, so funds can never be disbursed twice.
pub proof fn lemma_settlement_is_terminal(w: LedgerModel, t: TakeInput, r: RefundInput)
    requires
        w.phase is Absent,
    ensures
        w.take_spec(t) is Err,
        w.refund_spec(r) is Err,
{
}

/// The total of asset A held by both parties and the vault.
pub open spec fn total_a(w: LedgerModel) -> int {
    w.maker_a + w.taker_a + match w.phase {
        EscrowPhase::Active { vault, .. } => vault as int,
        EscrowPhase::Absent => 0,
    }
}

/// The total of asset B held by both parties.
pub open spec fn total_b(w: LedgerModel) -> int {
    w.maker_b + w.taker_b
}

/// The total native balance held by both parties and as reserve.
pub open spec fn total_native(w: LedgerModel) -> int {
    w.maker_native + w.taker_native + match w.phase {
        EscrowPhase::Active { reserve, .. } => reserve as int,
        EscrowPhase::Absent => 0,
    }
}

/// No transition mints or burns funds: every successful Make, Take
/// and Refund conserves the total of each asset over both parties and
/// the vault, and the total native balance including the reserve.
pub proof fn lemma_conservation(w: LedgerModel, m: MakeInput, t: TakeInput, f: RefundInput)
    ensures
        w.make_spec(m) matches Ok(p) ==> total_a(p) == total_a(w) && total_b(p) == total_b(w)
            && total_native(p) == total_native(w),
        w.take_spec(t) matches Ok(p) ==> total_a(p) == total_a(w) && total_b(p) == total_b(w)
            && total_native(p) == total_native(w),
        w.refund_spec(f) matches Ok(p) ==> total_a(p) == total_a(w) && total_b(p) == total_b(w)
            && total_native(p) == total_native(w),
{
}

} // verus!
