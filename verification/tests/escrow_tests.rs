use escrow::Escrow;
use escrow::EscrowError;
use escrow::EscrowPhase;
use escrow::LedgerModel;
use escrow::MakeInput;
use escrow::MintMeta;
use escrow::RecordAddress;
use escrow::RefundInput;
use escrow::TakeInput;
use escrow::derive_address;
use escrow::escrow_tag;
use escrow::key_eq;
use escrow::make_plan;
use escrow::mint_meta_check;
use escrow::parse_offer_payload;
use escrow::program_id;
use escrow::reclaim;
use escrow::require_signer;
use escrow::record_key_for;
use escrow::validate_settlement;
use escrow::ESCROW_LEN;
use escrow::MINT_LEN;

fn key(n: u8) -> [u8; 32] {
    [n; 32]
}

fn good_mint(n: u8) -> MintMeta {
    MintMeta { key: key(n), owned_by_token_program: true, data_len: MINT_LEN }
}

fn fresh_world() -> LedgerModel {
    LedgerModel {
        phase: EscrowPhase::Absent,
        maker_a: 5_000,
        maker_b: 40,
        taker_a: 60,
        taker_b: 2_000,
        maker_native: 9_000,
        taker_native: 300,
    }
}

fn make_input() -> MakeInput {
    MakeInput {
        maker: key(1),
        maker_signed: true,
        mint_a: good_mint(10),
        mint_b: good_mint(11),
        record_key: RecordAddress { maker: key(1), seed: 1 },
        seed: 1,
        receive: 500,
        amount: 1_000,
        bump: 254,
        rent: 2_100,
    }
}

fn take_input() -> TakeInput {
    TakeInput { taker_signed: true, maker: key(1), mint_a: key(10), mint_b: key(11) }
}

fn refund_input() -> RefundInput {
    RefundInput { maker: key(1), maker_signed: true, mint_a: key(10), mint_b: key(11) }
}

#[test]
fn record_round_trip() {
    let e = Escrow {
        seed: 7,
        maker: key(1),
        mint_a: key(2),
        mint_b: key(3),
        receive: 44,
        bump: 255,
    };
    let bytes = e.to_bytes();
    assert_eq!(bytes.len(), ESCROW_LEN);
    let d = Escrow::try_from_bytes(&bytes).unwrap();
    assert_eq!(d.seed, e.seed);
    assert_eq!(d.maker, e.maker);
    assert_eq!(d.mint_a, e.mint_a);
    assert_eq!(d.mint_b, e.mint_b);
    assert_eq!(d.receive, e.receive);
    assert_eq!(d.bump, e.bump);
}

#[test]
fn record_layout_is_exact() {
    let e = Escrow {
        seed: 0x0102030405060708,
        maker: key(9),
        mint_a: key(2),
        mint_b: key(3),
        receive: 0x1122334455667788,
        bump: 253,
    };
    let bytes = e.to_bytes();
    assert_eq!(&bytes[0..8], &[0x08, 0x07, 0x06, 0x05, 0x04, 0x03, 0x02, 0x01]);
    assert_eq!(&bytes[8..40], &key(9));
    assert_eq!(&bytes[40..72], &key(2));
    assert_eq!(&bytes[72..104], &key(3));
    assert_eq!(&bytes[104..112], &[0x88, 0x77, 0x66, 0x55, 0x44, 0x33, 0x22, 0x11]);
    assert_eq!(bytes[112], 253);
}

#[test]
fn record_set_inner_overwrites_every_field() {
    let mut e = Escrow {
        seed: 0,
        maker: [0u8; 32],
        mint_a: [0u8; 32],
        mint_b: [0u8; 32],
        receive: 0,
        bump: 0,
    };
    e.set_inner(9, key(4), key(5), key(6), 77, 251);
    let expected = Escrow {
        seed: 9,
        maker: key(4),
        mint_a: key(5),
        mint_b: key(6),
        receive: 77,
        bump: 251,
    };
    assert_eq!(e, expected);
}

#[test]
fn record_rejects_wrong_size() {
    assert_eq!(
        Escrow::try_from_bytes(&[0u8; 112]),
        Err(EscrowError::InvalidAccountData)
    );
    assert_eq!(
        Escrow::try_from_bytes(&[0u8; 114]),
        Err(EscrowError::InvalidAccountData)
    );
    assert_eq!(Escrow::try_from_bytes(&[]), Err(EscrowError::InvalidAccountData));
}

#[test]
fn mint_validator_polarity() {
    assert_eq!(mint_meta_check(true, MINT_LEN), Ok(()));
    assert_eq!(mint_meta_check(false, MINT_LEN), Err(EscrowError::InvalidAccountOwner));
    assert_eq!(mint_meta_check(true, MINT_LEN - 1), Err(EscrowError::InvalidAccountData));
    assert_eq!(mint_meta_check(false, 0), Err(EscrowError::InvalidAccountOwner));
}

#[test]
fn key_comparison() {
    assert!(key_eq(&key(5), &key(5)));
    assert!(!key_eq(&key(5), &key(6)));
    let mut other = key(5);
    other[31] = 0;
    assert!(!key_eq(&key(5), &other));
}

#[test]
fn make_creates_exact_record() {
    let w = fresh_world();
    let i = make_input();
    let post = w.make(i).unwrap();
    match post.phase {
        EscrowPhase::Active { record, key: k, reserve, vault } => {
            assert_eq!(record.seed, 1);
            assert_eq!(record.maker, key(1));
            assert_eq!(record.mint_a, key(10));
            assert_eq!(record.mint_b, key(11));
            assert_eq!(record.receive, 500);
            assert_eq!(record.bump, 254);
            assert_eq!(k, derive_address(&key(1), 1));
            assert_eq!(vault, 1_000);
            assert_eq!(reserve, 2_100);
        }
        EscrowPhase::Absent => panic!("record should exist after Make"),
    }
    assert_eq!(post.maker_a, 4_000);
    assert_eq!(post.maker_native, 6_900);
    assert_eq!(post.maker_b, w.maker_b);
    assert_eq!(post.taker_a, w.taker_a);
    assert_eq!(post.taker_b, w.taker_b);
}

#[test]
fn make_rejects_zero_amount() {
    let w = fresh_world();
    let mut i = make_input();
    i.amount = 0;
    assert_eq!(w.make(i), Err(EscrowError::InvalidAccountData));
}

#[test]
fn make_rejects_wrong_record_address() {
    let w = fresh_world();
    let mut i = make_input();
    i.record_key = RecordAddress { maker: key(2), seed: 1 };
    assert_eq!(w.make(i), Err(EscrowError::InvalidAccountData));
    let mut j = make_input();
    j.record_key = RecordAddress { maker: key(1), seed: 2 };
    assert_eq!(w.make(j), Err(EscrowError::InvalidAccountData));
}

#[test]
fn make_rejects_bad_mints() {
    let w = fresh_world();
    let mut i = make_input();
    i.mint_a.owned_by_token_program = false;
    assert_eq!(w.make(i), Err(EscrowError::InvalidAccountOwner));
    let mut j = make_input();
    j.mint_b.data_len = MINT_LEN + 1;
    assert_eq!(w.make(j), Err(EscrowError::InvalidAccountData));
}

#[test]
fn make_requires_signature() {
    let w = fresh_world();
    let mut i = make_input();
    i.maker_signed = false;
    assert_eq!(w.make(i), Err(EscrowError::MissingRequiredSignature));
}

#[test]
fn make_fails_on_insufficient_funds() {
    let w = fresh_world();
    let mut i = make_input();
    i.amount = 5_001;
    assert_eq!(w.make(i), Err(EscrowError::LedgerFailure));
    let mut j = make_input();
    j.rent = 9_001;
    assert_eq!(w.make(j), Err(EscrowError::LedgerFailure));
}

#[test]
fn make_fails_on_existing_record() {
    let w = fresh_world();
    let active = w.make(make_input()).unwrap();
    assert_eq!(active.make(make_input()), Err(EscrowError::LedgerFailure));
}

#[test]
fn take_requires_matching_mints() {
    let active = fresh_world().make(make_input()).unwrap();
    let mut i = take_input();
    i.mint_a = key(12);
    assert_eq!(active.take(i), Err(EscrowError::InvalidAccountData));
    let mut j = take_input();
    j.mint_b = key(13);
    assert_eq!(active.take(j), Err(EscrowError::InvalidAccountData));
}

#[test]
fn take_requires_rederivation() {
    let active = fresh_world().make(make_input()).unwrap();
    let mut i = take_input();
    i.maker = key(2);
    assert_eq!(active.take(i), Err(EscrowError::InvalidAccountData));
}

#[test]
fn take_requires_signature() {
    let active = fresh_world().make(make_input()).unwrap();
    let mut i = take_input();
    i.taker_signed = false;
    assert_eq!(active.take(i), Err(EscrowError::MissingRequiredSignature));
}

#[test]
fn take_moves_exact_amounts() {
    let w = fresh_world();
    let active = w.make(make_input()).unwrap();
    let post = active.take(take_input()).unwrap();
    assert!(matches!(post.phase, EscrowPhase::Absent));
    assert_eq!(post.maker_b, w.maker_b + 500);
    assert_eq!(post.taker_b, w.taker_b - 500);
    assert_eq!(post.taker_a, w.taker_a + 1_000);
    assert_eq!(post.taker_native, w.taker_native + 2_100);
    assert_eq!(post.maker_a, active.maker_a);
}

#[test]
fn take_fails_on_insufficient_price() {
    let mut w = fresh_world();
    w.taker_b = 499;
    let active = w.make(make_input()).unwrap();
    assert_eq!(active.take(take_input()), Err(EscrowError::LedgerFailure));
}

#[test]
fn refund_restricted_to_maker() {
    let active = fresh_world().make(make_input()).unwrap();
    let mut i = refund_input();
    i.maker = key(2);
    assert_eq!(active.refund(i), Err(EscrowError::InvalidAccountData));
    let mut j = refund_input();
    j.maker_signed = false;
    assert_eq!(active.refund(j), Err(EscrowError::MissingRequiredSignature));
}

#[test]
fn refund_returns_exact_amounts() {
    let w = fresh_world();
    let active = w.make(make_input()).unwrap();
    let post = active.refund(refund_input()).unwrap();
    assert!(matches!(post.phase, EscrowPhase::Absent));
    assert_eq!(post.maker_a, w.maker_a);
    assert_eq!(post.maker_native, w.maker_native);
    assert_eq!(post.taker_a, w.taker_a);
    assert_eq!(post.taker_b, w.taker_b);
    assert_eq!(post.taker_native, w.taker_native);
}

#[test]
fn settlement_happens_at_most_once() {
    let active = fresh_world().make(make_input()).unwrap();
    let taken = active.take(take_input()).unwrap();
    assert_eq!(taken.take(take_input()), Err(EscrowError::InvalidAccountData));
    assert_eq!(taken.refund(refund_input()), Err(EscrowError::InvalidAccountData));
    let refunded = active.refund(refund_input()).unwrap();
    assert_eq!(refunded.take(take_input()), Err(EscrowError::InvalidAccountData));
    assert_eq!(refunded.refund(refund_input()), Err(EscrowError::InvalidAccountData));
}

#[test]
fn end_to_end_scenario() {
    let w = fresh_world();
    let i = make_input();
    let active = w.make(i).unwrap();
    match active.phase {
        EscrowPhase::Active { record, vault, .. } => {
            assert_eq!(record.seed, 1);
            assert_eq!(record.maker, key(1));
            assert_eq!(record.mint_a, key(10));
            assert_eq!(record.mint_b, key(11));
            assert_eq!(record.receive, 500);
            assert_eq!(vault, 1_000);
        }
        EscrowPhase::Absent => panic!("record should exist after Make"),
    }
    let taken = active.take(take_input()).unwrap();
    assert!(matches!(taken.phase, EscrowPhase::Absent));
    assert_eq!(taken.maker_b, w.maker_b + 500);
    assert_eq!(taken.taker_a, w.taker_a + 1_000);
    assert_eq!(taken.taker_native, w.taker_native + 2_100);
    let refunded = active.refund(refund_input()).unwrap();
    assert!(matches!(refunded.phase, EscrowPhase::Absent));
    assert_eq!(refunded.maker_a, w.maker_a);
}

#[test]
fn payload_parse_is_exact() {
    let mut data = Vec::new();
    data.extend_from_slice(&1u64.to_le_bytes());
    data.extend_from_slice(&500u64.to_le_bytes());
    data.extend_from_slice(&1000u64.to_le_bytes());
    assert_eq!(parse_offer_payload(&data), Ok((1, 500, 1000)));
    assert_eq!(
        parse_offer_payload(&data[..23]),
        Err(EscrowError::InvalidAccountData)
    );
    assert_eq!(parse_offer_payload(&[]), Err(EscrowError::InvalidAccountData));
}

#[test]
fn make_plan_fixes_record_and_amount() {
    let escrow_key = key(7);
    let plan = make_plan(&key(1), &key(10), &key(11), 1, 500, 1000, &escrow_key, &escrow_key, 254)
        .unwrap();
    let expected = Escrow {
        seed: 1,
        maker: key(1),
        mint_a: key(10),
        mint_b: key(11),
        receive: 500,
        bump: 254,
    };
    assert_eq!(plan.0, expected);
    assert_eq!(plan.1, 1000);
    assert_eq!(
        make_plan(&key(1), &key(10), &key(11), 1, 500, 0, &escrow_key, &escrow_key, 254),
        Err(EscrowError::InvalidAccountData)
    );
    assert_eq!(
        make_plan(&key(1), &key(10), &key(11), 1, 0, 1000, &escrow_key, &escrow_key, 254),
        Err(EscrowError::InvalidAccountData)
    );
    assert_eq!(
        make_plan(&key(1), &key(10), &key(11), 1, 500, 1000, &escrow_key, &key(8), 254),
        Err(EscrowError::InvalidAccountData)
    );
}

#[test]
fn settlement_validation_accepts_exactly_the_stored_record() {
    let maker = key(1);
    let record = Escrow {
        seed: 1,
        maker,
        mint_a: key(10),
        mint_b: key(11),
        receive: 500,
        bump: 254,
    };
    let image = record.to_bytes();
    let escrow_key = record_key_for(&maker, 1, 254);
    assert_eq!(
        validate_settlement(&image, &key(10), &key(11), &maker, &escrow_key),
        Ok(record)
    );
}

#[test]
fn settlement_validation_fails_closed() {
    let maker = key(1);
    let record = Escrow {
        seed: 1,
        maker,
        mint_a: key(10),
        mint_b: key(11),
        receive: 500,
        bump: 254,
    };
    let image = record.to_bytes();
    let escrow_key = record_key_for(&maker, 1, 254);
    assert_eq!(
        validate_settlement(&image, &key(12), &key(11), &maker, &escrow_key),
        Err(EscrowError::InvalidAccountData)
    );
    assert_eq!(
        validate_settlement(&image, &key(10), &key(13), &maker, &escrow_key),
        Err(EscrowError::InvalidAccountData)
    );
    assert_eq!(
        validate_settlement(&image, &key(10), &key(11), &key(2), &escrow_key),
        Err(EscrowError::InvalidAccountData)
    );
    assert_eq!(
        validate_settlement(&image, &key(10), &key(11), &maker, &key(9)),
        Err(EscrowError::InvalidAccountData)
    );
    assert_eq!(
        validate_settlement(&image[..112], &key(10), &key(11), &maker, &escrow_key),
        Err(EscrowError::InvalidAccountData)
    );
}

#[test]
fn signature_gate_is_exact() {
    assert_eq!(require_signer(true), Ok(()));
    assert_eq!(require_signer(false), Err(EscrowError::MissingRequiredSignature));
}

#[test]
fn reserve_reclaim_is_exact() {
    assert_eq!(reclaim(300, 2_100), Ok(2_400));
    assert_eq!(reclaim(0, 0), Ok(0));
    assert_eq!(reclaim(u64::MAX, 0), Ok(u64::MAX));
    assert_eq!(reclaim(u64::MAX, 1), Err(EscrowError::LedgerFailure));
    assert_eq!(reclaim(1, u64::MAX), Err(EscrowError::LedgerFailure));
}

#[test]
fn model_address_derivation_is_content_addressed() {
    let a = derive_address(&key(1), 1);
    assert_eq!(a, RecordAddress { maker: key(1), seed: 1 });
    assert_ne!(a, derive_address(&key(1), 2));
    assert_ne!(a, derive_address(&key(2), 1));
}

#[test]
fn namespace_tag_and_program_identity() {
    assert_eq!(escrow_tag(), b"escrow".to_vec());
    assert_eq!(program_id().len(), 32);
}

#[test]
fn derived_record_key_is_deterministic_and_not_identity() {
    let a = record_key_for(&key(1), 1, 254);
    let b = record_key_for(&key(1), 1, 254);
    assert_eq!(a, b);
    assert_ne!(a, key(1));
    let other_maker = record_key_for(&key(2), 1, 254);
    assert_ne!(a, other_maker);
    let other_seed = record_key_for(&key(1), 2, 254);
    assert_ne!(a, other_seed);
    let other_bump = record_key_for(&key(1), 1, 253);
    assert_ne!(a, other_bump);
}
