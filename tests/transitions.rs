use std::str::FromStr;

use anchor_lang::prelude::Pubkey;
use candor::{
    find_photo_address, find_vouch_address, verify_photo, vouch, AccountData, Address,
    CandorError, Ledger, TransitionError, VerifyPhoto, Vouch,
};

const PROGRAM: &str = "HDvUruses5D2tPCUZnhkLiR4GB2B49GwkpjJJUKjCAvw";

fn program_id() -> Address {
    Address { bytes: Pubkey::from_str(PROGRAM).unwrap().to_bytes() }
}

fn party(n: u8) -> Address {
    Address { bytes: [n; 32] }
}

fn hash(n: u8) -> [u8; 32] {
    let mut h = [0u8; 32];
    for (i, b) in h.iter_mut().enumerate() {
        *b = n.wrapping_add(i as u8);
    }
    h
}

fn register(ledger: &mut Ledger, creator: Address, image_hash: [u8; 32]) -> Result<(), TransitionError> {
    let accounts = VerifyPhoto { creator, creator_signed: true };
    verify_photo(ledger, &accounts, image_hash, 370000000, -1220000000, 1700000000)
}

fn photo_key(ledger: &Ledger, creator: Address, image_hash: [u8; 32]) -> Address {
    find_photo_address(&ledger.program_id(), &creator, &image_hash).unwrap().0
}

fn vouch_accounts(ledger: &Ledger, voucher: Address, creator: Address, image_hash: [u8; 32]) -> Vouch {
    Vouch {
        photo_record: photo_key(ledger, creator, image_hash),
        voucher,
        voucher_signed: true,
        creator,
    }
}

#[test]
fn scenario_register_then_vouch() {
    let a = party(1);
    let b = party(2);
    let h1 = hash(7);
    let mut ledger = Ledger::new(program_id());
    ledger.fund(b, 5000).unwrap();
    register(&mut ledger, a, h1).unwrap();

    let key = photo_key(&ledger, a, h1);
    let photo = ledger.photo_record(&key).unwrap();
    assert_eq!(photo.creator, a);
    assert_eq!(photo.image_hash, h1);
    assert_eq!(photo.latitude, 370000000);
    assert_eq!(photo.longitude, -1220000000);
    assert_eq!(photo.timestamp, 1700000000);
    assert_eq!(photo.vouch_count, 0);
    assert_eq!(photo.total_earned, 0);

    let accounts = vouch_accounts(&ledger, b, a, h1);
    vouch(&mut ledger, &accounts, 1000, 1700000500).unwrap();
    let photo = ledger.photo_record(&key).unwrap();
    assert_eq!(photo.vouch_count, 1);
    assert_eq!(photo.total_earned, 1000);
    let (vkey, vbump) = find_vouch_address(&ledger.program_id(), &b, &key).unwrap();
    let record = ledger.vouch_record(&vkey).unwrap();
    assert_eq!(record.voucher, b);
    assert_eq!(record.photo_record, key);
    assert_eq!(record.amount, 1000);
    assert_eq!(record.timestamp, 1700000500);
    assert_eq!(record.bump, vbump);
    assert_eq!(ledger.lamports(&a), 1000);
    assert_eq!(ledger.lamports(&b), 4000);

    assert_eq!(
        vouch(&mut ledger, &accounts, 1000, 1700000600),
        Err(TransitionError::AccountAlreadyInUse)
    );
    assert_eq!(ledger.photo_record(&key).unwrap().vouch_count, 1);
    assert_eq!(ledger.lamports(&a), 1000);
    assert_eq!(ledger.lamports(&b), 4000);
}

#[test]
fn register_twice_conflicts() {
    let c = party(3);
    let h = hash(9);
    let mut ledger = Ledger::new(program_id());
    assert_eq!(register(&mut ledger, c, h), Ok(()));
    let key = photo_key(&ledger, c, h);
    let before = ledger.photo_record(&key).unwrap();
    let accounts = VerifyPhoto { creator: c, creator_signed: true };
    assert_eq!(
        verify_photo(&mut ledger, &accounts, h, 1, 2, 3),
        Err(TransitionError::AccountAlreadyInUse)
    );
    assert_eq!(ledger.photo_record(&key).unwrap(), before);
}

#[test]
fn same_hash_other_creator_is_separate() {
    let h = hash(11);
    let mut ledger = Ledger::new(program_id());
    register(&mut ledger, party(4), h).unwrap();
    register(&mut ledger, party(5), h).unwrap();
    let k4 = photo_key(&ledger, party(4), h);
    let k5 = photo_key(&ledger, party(5), h);
    assert_ne!(k4, k5);
    assert_eq!(ledger.photo_record(&k4).unwrap().creator, party(4));
    assert_eq!(ledger.photo_record(&k5).unwrap().creator, party(5));
}

#[test]
fn register_stores_bump_and_derived_address() {
    let c = party(6);
    let h = hash(13);
    let mut ledger = Ledger::new(program_id());
    register(&mut ledger, c, h).unwrap();
    let program = Pubkey::from_str(PROGRAM).unwrap();
    let (expected, bump) =
        Pubkey::find_program_address(&[b"photo", c.bytes.as_ref(), h.as_ref()], &program);
    let (key, found_bump) = find_photo_address(&ledger.program_id(), &c, &h).unwrap();
    assert_eq!(key.bytes, expected.to_bytes());
    assert_ne!(key, c);
    assert_eq!(found_bump, bump);
    assert_eq!(ledger.photo_record(&key).unwrap().bump, bump);
}

#[test]
fn vouch_address_matches_derivation() {
    let program = Pubkey::from_str(PROGRAM).unwrap();
    let voucher = party(8);
    let photo = party(9);
    let (expected, bump) = Pubkey::find_program_address(
        &[b"vouch", voucher.bytes.as_ref(), photo.bytes.as_ref()],
        &program,
    );
    let (key, found_bump) = find_vouch_address(&program_id(), &voucher, &photo).unwrap();
    assert_eq!(key.bytes, expected.to_bytes());
    assert_eq!(found_bump, bump);
}

#[test]
fn register_needs_signature() {
    let mut ledger = Ledger::new(program_id());
    let accounts = VerifyPhoto { creator: party(1), creator_signed: false };
    assert_eq!(
        verify_photo(&mut ledger, &accounts, hash(1), 0, 0, 0),
        Err(TransitionError::AccountNotSigned)
    );
    let key = photo_key(&ledger, party(1), hash(1));
    assert!(ledger.account(&key).is_none());
}

#[test]
fn zero_amount_fails_before_transfer() {
    let a = party(1);
    let b = party(2);
    let h = hash(3);
    let mut ledger = Ledger::new(program_id());
    ledger.fund(b, 100).unwrap();
    register(&mut ledger, a, h).unwrap();
    let accounts = vouch_accounts(&ledger, b, a, h);
    assert_eq!(
        vouch(&mut ledger, &accounts, 0, 5),
        Err(TransitionError::Candor(CandorError::InvalidAmount))
    );
    assert_eq!(ledger.lamports(&a), 0);
    assert_eq!(ledger.lamports(&b), 100);
    let key = photo_key(&ledger, a, h);
    assert_eq!(ledger.photo_record(&key).unwrap().vouch_count, 0);
}

#[test]
fn self_vouch_fails_for_any_amount() {
    let a = party(1);
    let h = hash(4);
    let mut ledger = Ledger::new(program_id());
    ledger.fund(a, 1000).unwrap();
    register(&mut ledger, a, h).unwrap();
    let accounts = vouch_accounts(&ledger, a, a, h);
    for amount in [1u64, 500, 1000, u64::MAX] {
        assert_eq!(
            vouch(&mut ledger, &accounts, amount, 5),
            Err(TransitionError::Candor(CandorError::CannotVouchOwnPhoto))
        );
    }
    assert!(vouch(&mut ledger, &accounts, 0, 5).is_err());
    assert_eq!(ledger.lamports(&a), 1000);
}

#[test]
fn wrong_payee_is_refused() {
    let a = party(1);
    let b = party(2);
    let h = hash(5);
    let mut ledger = Ledger::new(program_id());
    ledger.fund(b, 100).unwrap();
    register(&mut ledger, a, h).unwrap();
    let mut accounts = vouch_accounts(&ledger, b, a, h);
    accounts.creator = party(3);
    assert_eq!(
        vouch(&mut ledger, &accounts, 10, 5),
        Err(TransitionError::Candor(CandorError::InvalidCreator))
    );
    assert_eq!(ledger.lamports(&b), 100);
    assert_eq!(ledger.lamports(&party(3)), 0);
}

#[test]
fn vouch_needs_signature_and_photo() {
    let a = party(1);
    let b = party(2);
    let h = hash(6);
    let mut ledger = Ledger::new(program_id());
    ledger.fund(b, 100).unwrap();
    let accounts = vouch_accounts(&ledger, b, a, h);
    assert_eq!(vouch(&mut ledger, &accounts, 10, 5), Err(TransitionError::AccountNotInitialized));
    register(&mut ledger, a, h).unwrap();
    let mut unsigned = accounts;
    unsigned.voucher_signed = false;
    assert_eq!(vouch(&mut ledger, &unsigned, 10, 5), Err(TransitionError::AccountNotSigned));
    assert_eq!(ledger.lamports(&b), 100);
}

#[test]
fn insufficient_funds_changes_nothing() {
    let a = party(1);
    let b = party(2);
    let h = hash(7);
    let mut ledger = Ledger::new(program_id());
    ledger.fund(b, 999).unwrap();
    register(&mut ledger, a, h).unwrap();
    let accounts = vouch_accounts(&ledger, b, a, h);
    assert_eq!(vouch(&mut ledger, &accounts, 1000, 5), Err(TransitionError::InsufficientFunds));
    assert_eq!(ledger.lamports(&b), 999);
    assert_eq!(ledger.photo_record(&accounts.photo_record).unwrap().vouch_count, 0);
    assert_eq!(vouch(&mut ledger, &accounts, 999, 5), Ok(()));
    assert_eq!(ledger.lamports(&b), 0);
    assert_eq!(ledger.lamports(&a), 999);
}

#[test]
fn counts_accumulate_over_vouchers() {
    let a = party(1);
    let h = hash(8);
    let mut ledger = Ledger::new(program_id());
    register(&mut ledger, a, h).unwrap();
    let amounts = [5u64, 70, 300, 1];
    for (i, amount) in amounts.iter().enumerate() {
        let v = party(10 + i as u8);
        ledger.fund(v, 1000).unwrap();
        let accounts = vouch_accounts(&ledger, v, a, h);
        vouch(&mut ledger, &accounts, *amount, i as i64).unwrap();
    }
    let photo = ledger.photo_record(&photo_key(&ledger, a, h)).unwrap();
    assert_eq!(photo.vouch_count, 4);
    assert_eq!(photo.total_earned, 376);
    assert_eq!(ledger.lamports(&a), 376);
}

#[test]
fn total_overflow_fails_and_keeps_record() {
    let a = party(1);
    let b = party(2);
    let c = party(3);
    let h = hash(9);
    let mut ledger = Ledger::new(program_id());
    ledger.fund(b, u64::MAX - 5).unwrap();
    ledger.fund(c, 10).unwrap();
    register(&mut ledger, a, h).unwrap();
    let first = vouch_accounts(&ledger, b, a, h);
    vouch(&mut ledger, &first, u64::MAX - 5, 1).unwrap();
    let key = first.photo_record;
    let before = ledger.photo_record(&key).unwrap();
    assert_eq!(before.total_earned, u64::MAX - 5);
    let second = vouch_accounts(&ledger, c, a, h);
    assert_eq!(vouch(&mut ledger, &second, 10, 2), Err(TransitionError::ArithmeticOverflow));
    assert_eq!(ledger.photo_record(&key).unwrap(), before);
    assert_eq!(ledger.lamports(&c), 10);
    let (vkey, _) = find_vouch_address(&ledger.program_id(), &c, &key).unwrap();
    assert!(ledger.vouch_record(&vkey).is_none());
    assert_eq!(vouch(&mut ledger, &second, 5, 3), Ok(()));
    assert_eq!(ledger.photo_record(&key).unwrap().total_earned, u64::MAX);
}

#[test]
fn fund_and_transfer() {
    let mut ledger = Ledger::new(program_id());
    let x = party(20);
    let y = party(21);
    assert_eq!(ledger.fund(x, 50), Ok(()));
    assert_eq!(ledger.fund(x, u64::MAX), Err(TransitionError::ArithmeticOverflow));
    assert_eq!(ledger.lamports(&x), 50);
    assert_eq!(ledger.transfer(x, y, 60), Err(TransitionError::InsufficientFunds));
    assert_eq!(ledger.transfer(x, y, 20), Ok(()));
    assert_eq!(ledger.lamports(&x), 30);
    assert_eq!(ledger.lamports(&y), 20);
    assert_eq!(ledger.account(&y).unwrap().data, AccountData::Empty);
    assert!(!ledger.is_occupied(&y));
    assert_eq!(ledger.transfer(x, x, 30), Ok(()));
    assert_eq!(ledger.lamports(&x), 30);
    assert_eq!(ledger.transfer(x, x, 31), Err(TransitionError::InsufficientFunds));
}

#[test]
fn address_equality_and_messages() {
    let mut other = party(1);
    assert_eq!(party(1), other);
    other.bytes[31] = 0;
    assert_ne!(party(1), other);
    assert!(party(1).same_as(&party(1)));
    assert!(!party(1).same_as(&other));
    assert_eq!(CandorError::InvalidAmount.message(), "Vouch amount must be greater than zero");
    assert_eq!(CandorError::CannotVouchOwnPhoto.message(), "Cannot vouch for your own photo");
    assert_eq!(CandorError::InvalidCreator.message(), "Invalid creator account");
}
