//! The two transitions: registering a photo and endorsing one.
use crate::address::{
    find_photo_address, find_vouch_address, photo_address_of, vouch_address_of,
    Address,
};
use crate::ledger::{
    balance, holds_photo, moved, occupied, photo_at, with_data, AccountData, Ledger, LedgerView,
};
use crate::records::{CandorError, PhotoRecord, TransitionError, VouchRecord};
use vstd::prelude::*;

verus! {

/// The accounts that a registration names.
#[derive(Clone, Copy, Debug)]
pub struct VerifyPhoto {
    /// The registering party.
    pub creator: Address,
    /// Whether `creator` signed the transaction.
    pub creator_signed: bool,
}

/// The accounts that an endorsement names.
#[derive(Clone, Copy, Debug)]
pub struct Vouch {
    /// The address of the photo record endorsed.
    pub photo_record: Address,
    /// The endorsing party, who pays.
    pub voucher: Address,
    /// Whether `voucher` signed the transaction.
    pub voucher_signed: bool,
    /// The account paid, which must be the photo's creator.
    pub creator: Address,
}

/// The photo record that a registration creates.
pub open spec fn new_photo(
    creator: Address,
    image_hash: [u8; 32],
    latitude: i64,
    longitude: i64,
    timestamp: i64,
    bump: u8,
) -> PhotoRecord {
    PhotoRecord {
        creator,
        image_hash,
        latitude,
        longitude,
        timestamp,
        vouch_count: 0,
        total_earned: 0,
        bump,
    }
}

/// What registering `image_hash` for `accounts.creator` yields on the ledger `l`.
pub open spec fn register_outcome(
    l: LedgerView,
    accounts: VerifyPhoto,
    image_hash: [u8; 32],
    latitude: i64,
    longitude: i64,
    timestamp: i64,
) -> Result<LedgerView, TransitionError> {
    if !accounts.creator_signed {
        Err(TransitionError::AccountNotSigned)
    } else {
        match photo_address_of(l.program_id, accounts.creator@, image_hash@) {
            None => Err(TransitionError::NoProgramAddress),
            Some((key, bump)) => if occupied(l, key) {
                Err(TransitionError::AccountAlreadyInUse)
            } else {
                Ok(
                    with_data(
                        l,
                        key,
                        AccountData::Photo(
                            new_photo(
                                accounts.creator,
                                image_hash,
                                latitude,
                                longitude,
                                timestamp,
                                bump,
                            ),
                        ),
                    ),
                )
            },
        }
    }
}

/// The photo record `p` after an endorsement of `amount`.
pub open spec fn endorsed(p: PhotoRecord, amount: u64) -> PhotoRecord {
    PhotoRecord {
        vouch_count: (p.vouch_count + 1) as u64,
        total_earned: (p.total_earned + amount) as u64,
        ..p
    }
}

/// What an endorsement of `amount` at ledger time `now` yields on the ledger `l`. The
/// checks come in this order, and the first that fails decides the error.
pub open spec fn vouch_outcome(l: LedgerView, accounts: Vouch, amount: u64, now: i64) -> Result<
    LedgerView,
    TransitionError,
> {
    let photo_key = accounts.photo_record@;
    if !accounts.voucher_signed {
        Err(TransitionError::AccountNotSigned)
    } else if !holds_photo(l, photo_key) {
        Err(TransitionError::AccountNotInitialized)
    } else {
        let p = photo_at(l, photo_key);
        if amount == 0 {
            Err(TransitionError::Candor(CandorError::InvalidAmount))
        } else if accounts.voucher@ == p.creator@ {
            Err(TransitionError::Candor(CandorError::CannotVouchOwnPhoto))
        } else if accounts.creator@ != p.creator@ {
            Err(TransitionError::Candor(CandorError::InvalidCreator))
        } else {
            match vouch_address_of(l.program_id, accounts.voucher@, photo_key) {
                None => Err(TransitionError::NoProgramAddress),
                Some((key, bump)) => if occupied(l, key) {
                    Err(TransitionError::AccountAlreadyInUse)
                } else if balance(l, accounts.voucher@) < amount {
                    Err(TransitionError::InsufficientFunds)
                } else if balance(l, accounts.creator@) + amount > u64::MAX {
                    Err(TransitionError::ArithmeticOverflow)
                } else if p.vouch_count + 1 > u64::MAX || p.total_earned + amount > u64::MAX {
                    Err(TransitionError::ArithmeticOverflow)
                } else {
                    let l1 = moved(l, accounts.voucher@, accounts.creator@, amount);
                    let l2 = with_data(l1, photo_key, AccountData::Photo(endorsed(p, amount)));
                    Ok(
                        with_data(
                            l2,
                            key,
                            AccountData::Vouch(
                                VouchRecord {
                                    voucher: accounts.voucher,
                                    photo_record: accounts.photo_record,
                                    amount,
                                    timestamp: now,
                                    bump,
                                },
                            ),
                        ),
                    )
                },
            }
        }
    }
}

/// Registers a photo: creates the photo record of `accounts.creator` for `image_hash` at
/// its derived address, with both counters at zero. On failure the ledger is unchanged.
pub fn verify_photo(
    ledger: &mut Ledger,
    accounts: &VerifyPhoto,
    image_hash: [u8; 32],
    latitude: i64,
    longitude: i64,
    timestamp: i64,
) -> (r: Result<(), TransitionError>)
    requires
        old(ledger).wf(),
    ensures
        final(ledger).wf(),
        match register_outcome(old(ledger)@, *accounts, image_hash, latitude, longitude, timestamp) {
            Ok(l) => r is Ok && final(ledger)@ == l,
            Err(e) => r == Err::<(), TransitionError>(e) && final(ledger)@ == old(ledger)@,
        },
{
    if !accounts.creator_signed {
        return Err(TransitionError::AccountNotSigned);
    }
    let program_id = ledger.program_id();
    match find_photo_address(&program_id, &accounts.creator, &image_hash) {
        None => Err(TransitionError::NoProgramAddress),
        Some((key, bump)) => {
            if ledger.is_occupied(&key) {
                return Err(TransitionError::AccountAlreadyInUse);
            }
            let photo = PhotoRecord {
                creator: accounts.creator,
                image_hash,
                latitude,
                longitude,
                timestamp,
                vouch_count: 0,
                total_earned: 0,
                bump,
            };
            ledger.set_data(key, AccountData::Photo(photo));
            Ok(())
        },
    }
}

/// Endorses a photo: pays `amount` from `accounts.voucher` to the photo's creator, counts
/// the endorsement and its amount on the photo record, and creates the vouch record of
/// the voucher for that photo, stamped with the ledger time `now`. On failure the ledger
/// is unchanged.
pub fn vouch(ledger: &mut Ledger, accounts: &Vouch, amount: u64, now: i64) -> (r: Result<
    (),
    TransitionError,
>)
    requires
        old(ledger).wf(),
    ensures
        final(ledger).wf(),
        match vouch_outcome(old(ledger)@, *accounts, amount, now) {
            Ok(l) => r is Ok && final(ledger)@ == l,
            Err(e) => r == Err::<(), TransitionError>(e) && final(ledger)@ == old(ledger)@,
        },
{
    if !accounts.voucher_signed {
        return Err(TransitionError::AccountNotSigned);
    }
    let p = match ledger.photo_record(&accounts.photo_record) {
        Some(p) => p,
        None => return Err(TransitionError::AccountNotInitialized),
    };
    if amount == 0 {
        return Err(TransitionError::Candor(CandorError::InvalidAmount));
    }
    if accounts.voucher.same_as(&p.creator) {
        return Err(TransitionError::Candor(CandorError::CannotVouchOwnPhoto));
    }
    if !accounts.creator.same_as(&p.creator) {
        return Err(TransitionError::Candor(CandorError::InvalidCreator));
    }
    let program_id = ledger.program_id();
    let (key, bump) = match find_vouch_address(&program_id, &accounts.voucher, &accounts.photo_record) {
        Some(found) => found,
        None => return Err(TransitionError::NoProgramAddress),
    };
    if ledger.is_occupied(&key) {
        return Err(TransitionError::AccountAlreadyInUse);
    }
    if ledger.lamports(&accounts.voucher) < amount {
        return Err(TransitionError::InsufficientFunds);
    }
    if ledger.lamports(&accounts.creator).checked_add(amount).is_none() {
        return Err(TransitionError::ArithmeticOverflow);
    }
    let vouch_count = match p.vouch_count.checked_add(1) {
        Some(n) => n,
        None => return Err(TransitionError::ArithmeticOverflow),
    };
    let total_earned = match p.total_earned.checked_add(amount) {
        Some(n) => n,
        None => return Err(TransitionError::ArithmeticOverflow),
    };
    match ledger.transfer(accounts.voucher, accounts.creator, amount) {
        Ok(()) => {},
        Err(e) => return Err(e),
    }
    let updated = PhotoRecord { vouch_count, total_earned, ..p };
    ledger.set_data(accounts.photo_record, AccountData::Photo(updated));
    let record = VouchRecord {
        voucher: accounts.voucher,
        photo_record: accounts.photo_record,
        amount,
        timestamp: now,
        bump,
    };
    ledger.set_data(key, AccountData::Vouch(record));
    Ok(())
}

} // verus!
