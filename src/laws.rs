//! Properties of the transitions that hold on every ledger.
use crate::address::{photo_address_of, vouch_address_of};
use crate::ledger::{balance, holds_photo, occupied, photo_at, LedgerView};
use crate::program::{new_photo, register_outcome, vouch_outcome, Vouch, VerifyPhoto};
use crate::records::{CandorError, TransitionError};
use vstd::prelude::*;

verus! {

/// One endorsement in a series: the accounts named, the amount, and the ledger time.
pub struct Endorsement {
    pub accounts: Vouch,
    pub amount: u64,
    pub now: i64,
}

/// What endorsing in turn each of `steps` yields, stopping at the first failure.
pub open spec fn vouch_all(l: LedgerView, steps: Seq<Endorsement>) -> Result<
    LedgerView,
    TransitionError,
>
    decreases steps.len(),
{
    if steps.len() == 0 {
        Ok(l)
    } else {
        match vouch_all(l, steps.drop_last()) {
            Ok(l1) => vouch_outcome(l1, steps.last().accounts, steps.last().amount, steps.last().now),
            Err(e) => Err(e),
        }
    }
}

/// The sum of the amounts of `steps`.
pub open spec fn total_amount(steps: Seq<Endorsement>) -> int
    decreases steps.len(),
{
    if steps.len() == 0 {
        0
    } else {
        total_amount(steps.drop_last()) + steps.last().amount
    }
}

/// A successful registration stores exactly the submitted values, with both counters at
/// zero, at the address derived from the creator and the hash; registering the same
/// creator and hash again then fails because that address is taken.
pub proof fn lemma_register_twice(
    l: LedgerView,
    accounts: VerifyPhoto,
    image_hash: [u8; 32],
    latitude: i64,
    longitude: i64,
    timestamp: i64,
    latitude2: i64,
    longitude2: i64,
    timestamp2: i64,
)
    requires
        register_outcome(l, accounts, image_hash, latitude, longitude, timestamp) is Ok,
    ensures
        ({
            let l1 = register_outcome(l, accounts, image_hash, latitude, longitude, timestamp)->Ok_0;
            let (key, bump) = photo_address_of(l.program_id, accounts.creator@, image_hash@)->Some_0;
            &&& photo_address_of(l.program_id, accounts.creator@, image_hash@) is Some
            &&& holds_photo(l1, key)
            &&& photo_at(l1, key) == new_photo(
                accounts.creator,
                image_hash,
                latitude,
                longitude,
                timestamp,
                bump,
            )
            &&& register_outcome(l1, accounts, image_hash, latitude2, longitude2, timestamp2)
                == Err::<LedgerView, TransitionError>(TransitionError::AccountAlreadyInUse)
        }),
{
}

/// An endorsement by a signed party other than the creator, paying the creator, on a
/// photo that this party has not endorsed yet, succeeds where the payer's balance covers
/// the amount and no balance or counter would exceed its range; any further endorsement
/// of a positive amount by the same party on the same photo then fails because the vouch
/// record's address is taken.
pub proof fn lemma_vouch_once(
    l: LedgerView,
    accounts: Vouch,
    amount: u64,
    now: i64,
    amount2: u64,
    now2: i64,
)
    requires
        accounts.voucher_signed,
        holds_photo(l, accounts.photo_record@),
        accounts.voucher@ != photo_at(l, accounts.photo_record@).creator@,
        accounts.creator@ == photo_at(l, accounts.photo_record@).creator@,
        amount > 0,
        vouch_address_of(l.program_id, accounts.voucher@, accounts.photo_record@) is Some,
        !occupied(
            l,
            vouch_address_of(l.program_id, accounts.voucher@, accounts.photo_record@)->Some_0.0,
        ),
        amount <= balance(l, accounts.voucher@),
        balance(l, accounts.creator@) + amount <= u64::MAX,
        photo_at(l, accounts.photo_record@).vouch_count < u64::MAX,
        photo_at(l, accounts.photo_record@).total_earned + amount <= u64::MAX,
        amount2 > 0,
    ensures
        vouch_outcome(l, accounts, amount, now) is Ok,
        vouch_outcome(vouch_outcome(l, accounts, amount, now)->Ok_0, accounts, amount2, now2)
            == Err::<LedgerView, TransitionError>(TransitionError::AccountAlreadyInUse),
{
}

/// An endorsement of zero always fails, and once the signature and the photo record are
/// in place it fails on the amount, before any value moves.
pub proof fn lemma_zero_amount_fails(l: LedgerView, accounts: Vouch, now: i64)
    ensures
        vouch_outcome(l, accounts, 0, now) is Err,
        accounts.voucher_signed && holds_photo(l, accounts.photo_record@) ==> vouch_outcome(
            l,
            accounts,
            0,
            now,
        ) == Err::<LedgerView, TransitionError>(TransitionError::Candor(CandorError::InvalidAmount)),
{
}

/// A creator's endorsement of their own photo always fails, whatever the amount.
pub proof fn lemma_self_vouch_fails(l: LedgerView, accounts: Vouch, amount: u64, now: i64)
    requires
        holds_photo(l, accounts.photo_record@),
        accounts.voucher@ == photo_at(l, accounts.photo_record@).creator@,
    ensures
        vouch_outcome(l, accounts, amount, now) is Err,
        accounts.voucher_signed && amount > 0 ==> vouch_outcome(l, accounts, amount, now)
            == Err::<LedgerView, TransitionError>(
            TransitionError::Candor(CandorError::CannotVouchOwnPhoto),
        ),
{
}

/// An endorsement that would carry the photo's total past its range fails.
pub proof fn lemma_total_overflow_fails(l: LedgerView, accounts: Vouch, amount: u64, now: i64)
    requires
        holds_photo(l, accounts.photo_record@),
        photo_at(l, accounts.photo_record@).total_earned + amount > u64::MAX,
    ensures
        vouch_outcome(l, accounts, amount, now) is Err,
{
}

/// After a series of successful endorsements of one photo, its count has grown by the
/// number of endorsements and its total by the sum of their amounts.
pub proof fn lemma_vouch_all_counts(l: LedgerView, steps: Seq<Endorsement>, photo: Seq<u8>)
    requires
        holds_photo(l, photo),
        forall|i: int| 0 <= i < steps.len() ==> (#[trigger] steps[i]).accounts.photo_record@ == photo,
        vouch_all(l, steps) is Ok,
    ensures
        holds_photo(vouch_all(l, steps)->Ok_0, photo),
        photo_at(vouch_all(l, steps)->Ok_0, photo).vouch_count == photo_at(l, photo).vouch_count
            + steps.len(),
        photo_at(vouch_all(l, steps)->Ok_0, photo).total_earned == photo_at(l, photo).total_earned
            + total_amount(steps),
    decreases steps.len(),
{
    if steps.len() > 0 {
        let rest = steps.drop_last();
        assert forall|i: int| 0 <= i < rest.len() implies (#[trigger] rest[i]).accounts.photo_record@
            == photo by {
            assert(rest[i] == steps[i]);
        }
        lemma_vouch_all_counts(l, rest, photo);
        assert(steps.last() == steps[steps.len() - 1]);
    }
}

} // verus!
