//! The two record shapes that the program stores, and the errors of its transitions.
use crate::address::Address;
use vstd::prelude::*;

verus! {

/// A creator's claim on a photo: its content hash, where and when it was taken, and
/// what endorsements it has gathered.
#[derive(Clone, Copy, Debug, PartialEq, Eq)]
pub struct PhotoRecord {
    /// The registering party.
    pub creator: Address,
    /// The photo's content hash.
    pub image_hash: [u8; 32],
    /// Degrees times 10^7, taken as given.
    pub latitude: i64,
    /// Degrees times 10^7, taken as given.
    pub longitude: i64,
    /// The capture time claimed by the creator.
    pub timestamp: i64,
    /// How many endorsements the photo has received.
    pub vouch_count: u64,
    /// The sum of all endorsement amounts.
    pub total_earned: u64,
    /// The bump of the record's derived address.
    pub bump: u8,
}

/// One party's endorsement of one photo.
#[derive(Clone, Copy, Debug, PartialEq, Eq)]
pub struct VouchRecord {
    /// The endorsing party.
    pub voucher: Address,
    /// The address of the endorsed photo record.
    pub photo_record: Address,
    /// The value paid to the photo's creator.
    pub amount: u64,
    /// The ledger time of the endorsement.
    pub timestamp: i64,
    /// The bump of the record's derived address.
    pub bump: u8,
}

/// The errors that the program itself raises.
#[derive(Clone, Copy, Debug, PartialEq, Eq, Structural)]
pub enum CandorError {
    /// The endorsement amount is zero.
    InvalidAmount,
    /// The endorser is the photo's creator.
    CannotVouchOwnPhoto,
    /// The payee is not the photo's creator.
    InvalidCreator,
}

/// Why a transition was refused. A refused transition leaves the ledger unchanged.
#[derive(Clone, Copy, Debug, PartialEq, Eq, Structural)]
pub enum TransitionError {
    /// A check of the program failed.
    Candor(CandorError),
    /// The party that must sign did not.
    AccountNotSigned,
    /// The account given as a photo record holds none.
    AccountNotInitialized,
    /// A record already occupies the derived address.
    AccountAlreadyInUse,
    /// No bump yields a derived address for the seeds.
    NoProgramAddress,
    /// The payer holds less than the amount.
    InsufficientFunds,
    /// A balance or counter would exceed its range.
    ArithmeticOverflow,
}

/// The message that describes `e`.
pub open spec fn message_of(e: CandorError) -> Seq<char> {
    match e {
        CandorError::InvalidAmount => "Vouch amount must be greater than zero"@,
        CandorError::CannotVouchOwnPhoto => "Cannot vouch for your own photo"@,
        CandorError::InvalidCreator => "Invalid creator account"@,
    }
}

impl CandorError {
    /// The message that describes the error.
    pub fn message(&self) -> (r: &'static str)
        ensures
            r@ == message_of(*self),
    {
        proof {
            reveal_strlit("Vouch amount must be greater than zero");
            reveal_strlit("Cannot vouch for your own photo");
            reveal_strlit("Invalid creator account");
        }
        match self {
            CandorError::InvalidAmount => "Vouch amount must be greater than zero",
            CandorError::CannotVouchOwnPhoto => "Cannot vouch for your own photo",
            CandorError::InvalidCreator => "Invalid creator account",
        }
    }
}

} // verus!
