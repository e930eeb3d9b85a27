//! A ledger state-transition module for photo provenance claims.
//!
//! A creator registers a photo's content hash, together with where and when it was
//! taken, as a `PhotoRecord` stored at an address derived from the creator and the
//! hash. Other parties endorse a photo by paying its creator; each endorsement is
//! kept as a `VouchRecord` at an address derived from the endorser and the photo.
//! Uniqueness of both records follows from the address derivation alone.
pub mod address;
pub mod records;
pub mod ledger;
pub mod program;
pub mod laws;

pub use address::{find_photo_address, find_vouch_address, Address};
pub use ledger::{Account, AccountData, Ledger};
pub use program::{verify_photo, vouch, VerifyPhoto, Vouch};
pub use records::{CandorError, PhotoRecord, TransitionError, VouchRecord};
