//! Account addresses and program-derived addresses.
use anchor_lang::prelude::Pubkey;
use vstd::prelude::*;

verus! {

/// A 32-byte account identifier on the ledger.
#[derive(Clone, Copy, Debug)]
pub struct Address {
    pub bytes: [u8; 32],
}

impl View for Address {
    type V = Seq<u8>;

    open spec fn view(&self) -> Seq<u8> {
        self.bytes@
    }
}

impl Address {
    /// Whether two addresses hold the same bytes.
    pub fn same_as(&self, other: &Address) -> (r: bool)
        ensures
            r == (self@ == other@),
    {
        let mut i: usize = 0;
        while i < 32
            invariant
                0 <= i <= 32,
                forall|j: int| 0 <= j < i ==> self.bytes[j] == other.bytes[j],
            decreases 32 - i,
        {
            if self.bytes[i] != other.bytes[i] {
                assert(self@[i as int] != other@[i as int]);
                return false;
            }
            i = i + 1;
        }
        assert(self@ =~= other@);
        true
    }
}

impl PartialEq for Address {
    fn eq(&self, other: &Address) -> (r: bool) {
        self.same_as(other)
    }
}

impl Eq for Address {}

impl vstd::std_specs::cmp::PartialEqSpecImpl for Address {
    open spec fn obeys_eq_spec() -> bool {
        true
    }

    open spec fn eq_spec(&self, other: &Address) -> bool {
        self@ == other@
    }
}

/// What a search for a program-derived address yields: the address and its bump, or
/// nothing when no bump gives an address off the curve.
pub uninterp spec fn program_address_of(seeds: Seq<Seq<u8>>, program_id: Seq<u8>) -> Option<(Seq<u8>, u8)>;

/// The view of a derivation result.
pub open spec fn derived_view(r: Option<(Address, u8)>) -> Option<(Seq<u8>, u8)> {
    match r {
        Some((a, bump)) => Some((a@, bump)),
        None => None,
    }
}

/// Relies on `Pubkey::try_find_program_address` (solana-program, re-exported by
/// anchor_lang): it hashes the seeds with a bump byte and the program id, trying bumps
/// from 255 down, and returns the first result that lies off the curve, with its bump.
/// Off the chain it computes this inline and never panics; the outcome depends on its
/// arguments alone.
#[verifier::external_body]
fn try_find_program_address(
    tag: &[u8; 5],
    first: &[u8; 32],
    second: &[u8; 32],
    program_id: &Address,
) -> (r: Option<(Address, u8)>)
    ensures
        derived_view(r) == program_address_of(seq![tag@, first@, second@], program_id@),
{
    let seeds: [&[u8]; 3] = [tag, first, second];
    match Pubkey::try_find_program_address(&seeds, &Pubkey::from(program_id.bytes)) {
        Some((key, bump)) => Some((Address { bytes: key.to_bytes() }, bump)),
        None => None,
    }
}

/// The seed that tags photo record addresses: the bytes of "photo".
pub open spec fn photo_tag() -> Seq<u8> {
    seq![112u8, 104u8, 111u8, 116u8, 111u8]
}

/// The seed that tags vouch record addresses: the bytes of "vouch".
pub open spec fn vouch_tag() -> Seq<u8> {
    seq![118u8, 111u8, 117u8, 99u8, 104u8]
}

/// Where the photo record of `creator` for `image_hash` lives, with its bump.
pub open spec fn photo_address_of(program_id: Seq<u8>, creator: Seq<u8>, image_hash: Seq<u8>) -> Option<
    (Seq<u8>, u8),
> {
    program_address_of(seq![photo_tag(), creator, image_hash], program_id)
}

/// Where the vouch record of `voucher` for the photo record at `photo` lives, with its bump.
pub open spec fn vouch_address_of(program_id: Seq<u8>, voucher: Seq<u8>, photo: Seq<u8>) -> Option<
    (Seq<u8>, u8),
> {
    program_address_of(seq![vouch_tag(), voucher, photo], program_id)
}

/// Derives the address of the photo record of `creator` for `image_hash`.
pub fn find_photo_address(program_id: &Address, creator: &Address, image_hash: &[u8; 32]) -> (r:
    Option<(Address, u8)>)
    ensures
        derived_view(r) == photo_address_of(program_id@, creator@, image_hash@),
{
    let tag: [u8; 5] = [112u8, 104u8, 111u8, 116u8, 111u8];
    assert(tag@ =~= photo_tag());
    try_find_program_address(&tag, &creator.bytes, image_hash, program_id)
}

/// Derives the address of the vouch record of `voucher` for the photo record at `photo`.
pub fn find_vouch_address(program_id: &Address, voucher: &Address, photo: &Address) -> (r: Option<
    (Address, u8),
>)
    ensures
        derived_view(r) == vouch_address_of(program_id@, voucher@, photo@),
{
    let tag: [u8; 5] = [118u8, 111u8, 117u8, 99u8, 104u8];
    assert(tag@ =~= vouch_tag());
    try_find_program_address(&tag, &voucher.bytes, &photo.bytes, program_id)
}

} // verus!
