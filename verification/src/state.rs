use vstd::prelude::*;
use crate::constant::KEY_LEN;
use crate::error::FarmError;
use crate::keys::copy_key;

verus! {

/// The length in bytes of a packed farm record: a 32-byte owner address,
/// one nonce byte, one allowed byte.
pub const FARM_RECORD_LEN: usize = 34;

/// The persisted farm record. Only `is_allowed` is ever mutated by this
/// core, and only from unpaid to paid.
pub struct Farm {
    /// The address of the account permitted to pay the fee.
    pub owner: Vec<u8>,
    /// The salt under which the farm's signing authority is derived.
    pub nonce: u8,
    /// One once the fee has been paid; any other value counts as unpaid.
    pub is_allowed: u8,
}

/// The mathematical image of a farm record.
#[verifier::ext_equal]
pub struct FarmView {
    pub owner: Seq<u8>,
    pub nonce: u8,
    pub is_allowed: u8,
}

impl FarmView {
    /// A well-formed record carries a full-length owner address.
    pub open spec fn wf(self) -> bool {
        self.owner.len() == KEY_LEN
    }

    /// Whether the fee has been paid.
    pub open spec fn paid(self) -> bool {
        self.is_allowed == 1
    }

    /// The same record with the fee marked paid; no other field moves.
    pub open spec fn pay(self) -> FarmView {
        FarmView { is_allowed: 1, ..self }
    }
}

impl View for Farm {
    type V = FarmView;

    open spec fn view(&self) -> FarmView {
        FarmView { owner: self.owner@, nonce: self.nonce, is_allowed: self.is_allowed }
    }
}

/// The packed byte image of a farm record: owner, then nonce, then the
/// allowed byte.
pub open spec fn spec_pack_farm(f: FarmView) -> Seq<u8> {
    f.owner + seq![f.nonce, f.is_allowed]
}

/// What a storage slot decodes to: the record fields read off a buffer of
/// at least the record length, trailing bytes ignored; a shorter buffer
/// does not decode.
pub open spec fn spec_parse_farm(bytes: Seq<u8>) -> Option<FarmView> {
    if bytes.len() >= FARM_RECORD_LEN {
        Some(
            FarmView {
                owner: bytes.subrange(0, KEY_LEN as int),
                nonce: bytes[KEY_LEN as int],
                is_allowed: bytes[KEY_LEN + 1],
            },
        )
    } else {
        None
    }
}

/// Packing a well-formed record and decoding the bytes again yields the
/// record unchanged.
pub proof fn lemma_farm_round_trip(f: FarmView)
    requires
        f.wf(),
    ensures
        spec_parse_farm(spec_pack_farm(f)) == Some(f),
{
    let packed = spec_pack_farm(f);
    assert(packed.subrange(0, KEY_LEN as int) =~= f.owner);
    assert(spec_parse_farm(packed)->0 =~= f);
}

/// Decodes a farm record from its storage slot, totally: every buffer
/// yields either the record or a `MalformedInstruction` error.
pub fn unpack_farm(bytes: &[u8]) -> (r: Result<Farm, FarmError>)
    ensures
        match spec_parse_farm(bytes@) {
            Some(f) => r is Ok && r->Ok_0@ == f,
            None => r == Err::<Farm, FarmError>(FarmError::MalformedInstruction),
        },
{
    if bytes.len() < FARM_RECORD_LEN {
        return Err(FarmError::MalformedInstruction);
    }
    let owner_slice = vstd::slice::slice_subrange(bytes, 0, KEY_LEN);
    let owner = vstd::slice::slice_to_vec(owner_slice);
    let nonce = *vstd::slice::slice_index_get(bytes, KEY_LEN);
    let is_allowed = *vstd::slice::slice_index_get(bytes, KEY_LEN + 1);
    let farm = Farm { owner, nonce, is_allowed };
    proof {
        assert(farm@ =~= spec_parse_farm(bytes@)->0);
    }
    Ok(farm)
}

/// Packs a farm record for its storage slot.
pub fn pack_farm(f: &Farm) -> (r: Vec<u8>)
    ensures
        r@ == spec_pack_farm(f@),
{
    let mut r = copy_key(&f.owner);
    r.push(f.nonce);
    r.push(f.is_allowed);
    proof {
        assert(r@ =~= spec_pack_farm(f@));
    }
    r
}

} // verus!
