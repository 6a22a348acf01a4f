//! Access to the verifiable-randomness oracle's account data.
//!
//! A randomness account is a zero-copy record: an 8-byte discriminator
//! followed by a fixed little-endian layout.  The protocol reads three of
//! its fields: the slot of the commitment (`seed_slot`, at byte offset
//! 104), the slot at which the value is revealed (`reveal_slot`, offset
//! 144), and the 32-byte random value itself (offset 152).

use vstd::prelude::*;

use vstd::bytes::spec_u64_from_le_bytes;

verus! {

/// The fields of a randomness account that the protocol reads.
#[derive(Clone, Debug)]
pub struct OracleReading {
    /// Slot at which the randomness commitment was made.
    pub seed_slot: u64,
    /// Slot at which the committed value is revealed.
    pub reveal_slot: u64,
    /// The 32-byte random value.
    pub value: Vec<u8>,
}

/// The 8-byte discriminator that opens every randomness account.
pub open spec fn randomness_discriminator() -> Seq<u8> {
    seq![10u8, 66u8, 229u8, 135u8, 220u8, 239u8, 217u8, 114u8]
}

/// Raw account data long enough to hold the 408-byte record and opening
/// with the randomness discriminator.
pub open spec fn randomness_data_well_formed(data: Seq<u8>) -> bool {
    &&& data.len() >= 408
    &&& data.subrange(0, 8) == randomness_discriminator()
}

/// The commitment slot stored in well-formed randomness account data.
pub open spec fn spec_seed_slot(data: Seq<u8>) -> u64 {
    spec_u64_from_le_bytes(data.subrange(104, 112))
}

/// The reveal slot stored in well-formed randomness account data.
pub open spec fn spec_reveal_slot(data: Seq<u8>) -> u64 {
    spec_u64_from_le_bytes(data.subrange(144, 152))
}

/// The 32-byte random value stored in well-formed randomness account data.
pub open spec fn spec_randomness_value(data: Seq<u8>) -> Seq<u8> {
    data.subrange(152, 184)
}

/// Relies on `switchboard_on_demand::RandomnessAccountData::parse`: it
/// accepts only data that opens with the account discriminator and holds
/// the full 408-byte record, and on success exposes the record's
/// `seed_slot`, `reveal_slot` and `value` fields, which sit at fixed
/// little-endian offsets of the zero-copy layout.  Parsing may also reject
/// a buffer for reasons of its own (it casts in place), so success is not
/// promised; every successful outcome carries the stored fields.
#[verifier::external_body]
pub(crate) fn parse_randomness_account(data: &Vec<u8>) -> (r: Option<OracleReading>)
    ensures
        r matches Some(o) ==> {
            &&& randomness_data_well_formed(data@)
            &&& o.seed_slot == spec_seed_slot(data@)
            &&& o.reveal_slot == spec_reveal_slot(data@)
            &&& o.value@ == spec_randomness_value(data@)
        },
        !randomness_data_well_formed(data@) ==> r is None,
{
    let mut buf = data.clone();
    let cell = std::cell::RefCell::new(buf.as_mut_slice());
    let r = match switchboard_on_demand::on_demand::accounts::randomness::RandomnessAccountData::parse(
        cell.borrow(),
    ) {
        Ok(rd) => Some(
            OracleReading {
                seed_slot: rd.seed_slot,
                reveal_slot: rd.reveal_slot,
                value: rd.value.to_vec(),
            },
        ),
        Err(_) => None,
    };
    r
}

} // verus!
