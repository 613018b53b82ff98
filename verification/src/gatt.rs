//! What the two peripherals answer to reads, writes and bonding, as far as
//! both answer alike.

use vstd::prelude::*;

verus! {

/// Why a characteristic value could not be read as what it should be.
#[derive(Debug, Clone, Copy, PartialEq, Eq, Structural)]
pub enum FromGattError {
    /// The value is empty.
    InvalidLength,
    /// The first byte stands for nothing.
    InvalidCharacter,
}

/// The error a request is turned away with.
#[derive(Debug, Clone, Copy, PartialEq, Eq, Structural)]
pub enum AttError {
    /// The connection is not encrypted.
    InsufficientEncryption,
    /// The value written stands for nothing.
    ValueNotAllowed,
    /// The characteristic can be written only.
    WriteRequestRejected,
}

/// What is done about a new bond.
#[derive(Debug, Clone, Copy, PartialEq, Eq, Structural)]
pub enum BondDecision {
    /// Take the bond, and keep it in flash if `persist` is set.
    Adopt { persist: bool },
    /// Remove the bond and drop the connection.
    Refuse,
}

/// What is done about a new bond: the first device to bond is the only one,
/// and its bond is kept in flash where it came with an identity resolving
/// key.
pub open spec fn bond_decision(already_bonded: bool, has_identity_key: bool) -> BondDecision {
    if already_bonded {
        BondDecision::Refuse
    } else {
        BondDecision::Adopt { persist: has_identity_key }
    }
}

/// Decides about a new bond. `already_bonded` says whether flash holds a
/// bond; `has_identity_key` whether the new one came with an identity
/// resolving key.
pub fn decide_bond(already_bonded: bool, has_identity_key: bool) -> (decision: BondDecision)
    ensures
        decision == bond_decision(already_bonded, has_identity_key),
{
    if already_bonded {
        BondDecision::Refuse
    } else {
        BondDecision::Adopt { persist: has_identity_key }
    }
}

/// The key under which the bond is kept in flash.
#[derive(Debug, Clone, Copy, PartialEq, Eq, Structural)]
pub struct BondStoreKey;

/// Why a flash record is not the bond.
#[derive(Debug, Clone, Copy, PartialEq, Eq, Structural)]
pub enum SerializationError {
    /// The record does not begin with the name of the bond.
    InvalidData,
}

/// The name that marks the bond's record: `BOND`.
pub open spec fn bond_store_name() -> Seq<u8> {
    seq![0x42u8, 0x4f, 0x4e, 0x44]
}

impl BondStoreKey {
    /// How many bytes the key takes.
    pub fn get_len() -> (len: usize)
        ensures
            len == bond_store_name().len(),
    {
        4
    }

    /// Reads the key off the front of a flash record: the record must begin
    /// with the four bytes of the name, and the key is as long as the name.
    pub fn deserialize_from(buffer: &[u8]) -> (res: Result<(BondStoreKey, usize), SerializationError>)
        ensures
            res is Ok <==> buffer@.len() >= 4 && buffer@.take(4) == bond_store_name(),
            res matches Ok(read) ==> read.1 == 4,
            res matches Err(error) ==> error == SerializationError::InvalidData,
    {
        if buffer.len() >= 4 && buffer[0] == 0x42 && buffer[1] == 0x4f && buffer[2] == 0x4e
            && buffer[3] == 0x44 {
            proof {
                assert(buffer@.take(4) =~= bond_store_name());
            }
            Ok((BondStoreKey, 4))
        } else {
            proof {
                if buffer@.len() >= 4 {
                    let front = buffer@.take(4);
                    assert(front[0] == buffer@[0] && front[1] == buffer@[1] && front[2] == buffer@[2]
                        && front[3] == buffer@[3]);
                    assert(bond_store_name()[0] == 0x42 && bond_store_name()[1] == 0x4f
                        && bond_store_name()[2] == 0x4e && bond_store_name()[3] == 0x44);
                }
            }
            Err(SerializationError::InvalidData)
        }
    }
}

} // verus!
