//! The owner identity of a note: a fixed 43-byte encoding of a diversifier
//! and a transmission key, consumed opaquely by the rest of the crate.

use vstd::prelude::*;
use crate::crypto::{address_is_valid, address_parses};
use crate::errors::IronfishError;
use crate::util::sub_vec;

verus! {

/// The length of a public address encoding: an 11-byte diversifier followed
/// by a 32-byte transmission key.
pub const PUBLIC_ADDRESS_SIZE: usize = 43;

/// A public address under which notes are owned. One owner can have several,
/// each with a different diversifier. Every value of this type holds a
/// well-formed 43-byte encoding.
#[derive(Debug)]
pub struct PublicAddress {
    bytes: Vec<u8>,
}

impl View for PublicAddress {
    type V = Seq<u8>;

    closed spec fn view(&self) -> Seq<u8> {
        self.bytes@
    }
}

impl PublicAddress {
    /// A well-formed address: 43 bytes that parse as a diversifier with a
    /// valid base point and a canonical, non-identity transmission key.
    #[verifier::type_invariant]
    spec fn type_inv(self) -> bool {
        self.bytes@.len() == 43 && address_parses(self.bytes@)
    }

    /// Parse an address from its 43-byte encoding. Fails with a decoding
    /// error exactly when the bytes are not a well-formed address.
    pub fn new(address_bytes: &[u8; 43]) -> (r: Result<PublicAddress, IronfishError>)
        ensures
            r matches Ok(a) ==> a@ == address_bytes@,
            r is Ok <==> address_parses(address_bytes@),
            r matches Err(e) ==> e == IronfishError::Decoding,
    {
        let bytes = vstd::slice::slice_to_vec(address_bytes.as_slice());
        PublicAddress::from_vec(bytes)
    }

    /// Parse an address from a 43-byte vector, as [`Self::new`] does.
    pub fn from_vec(bytes: Vec<u8>) -> (r: Result<PublicAddress, IronfishError>)
        ensures
            r matches Ok(a) ==> a@ == bytes@,
            r is Ok <==> bytes@.len() == 43 && address_parses(bytes@),
            r matches Err(e) ==> e == IronfishError::Decoding,
    {
        if bytes.len() != PUBLIC_ADDRESS_SIZE {
            return Err(IronfishError::Decoding);
        }
        if address_is_valid(&bytes) {
            Ok(PublicAddress { bytes })
        } else {
            Err(IronfishError::Decoding)
        }
    }

    /// The 43-byte encoding of this address. Every address this type can
    /// hold is well-formed, and the ensures says so.
    pub fn public_address(&self) -> (r: &Vec<u8>)
        ensures
            r@ == self@,
            self@.len() == 43,
            address_parses(self@),
    {
        proof {
            use_type_invariant(self);
        }
        &self.bytes
    }

    /// An owned copy of this address.
    pub fn duplicate(&self) -> (r: PublicAddress)
        ensures
            r@ == self@,
    {
        proof {
            use_type_invariant(self);
        }
        let bytes = sub_vec(&self.bytes, 0, 43);
        proof {
            assert(bytes@ =~= self.bytes@);
        }
        PublicAddress { bytes }
    }
}

} // verus!
