//! Custom asset types: a 32-byte identifier derived deterministically from an
//! owner address and canonicalized attributes, by rejection sampling a
//! domain-separated hash-to-curve over a one-byte nonce.

use vstd::prelude::*;
use vstd::string::StringSliceAdditionalSpecFns;
use crate::address::PublicAddress;
use crate::crypto::{group_hash_value_commitment, group_hash_vc};
use crate::errors::IronfishError;
use crate::util::{canonical32, extend_from, str_to_array, sub_vec};

verus! {

/// The length of an asset identifier: the canonical encoding of a curve
/// point.
pub const ASSET_IDENTIFIER_LENGTH: usize = 32;

/// The identifier of the network's native asset: the canonical encoding of
/// the default (unblinded) value-commitment generator. The native asset is
/// special-cased, not derived through the nonce search.
pub const NATIVE_ASSET: [u8; 32] = [
    215,
    200,
    103,
    6,
    245,
    129,
    122,
    167,
    24,
    205,
    28,
    250,
    208,
    50,
    51,
    188,
    214,
    74,
    119,
    137,
    253,
    148,
    34,
    211,
    177,
    122,
    246,
    130,
    58,
    126,
    106,
    198,
];

/// The 172-byte preimage an asset identifier is derived from: the owner's
/// raw address bytes (43), then name, chain, network and token identifier
/// (32 each), then the nonce (1). The circuit preimage of
/// [`crate::bits::asset_info_preimage`] follows this same ordering.
pub open spec fn asset_preimage(
    owner: Seq<u8>,
    name: Seq<u8>,
    chain: Seq<u8>,
    network: Seq<u8>,
    token_identifier: Seq<u8>,
    nonce: u8,
) -> Seq<u8> {
    owner + name + chain + network + token_identifier + seq![nonce]
}

/// Whether hashing the preimage built from these fields and this nonce to
/// the curve yields a valid point.
pub open spec fn derive_ok(
    owner: Seq<u8>,
    name: Seq<u8>,
    chain: Seq<u8>,
    network: Seq<u8>,
    token_identifier: Seq<u8>,
    nonce: u8,
) -> bool {
    group_hash_vc(asset_preimage(owner, name, chain, network, token_identifier, nonce)) is Some
}

/// What a completed derivation pins down: the nonce is the least one whose
/// preimage hashes to a valid point, and the identifier is that point's
/// encoding.
pub open spec fn asset_derived(
    owner: Seq<u8>,
    name: Seq<u8>,
    chain: Seq<u8>,
    network: Seq<u8>,
    token_identifier: Seq<u8>,
    nonce: u8,
    identifier: Seq<u8>,
) -> bool {
    &&& derive_ok(owner, name, chain, network, token_identifier, nonce)
    &&& forall|m: u8| m < nonce ==> !derive_ok(owner, name, chain, network, token_identifier, m)
    &&& Some(identifier) == group_hash_vc(
        asset_preimage(owner, name, chain, network, token_identifier, nonce),
    )
}

/// All the fields necessary for creating and transacting with a custom asset.
/// Every value of this type holds an identifier actually derived from its
/// other fields at its nonce.
#[derive(Debug)]
pub struct Asset {
    name: Vec<u8>,
    chain: Vec<u8>,
    network: Vec<u8>,
    token_identifier: Vec<u8>,
    owner: PublicAddress,
    nonce: u8,
    identifier: Vec<u8>,
}

/// The mathematical content of an asset.
pub ghost struct AssetView {
    pub name: Seq<u8>,
    pub chain: Seq<u8>,
    pub network: Seq<u8>,
    pub token_identifier: Seq<u8>,
    pub owner: Seq<u8>,
    pub nonce: u8,
    pub identifier: Seq<u8>,
}

impl View for Asset {
    type V = AssetView;

    closed spec fn view(&self) -> AssetView {
        AssetView {
            name: self.name@,
            chain: self.chain@,
            network: self.network@,
            token_identifier: self.token_identifier@,
            owner: self.owner@,
            nonce: self.nonce,
            identifier: self.identifier@,
        }
    }
}

impl Asset {
    #[verifier::type_invariant]
    spec fn type_inv(self) -> bool {
        &&& self.name@.len() == 32
        &&& self.chain@.len() == 32
        &&& self.network@.len() == 32
        &&& self.token_identifier@.len() == 32
        &&& self.identifier@.len() == 32
        &&& Some(self.identifier@) == group_hash_vc(
            asset_preimage(
                self.owner@,
                self.name@,
                self.chain@,
                self.network@,
                self.token_identifier@,
                self.nonce,
            ),
        )
    }

    /// One attempt of the derivation: build the 172-byte preimage for this
    /// nonce and hash it to the curve. Succeeds exactly when a valid point
    /// comes out, and then the identifier is that point's encoding.
    pub fn new_with_nonce(
        owner: &PublicAddress,
        name: &Vec<u8>,
        chain: &Vec<u8>,
        network: &Vec<u8>,
        token_identifier: &Vec<u8>,
        nonce: u8,
    ) -> (r: Result<Asset, IronfishError>)
        requires
            name@.len() == 32,
            chain@.len() == 32,
            network@.len() == 32,
            token_identifier@.len() == 32,
        ensures
            r is Ok <==> derive_ok(owner@, name@, chain@, network@, token_identifier@, nonce),
            r matches Ok(a) ==> a@.owner == owner@ && a@.name == name@ && a@.chain == chain@
                && a@.network == network@ && a@.token_identifier == token_identifier@ && a@.nonce
                == nonce && Some(a@.identifier) == group_hash_vc(
                asset_preimage(owner@, name@, chain@, network@, token_identifier@, nonce),
            ),
            r matches Err(e) ==> e == IronfishError::InvalidAssetIdentifier,
    {
        let owner_bytes = owner.public_address();
        let mut preimage: Vec<u8> = Vec::new();
        extend_from(&mut preimage, owner_bytes, 0, 43);
        extend_from(&mut preimage, name, 0, 32);
        extend_from(&mut preimage, chain, 0, 32);
        extend_from(&mut preimage, network, 0, 32);
        extend_from(&mut preimage, token_identifier, 0, 32);
        preimage.push(nonce);
        proof {
            assert(owner@.subrange(0, 43) =~= owner@);
            assert(name@.subrange(0, 32) =~= name@);
            assert(chain@.subrange(0, 32) =~= chain@);
            assert(network@.subrange(0, 32) =~= network@);
            assert(token_identifier@.subrange(0, 32) =~= token_identifier@);
            assert(preimage@ =~= asset_preimage(
                owner@,
                name@,
                chain@,
                network@,
                token_identifier@,
                nonce,
            ));
        }
        match group_hash_value_commitment(&preimage) {
            Some(identifier) => {
                let name_copy = sub_vec(name, 0, 32);
                let chain_copy = sub_vec(chain, 0, 32);
                let network_copy = sub_vec(network, 0, 32);
                let token_copy = sub_vec(token_identifier, 0, 32);
                proof {
                    assert(name_copy@ =~= name@);
                    assert(chain_copy@ =~= chain@);
                    assert(network_copy@ =~= network@);
                    assert(token_copy@ =~= token_identifier@);
                }
                Ok(
                    Asset {
                        name: name_copy,
                        chain: chain_copy,
                        network: network_copy,
                        token_identifier: token_copy,
                        owner: owner.duplicate(),
                        nonce,
                        identifier,
                    },
                )
            },
            None => Err(IronfishError::InvalidAssetIdentifier),
        }
    }

    /// Derive an asset from an owner address and free-form attributes. The
    /// attributes are canonicalized to 32 bytes each; the nonce search starts
    /// at 0 and is strictly sequential, so the derivation is reproducible:
    /// identical inputs always find the same nonce and identifier. Fails
    /// exactly when no nonce in the one-byte range yields a valid point.
    pub fn new(
        owner: PublicAddress,
        name: &str,
        chain: &str,
        network: &str,
        token_identifier: &str,
    ) -> (r: Result<Asset, IronfishError>)
        ensures
            r matches Ok(a) ==> a@.owner == owner@ && a@.name == canonical32(name.spec_bytes())
                && a@.chain == canonical32(chain.spec_bytes()) && a@.network == canonical32(
                network.spec_bytes(),
            ) && a@.token_identifier == canonical32(token_identifier.spec_bytes()) && asset_derived(
                owner@,
                a@.name,
                a@.chain,
                a@.network,
                a@.token_identifier,
                a@.nonce,
                a@.identifier,
            ),
            r is Ok <==> exists|m: u8|
                #![auto]
                derive_ok(
                    owner@,
                    canonical32(name.spec_bytes()),
                    canonical32(chain.spec_bytes()),
                    canonical32(network.spec_bytes()),
                    canonical32(token_identifier.spec_bytes()),
                    m,
                ),
            r matches Err(e) ==> e == IronfishError::RandomnessExhausted,
    {
        let name_bytes = str_to_array(name);
        let chain_bytes = str_to_array(chain);
        let network_bytes = str_to_array(network);
        let token_identifier_bytes = str_to_array(token_identifier);

        let mut nonce: u8 = 0;
        loop
            invariant
                name_bytes@ == canonical32(name.spec_bytes()),
                chain_bytes@ == canonical32(chain.spec_bytes()),
                network_bytes@ == canonical32(network.spec_bytes()),
                token_identifier_bytes@ == canonical32(token_identifier.spec_bytes()),
                name_bytes@.len() == 32,
                chain_bytes@.len() == 32,
                network_bytes@.len() == 32,
                token_identifier_bytes@.len() == 32,
                forall|m: u8|
                    m < nonce ==> !derive_ok(
                        owner@,
                        name_bytes@,
                        chain_bytes@,
                        network_bytes@,
                        token_identifier_bytes@,
                        m,
                    ),
            decreases 256 - nonce,
        {
            match Asset::new_with_nonce(
                &owner,
                &name_bytes,
                &chain_bytes,
                &network_bytes,
                &token_identifier_bytes,
                nonce,
            ) {
                Ok(asset) => {
                    return Ok(asset);
                },
                Err(_) => {},
            }
            if nonce == 255 {
                proof {
                    assert(forall|m: u8|
                        !derive_ok(
                            owner@,
                            name_bytes@,
                            chain_bytes@,
                            network_bytes@,
                            token_identifier_bytes@,
                            m,
                        )) by {
                        assert(forall|m: u8|
                            m < 255 ==> !derive_ok(
                                owner@,
                                name_bytes@,
                                chain_bytes@,
                                network_bytes@,
                                token_identifier_bytes@,
                                m,
                            ));
                    };
                }
                return Err(IronfishError::RandomnessExhausted);
            }
            nonce += 1;
        }
    }

    /// The canonicalized name of the asset.
    pub fn name(&self) -> (r: &Vec<u8>)
        ensures
            r@ == self@.name,
            self@.name.len() == 32,
    {
        proof {
            use_type_invariant(self);
        }
        &self.name
    }

    /// The canonicalized chain the asset originated from.
    pub fn chain(&self) -> (r: &Vec<u8>)
        ensures
            r@ == self@.chain,
            self@.chain.len() == 32,
    {
        proof {
            use_type_invariant(self);
        }
        &self.chain
    }

    /// The canonicalized network the asset originated from.
    pub fn network(&self) -> (r: &Vec<u8>)
        ensures
            r@ == self@.network,
            self@.network.len() == 32,
    {
        proof {
            use_type_invariant(self);
        }
        &self.network
    }

    /// The canonicalized token identifier of the asset.
    pub fn token_identifier(&self) -> (r: &Vec<u8>)
        ensures
            r@ == self@.token_identifier,
            self@.token_identifier.len() == 32,
    {
        proof {
            use_type_invariant(self);
        }
        &self.token_identifier
    }

    /// The owner who created the asset and may mint it.
    pub fn public_address(&self) -> (r: &PublicAddress)
        ensures
            r@ == self@.owner,
    {
        &self.owner
    }

    /// The nonce at which the derivation found a valid point.
    pub fn nonce(&self) -> (r: u8)
        ensures
            r == self@.nonce,
    {
        self.nonce
    }

    /// The derived 32-byte asset identifier. It is fully determined by the
    /// other fields: it encodes the point their preimage hashes to.
    pub fn identifier(&self) -> (r: &Vec<u8>)
        ensures
            r@ == self@.identifier,
            self@.identifier.len() == 32,
            Some(self@.identifier) == group_hash_vc(
                asset_preimage(
                    self@.owner,
                    self@.name,
                    self@.chain,
                    self@.network,
                    self@.token_identifier,
                    self@.nonce,
                ),
            ),
    {
        proof {
            use_type_invariant(self);
        }
        &self.identifier
    }
}

/// Asset derivation determinism: two completed derivations from the same
/// owner and attributes agree on the nonce and the identifier.
pub proof fn lemma_derivation_deterministic(
    owner: Seq<u8>,
    name: Seq<u8>,
    chain: Seq<u8>,
    network: Seq<u8>,
    token_identifier: Seq<u8>,
    n1: u8,
    id1: Seq<u8>,
    n2: u8,
    id2: Seq<u8>,
)
    requires
        asset_derived(owner, name, chain, network, token_identifier, n1, id1),
        asset_derived(owner, name, chain, network, token_identifier, n2, id2),
    ensures
        n1 == n2,
        id1 == id2,
{
    if n1 < n2 {
        assert(!derive_ok(owner, name, chain, network, token_identifier, n1));
    }
    if n2 < n1 {
        assert(!derive_ok(owner, name, chain, network, token_identifier, n2));
    }
    assert(Some(id1) == Some(id2));
}

} // verus!
