use group::GroupEncoding;
use ironfish::address::PublicAddress;
use ironfish::asset::{Asset, NATIVE_ASSET};
use ironfish::errors::IronfishError;
use ironfish::util::str_to_array;

const OWNER_BYTES: [u8; 43] = [
    19, 26, 159, 204, 98, 253, 225, 73, 168, 125, 3, 240, 3, 129, 255, 146, 50, 134, 44, 84, 181,
    195, 50, 249, 78, 128, 228, 152, 239, 10, 106, 10, 27, 58, 155, 162, 114, 133, 17, 48, 177,
    29, 72,
];

#[test]
fn test_asset_new_with_nonce() {
    let owner =
        PublicAddress::new(&OWNER_BYTES).expect("can create a deterministic public address");
    let name = str_to_array("name");
    let chain = str_to_array("chain");
    let network = str_to_array("network");
    let token_identifier = str_to_array("token identifier");
    let nonce = 2;

    let asset = Asset::new_with_nonce(&owner, &name, &chain, &network, &token_identifier, nonce)
        .expect("can create an asset");

    assert_eq!(
        asset.public_address().public_address(),
        owner.public_address()
    );
    assert_eq!(asset.name(), &name);
    assert_eq!(asset.chain(), &chain);
    assert_eq!(asset.network(), &network);
    assert_eq!(asset.token_identifier(), &token_identifier);
    assert_eq!(asset.nonce(), nonce);
    assert_eq!(
        asset.identifier().as_slice(),
        [
            239, 38, 106, 64, 62, 130, 45, 125, 77, 114, 12, 122, 9, 173, 248, 164, 86, 58, 244,
            54, 238, 165, 86, 164, 31, 98, 78, 192, 15, 94, 154, 25
        ],
    );
}

#[test]
fn test_asset_new() {
    let owner = PublicAddress::new(&OWNER_BYTES).expect("can create a public address");
    let name = "name";
    let chain = "chain";
    let network = "network";
    let token_identifier = "token identifier";

    let asset =
        Asset::new(owner, name, chain, network, token_identifier).expect("can create an asset");

    assert_eq!(asset.public_address().public_address().as_slice(), OWNER_BYTES);
    assert_eq!(asset.name(), &str_to_array(name));
    assert_eq!(asset.chain(), &str_to_array(chain));
    assert_eq!(asset.network(), &str_to_array(network));
    assert_eq!(asset.token_identifier(), &str_to_array(token_identifier));
}

#[test]
fn test_asset_native_identifier() {
    // The native asset uses the original value commitment generator; it is
    // not derived through the nonce search.
    assert_eq!(
        NATIVE_ASSET,
        sapling_crypto::constants::VALUE_COMMITMENT_VALUE_GENERATOR.to_bytes()
    );
}

#[test]
fn test_asset_derivation_deterministic() {
    let owner1 = PublicAddress::new(&OWNER_BYTES).expect("can create a public address");
    let owner2 = PublicAddress::new(&OWNER_BYTES).expect("can create a public address");

    let asset1 = Asset::new(owner1, "name", "chain", "network", "tok")
        .expect("can create an asset");
    let asset2 = Asset::new(owner2, "name", "chain", "network", "tok")
        .expect("can create an asset");

    assert_eq!(asset1.nonce(), asset2.nonce());
    assert_eq!(asset1.identifier(), asset2.identifier());
}

#[test]
fn test_asset_new_with_nonce_rejects_invalid_nonce() {
    // Nonce 2 is the least nonce that derives for these attributes, so the
    // earlier nonces must be rejected with the identifier error.
    let owner = PublicAddress::new(&OWNER_BYTES).expect("can create a public address");
    let name = str_to_array("name");
    let chain = str_to_array("chain");
    let network = str_to_array("network");
    let token_identifier = str_to_array("token identifier");

    for nonce in 0..2 {
        let result =
            Asset::new_with_nonce(&owner, &name, &chain, &network, &token_identifier, nonce);
        assert!(matches!(result, Err(IronfishError::InvalidAssetIdentifier)));
    }

    let derived = Asset::new(owner, "name", "chain", "network", "token identifier")
        .expect("can create an asset");
    assert_eq!(derived.nonce(), 2);
}

#[test]
fn test_public_address_rejects_malformed_bytes() {
    // An all-0xff transmission key is not a canonical point encoding.
    let mut bad = OWNER_BYTES;
    for b in bad.iter_mut().skip(11) {
        *b = 0xff;
    }
    assert!(matches!(
        PublicAddress::new(&bad),
        Err(IronfishError::Decoding)
    ));
}
