use ltc_gateway::hashing::hash160;
use ltc_gateway::keys::{
    addr_to_script, new_key, new_key_with_prefix, script_hash, witness_program, AddressError,
};
use bech32::FromBase32;
use sha2::Digest;

fn expected_identifier(program: &[u8]) -> String {
    let mut script = vec![0u8, 20u8];
    script.extend_from_slice(program);
    let mut h = sha2::Sha256::digest(&script).to_vec();
    h.reverse();
    hex::encode(h)
}

#[test]
fn new_key_gives_a_checksummed_ltc_address_of_its_public_key() {
    let (sk, wif, addr) = new_key();
    assert_eq!(sk.len(), 32);
    assert_eq!(wif, hex::encode(&sk));
    assert!(addr.starts_with("ltc1q"));
    let (hrp, data, variant) = bech32::decode(&addr).unwrap();
    assert_eq!(hrp, "ltc");
    assert_eq!(variant, bech32::Variant::Bech32);
    assert_eq!(data[0].to_u8(), 0);
    let program = Vec::<u8>::from_base32(&data[1..]).unwrap();
    let secret = secp256k1::SecretKey::from_slice(&sk).unwrap();
    let pk = secp256k1::PublicKey::from_secret_key(&secp256k1::Secp256k1::new(), &secret);
    assert_eq!(program, hash160(&pk.serialize()));
    assert_eq!(program.len(), 20);
}

#[test]
fn new_keys_differ() {
    let (a, _, x) = new_key();
    let (b, _, y) = new_key();
    assert_ne!(a, b);
    assert_ne!(x, y);
}

#[test]
fn hash160_matches_known_value() {
    // hash160 of the compressed generator point
    let g = hex::decode("0279be667ef9dcbbac55a06295ce870b07029bfcdb2dce28d959f2815b16f81798").unwrap();
    assert_eq!(hex::encode(hash160(&g)), "751e76e8199196d454941c45d1b3a323f1433bd6");
}

#[test]
fn script_identifier_of_a_known_address() {
    let program = hex::decode("751e76e8199196d454941c45d1b3a323f1433bd6").unwrap();
    let addr = "bc1qw508d6qejxtdg4y5r3zarvary0c5xw7kv8f3t4";
    assert_eq!(witness_program(addr), Ok(program.clone()));
    let id = script_hash(addr).unwrap();
    assert_eq!(id.len(), 64);
    assert_eq!(id, expected_identifier(&program));
    let mut script = vec![0u8, 20u8];
    script.extend_from_slice(&program);
    assert_eq!(addr_to_script(addr), Ok(script));
}

#[test]
fn script_identifier_is_deterministic_and_tracks_the_program() {
    let (_, _, a) = new_key();
    let (_, _, b) = new_key();
    assert_eq!(script_hash(&a), script_hash(&a));
    assert_ne!(script_hash(&a).unwrap(), script_hash(&b).unwrap());
    // the prefix is not part of the identifier: same program, same identifier
    let upper = "BC1QW508D6QEJXTDG4Y5R3ZARVARY0C5XW7KV8F3T4";
    assert_eq!(script_hash(upper), script_hash("bc1qw508d6qejxtdg4y5r3zarvary0c5xw7kv8f3t4"));
}

#[test]
fn identifier_of_generated_address() {
    let (sk, _, addr) = new_key();
    let secret = secp256k1::SecretKey::from_slice(&sk).unwrap();
    let pk = secp256k1::PublicKey::from_secret_key(&secp256k1::Secp256k1::new(), &secret);
    let program = hash160(&pk.serialize());
    assert_eq!(script_hash(&addr), Ok(expected_identifier(&program)));
}

#[test]
fn other_witness_versions_are_refused() {
    let taproot = "bc1p0xlxvlhemja6c4dqv22uapctqupfhlxm9h8z3k2e72q4k9hcz7vqzk5jj0";
    assert_eq!(script_hash(taproot), Err(AddressError::UnsupportedVersion));
}

#[test]
fn other_program_sizes_are_refused() {
    let p2wsh = "bc1qrp33g0q5c5txsp9arysrx4k6zdkfs4nce4xj0gdcccefvpysxf3qccfmv3";
    assert_eq!(script_hash(p2wsh), Err(AddressError::UnsupportedProgram));
}

#[test]
fn malformed_addresses_are_refused() {
    assert_eq!(script_hash(""), Err(AddressError::Malformed));
    assert_eq!(script_hash("not an address"), Err(AddressError::Malformed));
    // checksum broken in the last character
    assert_eq!(
        script_hash("bc1qw508d6qejxtdg4y5r3zarvary0c5xw7kv8f3t5"),
        Err(AddressError::Malformed)
    );
    assert_eq!(addr_to_script("ltc1"), Err(AddressError::Malformed));
}

#[test]
fn address_prefix_is_configurable() {
    let (_, _, addr) = new_key_with_prefix("rltc").unwrap();
    let (hrp, data, _) = bech32::decode(&addr).unwrap();
    assert_eq!(hrp, "rltc");
    assert_eq!(Vec::<u8>::from_base32(&data[1..]).unwrap().len(), 20);
    assert_eq!(script_hash(&addr).unwrap().len(), 64);
    assert!(new_key_with_prefix("").is_none());
    assert!(new_key_with_prefix("mIxed").is_none());
    assert!(new_key_with_prefix(&"a".repeat(84)).is_none());
    assert!(new_key_with_prefix("with space").is_none());
}
