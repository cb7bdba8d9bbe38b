use riacoin_node::wallet::Wallet;
use sha2::Digest;

const RFC_SEED: &str = "9d61b19deffd5a60ba844af492ec2cc44449c5697b326919703bac031cae7f60";
const RFC_PUBLIC: &str = "d75a980182b10ab7d54bfed3c964073a0ee172f3daa62325af021a68f707511a";
const RFC_EMPTY_SIG: &str = "e5564300c360ac729086e2cc806e828a84877f1eb8e5d974d873e065224901555fb8821590a33bacc61e39701cf9b46bd25bf5f0595bbe24655141438e7a100b";

fn rfc_wallet() -> Wallet {
    let bytes = hex::decode(RFC_SEED).unwrap();
    let mut seed = [0u8; 32];
    seed.copy_from_slice(&bytes);
    Wallet::from_bytes(seed)
}

fn flip_hex_bit(s: &str, pos: usize) -> String {
    let mut bytes = hex::decode(s).unwrap();
    bytes[pos / 8] ^= 1 << (pos % 8);
    hex::encode(bytes)
}

#[test]
fn address_is_hex_of_public_key() {
    assert_eq!(rfc_wallet().get_address(), RFC_PUBLIC);
}

#[test]
fn sign_matches_known_signature() {
    assert_eq!(rfc_wallet().sign(b""), RFC_EMPTY_SIG);
}

#[test]
fn signature_verifies_against_address() {
    let w = rfc_wallet();
    let payload = b"pay bob 10";
    let sig = w.sign(payload);
    assert!(Wallet::verify(&w.get_address(), payload, &sig));
    let fresh = Wallet::new();
    let sig2 = fresh.sign(payload);
    assert!(Wallet::verify(&fresh.get_address(), payload, &sig2));
}

#[test]
fn flipped_signature_bit_fails() {
    let w = rfc_wallet();
    let payload = b"pay bob 10";
    let sig = w.sign(payload);
    for pos in [0usize, 7, 100, 255, 256, 511] {
        let bad = flip_hex_bit(&sig, pos);
        assert!(!Wallet::verify(&w.get_address(), payload, &bad));
    }
}

#[test]
fn flipped_payload_bit_fails() {
    let w = rfc_wallet();
    let payload = b"pay bob 10".to_vec();
    let sig = w.sign(&payload);
    for pos in 0..payload.len() * 8 {
        let mut bad = payload.clone();
        bad[pos / 8] ^= 1 << (pos % 8);
        assert!(!Wallet::verify(&w.get_address(), &bad, &sig));
    }
}

#[test]
fn malformed_input_fails_closed() {
    let w = rfc_wallet();
    let sig = w.sign(b"x");
    let addr = w.get_address();
    assert!(!Wallet::verify("zz", b"x", &sig));
    assert!(!Wallet::verify(&addr, b"x", "not hex"));
    assert!(!Wallet::verify(&addr[..63], b"x", &sig));
    assert!(!Wallet::verify(&addr[..62], b"x", &sig));
    assert!(!Wallet::verify(&addr, b"x", &sig[..126]));
    assert!(!Wallet::verify("", b"x", ""));
}

#[test]
fn uppercase_hex_is_accepted() {
    let w = rfc_wallet();
    let sig = w.sign(b"x");
    assert!(Wallet::verify(&w.get_address().to_uppercase(), b"x", &sig.to_uppercase()));
}

#[test]
fn address_is_deterministic_per_seed() {
    let a = Wallet::from_bytes([7u8; 32]);
    let b = Wallet::from_bytes([7u8; 32]);
    let c = Wallet::from_bytes([8u8; 32]);
    assert_eq!(a.get_address(), b.get_address());
    assert_ne!(a.get_address(), c.get_address());
    assert_eq!(a.get_address().len(), 64);
    let digest = hex::encode(sha2::Sha256::digest(b"abc"));
    assert_eq!(digest.len(), 64);
}
