use russh::keys::{HashAlg, PublicKey};
use shplank::session::Session;

fn ed25519_key_bytes() -> Vec<u8> {
    let mut v = vec![0, 0, 0, 11];
    v.extend_from_slice(b"ssh-ed25519");
    v.extend_from_slice(&[0, 0, 0, 32]);
    v.extend_from_slice(&[7u8; 32]);
    v
}

#[test]
fn key_becomes_its_fingerprint() {
    let bytes = ed25519_key_bytes();
    let expected = PublicKey::from_bytes(&bytes).unwrap().fingerprint(HashAlg::Sha256).to_string();
    let mut s = Session::new(1, None);
    s.authenticate_key(&bytes);
    let fp = s.fingerprint.clone().unwrap();
    assert_eq!(fp, expected);
    assert!(fp.starts_with("SHA256:"));
    assert_ne!(fp.as_bytes(), bytes.as_slice());
}

#[test]
fn garbage_is_no_key() {
    let mut s = Session::new(1, None);
    s.authenticated("SHA256:old".to_string());
    s.authenticate_key(&[1, 2, 3]);
    assert_eq!(s.fingerprint, None);
}
