use kornetti::platform::Error;
use kornetti::ssh::key::PrivateKey;

#[test]
fn generated_keys_round_trip_through_openssh_text() {
    let k = PrivateKey::generate_ed25519().unwrap();
    let public = k.public_key_openssh();
    assert!(public.starts_with("ssh-ed25519 "));
    let pem = k.inner().to_openssh(russh_keys::ssh_key::LineEnding::LF).unwrap();
    let back = PrivateKey::from_pem(&pem, None).unwrap();
    assert_eq!(back.public_key_openssh(), public);
}

#[test]
fn bad_keys_are_refused() {
    match PrivateKey::from_pem("not a key", None) {
        Err(Error::Ssh(m)) => assert!(m.starts_with("Failed to decode private key: ")),
        _ => panic!("expected a decode error"),
    }
    match PrivateKey::generate_rsa(1024) {
        Err(Error::Ssh(m)) => assert!(m.starts_with("Failed to generate key: ")),
        _ => panic!("expected a generation error"),
    }
}

#[test]
fn public_key_line_has_openssh_form() {
    let k = PrivateKey::generate_ed25519().unwrap();
    let public = k.public_key_openssh();
    let mut parts = public.splitn(3, ' ');
    let alg = parts.next().unwrap();
    let data = parts.next().unwrap();
    assert_eq!(alg, "ssh-ed25519");
    assert!(!data.is_empty());
    assert!(data
        .chars()
        .all(|c| c.is_ascii_alphanumeric() || c == '+' || c == '/' || c == '='));
}
