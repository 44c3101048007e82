use matrix_feed::signup::ExternalForm;

fn form(user: &str, pass: &str, confirm: &str) -> ExternalForm {
    ExternalForm::new(user.to_string(), pass.to_string(), confirm.to_string())
}

#[test]
fn form_is_valid_when_passwords_agree() {
    assert!(form("alice", "secret", "secret").is_valid());
    assert!(!form("alice", "secret", "Secret").is_valid());
    assert!(form("alice", "", "").is_valid());
}

#[test]
fn mac_is_hmac_sha1_hex() {
    let f = form("alice", "secret", "secret");
    assert_eq!(f.mac("abc".to_string()), "8e868cdad020b01674fedcc366dfe9cfdd6bbcd9");
    let g = form("bob", "hunter2", "hunter2");
    assert_eq!(g.mac("n0nce".to_string()), "91d2fe2fc1a0dbcc8e01f7d3f82f43005ef210f9");
}

#[test]
fn mac_depends_on_the_nonce() {
    let f = form("alice", "secret", "secret");
    assert_ne!(f.mac("abc".to_string()), f.mac("abd".to_string()));
    assert_eq!(f.mac("abc".to_string()).len(), 40);
}

#[test]
fn internal_form_is_never_admin() {
    let f = form("alice", "secret", "secret");
    let i = f.internal_form("n".to_string(), "m".to_string());
    assert_eq!(i.nonce, "n");
    assert_eq!(i.username, "alice");
    assert_eq!(i.password, "secret");
    assert_eq!(i.mac, "m");
    assert!(!i.admin);
}

#[test]
fn registration_carries_the_mac_of_its_nonce() {
    let f = form("alice", "secret", "secret");
    let r = f.registration("abc".to_string());
    assert_eq!(r.nonce, "abc");
    assert_eq!(r.mac, "8e868cdad020b01674fedcc366dfe9cfdd6bbcd9");
    assert!(!r.admin);
}
