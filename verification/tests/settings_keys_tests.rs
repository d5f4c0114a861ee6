use remote_session::keys::{
    private_key_path_in, public_key_path_in, KeySetup, SetupFault, SetupPhase,
};
use remote_session::settings::Settings;

#[test]
fn default_settings_point_at_localhost() {
    let s = Settings::defaults("/home/support");
    assert_eq!(s.server, "localhost");
    assert_eq!(s.user, "support");
    assert_eq!(s.port, 22);
    assert_eq!(s.home_dir, "/home/support");
    assert_eq!(s.private_key.as_deref(), Some("/home/support/.ssh/id_rsa_pem"));
    assert_eq!(s.password.as_deref(), Some(""));
}

#[test]
fn redaction_clears_only_the_secret() {
    let mut s = Settings::defaults("/home/support");
    s.server = "prod.example".to_string();
    s.password = Some("a-real-secret".to_string());
    let r = s.redacted();
    assert_eq!(r.server, "prod.example");
    assert_eq!(r.user, "support");
    assert_eq!(r.port, 22);
    assert_eq!(r.home_dir, "/home/support");
    assert_eq!(r.private_key.as_deref(), Some("/home/support/.ssh/id_rsa_pem"));
    assert_eq!(r.password.as_deref(), Some(""));
}

#[test]
fn key_paths_live_under_the_home_directory() {
    assert_eq!(private_key_path_in("/home/u"), "/home/u/.ssh/id_rsa");
    assert_eq!(public_key_path_in("/home/u"), "/home/u/.ssh/id_rsa.pub");
}

#[test]
fn setup_straight_path_succeeds() {
    let mut m = KeySetup::new();
    assert_eq!(m.phase, SetupPhase::CheckPrivateKey);
    m.step(true); // private key present
    assert_eq!(m.phase, SetupPhase::CheckPublicKey);
    m.step(true); // public key present
    assert_eq!(m.phase, SetupPhase::Testing);
    m.step(true); // key-based connect works
    assert_eq!(m.phase, SetupPhase::Done);
    assert_eq!(m.fault, None);
}

#[test]
fn setup_generates_missing_keys() {
    let mut m = KeySetup::new();
    m.step(false); // no private key
    assert_eq!(m.phase, SetupPhase::GeneratingKeys);
    m.step(true); // generated
    m.step(false); // no public key
    assert_eq!(m.phase, SetupPhase::GeneratingPublicKey);
    m.step(true); // derived
    assert_eq!(m.phase, SetupPhase::Testing);
}

#[test]
fn setup_transfers_key_when_test_fails() {
    let mut m = KeySetup::new();
    m.step(true);
    m.step(true);
    m.step(false); // key-based connect refused
    assert_eq!(m.phase, SetupPhase::Transferring);
    m.step(true); // public key installed with the password
    assert_eq!(m.phase, SetupPhase::Retesting);
    m.step(true);
    assert_eq!(m.phase, SetupPhase::Done);
}

#[test]
fn setup_faults_name_their_stage() {
    let mut a = KeySetup::new();
    a.step(false);
    a.step(false);
    assert_eq!(a.phase, SetupPhase::Failed);
    assert_eq!(a.fault, Some(SetupFault::GeneratePrivateKey));

    let mut b = KeySetup::new();
    b.step(true);
    b.step(false);
    b.step(false);
    assert_eq!(b.fault, Some(SetupFault::GeneratePublicKey));

    let mut c = KeySetup::new();
    c.step(true);
    c.step(true);
    c.step(false);
    c.step(false);
    assert_eq!(c.fault, Some(SetupFault::TransferKey));

    let mut d = KeySetup::new();
    d.step(true);
    d.step(true);
    d.step(false);
    d.step(true);
    d.step(false);
    assert_eq!(d.fault, Some(SetupFault::VerifyAfterTransfer));
}
