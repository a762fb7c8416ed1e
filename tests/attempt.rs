use openssl::hash::MessageDigest;
use openssl::pkey::{PKey, Private};
use openssl::rsa::Rsa;
use openssl::sign::Signer;
use wsl_hello_pam::attempt::{Action, ArtifactFault, Attempt, Event, Phase};
use wsl_hello_pam::error::{
    HelloAuthenticationError, IoFault, PAM_AUTHINFO_UNAVAIL, PAM_AUTH_ERR, PAM_SUCCESS, PAM_USER_UNKNOWN,
};
use wsl_hello_pam::signer::{SignerExit, SignerFault};

const CONFIG: &str = "authenticator_path = \"/opt/signer\"\nwin_mnt = \"/mnt/c\"\n";

fn key_pair() -> (PKey<Private>, Vec<u8>) {
    let key = PKey::from_rsa(Rsa::generate(2048).unwrap()).unwrap();
    let pem = key.public_key_to_pem().unwrap();
    (key, pem)
}

fn sign(key: &PKey<Private>, data: &[u8]) -> Vec<u8> {
    let mut signer = Signer::new(MessageDigest::sha256(), key).unwrap();
    signer.update(data).unwrap();
    signer.sign_to_vec().unwrap()
}

fn io(not_found: bool, message: &str) -> IoFault {
    IoFault { not_found, message: message.to_string() }
}

/// Drives an attempt up to the signer; returns it with the challenge text
/// and the artifact path.
fn up_to_signer(user: &str, pem: Vec<u8>) -> (Attempt, String, String) {
    let (mut a, first) = Attempt::start(Ok(user.to_string()));
    match first {
        Action::ReadPublicKey { path } => {
            assert_eq!(path, format!("/etc/pam_wsl_hello/public_keys/pam_wsl_hello_{}.pem", user))
        }
        _ => panic!("expected the key to be read first"),
    }
    match a.step(Event::PublicKeyRead(Ok(pem))) {
        Action::ReadConfig { path } => assert_eq!(path, "/etc/pam_wsl_hello/config"),
        _ => panic!("expected the configuration to be read"),
    }
    let (path, contents) = match a.step(Event::ConfigRead(Ok(CONFIG.to_string()))) {
        Action::CreateArtifact { path, contents } => (path, contents),
        _ => panic!("expected the artifact to be created"),
    };
    let prefix = format!("pam_wsl_hello:{}:", user);
    assert!(contents.starts_with(&prefix));
    assert_eq!(contents.len(), prefix.len() + 36);
    assert_eq!(path, format!("/tmp/{}", contents));
    match a.step(Event::ArtifactCreated(Ok(()))) {
        Action::RunSigner { program, argument, working_dir, input_path } => {
            assert_eq!(program, "/opt/signer");
            assert_eq!(argument, format!("pam_wsl_hello_{}", user));
            assert_eq!(working_dir, "/mnt/c");
            assert_eq!(input_path, path);
        }
        _ => panic!("expected the signer to run"),
    }
    assert_eq!(a.phase_now(), Phase::Signing);
    (a, contents, path)
}

fn finish_after_removal(a: &mut Attempt) -> (i32, Option<HelloAuthenticationError>) {
    assert_eq!(a.phase_now(), Phase::RemovingArtifact);
    match a.step(Event::ArtifactRemoved(Ok(()))) {
        Action::Finish { verdict, error, .. } => {
            assert_eq!(a.phase_now(), Phase::Done);
            (verdict, error)
        }
        _ => panic!("expected the attempt to finish"),
    }
}

fn signer_ends(a: &mut Attempt, r: Result<SignerExit, SignerFault>, path: &str) {
    match a.step(Event::SignerFinished(r)) {
        Action::RemoveArtifact { path: p } => assert_eq!(p, path),
        _ => panic!("the artifact must be removed whatever the signer did"),
    }
}

#[test]
fn valid_signature_is_granted() {
    let (key, pem) = key_pair();
    let (mut a, challenge, path) = up_to_signer("alice", pem);
    let sig = sign(&key, challenge.as_bytes());
    signer_ends(&mut a, Ok(SignerExit { code: Some(0), stdout: sig }), &path);
    let (verdict, error) = finish_after_removal(&mut a);
    assert_eq!(verdict, PAM_SUCCESS);
    assert!(error.is_none());
}

#[test]
fn flipped_signature_bit_is_denied() {
    let (key, pem) = key_pair();
    let (mut a, challenge, path) = up_to_signer("alice", pem);
    let mut sig = sign(&key, challenge.as_bytes());
    sig[0] ^= 0x80;
    signer_ends(&mut a, Ok(SignerExit { code: Some(0), stdout: sig }), &path);
    let (verdict, error) = finish_after_removal(&mut a);
    assert_eq!(verdict, PAM_AUTH_ERR);
    assert!(matches!(error, Some(HelloAuthenticationError::SignAuthenticationFail)));
}

#[test]
fn signature_over_another_challenge_is_denied() {
    let (key, pem) = key_pair();
    let (mut a, _challenge, path) = up_to_signer("alice", pem);
    let sig = sign(&key, b"pam_wsl_hello:alice:00000000-0000-4000-8000-000000000000");
    signer_ends(&mut a, Ok(SignerExit { code: Some(0), stdout: sig }), &path);
    let (verdict, error) = finish_after_removal(&mut a);
    assert_eq!(verdict, PAM_AUTH_ERR);
    assert!(matches!(error, Some(HelloAuthenticationError::SignAuthenticationFail)));
}

#[test]
fn deleted_public_key_is_unknown_user() {
    let (mut a, _) = Attempt::start(Ok("carol".to_string()));
    match a.step(Event::PublicKeyRead(Err(io(true, "No such file or directory (os error 2)")))) {
        Action::Finish { verdict, error, .. } => {
            assert_eq!(verdict, PAM_USER_UNKNOWN);
            assert!(matches!(error, Some(HelloAuthenticationError::PublicKeyFileError(_))));
        }
        _ => panic!("expected the attempt to finish"),
    }
}

#[test]
fn declined_signer_is_auth_failed_with_message() {
    let (_key, pem) = key_pair();
    let (mut a, _c, path) = up_to_signer("dave", pem);
    signer_ends(&mut a, Ok(SignerExit { code: Some(1), stdout: b"user declined".to_vec() }), &path);
    let (verdict, error) = finish_after_removal(&mut a);
    assert_eq!(verdict, PAM_AUTH_ERR);
    let e = error.unwrap();
    assert!(matches!(e, HelloAuthenticationError::HelloAuthenticationFail(_)));
    assert!(e.message().contains("user declined"));
}

#[test]
fn missing_signer_and_killed_signer_differ_in_tag() {
    let (_key, pem) = key_pair();
    let (mut a, _c, path) = up_to_signer("erin", pem.clone());
    signer_ends(&mut a, Err(SignerFault::Launch(io(true, "No such file or directory (os error 2)"))), &path);
    let (verdict, error) = finish_after_removal(&mut a);
    assert_eq!(verdict, PAM_AUTHINFO_UNAVAIL);
    assert!(matches!(error, Some(HelloAuthenticationError::AuthenticatorLaunchError(_))));

    let (mut b, _c, path) = up_to_signer("erin", pem);
    signer_ends(&mut b, Ok(SignerExit { code: None, stdout: vec![] }), &path);
    let (verdict, error) = finish_after_removal(&mut b);
    assert_eq!(verdict, PAM_AUTHINFO_UNAVAIL);
    assert!(matches!(error, Some(HelloAuthenticationError::AuthenticatorSignalled)));
}

#[test]
fn consecutive_attempts_use_distinct_challenges() {
    let (_key, pem) = key_pair();
    let (_a, c1, p1) = up_to_signer("frank", pem.clone());
    let (_b, c2, p2) = up_to_signer("frank", pem);
    assert_ne!(c1, c2);
    assert_ne!(p1, p2);
}

#[test]
fn unwritten_artifact_is_removed_before_finishing() {
    let (_key, pem) = key_pair();
    let (mut a, _) = Attempt::start(Ok("gina".to_string()));
    a.step(Event::PublicKeyRead(Ok(pem)));
    let path = match a.step(Event::ConfigRead(Ok(CONFIG.to_string()))) {
        Action::CreateArtifact { path, .. } => path,
        _ => panic!("expected the artifact to be created"),
    };
    match a.step(Event::ArtifactCreated(Err(ArtifactFault::NotWritten(io(false, "disk full"))))) {
        Action::RemoveArtifact { path: p } => assert_eq!(p, path),
        _ => panic!("a created artifact must be removed"),
    }
    let (verdict, error) = finish_after_removal(&mut a);
    assert_eq!(verdict, PAM_AUTHINFO_UNAVAIL);
    assert!(matches!(error, Some(HelloAuthenticationError::Io(_))));
}

#[test]
fn uncreated_artifact_finishes_at_once() {
    let (_key, pem) = key_pair();
    let (mut a, _) = Attempt::start(Ok("hank".to_string()));
    a.step(Event::PublicKeyRead(Ok(pem)));
    a.step(Event::ConfigRead(Ok(CONFIG.to_string())));
    match a.step(Event::ArtifactCreated(Err(ArtifactFault::NotCreated(io(false, "File exists (os error 17)"))))) {
        Action::Finish { verdict, error, .. } => {
            assert_eq!(verdict, PAM_AUTHINFO_UNAVAIL);
            assert!(matches!(error, Some(HelloAuthenticationError::Io(_))));
        }
        _ => panic!("an artifact that was not created is not removed"),
    }
}

#[test]
fn failed_removal_after_a_signature_is_an_io_error() {
    let (key, pem) = key_pair();
    let (mut a, challenge, path) = up_to_signer("ivy", pem);
    let sig = sign(&key, challenge.as_bytes());
    signer_ends(&mut a, Ok(SignerExit { code: Some(0), stdout: sig }), &path);
    match a.step(Event::ArtifactRemoved(Err(io(false, "Permission denied (os error 13)")))) {
        Action::Finish { verdict, error, .. } => {
            assert_eq!(verdict, PAM_AUTHINFO_UNAVAIL);
            assert!(matches!(error, Some(HelloAuthenticationError::Io(_))));
        }
        _ => panic!("expected the attempt to finish"),
    }
}

#[test]
fn invalid_key_and_config_errors_finish_early() {
    let (mut a, _) = Attempt::start(Ok("jo".to_string()));
    match a.step(Event::PublicKeyRead(Ok(b"garbage".to_vec()))) {
        Action::Finish { verdict, error, .. } => {
            assert_eq!(verdict, PAM_AUTH_ERR);
            assert!(matches!(error, Some(HelloAuthenticationError::InvalidPublicKey(_))));
        }
        _ => panic!("expected the attempt to finish"),
    }
    let (_key, pem) = key_pair();
    let (mut b, _) = Attempt::start(Ok("jo".to_string()));
    b.step(Event::PublicKeyRead(Ok(pem)));
    match b.step(Event::ConfigRead(Ok("win_mnt = \"/mnt/c\"\n".to_string()))) {
        Action::Finish { verdict, error, .. } => {
            assert_eq!(verdict, PAM_AUTH_ERR);
            assert!(matches!(error, Some(HelloAuthenticationError::ConfigError(_))));
        }
        _ => panic!("expected the attempt to finish"),
    }
}

#[test]
fn unknown_account_finishes_with_get_user_error() {
    let (a, action) = Attempt::start(Err(4));
    assert_eq!(a.phase_now(), Phase::Done);
    match action {
        Action::Finish { verdict, error, .. } => {
            assert_eq!(verdict, PAM_AUTH_ERR);
            assert!(matches!(error, Some(HelloAuthenticationError::GetUserError(4))));
        }
        _ => panic!("expected the attempt to finish"),
    }
}

#[test]
fn attempt_accepts_only_the_awaited_event() {
    let (a, _) = Attempt::start(Ok("kim".to_string()));
    assert!(a.accepts(&Event::PublicKeyRead(Ok(vec![]))));
    assert!(!a.accepts(&Event::ArtifactRemoved(Ok(()))));
}

#[test]
fn failed_removal_under_a_refusal_is_reported_as_leftover() {
    let (_key, pem) = key_pair();
    let (mut a, _c, path) = up_to_signer("lee", pem);
    signer_ends(&mut a, Ok(SignerExit { code: Some(1), stdout: b"user declined".to_vec() }), &path);
    match a.step(Event::ArtifactRemoved(Err(io(false, "Permission denied (os error 13)")))) {
        Action::Finish { verdict, error, leftover } => {
            assert_eq!(verdict, PAM_AUTH_ERR);
            assert!(matches!(error, Some(HelloAuthenticationError::HelloAuthenticationFail(_))));
            let f = leftover.unwrap();
            assert_eq!(f.message, "Permission denied (os error 13)");
        }
        _ => panic!("expected the attempt to finish"),
    }
}

#[test]
fn successful_attempt_reports_no_leftover() {
    let (key, pem) = key_pair();
    let (mut a, challenge, path) = up_to_signer("mo", pem);
    let sig = sign(&key, challenge.as_bytes());
    signer_ends(&mut a, Ok(SignerExit { code: Some(0), stdout: sig }), &path);
    match a.step(Event::ArtifactRemoved(Ok(()))) {
        Action::Finish { verdict, error, leftover } => {
            assert_eq!(verdict, PAM_SUCCESS);
            assert!(error.is_none());
            assert!(leftover.is_none());
        }
        _ => panic!("expected the attempt to finish"),
    }
}

#[test]
fn deeply_nested_configuration_ends_the_attempt() {
    let (_key, pem) = key_pair();
    let (mut a, _) = Attempt::start(Ok("ned".to_string()));
    a.step(Event::PublicKeyRead(Ok(pem)));
    let deep = format!("x = {}{}\n", "[".repeat(100000), "]".repeat(100000));
    match a.step(Event::ConfigRead(Ok(deep))) {
        Action::Finish { verdict, error, .. } => {
            assert_eq!(verdict, PAM_AUTH_ERR);
            assert!(matches!(
                error,
                Some(HelloAuthenticationError::ConfigError(wsl_hello_pam::error::ConfigError::TooNested))
            ));
        }
        _ => panic!("expected the attempt to finish"),
    }
}
