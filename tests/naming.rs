use wsl_hello_pam::naming::{artifact_path, challenge_text, config_path, credential_key_name, public_key_path};

#[test]
fn key_name_prefixes_the_account() {
    assert_eq!(credential_key_name("alice"), "pam_wsl_hello_alice");
    assert_eq!(credential_key_name(""), "pam_wsl_hello_");
}

#[test]
fn public_key_lives_under_the_key_directory() {
    assert_eq!(
        public_key_path("pam_wsl_hello_alice"),
        "/etc/pam_wsl_hello/public_keys/pam_wsl_hello_alice.pem"
    );
}

#[test]
fn challenge_and_artifact_path() {
    let c = challenge_text("bob", "0d1e2f30-4a5b-4c6d-8e7f-a0b1c2d3e4f5");
    assert_eq!(c, "pam_wsl_hello:bob:0d1e2f30-4a5b-4c6d-8e7f-a0b1c2d3e4f5");
    assert_eq!(artifact_path(&c), "/tmp/pam_wsl_hello:bob:0d1e2f30-4a5b-4c6d-8e7f-a0b1c2d3e4f5");
}

#[test]
fn distinct_tokens_distinct_challenges() {
    assert_ne!(challenge_text("bob", "a"), challenge_text("bob", "b"));
}

#[test]
fn configuration_path() {
    assert_eq!(config_path(), "/etc/pam_wsl_hello/config");
}
