//! Names derived from the account under authentication: the credential key
//! name, the enrolled public key's path, the challenge and its artifact path.
use vstd::prelude::*;
use vstd::string::*;

verus! {

/// The credential key name of an account: `pam_wsl_hello_<user>`.
pub open spec fn key_name_of(user: Seq<char>) -> Seq<char> {
    "pam_wsl_hello_"@ + user
}

/// Where the public key of a credential key name is enrolled.
pub open spec fn public_key_path_of(key_name: Seq<char>) -> Seq<char> {
    "/etc/pam_wsl_hello/public_keys/"@ + key_name + ".pem"@
}

/// The challenge of one attempt: `pam_wsl_hello:<user>:<token>`.
pub open spec fn challenge_of(user: Seq<char>, token: Seq<char>) -> Seq<char> {
    "pam_wsl_hello:"@ + user + ":"@ + token
}

/// Where the challenge is handed to the signer: `/tmp/<challenge>`.
pub open spec fn artifact_path_of(challenge: Seq<char>) -> Seq<char> {
    "/tmp/"@ + challenge
}

/// Location of the module's configuration document.
pub fn config_path() -> (r: String)
    ensures
        r@ == "/etc/pam_wsl_hello/config"@,
{
    String::from_str("/etc/pam_wsl_hello/config")
}

pub fn credential_key_name(user: &str) -> (r: String)
    ensures
        r@ == key_name_of(user@),
{
    let mut r = String::from_str("pam_wsl_hello_");
    r.append(user);
    r
}

pub fn public_key_path(key_name: &str) -> (r: String)
    ensures
        r@ == public_key_path_of(key_name@),
{
    let mut r = String::from_str("/etc/pam_wsl_hello/public_keys/");
    r.append(key_name);
    r.append(".pem");
    r
}

pub fn challenge_text(user: &str, token: &str) -> (r: String)
    ensures
        r@ == challenge_of(user@, token@),
{
    let mut r = String::from_str("pam_wsl_hello:");
    r.append(user);
    r.append(":");
    r.append(token);
    r
}

pub fn artifact_path(challenge: &str) -> (r: String)
    ensures
        r@ == artifact_path_of(challenge@),
{
    let mut r = String::from_str("/tmp/");
    r.append(challenge);
    r
}

/// For one account, distinct tokens give distinct challenges, and so distinct
/// artifact paths: a fresh token never reuses a challenge.
pub proof fn lemma_fresh_token_fresh_challenge(user: Seq<char>, t1: Seq<char>, t2: Seq<char>)
    requires
        t1 != t2,
    ensures
        challenge_of(user, t1) != challenge_of(user, t2),
        artifact_path_of(challenge_of(user, t1)) != artifact_path_of(challenge_of(user, t2)),
{
    let p = "pam_wsl_hello:"@ + user + ":"@;
    let c1 = challenge_of(user, t1);
    let c2 = challenge_of(user, t2);
    assert(c1 == p + t1);
    assert(c2 == p + t2);
    if c1 == c2 {
        assert(t1 =~= c1.subrange(p.len() as int, c1.len() as int));
        assert(t2 =~= c2.subrange(p.len() as int, c2.len() as int));
    }
    let a1 = artifact_path_of(c1);
    let a2 = artifact_path_of(c2);
    if a1 == a2 {
        assert(c1 =~= a1.subrange(5, a1.len() as int)) by { reveal_strlit("/tmp/"); }
        assert(c2 =~= a2.subrange(5, a2.len() as int)) by { reveal_strlit("/tmp/"); }
    }
}

} // verus!
