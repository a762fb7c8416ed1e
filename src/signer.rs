//! What the signer's exit means: the signature on success, otherwise the
//! failure it stands for.
use vstd::prelude::*;
use vstd::string::*;
use vstd::utf8::{valid_utf8, decode_utf8};
use crate::error::{message_of, one_line, verdict_of, HelloAuthenticationError, IoFault, PAM_AUTHINFO_UNAVAIL, PAM_AUTH_ERR};

verus! {

/// How the signer process ended: its exit code, `None` where a signal
/// ended it, and everything it wrote to standard output.
pub struct SignerExit {
    pub code: Option<i32>,
    pub stdout: Vec<u8>,
}

/// Why the signer did not yield an exit: it could not be started, or it
/// started and could not be waited on.
pub enum SignerFault {
    Launch(IoFault),
    Connection(IoFault),
}

/// The diagnostic that a refusing signer leaves: its output read as UTF-8,
/// or a fixed placeholder where it is not.
pub open spec fn diagnostic_of(stdout: Seq<u8>) -> Seq<char> {
    if valid_utf8(stdout) {
        decode_utf8(stdout)
    } else {
        "invalid utf8 output"@
    }
}

/// Relies on `String::from_utf8`: the text where the bytes are UTF-8.
#[verifier::external_body]
fn utf8_text(bytes: Vec<u8>) -> (r: Option<String>)
    ensures
        r is Some <==> valid_utf8(bytes@),
        r matches Some(s) ==> s@ == decode_utf8(bytes@),
{
    String::from_utf8(bytes).ok()
}

/// The signature that a signer hands back: its output where it exited with
/// code 0; `AuthenticatorSignalled` where a signal ended it; otherwise
/// `HelloAuthenticationFail` with its output as the diagnostic.
pub fn signature_from_exit(exit: SignerExit) -> (r: Result<Vec<u8>, HelloAuthenticationError>)
    ensures
        exit.code == Some(0i32) <==> r is Ok,
        r matches Ok(sig) ==> sig@ == exit.stdout@,
        exit.code is None <==> r matches Err(HelloAuthenticationError::AuthenticatorSignalled),
        exit.code is Some && exit.code != Some(0i32) ==> (r matches Err(
            HelloAuthenticationError::HelloAuthenticationFail(m),
        ) && m@ == diagnostic_of(exit.stdout@)),
{
    match exit.code {
        Some(0) => Ok(exit.stdout),
        Some(_) => {
            let m = match utf8_text(exit.stdout) {
                Some(s) => s,
                None => String::from_str("invalid utf8 output"),
            };
            Err(HelloAuthenticationError::HelloAuthenticationFail(m))
        },
        None => Err(HelloAuthenticationError::AuthenticatorSignalled),
    }
}

/// The failure that a signer fault stands for.
pub fn fault_error(fault: SignerFault) -> (r: HelloAuthenticationError)
    ensures
        fault matches SignerFault::Launch(f) ==> r == HelloAuthenticationError::AuthenticatorLaunchError(f),
        fault matches SignerFault::Connection(f) ==> r == HelloAuthenticationError::AuthenticatorConnectionError(f),
{
    match fault {
        SignerFault::Launch(f) => HelloAuthenticationError::AuthenticatorLaunchError(f),
        SignerFault::Connection(f) => HelloAuthenticationError::AuthenticatorConnectionError(f),
    }
}

/// A signer that refuses is an authentication failure, and the logged line
/// carries its diagnostic whole, at its end, with line breaks as spaces.
pub proof fn lemma_refusal_logs_diagnostic(m: String)
    ensures
        verdict_of(HelloAuthenticationError::HelloAuthenticationFail(m)) == PAM_AUTH_ERR,
        ({
            let line = one_line(message_of(HelloAuthenticationError::HelloAuthenticationFail(m)));
            line.subrange(line.len() - m@.len(), line.len() as int) == one_line(m@)
        }),
{
    let raw = message_of(HelloAuthenticationError::HelloAuthenticationFail(m));
    let p = "authentication failed; "@;
    assert(raw == p + m@);
    let line = one_line(raw);
    assert(line.subrange(p.len() as int, line.len() as int) =~= one_line(m@));
}

/// A signer that cannot be started, that cannot be waited on, or that a
/// signal ends is an unavailable service, each under its own tag.
pub proof fn lemma_signer_faults_unavailable(f: IoFault)
    ensures
        verdict_of(HelloAuthenticationError::AuthenticatorLaunchError(f)) == PAM_AUTHINFO_UNAVAIL,
        verdict_of(HelloAuthenticationError::AuthenticatorConnectionError(f)) == PAM_AUTHINFO_UNAVAIL,
        verdict_of(HelloAuthenticationError::AuthenticatorSignalled) == PAM_AUTHINFO_UNAVAIL,
        HelloAuthenticationError::AuthenticatorLaunchError(f) != HelloAuthenticationError::AuthenticatorSignalled,
{
}

} // verus!
