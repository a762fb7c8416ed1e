//! The closed taxonomy of what can end an attempt, the verdict that the
//! authentication stack receives for each, and its one-line log text.
use vstd::prelude::*;
use vstd::string::*;
use crate::signature::stack_text;

verus! {

pub const PAM_SUCCESS: i32 = 0;
pub const PAM_AUTH_ERR: i32 = 7;
pub const PAM_AUTHINFO_UNAVAIL: i32 = 9;
pub const PAM_USER_UNKNOWN: i32 = 10;
pub const PAM_IGNORE: i32 = 25;
pub const PAM_SILENT: i32 = 0x8000;

/// Whether failures are to be logged under these PAM flags: always, unless
/// the stack asked for silence.
pub fn logs_errors(flags: i32) -> (r: bool)
    ensures
        r == (flags & PAM_SILENT == 0),
{
    flags & PAM_SILENT == 0
}

/// An I/O failure of the host, as far as the logic reads it: whether the
/// file was missing, and the host's description of the failure.
#[derive(Debug)]
pub struct IoFault {
    pub not_found: bool,
    pub message: String,
}

/// Why the configuration did not yield a value.
#[derive(Debug)]
pub enum ConfigError {
    Io(IoFault),
    /// The text is not a TOML document; TOML's own account of why.
    Toml(toml::de::Error),
    /// The text holds more nesting marks than the parser is trusted with.
    TooNested,
    MissingField(String),
    InvalidValueType(String),
}

/// Why an attempt did not end in success.
#[derive(Debug)]
pub enum HelloAuthenticationError {
    GetUserError(i32),
    ConfigError(ConfigError),
    PublicKeyFileError(IoFault),
    Io(IoFault),
    InvalidPublicKey(openssl::error::ErrorStack),
    OversizedPublicKey,
    OpenSslError(openssl::error::ErrorStack),
    AuthenticatorLaunchError(IoFault),
    AuthenticatorConnectionError(IoFault),
    AuthenticatorSignalled,
    HelloAuthenticationFail(String),
    SignAuthenticationFail,
}

/// The verdict handed to the authentication stack for a failed attempt.
pub open spec fn verdict_of(e: HelloAuthenticationError) -> i32 {
    match e {
        HelloAuthenticationError::PublicKeyFileError(f) => if f.not_found {
            PAM_USER_UNKNOWN
        } else {
            PAM_AUTH_ERR
        },
        HelloAuthenticationError::AuthenticatorLaunchError(_) => PAM_AUTHINFO_UNAVAIL,
        HelloAuthenticationError::AuthenticatorConnectionError(_) => PAM_AUTHINFO_UNAVAIL,
        HelloAuthenticationError::AuthenticatorSignalled => PAM_AUTHINFO_UNAVAIL,
        HelloAuthenticationError::Io(_) => PAM_AUTHINFO_UNAVAIL,
        _ => PAM_AUTH_ERR,
    }
}

/// A text on one line: each line break becomes a space.
pub open spec fn one_line(s: Seq<char>) -> Seq<char> {
    Seq::new(s.len(), |i: int| if s[i] == '\n' || s[i] == '\r' { ' ' } else { s[i] })
}

/// `s` with every `from` turned into `to`.
pub open spec fn replaced(s: Seq<char>, from: char, to: char) -> Seq<char> {
    Seq::new(s.len(), |i: int| if s[i] == from { to } else { s[i] })
}

/// Relies on `str::replace`: each occurrence of the character `from`
/// replaced by the character `to`.
#[verifier::external_body]
fn replace_char(s: &str, from: char, to: char) -> (r: String)
    ensures
        r@ == replaced(s@, from, to),
{
    let mut buf = [0u8; 4];
    s.replace(from, to.encode_utf8(&mut buf))
}

/// The text on one line, as the operator's log takes it.
pub fn single_line(s: &str) -> (r: String)
    ensures
        r@ == one_line(s@),
        forall|i: int| 0 <= i < r@.len() ==> r@[i] != '\n',
{
    let a = replace_char(s, '\n', ' ');
    let b = replace_char(a.as_str(), '\r', ' ');
    assert(b@ =~= one_line(s@));
    b
}

/// The log line for an artifact that could not be removed while another
/// failure ended the attempt.
pub open spec fn leftover_message_of(f: IoFault) -> Seq<char> {
    one_line("cannot remove the challenge artifact; "@ + f.message@)
}

pub fn leftover_message(f: &IoFault) -> (r: String)
    ensures
        r@ == leftover_message_of(*f),
{
    let mut m = String::from_str("cannot remove the challenge artifact; ");
    m.append(f.message.as_str());
    single_line(m.as_str())
}

pub open spec fn digit_char(d: nat) -> char {
    if d == 0 { '0' } else if d == 1 { '1' } else if d == 2 { '2' } else if d == 3 { '3' }
    else if d == 4 { '4' } else if d == 5 { '5' } else if d == 6 { '6' } else if d == 7 { '7' }
    else if d == 8 { '8' } else { '9' }
}

/// Decimal digits of a natural number, most significant first.
pub open spec fn digits_of(n: nat) -> Seq<char>
    decreases n,
{
    if n < 10 {
        seq![digit_char(n)]
    } else {
        digits_of(n / 10) + seq![digit_char(n % 10)]
    }
}

/// Decimal text of an integer, with a leading `-` when negative.
pub open spec fn decimal_of(n: int) -> Seq<char> {
    if n < 0 {
        seq!['-'] + digits_of((-n) as nat)
    } else {
        digits_of(n as nat)
    }
}

pub open spec fn config_message_of(e: ConfigError) -> Seq<char> {
    match e {
        ConfigError::Io(f) => f.message@,
        ConfigError::Toml(_) => "TOML format error"@,
        ConfigError::TooNested => "TOML document nested too deeply"@,
        ConfigError::MissingField(field) => "field: '"@ + field@ + "' is not found"@,
        ConfigError::InvalidValueType(field) => "field: '"@ + field@
            + "' has an invalid value type"@,
    }
}

/// The log line of a failed attempt. The text of an OpenSSL error stack is
/// OpenSSL's own; of that case only the fixed prefix is stated here.
pub open spec fn message_of(e: HelloAuthenticationError) -> Seq<char> {
    match e {
        HelloAuthenticationError::GetUserError(code) => "internal error; GetUserError("@
            + decimal_of(code as int) + ")"@,
        HelloAuthenticationError::ConfigError(c) => "config error; "@ + config_message_of(c),
        HelloAuthenticationError::PublicKeyFileError(f) => if f.not_found {
            "cannot find the credential public key for this user"@
        } else {
            f.message@
        },
        HelloAuthenticationError::Io(f) => f.message@,
        HelloAuthenticationError::InvalidPublicKey(_) => "the pem file of the public key is invalid"@,
        HelloAuthenticationError::OversizedPublicKey => "the pem file of the public key is too large"@,
        HelloAuthenticationError::OpenSslError(_) => "internal error; OpenSslError("@,
        HelloAuthenticationError::AuthenticatorLaunchError(f) => "cannot launch Windows Hello; "@
            + f.message@,
        HelloAuthenticationError::AuthenticatorConnectionError(f) =>
            "cannot communicate with Windows Hello; "@ + f.message@,
        HelloAuthenticationError::AuthenticatorSignalled => "internal error; AuthenticatorSignalled"@,
        HelloAuthenticationError::HelloAuthenticationFail(m) => "authentication failed; "@ + m@,
        HelloAuthenticationError::SignAuthenticationFail =>
            "the result of signature verification of the credential is failure"@,
    }
}

/// Relies on `i32::to_string`: the decimal text of the number.
#[verifier::external_body]
fn decimal_text(n: i32) -> (r: String)
    ensures
        r@ == decimal_of(n as int),
{
    n.to_string()
}

impl ConfigError {
    fn text(&self) -> (r: String)
        ensures
            r@ == config_message_of(*self),
    {
        match self {
            ConfigError::Io(f) => f.message.clone(),
            ConfigError::Toml(_) => String::from_str("TOML format error"),
            ConfigError::TooNested => String::from_str("TOML document nested too deeply"),
            ConfigError::MissingField(field) => {
                let mut r = String::from_str("field: '");
                r.append(field.as_str());
                r.append("' is not found");
                r
            },
            ConfigError::InvalidValueType(field) => {
                let mut r = String::from_str("field: '");
                r.append(field.as_str());
                r.append("' has an invalid value type");
                r
            },
        }
    }

    /// The one-line text of this failure.
    pub fn message(&self) -> (r: String)
        ensures
            r@ == one_line(config_message_of(*self)),
    {
        let t = self.text();
        single_line(t.as_str())
    }
}

impl HelloAuthenticationError {
    /// The verdict code for this failure: unknown user where no public key
    /// is enrolled; unavailable where the transport failed (the challenge
    /// artifact's file operations, or a signer that could not be run, waited
    /// on, or that a signal ended); a plain authentication error otherwise.
    pub fn verdict(&self) -> (r: i32)
        ensures
            r == verdict_of(*self),
    {
        match self {
            HelloAuthenticationError::PublicKeyFileError(f) => if f.not_found {
                PAM_USER_UNKNOWN
            } else {
                PAM_AUTH_ERR
            },
            HelloAuthenticationError::AuthenticatorLaunchError(_) => PAM_AUTHINFO_UNAVAIL,
            HelloAuthenticationError::AuthenticatorConnectionError(_) => PAM_AUTHINFO_UNAVAIL,
            HelloAuthenticationError::AuthenticatorSignalled => PAM_AUTHINFO_UNAVAIL,
            HelloAuthenticationError::Io(_) => PAM_AUTHINFO_UNAVAIL,
            _ => PAM_AUTH_ERR,
        }
    }

    /// The text that the operator's log receives, on one line.
    pub fn message(&self) -> (r: String)
        ensures
            !(*self is OpenSslError) ==> r@ == one_line(message_of(*self)),
            *self is OpenSslError ==> message_of(*self).is_prefix_of(r@),
            forall|i: int| 0 <= i < r@.len() ==> r@[i] != '\n',
    {
        let t = self.text();
        let r = single_line(t.as_str());
        proof {
            if *self is OpenSslError {
                let p = message_of(*self);
                assert(p.is_prefix_of(t@));
                assert forall|i: int| 0 <= i < p.len() implies r@[i] == p[i] by {
                    reveal_strlit("internal error; OpenSslError(");
                }
            }
        }
        r
    }

    fn text(&self) -> (r: String)
        ensures
            !(*self is OpenSslError) ==> r@ == message_of(*self),
            *self is OpenSslError ==> message_of(*self).is_prefix_of(r@),
    {
        match self {
            HelloAuthenticationError::GetUserError(code) => {
                let mut r = String::from_str("internal error; GetUserError(");
                let d = decimal_text(*code);
                r.append(d.as_str());
                r.append(")");
                r
            },
            HelloAuthenticationError::ConfigError(c) => {
                let mut r = String::from_str("config error; ");
                let m = c.text();
                r.append(m.as_str());
                r
            },
            HelloAuthenticationError::PublicKeyFileError(f) => if f.not_found {
                String::from_str("cannot find the credential public key for this user")
            } else {
                f.message.clone()
            },
            HelloAuthenticationError::Io(f) => f.message.clone(),
            HelloAuthenticationError::InvalidPublicKey(_) => String::from_str(
                "the pem file of the public key is invalid",
            ),
            HelloAuthenticationError::OversizedPublicKey => String::from_str(
                "the pem file of the public key is too large",
            ),
            HelloAuthenticationError::OpenSslError(stack) => {
                let mut r = String::from_str("internal error; OpenSslError(");
                let t = stack_text(stack);
                r.append(t.as_str());
                r.append(")");
                r
            },
            HelloAuthenticationError::AuthenticatorLaunchError(f) => {
                let mut r = String::from_str("cannot launch Windows Hello; ");
                r.append(f.message.as_str());
                r
            },
            HelloAuthenticationError::AuthenticatorConnectionError(f) => {
                let mut r = String::from_str("cannot communicate with Windows Hello; ");
                r.append(f.message.as_str());
                r
            },
            HelloAuthenticationError::AuthenticatorSignalled => String::from_str(
                "internal error; AuthenticatorSignalled",
            ),
            HelloAuthenticationError::HelloAuthenticationFail(m) => {
                let mut r = String::from_str("authentication failed; ");
                r.append(m.as_str());
                r
            },
            HelloAuthenticationError::SignAuthenticationFail => String::from_str(
                "the result of signature verification of the credential is failure",
            ),
        }
    }
}

} // verus!
