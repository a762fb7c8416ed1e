//! The signer tool's side: why it could not sign, and the exit code and
//! text that each reason is reported with.
use vstd::prelude::*;
use vstd::string::*;

verus! {

/// The status that the platform's credential manager reports for a request.
#[derive(PartialEq, Eq, Structural, Clone, Copy, Debug)]
pub enum CredentialStatus {
    Success,
    UnknownError,
    NotFound,
    UserCanceled,
    UserPrefersPassword,
    CredentialAlreadyExists,
    SecurityDeviceLocked,
}

/// Why the signer tool could not do what it was asked.
#[derive(Debug)]
pub enum FailureReason {
    WindowsHelloNotSupported,
    CredentialExists,
    CredentialNotFound(String),
    DeviceLocked,
    Unknown,
    UserCancelled,
    PrefsPasswd,
    /// A failure of the platform call itself, with the platform's text.
    Other(String),
}

/// The exit code of each reason; they avoid the codes that Unix shells
/// reserve, and skip the one a success status would take.
pub open spec fn code_of(r: FailureReason) -> i32 {
    match r {
        FailureReason::WindowsHelloNotSupported => 170,
        FailureReason::CredentialExists => 171,
        FailureReason::CredentialNotFound(_) => 172,
        FailureReason::DeviceLocked => 173,
        FailureReason::Unknown => 175,
        FailureReason::UserCancelled => 176,
        FailureReason::PrefsPasswd => 177,
        FailureReason::Other(_) => 178,
    }
}

pub open spec fn reason_text_of(r: FailureReason) -> Seq<char> {
    match r {
        FailureReason::WindowsHelloNotSupported => "Windows Hello is not supported on this device."@,
        FailureReason::CredentialExists => "The credential already exists, creation failed."@,
        FailureReason::CredentialNotFound(name) => "The credential '"@ + name@ + "' does not exist."@,
        FailureReason::DeviceLocked => "The Windows Hello security device is locked"@,
        FailureReason::Unknown => "Unknown error."@,
        FailureReason::UserCancelled => "The user cancelled."@,
        FailureReason::PrefsPasswd => "The user prefers to enter a password. Aborted."@,
        FailureReason::Other(text) => text@,
    }
}

impl FailureReason {
    pub fn to_code(&self) -> (r: i32)
        ensures
            r == code_of(*self),
    {
        match self {
            FailureReason::WindowsHelloNotSupported => 170,
            FailureReason::CredentialExists => 171,
            FailureReason::CredentialNotFound(_) => 172,
            FailureReason::DeviceLocked => 173,
            FailureReason::Unknown => 175,
            FailureReason::UserCancelled => 176,
            FailureReason::PrefsPasswd => 177,
            FailureReason::Other(_) => 178,
        }
    }

    /// Success where the status says so, otherwise the reason it stands for;
    /// a missing credential names the key that was asked for.
    pub fn from_credential_status(status: CredentialStatus, key_name: &str) -> (r: Result<(), FailureReason>)
        ensures
            r is Ok <==> status == CredentialStatus::Success,
            status == CredentialStatus::CredentialAlreadyExists ==> r matches Err(FailureReason::CredentialExists),
            status == CredentialStatus::NotFound ==> (r matches Err(FailureReason::CredentialNotFound(n)) && n@ == key_name@),
            status == CredentialStatus::SecurityDeviceLocked ==> r matches Err(FailureReason::DeviceLocked),
            status == CredentialStatus::UnknownError ==> r matches Err(FailureReason::Unknown),
            status == CredentialStatus::UserPrefersPassword ==> r matches Err(FailureReason::PrefsPasswd),
            status == CredentialStatus::UserCanceled ==> r matches Err(FailureReason::UserCancelled),
    {
        match status {
            CredentialStatus::Success => Ok(()),
            CredentialStatus::CredentialAlreadyExists => Err(FailureReason::CredentialExists),
            CredentialStatus::NotFound => Err(FailureReason::CredentialNotFound(key_name.to_owned())),
            CredentialStatus::SecurityDeviceLocked => Err(FailureReason::DeviceLocked),
            CredentialStatus::UnknownError => Err(FailureReason::Unknown),
            CredentialStatus::UserPrefersPassword => Err(FailureReason::PrefsPasswd),
            CredentialStatus::UserCanceled => Err(FailureReason::UserCancelled),
        }
    }

    /// The text that the tool prints for this reason.
    pub fn message(&self) -> (r: String)
        ensures
            r@ == reason_text_of(*self),
    {
        match self {
            FailureReason::WindowsHelloNotSupported => String::from_str(
                "Windows Hello is not supported on this device.",
            ),
            FailureReason::CredentialExists => String::from_str(
                "The credential already exists, creation failed.",
            ),
            FailureReason::CredentialNotFound(name) => {
                let mut r = String::from_str("The credential '");
                r.append(name.as_str());
                r.append("' does not exist.");
                r
            },
            FailureReason::DeviceLocked => String::from_str(
                "The Windows Hello security device is locked",
            ),
            FailureReason::Unknown => String::from_str("Unknown error."),
            FailureReason::UserCancelled => String::from_str("The user cancelled."),
            FailureReason::PrefsPasswd => String::from_str(
                "The user prefers to enter a password. Aborted.",
            ),
            FailureReason::Other(text) => text.clone(),
        }
    }
}

} // verus!
