//! One authentication attempt as a state machine. The host performs each
//! action (reading files, creating and removing the challenge artifact,
//! running the signer) and hands back what came of it as the next event;
//! every decision is taken here.
use vstd::prelude::*;
use vstd::string::*;
use vstd::utf8::encode_utf8;
use crate::config::{settings_of, signer_settings, SignerSettings};
use crate::error::{
    verdict_of, ConfigError, HelloAuthenticationError, IoFault, PAM_AUTH_ERR, PAM_SUCCESS, PAM_USER_UNKNOWN,
};
use crate::naming::{
    artifact_path, artifact_path_of, challenge_of, challenge_text, config_path, credential_key_name,
    key_name_of, public_key_path, public_key_path_of,
};
use crate::signature::{pem_accepted, sha256_signature_accepted, EnrolledKey};
use crate::signer::{fault_error, signature_from_exit, SignerExit, SignerFault};

verus! {

/// What an attempt waits for.
#[derive(PartialEq, Eq, Structural, Clone, Copy, Debug)]
pub enum Phase {
    LoadingKey,
    ReadingConfig,
    CreatingArtifact,
    Signing,
    RemovingArtifact,
    Done,
}

/// Why the challenge artifact could not be prepared: it could not be created
/// (and so is not ours to remove), or it was created and then could not be
/// written and rewound.
pub enum ArtifactFault {
    NotCreated(IoFault),
    NotWritten(IoFault),
}

/// What came of the host's last action.
pub enum Event {
    PublicKeyRead(Result<Vec<u8>, IoFault>),
    ConfigRead(Result<String, IoFault>),
    ArtifactCreated(Result<(), ArtifactFault>),
    SignerFinished(Result<SignerExit, SignerFault>),
    ArtifactRemoved(Result<(), IoFault>),
}

/// What the host is to do next.
pub enum Action {
    /// Read the enrolled public key file.
    ReadPublicKey { path: String },
    /// Read the configuration document.
    ReadConfig { path: String },
    /// Create the file at `path` exclusively, write `contents`, rewind it.
    CreateArtifact { path: String, contents: String },
    /// Run `program` with the single argument `argument` in `working_dir`,
    /// its standard input the artifact at `input_path`, its output captured.
    RunSigner { program: String, argument: String, working_dir: String, input_path: String },
    /// Remove the artifact.
    RemoveArtifact { path: String },
    /// Return `verdict` to the authentication stack; log `error`, and
    /// `leftover` (a failed removal of the artifact that `error` does not
    /// already report), unless asked to be silent.
    Finish { verdict: i32, error: Option<HelloAuthenticationError>, leftover: Option<IoFault> },
}

enum Stage {
    LoadingKey,
    ReadingConfig { key: EnrolledKey },
    CreatingArtifact { key: EnrolledKey, settings: SignerSettings, challenge: String, path: String },
    Signing { key: EnrolledKey, challenge: String, path: String },
    RemovingArtifact {
        key: EnrolledKey,
        challenge: String,
        path: String,
        pending: Result<Vec<u8>, HelloAuthenticationError>,
    },
    Done,
}

/// One attempt to authenticate an account.
pub struct Attempt {
    user: String,
    key_name: String,
    stage: Stage,
}

/// Which event each phase waits for.
pub open spec fn fits(phase: Phase, event: Event) -> bool {
    match phase {
        Phase::LoadingKey => event is PublicKeyRead,
        Phase::ReadingConfig => event is ConfigRead,
        Phase::CreatingArtifact => event is ArtifactCreated,
        Phase::Signing => event is SignerFinished,
        Phase::RemovingArtifact => event is ArtifactRemoved,
        Phase::Done => false,
    }
}

/// The order of the phases: an attempt only ever moves forward.
pub open spec fn rank(phase: Phase) -> nat {
    match phase {
        Phase::LoadingKey => 0,
        Phase::ReadingConfig => 1,
        Phase::CreatingArtifact => 2,
        Phase::Signing => 3,
        Phase::RemovingArtifact => 4,
        Phase::Done => 5,
    }
}

/// The action that ends an attempt with `outcome`.
pub open spec fn finish_of(outcome: Result<(), HelloAuthenticationError>) -> Action {
    match outcome {
        Ok(()) => Action::Finish { verdict: PAM_SUCCESS, error: None, leftover: None },
        Err(e) => Action::Finish { verdict: verdict_of(e), error: Some(e), leftover: None },
    }
}

fn finish(outcome: Result<(), HelloAuthenticationError>) -> (r: Action)
    ensures
        r == finish_of(outcome),
{
    match outcome {
        Ok(()) => Action::Finish { verdict: PAM_SUCCESS, error: None, leftover: None },
        Err(e) => {
            let verdict = e.verdict();
            Action::Finish { verdict, error: Some(e), leftover: None }
        },
    }
}

/// Relies on `uuid::Uuid::new_v4`, shown in its hyphenated form: a random
/// token of 36 characters.
#[verifier::external_body]
fn fresh_token() -> (r: String)
    ensures
        r@.len() == 36,
{
    uuid::Uuid::new_v4().to_string()
}

impl Attempt {
    /// Once issued, the artifact path is the challenge's own.
    #[verifier::type_invariant]
    spec fn artifact_matches_challenge(self) -> bool {
        match self.stage {
            Stage::CreatingArtifact { challenge, path, .. } => path@ == artifact_path_of(challenge@),
            Stage::Signing { challenge, path, .. } => path@ == artifact_path_of(challenge@),
            Stage::RemovingArtifact { challenge, path, .. } => path@ == artifact_path_of(challenge@),
            _ => true,
        }
    }

    pub closed spec fn phase(&self) -> Phase {
        match self.stage {
            Stage::LoadingKey => Phase::LoadingKey,
            Stage::ReadingConfig { .. } => Phase::ReadingConfig,
            Stage::CreatingArtifact { .. } => Phase::CreatingArtifact,
            Stage::Signing { .. } => Phase::Signing,
            Stage::RemovingArtifact { .. } => Phase::RemovingArtifact,
            Stage::Done => Phase::Done,
        }
    }

    /// The account under authentication.
    pub closed spec fn user(&self) -> Seq<char> {
        self.user@
    }

    /// The credential key name, as handed to the signer.
    pub closed spec fn key_name(&self) -> Seq<char> {
        self.key_name@
    }

    /// The PEM text of the enrolled key, once it is loaded.
    pub closed spec fn key_pem(&self) -> Seq<u8> {
        match self.stage {
            Stage::ReadingConfig { key } => key.pem(),
            Stage::CreatingArtifact { key, .. } => key.pem(),
            Stage::Signing { key, .. } => key.pem(),
            Stage::RemovingArtifact { key, .. } => key.pem(),
            _ => Seq::empty(),
        }
    }

    /// The challenge of this attempt, once it is issued.
    pub closed spec fn challenge(&self) -> Seq<char> {
        match self.stage {
            Stage::CreatingArtifact { challenge, .. } => challenge@,
            Stage::Signing { challenge, .. } => challenge@,
            Stage::RemovingArtifact { challenge, .. } => challenge@,
            _ => Seq::empty(),
        }
    }

    /// The signer's executable, once the configuration is read.
    pub closed spec fn signer_program(&self) -> Seq<char> {
        match self.stage {
            Stage::CreatingArtifact { settings, .. } => settings.authenticator_path@,
            _ => Seq::empty(),
        }
    }

    /// The signer's working directory, once the configuration is read.
    pub closed spec fn signer_dir(&self) -> Seq<char> {
        match self.stage {
            Stage::CreatingArtifact { settings, .. } => settings.win_mnt@,
            _ => Seq::empty(),
        }
    }

    /// The signature that the signer handed back, while it awaits checking.
    pub closed spec fn pending_signature(&self) -> Option<Seq<u8>> {
        match self.stage {
            Stage::RemovingArtifact { pending: Ok(sig), .. } => Some(sig@),
            _ => None,
        }
    }

    /// The failure that ends the attempt once the artifact is removed.
    pub closed spec fn pending_error(&self) -> Option<HelloAuthenticationError> {
        match self.stage {
            Stage::RemovingArtifact { pending: Err(e), .. } => Some(e),
            _ => None,
        }
    }

    /// Whether this attempt's challenge artifact stands on disk.
    pub open spec fn artifact_on_disk(&self) -> bool {
        self.phase() == Phase::Signing || self.phase() == Phase::RemovingArtifact
    }

    /// Whether the attempt has a challenge: it is issued when the artifact is
    /// to be created, and is `pam_wsl_hello:<user>:<token>` for a fresh
    /// token of 36 characters.
    pub open spec fn has_challenge(&self) -> bool {
        self.phase() == Phase::CreatingArtifact || self.artifact_on_disk()
    }

    /// Begins an attempt for the account that the stack reported, or for its
    /// failure code.
    pub fn start(user: Result<String, i32>) -> (r: (Attempt, Action))
        ensures
            user matches Err(c) ==> r.0.phase() == Phase::Done && r.1 == finish_of(
                Err(HelloAuthenticationError::GetUserError(c)),
            ),
            user matches Ok(u) ==> {
                &&& r.0.phase() == Phase::LoadingKey
                &&& r.0.user() == u@
                &&& r.0.key_name() == key_name_of(u@)
                &&& r.1 matches Action::ReadPublicKey { path } && path@ == public_key_path_of(
                    key_name_of(u@),
                )
            },
    {
        match user {
            Err(c) => {
                let a = Attempt { user: String::new(), key_name: String::new(), stage: Stage::Done };
                (a, finish(Err(HelloAuthenticationError::GetUserError(c))))
            },
            Ok(u) => {
                let key_name = credential_key_name(u.as_str());
                let path = public_key_path(key_name.as_str());
                (Attempt { user: u, key_name, stage: Stage::LoadingKey }, Action::ReadPublicKey { path })
            },
        }
    }

    pub fn phase_now(&self) -> (r: Phase)
        ensures
            r == self.phase(),
    {
        match self.stage {
            Stage::LoadingKey => Phase::LoadingKey,
            Stage::ReadingConfig { .. } => Phase::ReadingConfig,
            Stage::CreatingArtifact { .. } => Phase::CreatingArtifact,
            Stage::Signing { .. } => Phase::Signing,
            Stage::RemovingArtifact { .. } => Phase::RemovingArtifact,
            Stage::Done => Phase::Done,
        }
    }

    /// Whether `event` is the one this attempt waits for.
    pub fn accepts(&self, event: &Event) -> (r: bool)
        ensures
            r == fits(self.phase(), *event),
    {
        match (self.phase_now(), event) {
            (Phase::LoadingKey, Event::PublicKeyRead(_)) => true,
            (Phase::ReadingConfig, Event::ConfigRead(_)) => true,
            (Phase::CreatingArtifact, Event::ArtifactCreated(_)) => true,
            (Phase::Signing, Event::SignerFinished(_)) => true,
            (Phase::RemovingArtifact, Event::ArtifactRemoved(_)) => true,
            _ => false,
        }
    }

    /// Advances the attempt by the event that answers its last action.
    ///
    /// The attempt only moves forward, so the signer runs at most once. The
    /// challenge artifact is never left behind: once it stands on disk,
    /// whatever the signer does, the next action removes it, and the attempt
    /// finishes only from a state where it does not stand on disk or right
    /// after its removal. Success is returned exactly where the signer's
    /// signature holds, under the enrolled key, over the bytes of the
    /// challenge that was written to the artifact (but for a failure inside
    /// OpenSSL).
    pub fn step(&mut self, event: Event) -> (action: Action)
        requires
            fits(old(self).phase(), event),
        ensures
            final(self).user() == old(self).user(),
            final(self).key_name() == old(self).key_name(),
            rank(final(self).phase()) > rank(old(self).phase()),
            action is Finish <==> final(self).phase() == Phase::Done,
            action matches Action::Finish { verdict, error, .. } ==> match error {
                Some(e) => verdict == verdict_of(e),
                None => verdict == PAM_SUCCESS,
            },
            // artifact cleanup
            action is Finish ==> !old(self).artifact_on_disk() || old(self).phase()
                == Phase::RemovingArtifact,
            final(self).artifact_on_disk() <==> (action is RunSigner || action is RemoveArtifact),
            action matches Action::RemoveArtifact { path } ==> path@ == artifact_path_of(
                final(self).challenge(),
            ),
            // loading the key
            event matches Event::PublicKeyRead(Err(f)) ==> action == finish_of(
                Err(HelloAuthenticationError::PublicKeyFileError(f)),
            ),
            event matches Event::PublicKeyRead(Err(f)) && f.not_found ==> (action matches Action::Finish { verdict, .. } && verdict == PAM_USER_UNKNOWN),
            match event {
                Event::PublicKeyRead(Ok(pem)) => {
                    &&& final(self).phase() == Phase::ReadingConfig <==> pem_accepted(pem@)
                    &&& !pem_accepted(pem@) ==> (action matches Action::Finish { verdict, error: Some(e), .. }
                        && verdict == PAM_AUTH_ERR && (e is InvalidPublicKey || e is OversizedPublicKey))
                },
                _ => true,
            },
            final(self).phase() == Phase::ReadingConfig ==> {
                &&& event matches Event::PublicKeyRead(Ok(pem)) && final(self).key_pem() == pem@
                &&& action matches Action::ReadConfig { path } && path@ == "/etc/pam_wsl_hello/config"@
            },
            // reading the configuration and issuing the challenge
            event matches Event::ConfigRead(Err(f)) ==> action == finish_of(
                Err(HelloAuthenticationError::ConfigError(ConfigError::Io(f))),
            ),
            match event {
                Event::ConfigRead(Ok(text)) => {
                    &&& final(self).phase() == Phase::CreatingArtifact <==> settings_of(text@) is Some
                    &&& settings_of(text@) is None ==> (action matches Action::Finish { verdict, error: Some(e), .. }
                        && verdict == PAM_AUTH_ERR && e is ConfigError)
                    &&& final(self).phase() == Phase::CreatingArtifact ==> settings_of(text@) == Some(
                        (final(self).signer_program(), final(self).signer_dir()),
                    )
                },
                _ => true,
            },
            final(self).phase() == Phase::CreatingArtifact ==> {
                &&& old(self).phase() == Phase::ReadingConfig
                &&& final(self).key_pem() == old(self).key_pem()
                &&& exists|t: Seq<char>| t.len() == 36 && final(self).challenge() == challenge_of(
                    final(self).user(),
                    t,
                )
                &&& action matches Action::CreateArtifact { path, contents } && path@
                    == artifact_path_of(final(self).challenge()) && contents@ == final(self).challenge()
            },
            // running the signer
            event matches Event::ArtifactCreated(Err(ArtifactFault::NotCreated(f))) ==> action
                == finish_of(Err(HelloAuthenticationError::Io(f))),
            event matches Event::ArtifactCreated(Ok(())) ==> final(self).phase() == Phase::Signing,
            action is RunSigner ==> event matches Event::ArtifactCreated(Ok(())),
            final(self).phase() == Phase::Signing ==> {
                &&& final(self).challenge() == old(self).challenge()
                &&& final(self).key_pem() == old(self).key_pem()
                &&& action matches Action::RunSigner { program, argument, working_dir, input_path }
                    && program@ == old(self).signer_program() && working_dir@ == old(self).signer_dir()
                    && argument@ == final(self).key_name() && input_path@ == artifact_path_of(
                    final(self).challenge(),
                )
            },
            final(self).phase() == Phase::RemovingArtifact ==> {
                &&& final(self).challenge() == old(self).challenge()
                &&& final(self).key_pem() == old(self).key_pem()
            },
            event matches Event::ArtifactCreated(Err(ArtifactFault::NotWritten(f)))
                ==> final(self).pending_error() == Some(HelloAuthenticationError::Io(f)),
            old(self).phase() == Phase::Signing ==> final(self).phase() == Phase::RemovingArtifact
                && action is RemoveArtifact,
            event matches Event::SignerFinished(Err(SignerFault::Launch(f)))
                ==> final(self).pending_error() == Some(HelloAuthenticationError::AuthenticatorLaunchError(f)),
            event matches Event::SignerFinished(Err(SignerFault::Connection(f)))
                ==> final(self).pending_error() == Some(
                HelloAuthenticationError::AuthenticatorConnectionError(f),
            ),
            event matches Event::SignerFinished(Ok(exit)) ==> (exit.code == Some(0i32)
                <==> final(self).pending_signature() == Some(exit.stdout@)),
            event matches Event::SignerFinished(Ok(exit)) && exit.code is None
                ==> final(self).pending_error() == Some(HelloAuthenticationError::AuthenticatorSignalled),
            match event {
                Event::SignerFinished(Ok(exit)) => exit.code is Some && exit.code != Some(0i32) ==> (
                final(self).pending_error() matches Some(
                    HelloAuthenticationError::HelloAuthenticationFail(m),
                ) && m@ == crate::signer::diagnostic_of(exit.stdout@)),
                _ => true,
            },
            // after the removal
            match event {
                Event::ArtifactRemoved(Ok(())) => {
                    &&& old(self).pending_error() is Some ==> action == finish_of(
                        Err(old(self).pending_error()->Some_0),
                    )
                    &&& old(self).pending_signature() is Some && sha256_signature_accepted(
                        old(self).key_pem(),
                        encode_utf8(old(self).challenge()),
                        old(self).pending_signature()->Some_0,
                    ) ==> (action == finish_of(Ok(())) || action matches Action::Finish {
                        error: Some(HelloAuthenticationError::OpenSslError(_)),
                        ..
                    })
                    &&& old(self).pending_signature() is Some && !sha256_signature_accepted(
                        old(self).key_pem(),
                        encode_utf8(old(self).challenge()),
                        old(self).pending_signature()->Some_0,
                    ) ==> (action matches Action::Finish { error: Some(e), .. } && (
                    e is SignAuthenticationFail || e is OpenSslError))
                },
                Event::ArtifactRemoved(Err(f)) => {
                    &&& old(self).pending_error() is Some ==> action == Action::Finish {
                        verdict: verdict_of(old(self).pending_error()->Some_0),
                        error: old(self).pending_error(),
                        leftover: Some(f),
                    }
                    &&& old(self).pending_signature() is Some ==> action == finish_of(
                        Err(HelloAuthenticationError::Io(f)),
                    )
                },
                _ => true,
            },
            action matches Action::Finish { error: None, .. } ==> {
                &&& old(self).phase() == Phase::RemovingArtifact
                &&& old(self).pending_signature() matches Some(sig)
                    && sha256_signature_accepted(old(self).key_pem(), encode_utf8(old(self).challenge()), sig)
            },
    {
        proof {
            use_type_invariant(&*self);
        }
        let mut stage = Stage::Done;
        std::mem::swap(&mut self.stage, &mut stage);
        // Each stage meets only its own event: the precondition rules out
        // the other pairs, which the arms below mark as unreachable.
        match stage {
            Stage::LoadingKey => match event {
                Event::PublicKeyRead(r) => self.on_public_key(r),
                _ => {
                    assert(false);
                    finish(Err(HelloAuthenticationError::SignAuthenticationFail))
                },
            },
            Stage::ReadingConfig { key } => match event {
                Event::ConfigRead(r) => self.on_config(key, r),
                _ => {
                    assert(false);
                    finish(Err(HelloAuthenticationError::SignAuthenticationFail))
                },
            },
            Stage::CreatingArtifact { key, settings, challenge, path } => match event {
                Event::ArtifactCreated(r) => self.on_artifact(key, settings, challenge, path, r),
                _ => {
                    assert(false);
                    finish(Err(HelloAuthenticationError::SignAuthenticationFail))
                },
            },
            Stage::Signing { key, challenge, path } => match event {
                Event::SignerFinished(r) => {
                    let pending = match r {
                        Err(fault) => Err(fault_error(fault)),
                        Ok(exit) => signature_from_exit(exit),
                    };
                    let action = Action::RemoveArtifact { path: path.clone() };
                    self.stage = Stage::RemovingArtifact { key, challenge, path, pending };
                    action
                },
                _ => {
                    assert(false);
                    finish(Err(HelloAuthenticationError::SignAuthenticationFail))
                },
            },
            Stage::RemovingArtifact { key, challenge, path, pending } => match event {
                Event::ArtifactRemoved(r) => match pending {
                    Err(e) => match r {
                        Ok(()) => finish(Err(e)),
                        Err(f) => {
                            let verdict = e.verdict();
                            Action::Finish { verdict, error: Some(e), leftover: Some(f) }
                        },
                    },
                    Ok(sig) => match r {
                        Err(f) => finish(Err(HelloAuthenticationError::Io(f))),
                        Ok(()) => match key.verify(challenge.as_str().as_bytes(), sig.as_slice()) {
                            Ok(true) => finish(Ok(())),
                            Ok(false) => finish(Err(HelloAuthenticationError::SignAuthenticationFail)),
                            Err(e) => finish(Err(e)),
                        },
                    },
                },
                _ => {
                    assert(false);
                    finish(Err(HelloAuthenticationError::SignAuthenticationFail))
                },
            },
            Stage::Done => {
                assert(false);
                finish(Err(HelloAuthenticationError::SignAuthenticationFail))
            },
        }
    }

    fn on_public_key(&mut self, r: Result<Vec<u8>, IoFault>) -> (action: Action)
        requires
            old(self).phase() == Phase::Done,
        ensures
            final(self).user() == old(self).user(),
            final(self).key_name() == old(self).key_name(),
            r matches Err(f) ==> action == finish_of(Err(HelloAuthenticationError::PublicKeyFileError(f))),
            final(self).phase() == Phase::Done || final(self).phase() == Phase::ReadingConfig,
            action is Finish <==> final(self).phase() == Phase::Done,
            action matches Action::Finish { verdict, error, leftover } ==> (error matches Some(e) && verdict == verdict_of(e) && leftover is None),
            match r {
                Ok(pem) => {
                    &&& final(self).phase() == Phase::ReadingConfig <==> pem_accepted(pem@)
                    &&& !pem_accepted(pem@) ==> (action matches Action::Finish { error: Some(e), .. }
                        && (e is InvalidPublicKey || e is OversizedPublicKey))
                },
                Err(_) => true,
            },
            final(self).phase() == Phase::ReadingConfig ==> {
                &&& r matches Ok(pem) && final(self).key_pem() == pem@
                &&& action matches Action::ReadConfig { path } && path@ == "/etc/pam_wsl_hello/config"@
            },
    {
        match r {
            Err(f) => finish(Err(HelloAuthenticationError::PublicKeyFileError(f))),
            Ok(pem) => match EnrolledKey::decode(pem.as_slice()) {
                Err(e) => finish(Err(e)),
                Ok(key) => {
                    self.stage = Stage::ReadingConfig { key };
                    Action::ReadConfig { path: config_path() }
                },
            },
        }
    }

    fn on_config(&mut self, key: EnrolledKey, r: Result<String, IoFault>) -> (action: Action)
        requires
            old(self).phase() == Phase::Done,
        ensures
            final(self).user() == old(self).user(),
            final(self).key_name() == old(self).key_name(),
            final(self).phase() == Phase::Done || final(self).phase() == Phase::CreatingArtifact,
            action is Finish <==> final(self).phase() == Phase::Done,
            action matches Action::Finish { verdict, error, leftover } ==> (error matches Some(e) && verdict == verdict_of(e) && leftover is None && e is ConfigError),
            r matches Err(f) ==> action == finish_of(Err(HelloAuthenticationError::ConfigError(ConfigError::Io(f)))),
            match r {
                Ok(text) => {
                    &&& final(self).phase() == Phase::CreatingArtifact <==> settings_of(text@) is Some
                    &&& final(self).phase() == Phase::CreatingArtifact ==> settings_of(text@) == Some(
                        (final(self).signer_program(), final(self).signer_dir()),
                    )
                },
                Err(_) => true,
            },
            final(self).phase() == Phase::CreatingArtifact ==> {
                &&& final(self).key_pem() == key.pem()
                &&& exists|t: Seq<char>| t.len() == 36 && final(self).challenge() == challenge_of(
                    final(self).user(),
                    t,
                )
                &&& action matches Action::CreateArtifact { path, contents } && path@
                    == artifact_path_of(final(self).challenge()) && contents@ == final(self).challenge()
            },
    {
        let text = match r {
            Err(f) => return finish(Err(HelloAuthenticationError::ConfigError(ConfigError::Io(f)))),
            Ok(text) => text,
        };
        let settings = match signer_settings(text.as_str()) {
            Err(c) => return finish(Err(HelloAuthenticationError::ConfigError(c))),
            Ok(s) => s,
        };
        let token = fresh_token();
        let challenge = challenge_text(self.user.as_str(), token.as_str());
        let path = artifact_path(challenge.as_str());
        let action = Action::CreateArtifact { path: path.clone(), contents: challenge.clone() };
        self.stage = Stage::CreatingArtifact { key, settings, challenge, path };
        action
    }

    fn on_artifact(
        &mut self,
        key: EnrolledKey,
        settings: SignerSettings,
        challenge: String,
        path: String,
        r: Result<(), ArtifactFault>,
    ) -> (action: Action)
        requires
            old(self).phase() == Phase::Done,
            path@ == artifact_path_of(challenge@),
        ensures
            final(self).user() == old(self).user(),
            final(self).key_name() == old(self).key_name(),
            r matches Err(ArtifactFault::NotCreated(f)) ==> action == finish_of(Err(HelloAuthenticationError::Io(f))) && final(self).phase() == Phase::Done,
            r matches Err(ArtifactFault::NotWritten(f)) ==> {
                &&& final(self).phase() == Phase::RemovingArtifact
                &&& final(self).pending_error() == Some(HelloAuthenticationError::Io(f))
                &&& action matches Action::RemoveArtifact { path: p } && p@ == path@
            },
            r is Ok ==> {
                &&& final(self).phase() == Phase::Signing
                &&& action matches Action::RunSigner { program, argument, working_dir, input_path }
                    && argument@ == final(self).key_name() && input_path@ == path@ && program@
                    == settings.authenticator_path@ && working_dir@ == settings.win_mnt@
            },
            final(self).phase() != Phase::Done ==> final(self).challenge() == challenge@
                && final(self).key_pem() == key.pem(),
    {
        match r {
            Err(ArtifactFault::NotCreated(f)) => finish(Err(HelloAuthenticationError::Io(f))),
            Err(ArtifactFault::NotWritten(f)) => {
                let action = Action::RemoveArtifact { path: path.clone() };
                self.stage = Stage::RemovingArtifact {
                    key,
                    challenge,
                    path,
                    pending: Err(HelloAuthenticationError::Io(f)),
                };
                action
            },
            Ok(()) => {
                let action = Action::RunSigner {
                    program: settings.authenticator_path,
                    argument: self.key_name.clone(),
                    working_dir: settings.win_mnt,
                    input_path: path.clone(),
                };
                self.stage = Stage::Signing { key, challenge, path };
                action
            },
        }
    }
}

} // verus!
