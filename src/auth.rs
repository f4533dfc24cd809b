use vstd::prelude::*;
use vstd::string::*;

use crate::error::TelecheckerError;
use crate::phone::{parses_as_phone_number, validate};
use crate::text::{trim_whitespace, trimmed};

verus! {

/// Where a sign-in stands. Exactly one value is current; it only moves
/// forward, and `Authorized` is final.
#[derive(Debug, Clone, Copy, PartialEq, Eq, Structural, Default)]
pub enum ConnectionStatus {
    /// The service's application id and secret are not known yet.
    #[default]
    RequiresApiInfo,
    /// Not connected, or connected and not yet asked about authorization.
    NotConnected,
    /// A phone number is awaited.
    AwaitingPhoneNumber,
    /// The one-time code is awaited.
    AwaitingUserCode,
    /// The two-factor password is awaited.
    AwaitingPassword,
    /// Signed in.
    Authorized,
}

/// How far along a sign-in a status is.
pub open spec fn rank(s: ConnectionStatus) -> int {
    match s {
        ConnectionStatus::RequiresApiInfo => 0,
        ConnectionStatus::NotConnected => 1,
        ConnectionStatus::AwaitingPhoneNumber => 2,
        ConnectionStatus::AwaitingUserCode => 3,
        ConnectionStatus::AwaitingPassword => 4,
        ConnectionStatus::Authorized => 5,
    }
}

/// The name of a status.
pub open spec fn status_name(s: ConnectionStatus) -> Seq<char> {
    match s {
        ConnectionStatus::RequiresApiInfo => "RequiresApiInfo"@,
        ConnectionStatus::NotConnected => "NotConnected"@,
        ConnectionStatus::AwaitingPhoneNumber => "AwaitingPhoneNumber"@,
        ConnectionStatus::AwaitingUserCode => "AwaitingUserCode"@,
        ConnectionStatus::AwaitingPassword => "AwaitingPassword"@,
        ConnectionStatus::Authorized => "Authorized"@,
    }
}

impl ConnectionStatus {
    /// The status's name.
    pub fn as_str(&self) -> (r: &'static str)
        ensures
            r@ == status_name(*self),
    {
        match self {
            ConnectionStatus::RequiresApiInfo => "RequiresApiInfo",
            ConnectionStatus::NotConnected => "NotConnected",
            ConnectionStatus::AwaitingPhoneNumber => "AwaitingPhoneNumber",
            ConnectionStatus::AwaitingUserCode => "AwaitingUserCode",
            ConnectionStatus::AwaitingPassword => "AwaitingPassword",
            ConnectionStatus::Authorized => "Authorized",
        }
    }
}

/// What the service answered to the one-time code.
#[derive(Debug, Clone, PartialEq, Eq)]
pub enum SignInOutcome {
    /// The code was accepted.
    SignedIn,
    /// A two-factor password is needed; the service may give its hint.
    PasswordRequired(Option<String>),
    /// The code was refused, with the service's message.
    Rejected(String),
}

/// What happened since the last action: a credential arrived, or the
/// directory service answered.
#[derive(Debug, PartialEq, Eq)]
pub enum AuthEvent {
    /// A sign-in is asked for.
    Begin,
    /// The service's application id and secret, or `None` when they will
    /// never come.
    ServiceCredentials(Option<(i32, String)>),
    /// The connection was made, or failed.
    Connected(Result<(), String>),
    /// Whether the session is authorized already.
    AuthorizationChecked(Result<bool, String>),
    /// The phone number, or `None` when its provider had none.
    PhoneSupplied(Option<String>),
    /// The service sent the login code, or failed to.
    LoginCodeRequested(Result<(), String>),
    /// The one-time code, or `None` when its provider had none.
    CodeSupplied(Option<String>),
    /// The service's answer to the code.
    SignInReturned(SignInOutcome),
    /// The password, or `None` when its provider had none.
    PasswordSupplied(Option<String>),
    /// The service's answer to the password.
    PasswordChecked(Result<(), String>),
    /// Whether the session was written out.
    SessionSaved(bool),
}

/// What the caller does next.
#[derive(Debug, Clone, PartialEq, Eq)]
pub enum AuthAction {
    /// Obtain the application id and secret.
    RequestServiceCredentials,
    /// Connect to the service with this application id and secret.
    Connect(i32, String),
    /// Ask the service whether the session is authorized.
    CheckAuthorization,
    /// Obtain the phone number from its provider.
    RequestPhone,
    /// Ask the service to send a login code to this phone number.
    RequestLoginCode(String),
    /// Obtain the one-time code from its provider.
    RequestCode,
    /// Sign in with this code.
    SignIn(String),
    /// Obtain the password from its provider, showing it this hint.
    RequestPassword(String),
    /// Submit this password.
    CheckPassword(String),
    /// Write the session out.
    SaveSession,
    /// The sign-in is complete.
    Done,
    /// The sign-in ended with this failure.
    Fail(TelecheckerError),
}

/// The hint shown with the password request.
pub open spec fn hint_text(hint: Option<String>) -> Seq<char> {
    match hint {
        Some(h) => h@,
        None => "None"@,
    }
}

/// The status after `e` arrives in status `s`.
pub open spec fn next_status(s: ConnectionStatus, e: AuthEvent) -> ConnectionStatus {
    match e {
        AuthEvent::ServiceCredentials(Some(_)) if s == ConnectionStatus::RequiresApiInfo => {
            ConnectionStatus::NotConnected
        },
        AuthEvent::AuthorizationChecked(Ok(true)) if s == ConnectionStatus::NotConnected => {
            ConnectionStatus::Authorized
        },
        AuthEvent::AuthorizationChecked(Ok(false)) if s == ConnectionStatus::NotConnected => {
            ConnectionStatus::AwaitingPhoneNumber
        },
        AuthEvent::LoginCodeRequested(Ok(())) if s == ConnectionStatus::AwaitingPhoneNumber => {
            ConnectionStatus::AwaitingUserCode
        },
        AuthEvent::SignInReturned(SignInOutcome::SignedIn) if s
            == ConnectionStatus::AwaitingUserCode => ConnectionStatus::Authorized,
        AuthEvent::SignInReturned(SignInOutcome::PasswordRequired(_)) if s
            == ConnectionStatus::AwaitingUserCode => ConnectionStatus::AwaitingPassword,
        AuthEvent::PasswordChecked(Ok(())) if s == ConnectionStatus::AwaitingPassword => {
            ConnectionStatus::Authorized
        },
        _ => s,
    }
}

/// `a` is the action owed when `e` arrives in status `s`, with the
/// application credentials `api` known.
pub open spec fn action_for(
    s: ConnectionStatus,
    api: Option<(i32, Seq<char>)>,
    e: AuthEvent,
    a: AuthAction,
) -> bool {
    let unexpected = AuthAction::Fail(TelecheckerError::UnexpectedEvent);
    match e {
        AuthEvent::Begin => match s {
            ConnectionStatus::RequiresApiInfo => a == AuthAction::RequestServiceCredentials,
            ConnectionStatus::NotConnected => a matches AuthAction::Connect(id, hash) && api == Some(
                (id, hash@),
            ),
            ConnectionStatus::Authorized => a == AuthAction::Done,
            _ => a == unexpected,
        },
        AuthEvent::ServiceCredentials(c) => if s == ConnectionStatus::RequiresApiInfo {
            match c {
                Some((id, hash)) => a matches AuthAction::Connect(id2, hash2) && id2 == id
                    && hash2@ == hash@,
                None => a == AuthAction::Fail(TelecheckerError::MissingCredentials),
            }
        } else {
            a == unexpected
        },
        AuthEvent::Connected(r) => if s == ConnectionStatus::NotConnected {
            match r {
                Ok(()) => a == AuthAction::CheckAuthorization,
                Err(m) => a == AuthAction::Fail(TelecheckerError::ServiceFailed(m)),
            }
        } else {
            a == unexpected
        },
        AuthEvent::AuthorizationChecked(r) => if s == ConnectionStatus::NotConnected {
            match r {
                Ok(true) => a == AuthAction::Done,
                Ok(false) => a == AuthAction::RequestPhone,
                Err(m) => a == AuthAction::Fail(TelecheckerError::ServiceFailed(m)),
            }
        } else {
            a == unexpected
        },
        AuthEvent::PhoneSupplied(p) => if s == ConnectionStatus::AwaitingPhoneNumber {
            match p {
                None => a == AuthAction::Fail(TelecheckerError::RetrievalFailed),
                Some(phone) => if parses_as_phone_number(phone@) {
                    a matches AuthAction::RequestLoginCode(q) && q@ == phone@
                } else {
                    a == AuthAction::Fail(TelecheckerError::InvalidPhoneFormat)
                },
            }
        } else {
            a == unexpected
        },
        AuthEvent::LoginCodeRequested(r) => if s == ConnectionStatus::AwaitingPhoneNumber {
            match r {
                Ok(()) => a == AuthAction::RequestCode,
                Err(m) => a == AuthAction::Fail(TelecheckerError::ServiceFailed(m)),
            }
        } else {
            a == unexpected
        },
        AuthEvent::CodeSupplied(c) => if s == ConnectionStatus::AwaitingUserCode {
            match c {
                None => a == AuthAction::Fail(TelecheckerError::RetrievalFailed),
                Some(code) => a matches AuthAction::SignIn(q) && q@ == code@,
            }
        } else {
            a == unexpected
        },
        AuthEvent::SignInReturned(o) => if s == ConnectionStatus::AwaitingUserCode {
            match o {
                SignInOutcome::SignedIn => a == AuthAction::SaveSession,
                SignInOutcome::PasswordRequired(h) => a matches AuthAction::RequestPassword(q)
                    && q@ == hint_text(h),
                SignInOutcome::Rejected(m) => a == AuthAction::Fail(
                    TelecheckerError::SignInRejected(m),
                ),
            }
        } else {
            a == unexpected
        },
        AuthEvent::PasswordSupplied(p) => if s == ConnectionStatus::AwaitingPassword {
            match p {
                None => a == AuthAction::Fail(TelecheckerError::RetrievalFailed),
                Some(pw) => a matches AuthAction::CheckPassword(q) && q@ == trimmed(pw@),
            }
        } else {
            a == unexpected
        },
        AuthEvent::PasswordChecked(r) => if s == ConnectionStatus::AwaitingPassword {
            match r {
                Ok(()) => a == AuthAction::SaveSession,
                Err(m) => a == AuthAction::Fail(TelecheckerError::SignInRejected(m)),
            }
        } else {
            a == unexpected
        },
        AuthEvent::SessionSaved(_) => if s == ConnectionStatus::Authorized {
            a == AuthAction::Done
        } else {
            a == unexpected
        },
    }
}

/// The sign-in state machine. It holds the current status and the service's
/// application credentials once known; the caller performs each action it
/// hands out and reports what happened as the next event.
pub struct Authenticator {
    status: ConnectionStatus,
    api: Option<(i32, String)>,
    session_persisted: bool,
}

impl Authenticator {
    /// The current status.
    pub closed spec fn status_of(&self) -> ConnectionStatus {
        self.status
    }

    /// The application id and secret, once known.
    pub closed spec fn credentials(&self) -> Option<(i32, Seq<char>)> {
        match self.api {
            Some((id, hash)) => Some((id, hash@)),
            None => None,
        }
    }

    /// Whether the session was written out after signing in.
    pub closed spec fn persisted(&self) -> bool {
        self.session_persisted
    }

    /// The credentials are missing exactly while the status says so.
    pub closed spec fn wf(&self) -> bool {
        (self.status == ConnectionStatus::RequiresApiInfo) == (self.api is None)
    }

    /// A machine for a new sign-in: it first asks for the application
    /// credentials unless both are given.
    pub fn new(api_id: Option<i32>, api_hash: Option<String>) -> (r: Authenticator)
        ensures
            r.wf(),
            !r.persisted(),
            match (api_id, api_hash) {
                (Some(id), Some(hash)) => r.status_of() == ConnectionStatus::NotConnected
                    && r.credentials() == Some((id, hash@)),
                _ => r.status_of() == ConnectionStatus::RequiresApiInfo && r.credentials() is None,
            },
    {
        match (api_id, api_hash) {
            (Some(id), Some(hash)) => Authenticator {
                status: ConnectionStatus::NotConnected,
                api: Some((id, hash)),
                session_persisted: false,
            },
            _ => Authenticator {
                status: ConnectionStatus::RequiresApiInfo,
                api: None,
                session_persisted: false,
            },
        }
    }

    /// The current status.
    pub fn status(&self) -> (r: ConnectionStatus)
        ensures
            r == self.status_of(),
    {
        self.status
    }

    /// Whether the session was written out after signing in.
    pub fn session_persisted(&self) -> (r: bool)
        ensures
            r == self.persisted(),
    {
        self.session_persisted
    }

    /// Takes the next event and returns the next action.
    pub fn step(&mut self, event: AuthEvent) -> (r: AuthAction)
        requires
            old(self).wf(),
        ensures
            final(self).wf(),
            final(self).status_of() == next_status(old(self).status_of(), event),
            action_for(old(self).status_of(), old(self).credentials(), event, r),
            final(self).credentials() == (match event {
                AuthEvent::ServiceCredentials(Some((id, hash))) if old(self).status_of()
                    == ConnectionStatus::RequiresApiInfo => Some((id, hash@)),
                _ => old(self).credentials(),
            }),
            final(self).persisted() == (match event {
                AuthEvent::SessionSaved(saved) if old(self).status_of()
                    == ConnectionStatus::Authorized => saved,
                _ => old(self).persisted(),
            }),
    {
        let unexpected = AuthAction::Fail(TelecheckerError::UnexpectedEvent);
        match event {
            AuthEvent::Begin => match self.status {
                ConnectionStatus::RequiresApiInfo => AuthAction::RequestServiceCredentials,
                ConnectionStatus::NotConnected => match &self.api {
                    Some((id, hash)) => AuthAction::Connect(*id, hash.clone()),
                    None => unexpected,
                },
                ConnectionStatus::Authorized => AuthAction::Done,
                _ => unexpected,
            },
            AuthEvent::ServiceCredentials(c) => {
                if self.status != ConnectionStatus::RequiresApiInfo {
                    return unexpected;
                }
                match c {
                    Some((id, hash)) => {
                        let action = AuthAction::Connect(id, hash.clone());
                        self.api = Some((id, hash));
                        self.status = ConnectionStatus::NotConnected;
                        action
                    },
                    None => AuthAction::Fail(TelecheckerError::MissingCredentials),
                }
            },
            AuthEvent::Connected(r) => {
                if self.status != ConnectionStatus::NotConnected {
                    return unexpected;
                }
                match r {
                    Ok(()) => AuthAction::CheckAuthorization,
                    Err(m) => AuthAction::Fail(TelecheckerError::ServiceFailed(m)),
                }
            },
            AuthEvent::AuthorizationChecked(r) => {
                if self.status != ConnectionStatus::NotConnected {
                    return unexpected;
                }
                match r {
                    Ok(true) => {
                        self.status = ConnectionStatus::Authorized;
                        AuthAction::Done
                    },
                    Ok(false) => {
                        self.status = ConnectionStatus::AwaitingPhoneNumber;
                        AuthAction::RequestPhone
                    },
                    Err(m) => AuthAction::Fail(TelecheckerError::ServiceFailed(m)),
                }
            },
            AuthEvent::PhoneSupplied(p) => {
                if self.status != ConnectionStatus::AwaitingPhoneNumber {
                    return unexpected;
                }
                match p {
                    None => AuthAction::Fail(TelecheckerError::RetrievalFailed),
                    Some(phone) => match validate(phone.as_str()) {
                        Ok(()) => AuthAction::RequestLoginCode(phone),
                        Err(e) => AuthAction::Fail(e),
                    },
                }
            },
            AuthEvent::LoginCodeRequested(r) => {
                if self.status != ConnectionStatus::AwaitingPhoneNumber {
                    return unexpected;
                }
                match r {
                    Ok(()) => {
                        self.status = ConnectionStatus::AwaitingUserCode;
                        AuthAction::RequestCode
                    },
                    Err(m) => AuthAction::Fail(TelecheckerError::ServiceFailed(m)),
                }
            },
            AuthEvent::CodeSupplied(c) => {
                if self.status != ConnectionStatus::AwaitingUserCode {
                    return unexpected;
                }
                match c {
                    None => AuthAction::Fail(TelecheckerError::RetrievalFailed),
                    Some(code) => AuthAction::SignIn(code),
                }
            },
            AuthEvent::SignInReturned(o) => {
                if self.status != ConnectionStatus::AwaitingUserCode {
                    return unexpected;
                }
                match o {
                    SignInOutcome::SignedIn => {
                        self.status = ConnectionStatus::Authorized;
                        AuthAction::SaveSession
                    },
                    SignInOutcome::PasswordRequired(h) => {
                        self.status = ConnectionStatus::AwaitingPassword;
                        let hint = match h {
                            Some(text) => text,
                            None => String::from_str("None"),
                        };
                        AuthAction::RequestPassword(hint)
                    },
                    SignInOutcome::Rejected(m) => AuthAction::Fail(
                        TelecheckerError::SignInRejected(m),
                    ),
                }
            },
            AuthEvent::PasswordSupplied(p) => {
                if self.status != ConnectionStatus::AwaitingPassword {
                    return unexpected;
                }
                match p {
                    None => AuthAction::Fail(TelecheckerError::RetrievalFailed),
                    Some(pw) => AuthAction::CheckPassword(trim_whitespace(pw.as_str())),
                }
            },
            AuthEvent::PasswordChecked(r) => {
                if self.status != ConnectionStatus::AwaitingPassword {
                    return unexpected;
                }
                match r {
                    Ok(()) => {
                        self.status = ConnectionStatus::Authorized;
                        AuthAction::SaveSession
                    },
                    Err(m) => AuthAction::Fail(TelecheckerError::SignInRejected(m)),
                }
            },
            AuthEvent::SessionSaved(saved) => {
                if self.status != ConnectionStatus::Authorized {
                    return unexpected;
                }
                self.session_persisted = saved;
                AuthAction::Done
            },
        }
    }
}

} // verus!

verus! {

/// Whether an action draws on a credential provider.
pub open spec fn asks_for_credential(a: AuthAction) -> bool {
    ||| a == AuthAction::RequestPhone
    ||| a == AuthAction::RequestCode
    ||| a matches AuthAction::RequestPassword(_)
}

/// A session that the service reports as authorized goes straight from
/// `NotConnected` to `Authorized` and finishes: no credential provider is
/// asked, and no awaiting status is passed through.
pub proof fn lemma_authorized_session_needs_no_credentials(
    api: Option<(i32, Seq<char>)>,
    a: AuthAction,
)
    requires
        action_for(
            ConnectionStatus::NotConnected,
            api,
            AuthEvent::AuthorizationChecked(Ok(true)),
            a,
        ),
    ensures
        next_status(ConnectionStatus::NotConnected, AuthEvent::AuthorizationChecked(Ok(true)))
            == ConnectionStatus::Authorized,
        a == AuthAction::Done,
        !asks_for_credential(a),
{
}

/// Signing in again once authorized does nothing: the status stays and the
/// machine reports completion at once.
pub proof fn lemma_sign_in_when_authorized_is_a_no_op(
    api: Option<(i32, Seq<char>)>,
    a: AuthAction,
)
    requires
        action_for(ConnectionStatus::Authorized, api, AuthEvent::Begin, a),
    ensures
        next_status(ConnectionStatus::Authorized, AuthEvent::Begin) == ConnectionStatus::Authorized,
        a == AuthAction::Done,
{
}

/// The status never moves back, and `Authorized` is never left.
pub proof fn lemma_status_only_moves_forward(s: ConnectionStatus, e: AuthEvent)
    ensures
        rank(next_status(s, e)) >= rank(s),
        s == ConnectionStatus::Authorized ==> next_status(s, e) == ConnectionStatus::Authorized,
{
}

} // verus!
