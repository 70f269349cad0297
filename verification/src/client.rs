//! The two-step exchange with the upstream server: fetch a nonce, then
//! submit the registration signed with it. The exchange is a state machine:
//! whoever drives it performs each action on the network and hands back what
//! happened as an event.

use vstd::prelude::*;
use vstd::string::StringExecFns;
use crate::config::AppConfig;
use crate::mac::{calculate_mac, registration_mac};

verus! {

broadcast use vstd::string::group_string_axioms;

/// Why a registration did not go through.
#[derive(Debug, PartialEq, Eq)]
pub enum RegisterError {
    /// The upstream server holds an account of that name already.
    UserExists,
    /// The upstream server could not be reached or could not be understood;
    /// the text says what went wrong.
    Upstream(String),
    /// The upstream server answered with a status that the protocol does not
    /// provide for; the text is what came with it.
    UnexpectedStatus(u16, String),
}

/// Body of the registration that is posted to the upstream server.
#[derive(Debug, PartialEq, Eq)]
pub struct RegisterUserRequest {
    pub nonce: String,
    pub username: String,
    pub password: String,
    pub admin: bool,
    pub mac: String,
}

/// Where an exchange stands.
#[derive(Clone, Copy, Debug, PartialEq, Eq, Structural)]
pub enum Phase {
    /// The nonce was asked for; its response has not arrived.
    AwaitingNonce,
    /// The nonce response was good; its body is being decoded.
    AwaitingNonceBody,
    /// The registration was posted; its response has not arrived.
    AwaitingVerdict,
    /// The registration met the given unexpected status; the body of that
    /// response is being read.
    AwaitingErrorBody(u16),
    /// The exchange is over.
    Finished,
}

/// What happened to the action that an exchange asked for.
#[derive(Debug, PartialEq, Eq)]
pub enum Event {
    /// It failed below HTTP: no connection, a timeout, a body that could not
    /// be read or decoded. The text says what went wrong.
    Failed(String),
    /// A response arrived with this status; the text describes the status.
    Status(u16, String),
    /// The body of the nonce response held this nonce.
    Nonce(String),
    /// The body of the response, as text.
    Body(String),
}

/// What an exchange asks for next.
#[derive(Debug, PartialEq, Eq)]
pub enum Action {
    /// Send a GET to this address and report `Status` or `Failed`.
    Get(String),
    /// Decode the body of the response as JSON with a `nonce` field and
    /// report `Nonce` or `Failed`.
    ReadNonce,
    /// Send a POST to this address with this body as JSON and report
    /// `Status` or `Failed`.
    Post(String, RegisterUserRequest),
    /// Read the body of the response as text and report `Body` or `Failed`.
    ReadBody,
    /// Nothing: the exchange is over, with this result.
    Done(Result<(), RegisterError>),
}

/// One registration of a user with the upstream server.
#[derive(Debug, PartialEq, Eq)]
pub struct Registration {
    pub username: String,
    pub password: String,
    pub phase: Phase,
}

impl Phase {
    /// How far an exchange has come. Every step takes it further.
    pub open spec fn rank(self) -> nat {
        match self {
            Phase::AwaitingNonce => 0,
            Phase::AwaitingNonceBody => 1,
            Phase::AwaitingVerdict => 2,
            Phase::AwaitingErrorBody(_) => 3,
            Phase::Finished => 4,
        }
    }
}

/// Path of the registration endpoint below the server's base address.
pub open spec fn register_path() -> Seq<char> {
    "/_synapse/admin/v1/register"@
}

/// What is reported of an event that does not answer the pending action.
pub open spec fn out_of_order() -> Seq<char> {
    "reply out of order"@
}

/// A status from 200 to 299.
pub open spec fn is_success(status: u16) -> bool {
    200 <= status <= 299
}

/// Address of the registration endpoint of the configured server.
pub fn register_url(config: &AppConfig) -> (url: String)
    ensures
        url@ == config.server@ + register_path(),
{
    let mut url = config.server.clone();
    url.append("/_synapse/admin/v1/register");
    url
}

/// The registration to post for `username` and `password` under `nonce`:
/// never for an administrator, and signed with the configured secret.
pub fn registration_request(
    config: &AppConfig,
    nonce: String,
    username: &String,
    password: &String,
) -> (body: RegisterUserRequest)
    ensures
        body.nonce == nonce,
        body.username == *username,
        body.password == *password,
        !body.admin,
        body.mac@ == registration_mac(nonce@, username@, password@, config.shared_secret@),
{
    let mac = calculate_mac(
        nonce.as_str(),
        username.as_str(),
        password.as_str(),
        config.shared_secret.as_str(),
    );
    RegisterUserRequest {
        nonce,
        username: username.clone(),
        password: password.clone(),
        admin: false,
        mac,
    }
}

/// What the status of the registration response means: 200 is success, 400
/// says that the user exists, and `None` stands for every other status,
/// whose body is still to be read.
pub fn classify_status(status: u16) -> (verdict: Option<Result<(), RegisterError>>)
    ensures
        status == 200 ==> verdict == Some(Ok::<(), RegisterError>(())),
        status == 400 ==> verdict == Some(Err::<(), RegisterError>(RegisterError::UserExists)),
        status != 200 && status != 400 ==> verdict is None,
{
    if status == 200 {
        Some(Ok(()))
    } else if status == 400 {
        Some(Err(RegisterError::UserExists))
    } else {
        None
    }
}

impl Registration {
    /// Begins an exchange: the first action fetches the nonce.
    pub fn start(config: &AppConfig, username: String, password: String) -> (begun: (
        Registration,
        Action,
    ))
        ensures
            begun.0.username == username,
            begun.0.password == password,
            begun.0.phase == Phase::AwaitingNonce,
            begun.1 matches Action::Get(url) && url@ == config.server@ + register_path(),
    {
        let url = register_url(config);
        (Registration { username, password, phase: Phase::AwaitingNonce }, Action::Get(url))
    }

    /// Takes the event that answers the pending action and says what to do
    /// next.
    ///
    /// While the nonce is awaited, a failure ends the exchange as an upstream
    /// failure, a status outside 200 to 299 ends it as an unexpected status,
    /// and a good status asks for the body. The nonce in the body leads to
    /// the signed registration being posted; a body without one is an
    /// upstream failure. Of the registration's response, status 200 ends the
    /// exchange in success and 400 with `UserExists`; any other status is
    /// reported as unexpected, with the body that came with it, or with no
    /// text where the body cannot be read. An event that does not answer the
    /// pending action ends the exchange as an upstream failure.
    ///
    /// The registration is posted only in answer to a nonce, so never after
    /// the first step failed. No request is sent a second time: the nonce is
    /// never asked for again, every step takes an unfinished exchange
    /// further, and a finished exchange stays finished.
    pub fn advance(&mut self, config: &AppConfig, event: Event) -> (action: Action)
        ensures
            final(self).username == old(self).username,
            final(self).password == old(self).password,
            match (old(self).phase, event) {
                (Phase::AwaitingNonce, Event::Failed(detail)) => {
                    &&& final(self).phase == Phase::Finished
                    &&& action == Action::Done(Err(RegisterError::Upstream(detail)))
                },
                (Phase::AwaitingNonce, Event::Status(status, reason)) => if is_success(status) {
                    &&& final(self).phase == Phase::AwaitingNonceBody
                    &&& action == Action::ReadNonce
                } else {
                    &&& final(self).phase == Phase::Finished
                    &&& action == Action::Done(
                        Err(RegisterError::UnexpectedStatus(status, reason)),
                    )
                },
                (Phase::AwaitingNonceBody, Event::Nonce(nonce)) => {
                    &&& final(self).phase == Phase::AwaitingVerdict
                    &&& action matches Action::Post(url, body)
                    &&& url@ == config.server@ + register_path()
                    &&& body.nonce == nonce
                    &&& body.username == old(self).username
                    &&& body.password == old(self).password
                    &&& !body.admin
                    &&& body.mac@ == registration_mac(
                        nonce@,
                        old(self).username@,
                        old(self).password@,
                        config.shared_secret@,
                    )
                },
                (Phase::AwaitingNonceBody, Event::Failed(detail)) => {
                    &&& final(self).phase == Phase::Finished
                    &&& action == Action::Done(Err(RegisterError::Upstream(detail)))
                },
                (Phase::AwaitingVerdict, Event::Failed(detail)) => {
                    &&& final(self).phase == Phase::Finished
                    &&& action == Action::Done(Err(RegisterError::Upstream(detail)))
                },
                (Phase::AwaitingVerdict, Event::Status(status, _)) => if status == 200 {
                    &&& final(self).phase == Phase::Finished
                    &&& action == Action::Done(Ok(()))
                } else if status == 400 {
                    &&& final(self).phase == Phase::Finished
                    &&& action == Action::Done(Err(RegisterError::UserExists))
                } else {
                    &&& final(self).phase == Phase::AwaitingErrorBody(status)
                    &&& action == Action::ReadBody
                },
                (Phase::AwaitingErrorBody(status), Event::Body(text)) => {
                    &&& final(self).phase == Phase::Finished
                    &&& action == Action::Done(Err(RegisterError::UnexpectedStatus(status, text)))
                },
                (Phase::AwaitingErrorBody(status), Event::Failed(_)) => {
                    &&& final(self).phase == Phase::Finished
                    &&& action matches Action::Done(Err(RegisterError::UnexpectedStatus(code, text)))
                    &&& code == status
                    &&& text@ == Seq::<char>::empty()
                },
                _ => {
                    &&& final(self).phase == Phase::Finished
                    &&& action matches Action::Done(Err(RegisterError::Upstream(detail)))
                    &&& detail@ == out_of_order()
                },
            },
            action is Post ==> old(self).phase == Phase::AwaitingNonceBody && event is Nonce,
            !(action is Get),
            old(self).phase != Phase::Finished ==> final(self).phase.rank() > old(self).phase.rank(),
            old(self).phase == Phase::Finished ==> final(self).phase == Phase::Finished,
            action is Done <==> final(self).phase == Phase::Finished,
    {
        let phase = self.phase;
        self.phase = Phase::Finished;
        match (phase, event) {
            (Phase::AwaitingNonce, Event::Failed(detail)) => Action::Done(
                Err(RegisterError::Upstream(detail)),
            ),
            (Phase::AwaitingNonce, Event::Status(status, reason)) => {
                if 200 <= status && status <= 299 {
                    self.phase = Phase::AwaitingNonceBody;
                    Action::ReadNonce
                } else {
                    Action::Done(Err(RegisterError::UnexpectedStatus(status, reason)))
                }
            },
            (Phase::AwaitingNonceBody, Event::Nonce(nonce)) => {
                let body = registration_request(config, nonce, &self.username, &self.password);
                self.phase = Phase::AwaitingVerdict;
                Action::Post(register_url(config), body)
            },
            (Phase::AwaitingNonceBody, Event::Failed(detail)) => Action::Done(
                Err(RegisterError::Upstream(detail)),
            ),
            (Phase::AwaitingVerdict, Event::Failed(detail)) => Action::Done(
                Err(RegisterError::Upstream(detail)),
            ),
            (Phase::AwaitingVerdict, Event::Status(status, _)) => {
                match classify_status(status) {
                    Some(verdict) => Action::Done(verdict),
                    None => {
                        self.phase = Phase::AwaitingErrorBody(status);
                        Action::ReadBody
                    },
                }
            },
            (Phase::AwaitingErrorBody(status), Event::Body(text)) => Action::Done(
                Err(RegisterError::UnexpectedStatus(status, text)),
            ),
            (Phase::AwaitingErrorBody(status), Event::Failed(_)) => Action::Done(
                Err(RegisterError::UnexpectedStatus(status, String::new())),
            ),
            _ => Action::Done(
                Err(RegisterError::Upstream(String::from_str("reply out of order"))),
            ),
        }
    }
}

} // verus!
