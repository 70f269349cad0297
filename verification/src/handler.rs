//! The request pipeline: the checks a registration request passes, in
//! order, before the upstream server is asked, and the response it is
//! answered with.

use vstd::prelude::*;
use vstd::string::StringExecFns;
use crate::client::RegisterError;
use crate::clock::Timestamp;
use crate::config::AppConfig;
use crate::limiter::{after_check, after_record, is_blocked, Attempt, Attempts, IpAddress};
use crate::text::{before_first, first_list_value, trimmed};
use crate::validate::{password_ok, username_ok, validate_password, validate_username};

verus! {

broadcast use vstd::string::group_string_axioms;

/// Header in which a trusted proxy names the client it forwards for.
pub const FORWARDED_HEADER: &'static str = "x-forwarded-for";

/// How a registration request ended.
#[derive(Clone, Copy, Debug, PartialEq, Eq, Structural)]
pub enum RegistrationState {
    Registered,
    InvalidUserOrPass,
    Blocked,
    InvalidToken,
    InvalidUsername,
    InvalidPassword,
    InvalidPasswordVerification,
    UserExists,
    InternalError,
}

impl RegistrationState {
    /// The HTTP status that goes with the state: 422 where the user exists,
    /// 500 for an internal error, 200 for every other state.
    pub open spec fn status(self) -> u16 {
        match self {
            RegistrationState::UserExists => 422,
            RegistrationState::InternalError => 500,
            _ => 200,
        }
    }

    /// The name of the state in a response body.
    pub open spec fn name(self) -> Seq<char> {
        match self {
            RegistrationState::Registered => "REGISTERED"@,
            RegistrationState::InvalidUserOrPass => "INVALID_USER_OR_PASS"@,
            RegistrationState::Blocked => "BLOCKED"@,
            RegistrationState::InvalidToken => "INVALID_TOKEN"@,
            RegistrationState::InvalidUsername => "INVALID_USERNAME"@,
            RegistrationState::InvalidPassword => "INVALID_PASSWORD"@,
            RegistrationState::InvalidPasswordVerification => "INVALID_PASSWORD_VERIFICATION"@,
            RegistrationState::UserExists => "USER_EXISTS"@,
            RegistrationState::InternalError => "INTERNAL_ERROR"@,
        }
    }

    pub fn http_status(&self) -> (status: u16)
        ensures
            status == self.status(),
    {
        match self {
            RegistrationState::UserExists => 422,
            RegistrationState::InternalError => 500,
            _ => 200,
        }
    }

    pub fn as_str(&self) -> (name: &'static str)
        ensures
            name@ == self.name(),
    {
        match self {
            RegistrationState::Registered => "REGISTERED",
            RegistrationState::InvalidUserOrPass => "INVALID_USER_OR_PASS",
            RegistrationState::Blocked => "BLOCKED",
            RegistrationState::InvalidToken => "INVALID_TOKEN",
            RegistrationState::InvalidUsername => "INVALID_USERNAME",
            RegistrationState::InvalidPassword => "INVALID_PASSWORD",
            RegistrationState::InvalidPasswordVerification => "INVALID_PASSWORD_VERIFICATION",
            RegistrationState::UserExists => "USER_EXISTS",
            RegistrationState::InternalError => "INTERNAL_ERROR",
        }
    }
}

/// The fields of a registration request.
#[derive(Debug, PartialEq, Eq)]
pub struct RegisterForm {
    pub username: String,
    pub password: String,
    pub password_confirmation: String,
    pub token: String,
}

impl RegisterForm {
    /// The form with the given fields; a confirmation that was not sent
    /// counts as empty.
    pub fn from_fields(
        username: String,
        password: String,
        password_confirmation: Option<String>,
        token: String,
    ) -> (form: RegisterForm)
        ensures
            form.username == username,
            form.password == password,
            form.token == token,
            match password_confirmation {
                Some(confirmation) => form.password_confirmation == confirmation,
                None => form.password_confirmation@ == Seq::<char>::empty(),
            },
    {
        let password_confirmation = match password_confirmation {
            Some(confirmation) => confirmation,
            None => String::new(),
        };
        RegisterForm { username, password, password_confirmation, token }
    }
}

/// The answer to a registration request: an HTTP status, the state, and
/// the user name as it was given.
#[derive(Debug, PartialEq, Eq)]
pub struct RegistrationResponse {
    pub status: u16,
    pub registration_state: RegistrationState,
    pub username: String,
}

/// What to do with a request after its checks.
#[derive(Debug, PartialEq, Eq)]
pub enum HandlerStep {
    /// Answer with this response; the upstream server is not asked.
    Respond(RegistrationResponse),
    /// Register the user with the upstream server, then conclude.
    Register,
}

/// The state with which a request is turned away before the upstream server
/// is asked, by the first of these checks that fails: the user name is
/// empty; the password is empty; the token is empty; the client is blocked;
/// password and confirmation differ; the user name or the password is
/// malformed; the token is not the expected one. `None` where every check
/// passes.
pub open spec fn rejection(
    form: RegisterForm,
    expected_token: Seq<char>,
    blocked: bool,
) -> Option<RegistrationState> {
    if form.username@.len() == 0 {
        Some(RegistrationState::InvalidUsername)
    } else if form.password@.len() == 0 {
        Some(RegistrationState::InvalidPassword)
    } else if form.token@.len() == 0 {
        Some(RegistrationState::InvalidToken)
    } else if blocked {
        Some(RegistrationState::Blocked)
    } else if form.password@ != form.password_confirmation@ {
        Some(RegistrationState::InvalidPasswordVerification)
    } else if !username_ok(form.username@) || !password_ok(form.password@) {
        Some(RegistrationState::InvalidUserOrPass)
    } else if form.token@ != expected_token {
        Some(RegistrationState::InvalidToken)
    } else {
        None
    }
}

/// The attempt records after the checks of a request from `ip` at `now`. A
/// request with an empty field leaves them alone. Every other request has
/// the client checked, which resets a window that has run out, and a token
/// that reaches the last check and fails it is recorded as an attempt.
pub open spec fn records_after_checks(
    records: Map<IpAddress, Attempt>,
    ip: IpAddress,
    now: Timestamp,
    form: RegisterForm,
    expected_token: Seq<char>,
) -> Map<IpAddress, Attempt> {
    if form.username@.len() == 0 || form.password@.len() == 0 || form.token@.len() == 0 {
        records
    } else if rejection(form, expected_token, is_blocked(records, ip, now)) == Some(
        RegistrationState::InvalidToken,
    ) {
        after_record(after_check(records, ip, now), ip, now)
    } else {
        after_check(records, ip, now)
    }
}

/// What the checks of a request from `ip` at `now` come to, from the records
/// `before` them: the records `after` them are those of
/// `records_after_checks`; a request that `rejection` turns away is answered
/// with that state, the status that goes with it, and its user name; any
/// other request is to be registered upstream.
pub open spec fn checks_done(
    before: Map<IpAddress, Attempt>,
    expected_token: Seq<char>,
    ip: IpAddress,
    form: RegisterForm,
    now: Timestamp,
    after: Map<IpAddress, Attempt>,
    step: HandlerStep,
) -> bool {
    &&& after == records_after_checks(before, ip, now, form, expected_token)
    &&& match rejection(form, expected_token, is_blocked(before, ip, now)) {
        Some(state) => {
            &&& step matches HandlerStep::Respond(r)
            &&& r.registration_state == state
            &&& r.status == state.status()
            &&& r.username@ == form.username@
        },
        None => step is Register,
    }
}

/// The state that the result of the upstream registration is answered
/// with: success registers, an existing user is reported as such, and
/// every other failure is an internal error.
pub open spec fn conclusion(result: Result<(), RegisterError>) -> RegistrationState {
    match result {
        Ok(_) => RegistrationState::Registered,
        Err(RegisterError::UserExists) => RegistrationState::UserExists,
        Err(_) => RegistrationState::InternalError,
    }
}

/// A response with the given status and state that echoes `username`.
pub fn response(status: u16, registration_state: RegistrationState, username: &str) -> (r:
    RegistrationResponse)
    ensures
        r.status == status,
        r.registration_state == registration_state,
        r.username@ == username@,
{
    RegistrationResponse { status, registration_state, username: username.to_owned() }
}

/// The client that a forwarding proxy names in its header, as text: the
/// first of the comma-separated values, without the whitespace around it.
pub fn forwarded_client(header: &str) -> (client: String)
    ensures
        client@ == trimmed(before_first(header@, ',')),
{
    first_list_value(header)
}

/// The address a request is attributed to: the one a trusted proxy
/// forwarded, if there is one, else the peer of the connection.
pub fn extract_ip(forwarded: Option<IpAddress>, peer: IpAddress) -> (ip: IpAddress)
    ensures
        ip == match forwarded {
            Some(client) => client,
            None => peer,
        },
{
    match forwarded {
        Some(client) => client,
        None => peer,
    }
}

/// What the request handlers share: the configuration and the attempt
/// records of the rate limiter.
pub struct AppState {
    pub config: AppConfig,
    pub attempts: Attempts,
}

impl AppState {
    /// A broker with the given configuration and no attempt on record.
    pub fn new(config: AppConfig) -> (state: AppState)
        ensures
            state.config == config,
            state.attempts@ == Map::<IpAddress, Attempt>::empty(),
    {
        AppState { config, attempts: Attempts::new() }
    }

    /// Whether `token` is the configured registration token.
    pub fn is_token_ok(&self, token: &str) -> (ok: bool)
        ensures
            ok == (token@ == self.config.token@),
    {
        self.config.token == token.to_owned()
    }

    /// Runs the checks of a request from `client_ip` at the time `now`, in
    /// the order that `rejection` gives. A request that fails one is
    /// answered with that state, status 200 and its user name; one that
    /// passes them all is to be registered upstream.
    pub fn register_handler_at(
        &mut self,
        client_ip: IpAddress,
        form: &RegisterForm,
        now: Timestamp,
    ) -> (step: HandlerStep)
        ensures
            final(self).config == old(self).config,
            checks_done(
                old(self).attempts@,
                old(self).config.token@,
                client_ip,
                *form,
                now,
                final(self).attempts@,
                step,
            ),
    {
        let username = form.username.as_str();
        if username.is_empty() {
            return HandlerStep::Respond(response(200, RegistrationState::InvalidUsername, username));
        }
        if form.password.as_str().is_empty() {
            return HandlerStep::Respond(response(200, RegistrationState::InvalidPassword, username));
        }
        if form.token.as_str().is_empty() {
            return HandlerStep::Respond(response(200, RegistrationState::InvalidToken, username));
        }
        if self.attempts.too_many_requests_at(client_ip, now) {
            return HandlerStep::Respond(response(200, RegistrationState::Blocked, username));
        }
        if form.password != form.password_confirmation {
            return HandlerStep::Respond(
                response(200, RegistrationState::InvalidPasswordVerification, username),
            );
        }
        if !validate_username(username) || !validate_password(form.password.as_str()) {
            return HandlerStep::Respond(
                response(200, RegistrationState::InvalidUserOrPass, username),
            );
        }
        if !self.is_token_ok(form.token.as_str()) {
            self.attempts.record_attempt_at(client_ip, now);
            return HandlerStep::Respond(response(200, RegistrationState::InvalidToken, username));
        }
        HandlerStep::Register
    }

    /// Concludes a request that was registered upstream, at the time `now`:
    /// the attempt is recorded whatever the result, and the response carries
    /// the state that `conclusion` gives for the result, the status that
    /// goes with the state, and the user name.
    pub fn conclude_at(
        &mut self,
        client_ip: IpAddress,
        username: &str,
        result: &Result<(), RegisterError>,
        now: Timestamp,
    ) -> (r: RegistrationResponse)
        ensures
            final(self).config == old(self).config,
            final(self).attempts@ == after_record(old(self).attempts@, client_ip, now),
            r.registration_state == conclusion(*result),
            r.status == r.registration_state.status(),
            r.username@ == username@,
    {
        self.attempts.record_attempt_at(client_ip, now);
        match result {
            Ok(_) => response(200, RegistrationState::Registered, username),
            Err(RegisterError::UserExists) => response(422, RegistrationState::UserExists, username),
            Err(_) => response(500, RegistrationState::InternalError, username),
        }
    }

    /// `register_handler_at`, at the time the clock shows.
    pub fn register_handler(&mut self, client_ip: IpAddress, form: &RegisterForm) -> (step:
        HandlerStep)
        ensures
            final(self).config == old(self).config,
            exists|now: Timestamp| #[trigger]
                checks_done(
                    old(self).attempts@,
                    old(self).config.token@,
                    client_ip,
                    *form,
                    now,
                    final(self).attempts@,
                    step,
                ),
    {
        let now = Timestamp::now();
        self.register_handler_at(client_ip, form, now)
    }

    /// `conclude_at`, at the time the clock shows.
    pub fn conclude(
        &mut self,
        client_ip: IpAddress,
        username: &str,
        result: &Result<(), RegisterError>,
    ) -> (r: RegistrationResponse)
        ensures
            final(self).config == old(self).config,
            exists|now: Timestamp|
                final(self).attempts@ == #[trigger] after_record(old(self).attempts@, client_ip, now),
            r.registration_state == conclusion(*result),
            r.status == r.registration_state.status(),
            r.username@ == username@,
    {
        let now = Timestamp::now();
        self.conclude_at(client_ip, username, result, now)
    }
}

} // verus!
