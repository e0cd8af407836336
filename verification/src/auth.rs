//! Registering the exporter with the Freebox and opening sessions: the payloads, the
//! checks on the answers, the registration monitor and the session password.
use crate::mappers::opt_text;
use crate::text::{concat, i64_to_decimal, int_to_decimal};
use crate::transport::{checked_result, succeeded, FreeboxResponse, FreeboxResponseError};
use hmac::Mac;
use vstd::prelude::*;
use vstd::string::StrSliceExecFns;

verus! {

/// The application id the exporter registers under.
pub const APP_ID: &'static str = "fr.freebox.prometheus.exporter";

/// The application name shown on the Freebox screen.
pub const APP_NAME: &'static str = "Prometheus Exporter";

/// The application version sent at registration.
pub const APP_VERSION: &'static str = "1.0.0.0";

/// How many times the registration status is polled before giving up.
pub const MAX_AUTHORIZATION_POLLS: u32 = 100;

/// What is sent to ask the user for an application token.
#[derive(Clone, Debug)]
pub struct PromptPayload {
    pub app_id: String,
    pub app_name: String,
    pub app_version: String,
    pub device_name: String,
}

impl PromptPayload {
    pub fn new(app_id: String, app_name: String, app_version: String, device_name: String) -> (r: Self)
        ensures
            r.app_id == app_id,
            r.app_name == app_name,
            r.app_version == app_version,
            r.device_name == device_name,
    {
        PromptPayload { app_id, app_name, app_version, device_name }
    }
}

/// The registration request of the exporter, for the device named `device_name`.
pub fn registration_payload(device_name: String) -> (r: PromptPayload)
    ensures
        r.app_id@ == APP_ID@,
        r.app_name@ == APP_NAME@,
        r.app_version@ == APP_VERSION@,
        r.device_name == device_name,
{
    PromptPayload::new(String::from_str(APP_ID), String::from_str(APP_NAME), String::from_str(APP_VERSION), device_name)
}

/// The answer to a registration request: the token, and the id to follow its approval.
#[derive(Clone, Debug)]
pub struct PromptResult {
    pub app_token: String,
    pub track_id: i32,
}

/// Where the approval of a registration stands.
#[derive(Clone, Debug)]
pub struct AuthorizationResult {
    pub status: String,
}

/// The challenge a session is opened with.
#[derive(Clone, Debug)]
pub struct ChallengeResult {
    pub challenge: String,
}

/// What is sent to open a session.
#[derive(Clone, Debug)]
pub struct SessionPayload {
    pub app_id: String,
    pub password: String,
}

/// The session request of the exporter, with the given password.
pub fn session_payload(password: String) -> (r: SessionPayload)
    ensures
        r.app_id@ == APP_ID@,
        r.password == password,
{
    SessionPayload { app_id: String::from_str(APP_ID), password }
}

/// The answer to a session request.
#[derive(Clone, Debug)]
pub struct SessionResult {
    pub session_token: Option<String>,
}

/// A registration or session that could not be obtained.
#[derive(Clone, Debug)]
pub struct AuthenticationError {
    pub reason: String,
}

impl AuthenticationError {
    pub fn new(reason: String) -> (r: Self)
        ensures
            r.reason == reason,
    {
        Self { reason }
    }

    /// The error as it is displayed: its reason.
    pub fn describe(&self) -> (s: String)
        ensures
            s == self.reason,
    {
        self.reason.clone()
    }
}

/// A registration the user did not approve.
#[derive(Clone, Debug)]
pub struct AuthorizationError {
    pub reason: String,
}

impl AuthorizationError {
    pub fn new(reason: String) -> (r: Self)
        ensures
            r.reason == reason,
    {
        Self { reason }
    }

    /// The error as it is displayed: its reason.
    pub fn describe(&self) -> (s: String)
        ensures
            s == self.reason,
    {
        self.reason.clone()
    }
}

/// An answer of the login API that cannot be used.
#[derive(Clone, Debug)]
pub enum LoginError {
    /// The answer failed or carried nothing.
    Response(FreeboxResponseError),
    /// The Freebox refused the session.
    Authentication(AuthenticationError),
}

/// The registration request's URL.
pub fn authorize_url(api_url: &str) -> (u: String)
    ensures
        u@ == api_url@ + "v4/login/authorize"@,
{
    concat(api_url, "v4/login/authorize")
}

/// The URL that tells where the approval of registration `track_id` stands.
pub fn authorization_status_url(api_url: &str, track_id: i32) -> (u: String)
    ensures
        u@ == api_url@ + "v4/login/authorize/"@ + int_to_decimal(track_id as int),
{
    let head = concat(api_url, "v4/login/authorize/");
    concat(head.as_str(), i64_to_decimal(track_id as i64).as_str())
}

/// The URL of the login challenge.
pub fn challenge_url(api_url: &str) -> (u: String)
    ensures
        u@ == api_url@ + "v4/login/"@,
{
    concat(api_url, "v4/login/")
}

/// The URL sessions are opened at.
pub fn session_url(api_url: &str) -> (u: String)
    ensures
        u@ == api_url@ + "v4/login/session"@,
{
    concat(api_url, "v4/login/session")
}

/// The answer to a registration request, when it succeeded and carries one.
pub fn prompt_result(resp: FreeboxResponse<PromptResult>) -> (r: Result<PromptResult, FreeboxResponseError>)
    ensures
        !succeeded(resp) ==> (r matches Err(e) && e.reason@ == "response was not success"@),
        succeeded(resp) && resp.result is None ==> (r matches Err(e) && e.reason@ == "v4/login/authorize response was empty"@),
        succeeded(resp) && resp.result is Some ==> r == Ok::<PromptResult, FreeboxResponseError>(resp.result.unwrap()),
{
    checked_result(resp, String::from_str("response was not success"), String::from_str("v4/login/authorize response was empty"))
}

/// Where registration `track_id` stands, when the answer succeeded and carries it.
pub fn authorization_status_result(resp: FreeboxResponse<AuthorizationResult>, track_id: i32) -> (r: Result<AuthorizationResult, FreeboxResponseError>)
    ensures
        !succeeded(resp) ==> (r matches Err(e) && e.reason@ == "response was not success"@),
        succeeded(resp) && resp.result is None ==> (r matches Err(e)
            && e.reason@ == "v4/login/authorize/"@ + int_to_decimal(track_id as int) + " response was empty"@),
        succeeded(resp) && resp.result is Some ==> r == Ok::<AuthorizationResult, FreeboxResponseError>(resp.result.unwrap()),
{
    let head = concat("v4/login/authorize/", i64_to_decimal(track_id as i64).as_str());
    checked_result(resp, String::from_str("response was not success"), concat(head.as_str(), " response was empty"))
}

/// The login challenge, when the answer succeeded and carries it.
pub fn challenge_result(resp: FreeboxResponse<ChallengeResult>) -> (r: Result<ChallengeResult, FreeboxResponseError>)
    ensures
        !succeeded(resp) ==> (r matches Err(e) && e.reason@ == "response was not success"@),
        succeeded(resp) && resp.result is None ==> (r matches Err(e) && e.reason@ == "v4/login response was empty"@),
        succeeded(resp) && resp.result is Some ==> r == Ok::<ChallengeResult, FreeboxResponseError>(resp.result.unwrap()),
{
    checked_result(resp, String::from_str("response was not success"), String::from_str("v4/login response was empty"))
}

/// The answer to a session request: a failure is the Freebox refusing the session; a
/// success must carry a result.
pub fn session_result(resp: FreeboxResponse<SessionResult>) -> (r: Result<SessionResult, LoginError>)
    ensures
        !succeeded(resp) ==> (r matches Err(LoginError::Authentication(e)) && e.reason@ == "Failed to get session token"@),
        succeeded(resp) && resp.result is None ==> (r matches Err(LoginError::Response(e)) && e.reason@ == "v4/login/session response was empty"@),
        succeeded(resp) && resp.result is Some ==> r == Ok::<SessionResult, LoginError>(resp.result.unwrap()),
{
    let ok = match resp.success {
        Some(b) => b,
        None => false,
    };
    if !ok {
        return Err(LoginError::Authentication(AuthenticationError::new(String::from_str("Failed to get session token"))));
    }
    match resp.result {
        Some(r) => Ok(r),
        None => Err(LoginError::Response(FreeboxResponseError::new(String::from_str("v4/login/session response was empty")))),
    }
}

/// The session token of an opened session.
pub fn session_token_of(r: SessionResult) -> (t: Result<String, AuthenticationError>)
    ensures
        r.session_token matches Some(s) ==> t == Ok::<String, AuthenticationError>(s),
        r.session_token is None ==> (t matches Err(e) && e.reason@ == "cannot get session token"@),
{
    match r.session_token {
        Some(t) => Ok(t),
        None => Err(AuthenticationError::new(String::from_str("cannot get session token"))),
    }
}

/// What a poll of the registration status leads to.
#[derive(Clone, Debug)]
pub enum MonitorDecision {
    /// The user approved the exporter.
    Granted,
    /// Still waiting for the user: poll again after the interval.
    PollAgain,
    /// The registration failed, for the reason given.
    Failed(AuthenticationError),
}

/// The message of a registration the user or the box ended.
pub open spec fn failure_message(status: Seq<char>) -> Seq<char> {
    "Authorization has failed, reason: "@ + status
}

/// A status that ends the registration as failed.
pub open spec fn is_refusal(status: Seq<char>) -> bool {
    status == "timeout"@ || status == "unknown"@ || status == "denied"@
}

/// What the `polls`-th poll (counting from 1) decides on seeing `status`.
pub open spec fn monitor_decision(polls: nat, status: Seq<char>) -> (bool, bool, Seq<char>) {
    if status == "granted"@ {
        (true, false, Seq::empty())
    } else if status == "pending"@ {
        if polls < MAX_AUTHORIZATION_POLLS {
            (false, true, Seq::empty())
        } else {
            (false, false, "Authorization aborted, reason: too much attempts"@)
        }
    } else if is_refusal(status) {
        (false, false, failure_message(status))
    } else {
        (false, false, "Incorrect response from server, escaping"@)
    }
}

/// A decision matches the (granted, poll again, failure reason) triple.
pub open spec fn decision_is(d: MonitorDecision, t: (bool, bool, Seq<char>)) -> bool {
    match d {
        MonitorDecision::Granted => t.0,
        MonitorDecision::PollAgain => !t.0 && t.1,
        MonitorDecision::Failed(e) => !t.0 && !t.1 && e.reason@ == t.2,
    }
}

/// Follows the approval of a registration: counts the polls made and decides, after
/// each, whether to stop.
#[derive(Clone, Debug)]
pub struct RegistrationMonitor {
    pub polls: u32,
}

impl RegistrationMonitor {
    /// A monitor that has made no poll.
    pub fn new() -> (m: Self)
        ensures
            m.polls == 0,
    {
        RegistrationMonitor { polls: 0 }
    }

    /// Takes the status one more poll returned.
    pub fn observe(&mut self, status: &str) -> (d: MonitorDecision)
        requires
            old(self).polls < MAX_AUTHORIZATION_POLLS,
        ensures
            final(self).polls == old(self).polls + 1,
            decision_is(d, monitor_decision(final(self).polls as nat, status@)),
    {
        self.polls = self.polls + 1;
        if crate::text::str_eq(status, "granted") {
            MonitorDecision::Granted
        } else if crate::text::str_eq(status, "pending") {
            if self.polls < MAX_AUTHORIZATION_POLLS {
                MonitorDecision::PollAgain
            } else {
                MonitorDecision::Failed(AuthenticationError::new(String::from_str("Authorization aborted, reason: too much attempts")))
            }
        } else if crate::text::str_eq(status, "timeout") || crate::text::str_eq(status, "unknown") || crate::text::str_eq(status, "denied") {
            MonitorDecision::Failed(AuthenticationError::new(concat("Authorization has failed, reason: ", status)))
        } else {
            MonitorDecision::Failed(AuthenticationError::new(String::from_str("Incorrect response from server, escaping")))
        }
    }
}

/// The registration monitor never asks for more than the allowed number of polls:
/// after the last one, every status ends the registration.
pub proof fn lemma_monitor_stops(polls: nat, status: Seq<char>)
    requires
        polls >= MAX_AUTHORIZATION_POLLS,
    ensures
        !monitor_decision(polls, status).1,
{
}

/// How following a registration ends when its successive polls return `statuses`,
/// `done` polls having been made already: (granted, failure reason, polls made in all).
pub open spec fn monitor_run(statuses: Seq<Seq<char>>, done: nat) -> (bool, Seq<char>, nat)
    decreases statuses.len() - done,
{
    if done >= statuses.len() {
        (false, Seq::empty(), done)
    } else {
        let d = monitor_decision(done + 1, statuses[done as int]);
        if d.1 {
            monitor_run(statuses, done + 1)
        } else {
            (d.0, d.2, done + 1)
        }
    }
}

/// The statuses the box answers with are told apart by their first letter.
proof fn lemma_statuses_differ()
    ensures
        "pending"@ != "granted"@,
        "timeout"@ != "granted"@,
        "unknown"@ != "granted"@,
        "denied"@ != "granted"@,
{
    reveal_strlit("pending");
    reveal_strlit("granted");
    reveal_strlit("timeout");
    reveal_strlit("unknown");
    reveal_strlit("denied");
    assert("pending"@[0] != "granted"@[0]);
    assert("timeout"@[0] != "granted"@[0]);
    assert("unknown"@[0] != "granted"@[0]);
    assert("denied"@[0] != "granted"@[0]);
}

/// From any point before the first status that is not "pending", the run ends at it.
proof fn lemma_monitor_run_from(statuses: Seq<Seq<char>>, j: nat, done: nat)
    requires
        done <= j < MAX_AUTHORIZATION_POLLS,
        j < statuses.len(),
        statuses[j as int] != "pending"@,
        forall|i: int| 0 <= i < j ==> statuses[i] == "pending"@,
    ensures
        monitor_run(statuses, done) == (statuses[j as int] == "granted"@, monitor_decision(j + 1, statuses[j as int]).2, j + 1),
    decreases j - done,
{
    lemma_statuses_differ();
    if done < j {
        lemma_monitor_run_from(statuses, j, done + 1);
    }
}

/// A run of polls stops at the first status that is not "pending", if one comes within
/// the allowed number of polls: it is granted when that status is "granted", and fails
/// otherwise with that status's failure reason; that status's poll is the last one.
pub proof fn lemma_monitor_run_stops_at_first_answer(statuses: Seq<Seq<char>>, j: nat)
    requires
        j < MAX_AUTHORIZATION_POLLS,
        j < statuses.len(),
        statuses[j as int] != "pending"@,
        forall|i: int| 0 <= i < j ==> statuses[i] == "pending"@,
    ensures
        monitor_run(statuses, 0) == (statuses[j as int] == "granted"@, monitor_decision(j + 1, statuses[j as int]).2, j + 1),
        statuses[j as int] == "granted"@ ==> monitor_run(statuses, 0).1 == Seq::<char>::empty(),
        is_refusal(statuses[j as int]) ==> monitor_run(statuses, 0).1 == failure_message(statuses[j as int]),
        statuses[j as int] != "granted"@ && !is_refusal(statuses[j as int])
            ==> monitor_run(statuses, 0).1 == "Incorrect response from server, escaping"@,
{
    lemma_statuses_differ();
    lemma_monitor_run_from(statuses, j, 0);
}

/// From any point of a run of "pending" statuses, the run gives up at the last allowed poll.
proof fn lemma_monitor_run_pending_from(statuses: Seq<Seq<char>>, done: nat)
    requires
        done <= MAX_AUTHORIZATION_POLLS,
        statuses.len() >= MAX_AUTHORIZATION_POLLS,
        forall|i: int| 0 <= i < MAX_AUTHORIZATION_POLLS ==> statuses[i] == "pending"@,
    ensures
        done < MAX_AUTHORIZATION_POLLS ==> monitor_run(statuses, done)
            == (false, "Authorization aborted, reason: too much attempts"@, MAX_AUTHORIZATION_POLLS as nat),
    decreases MAX_AUTHORIZATION_POLLS - done,
{
    lemma_statuses_differ();
    if done < MAX_AUTHORIZATION_POLLS {
        lemma_monitor_run_pending_from(statuses, done + 1);
    }
}

/// A registration still pending at every allowed poll gives up after exactly that many
/// polls, as aborted.
pub proof fn lemma_monitor_run_gives_up(statuses: Seq<Seq<char>>)
    requires
        statuses.len() >= MAX_AUTHORIZATION_POLLS,
        forall|i: int| 0 <= i < MAX_AUTHORIZATION_POLLS ==> statuses[i] == "pending"@,
    ensures
        monitor_run(statuses, 0) == (false, "Authorization aborted, reason: too much attempts"@, MAX_AUTHORIZATION_POLLS as nat),
{
    lemma_monitor_run_pending_from(statuses, 0);
}

/// What registration reports once the approval has been followed: any failure there
/// is reported as a failed registration.
pub fn registration_outcome<E>(monitor: Result<(), E>) -> (r: Result<(), AuthenticationError>)
    ensures
        monitor is Ok ==> r is Ok,
        monitor is Err ==> (r matches Err(e) && e.reason@ == "Failed to register application"@),
{
    match monitor {
        Ok(()) => Ok(()),
        Err(_) => Err(AuthenticationError::new(String::from_str("Failed to register application"))),
    }
}

/// How long a session token is used before a new one is negotiated: 30 minutes, in
/// nanoseconds.
pub const SESSION_TOKEN_LIFETIME_NANOS: i128 = 1_800_000_000_000;

/// When a session token provider was made: 0001-01-01 00:00:01 UTC, in nanoseconds
/// from the Unix epoch, so that its first use logs in.
pub const NEVER_ISSUED_NANOS: i128 = -62_135_596_799_000_000_000;

/// The instants chrono can represent, in nanoseconds from the Unix epoch, are well
/// within this bound.
pub const INSTANT_BOUND_NANOS: i128 = 10_000_000_000_000_000_000_000;

/// A session token issued at `issued_on` must be renewed at `now` (both in nanoseconds
/// from the Unix epoch): more than 30 minutes have passed.
pub fn session_needs_login(issued_on: i128, now: i128) -> (b: bool)
    requires
        -INSTANT_BOUND_NANOS <= issued_on <= INSTANT_BOUND_NANOS,
        -INSTANT_BOUND_NANOS <= now <= INSTANT_BOUND_NANOS,
    ensures
        b == (now - issued_on > SESSION_TOKEN_LIFETIME_NANOS),
{
    now - issued_on > SESSION_TOKEN_LIFETIME_NANOS
}



/// The session token a provider holds, and the instant (nanoseconds from the Unix
/// epoch) it was issued at.
#[derive(Clone, Debug)]
pub struct SessionTokenProvider {
    pub issued_on: i128,
    pub value: String,
}

/// What a request for the session token calls for.
#[derive(Clone, Debug)]
pub enum TokenStep {
    /// The token is too old, or there is none yet: open a session.
    Login,
    /// Use this token.
    Use(String),
}

/// The state holds a representable instant.
pub open spec fn instant_in_range(t: int) -> bool {
    -INSTANT_BOUND_NANOS <= t <= INSTANT_BOUND_NANOS
}

impl SessionTokenProvider {
    /// The instant is one chrono can represent.
    pub open spec fn well_formed(&self) -> bool {
        instant_in_range(self.issued_on as int)
    }

    /// A request at `now` must open a session: the token is more than 30 minutes old.
    pub open spec fn needs_login(&self, now: int) -> bool {
        now - self.issued_on > SESSION_TOKEN_LIFETIME_NANOS
    }

    /// A provider that never logged in: no token, issued long ago.
    pub fn new() -> (s: Self)
        ensures
            s.well_formed(),
            s.issued_on == NEVER_ISSUED_NANOS,
            s.value@ == Seq::<char>::empty(),
    {
        SessionTokenProvider { issued_on: NEVER_ISSUED_NANOS, value: String::new() }
    }

    /// A request for the token at `now`: it calls for a login when the token is too
    /// old, else it is answered with the token held, and no request is made.
    pub fn get(&self, now: i128) -> (a: TokenStep)
        requires
            self.well_formed(),
            instant_in_range(now as int),
        ensures
            self.needs_login(now as int) ==> a is Login,
            !self.needs_login(now as int) ==> a == TokenStep::Use(self.value),
    {
        if session_needs_login(self.issued_on, now) {
            TokenStep::Login
        } else {
            TokenStep::Use(self.value.clone())
        }
    }

    /// Takes what a login finished at `after` gave: a token is kept, as issued then, and
    /// handed back; an error leaves the state as it was and is handed back.
    pub fn logged_in<E>(&mut self, outcome: Result<String, E>, after: i128) -> (r: Result<String, E>)
        requires
            old(self).well_formed(),
            instant_in_range(after as int),
        ensures
            final(self).well_formed(),
            r == outcome,
            outcome matches Ok(t) ==> final(self).value == t && final(self).issued_on == after,
            outcome is Err ==> *final(self) == *old(self),
            forall|now: int| #[trigger] old(self).needs_login(now) ==> request(*old(self), now, outcome, after) == (*final(self), r),
    {
        match outcome {
            Ok(t) => {
                self.value = t.clone();
                self.issued_on = after;
                Ok(t)
            },
            Err(e) => Err(e),
        }
    }
}

/// A provider's first request opens a session, at any instant more than 30 minutes after
/// the instant it counts as issued at (0001-01-01 00:00:01 UTC).
pub proof fn lemma_first_request_logs_in(s: SessionTokenProvider, now: int)
    requires
        s.issued_on == NEVER_ISSUED_NANOS,
        NEVER_ISSUED_NANOS + SESSION_TOKEN_LIFETIME_NANOS < now,
    ensures
        s.needs_login(now),
{
}

/// Once a login at `after` kept token `t`, every request within the following 30
/// minutes uses `t` and opens no session; the first one later opens a session again.
pub proof fn lemma_token_reused_within_lifetime(s: SessionTokenProvider, t: String, after: int, now: int)
    requires
        s.value == t,
        s.issued_on == after,
        after <= now,
    ensures
        now - after <= SESSION_TOKEN_LIFETIME_NANOS ==> !s.needs_login(now),
        now - after > SESSION_TOKEN_LIFETIME_NANOS ==> s.needs_login(now),
{
}

/// One whole request at `now`: the token held when it is fresh (as `get` answers), else
/// a login whose outcome is kept (as `logged_in` does); the provider after it, and its
/// answer. `outcome` is what a login would give, finished at `after`; it
/// is used only when the token is too old.
pub open spec fn request<E>(s: SessionTokenProvider, now: int, outcome: Result<String, E>, after: i128) -> (SessionTokenProvider, Result<String, E>) {
    if s.needs_login(now) {
        match outcome {
            Ok(t) => (SessionTokenProvider { issued_on: after, value: t }, Ok(t)),
            Err(e) => (s, Err(e)),
        }
    } else {
        (s, Ok(s.value))
    }
}

/// Over two requests: a first one that logs in and gets token `t` at `after` answers
/// `t`, and a second one within 30 minutes of `after` answers `t` again, whatever a
/// login would give then, and keeps the provider as it is.
pub proof fn lemma_second_request_reuses_token<E>(
    s: SessionTokenProvider,
    now1: int,
    t: String,
    after: i128,
    now2: int,
    outcome2: Result<String, E>,
    after2: i128,
)
    requires
        s.needs_login(now1),
        after <= now2 <= after + SESSION_TOKEN_LIFETIME_NANOS,
    ensures
        request(s, now1, Ok::<String, E>(t), after).1 == Ok::<String, E>(t),
        request(request(s, now1, Ok::<String, E>(t), after).0, now2, outcome2, after2).1 == Ok::<String, E>(t),
        request(request(s, now1, Ok::<String, E>(t), after).0, now2, outcome2, after2).0
            == request(s, now1, Ok::<String, E>(t), after).0,
{
}

/// A request whose login fails answers with the failure and leaves the provider as it
/// was, so the next request tries to log in again.
pub proof fn lemma_failed_login_changes_nothing<E>(s: SessionTokenProvider, now: int, e: E, after: i128)
    requires
        s.needs_login(now),
    ensures
        request(s, now, Err::<String, E>(e), after) == (s, Err::<String, E>(e)),
{
}

/// The error a MAC reports for a key of the wrong length, carried through as it is.
#[verifier::external_type_specification]
#[verifier::external_body]
pub struct ExInvalidLength(hmac::digest::InvalidLength);

/// The HMAC-SHA1 of `message` under `key`.
pub uninterp spec fn hmac_sha1(key: Seq<u8>, message: Seq<u8>) -> Seq<u8>;

/// `Hmac::<Sha1>::new_from_slice(key)`, `update(message)`, `finalize().into_bytes()`:
/// the HMAC-SHA1 of the message under the key. HMAC takes keys of any length (longer
/// ones are hashed first), so `new_from_slice` always succeeds; the SHA-1 output is 20
/// bytes. What the digest is, is left to the hmac and sha1 crates.
#[verifier::external_body]
fn hmac_sha1_digest(key: &Vec<u8>, message: &Vec<u8>) -> (r: Result<Vec<u8>, hmac::digest::InvalidLength>)
    ensures
        r is Ok,
        r matches Ok(d) ==> d@ == hmac_sha1(key@, message@) && d@.len() == 20,
{
    let mut mac = hmac::Hmac::<sha1::Sha1>::new_from_slice(key.as_slice())?;
    mac.update(message.as_slice());
    Ok(mac.finalize().into_bytes().to_vec())
}

/// The lowercase hexadecimal digit for `d` (below 16).
pub open spec fn hex_digit(d: int) -> char {
    if d == 0 { '0' } else if d == 1 { '1' } else if d == 2 { '2' } else if d == 3 { '3' }
    else if d == 4 { '4' } else if d == 5 { '5' } else if d == 6 { '6' } else if d == 7 { '7' }
    else if d == 8 { '8' } else if d == 9 { '9' } else if d == 10 { 'a' } else if d == 11 { 'b' }
    else if d == 12 { 'c' } else if d == 13 { 'd' } else if d == 14 { 'e' } else { 'f' }
}

/// Bytes written as lowercase hexadecimal, two digits per byte (`{:02x}` each, joined).
pub open spec fn hex_of(bytes: Seq<u8>) -> Seq<char>
    decreases bytes.len(),
{
    if bytes.len() == 0 {
        Seq::empty()
    } else {
        hex_of(bytes.drop_last()).push(hex_digit(bytes.last() as int / 16)).push(hex_digit(bytes.last() as int % 16))
    }
}

fn hex_char(d: u8) -> (c: char)
    requires
        d < 16,
    ensures
        c == hex_digit(d as int),
{
    if d == 0 { '0' } else if d == 1 { '1' } else if d == 2 { '2' } else if d == 3 { '3' }
    else if d == 4 { '4' } else if d == 5 { '5' } else if d == 6 { '6' } else if d == 7 { '7' }
    else if d == 8 { '8' } else if d == 9 { '9' } else if d == 10 { 'a' } else if d == 11 { 'b' }
    else if d == 12 { 'c' } else if d == 13 { 'd' } else if d == 14 { 'e' } else { 'f' }
}

/// Bytes written as lowercase hexadecimal, two digits per byte.
pub fn to_hex(bytes: &Vec<u8>) -> (s: String)
    ensures
        s@ == hex_of(bytes@),
{
    let mut out: Vec<char> = Vec::new();
    let mut i: usize = 0;
    while i < bytes.len()
        invariant
            i <= bytes.len(),
            out@ == hex_of(bytes@.take(i as int)),
        decreases bytes.len() - i,
    {
        let b = bytes[i];
        assert(bytes@.take(i as int + 1).drop_last() =~= bytes@.take(i as int));
        out.push(hex_char(b / 16));
        out.push(hex_char(b % 16));
        i = i + 1;
    }
    assert(bytes@.take(bytes.len() as int) =~= bytes@);
    crate::text::string_from_chars(&out)
}

/// Writing bytes in hexadecimal takes two digits per byte.
pub proof fn lemma_hex_len(bytes: Seq<u8>)
    ensures
        hex_of(bytes).len() == 2 * bytes.len(),
    decreases bytes.len(),
{
    if bytes.len() > 0 {
        lemma_hex_len(bytes.drop_last());
    }
}

/// The session password for an application token and a challenge: the HMAC-SHA1 of
/// the challenge's UTF-8 bytes under the token's, in lowercase hexadecimal.
pub open spec fn session_password(app_token: Seq<char>, challenge: Seq<char>) -> Seq<char> {
    hex_of(hmac_sha1(vstd::utf8::encode_utf8(app_token), vstd::utf8::encode_utf8(challenge)))
}

/// The session password for `app_token` and the challenge `result`.
pub fn compute_password(app_token: String, result: ChallengeResult) -> (r: Result<String, AuthenticationError>)
    ensures
        r matches Ok(p) && p@ == session_password(app_token@, result.challenge@) && p@.len() == 40,
{
    let key = app_token.as_str().as_bytes_vec();
    let message = result.challenge.as_str().as_bytes_vec();
    match hmac_sha1_digest(&key, &message) {
        Ok(d) => {
            proof {
                lemma_hex_len(d@);
            }
            Ok(to_hex(&d))
        },
        Err(_) => Err(AuthenticationError::new(String::from_str("Invalid Length"))),
    }
}

/// A session password is 40 lowercase hexadecimal digits.
pub proof fn lemma_session_password_len(app_token: Seq<char>, challenge: Seq<char>)
    requires
        hmac_sha1(vstd::utf8::encode_utf8(app_token), vstd::utf8::encode_utf8(challenge)).len() == 20,
    ensures
        session_password(app_token, challenge).len() == 40,
{
    lemma_hex_len(hmac_sha1(vstd::utf8::encode_utf8(app_token), vstd::utf8::encode_utf8(challenge)));
}


/// Registers the exporter and opens sessions against the API at `api_url`, keeping
/// the application token in `token_store`.
pub struct Authenticator<S> {
    pub api_url: String,
    pub token_store: S,
}

impl<S> Authenticator<S> {
    pub fn new(api_url: String, store: S) -> (r: Self)
        ensures
            r.api_url == api_url,
            r.token_store == store,
    {
        Self { api_url, token_store: store }
    }

    /// The session password for `app_token` and the challenge `result`.
    pub fn compute_password(&self, app_token: String, result: ChallengeResult) -> (r: Result<String, AuthenticationError>)
        ensures
            r matches Ok(p) && p@ == session_password(app_token@, result.challenge@) && p@.len() == 40,
    {
        compute_password(app_token, result)
    }
}

/// `std::path::MAIN_SEPARATOR`: `\\` on Windows, `/` elsewhere.
#[verifier::external_body]
fn main_separator() -> (c: char)
    ensures
        c == '/' || c == '\\',
{
    std::path::MAIN_SEPARATOR
}

/// The file the application token is kept in: `token.dat` in the data directory.
pub open spec fn token_file_path(data_dir: Seq<char>, sep: char) -> Seq<char> {
    data_dir.push(sep) + "token.dat"@
}

/// Keeps the application token in a file of the data directory.
#[derive(Clone, Debug)]
pub struct FileSystemProvider {
    pub path: String,
}

impl FileSystemProvider {
    pub fn new(data_dir: String) -> (r: Self)
        ensures
            exists|sep: char| (sep == '/' || sep == '\\') && r.path@ == token_file_path(data_dir@, sep),
    {
        let path = FileSystemProvider::get_token_file_path(data_dir);
        Self { path }
    }

    /// `token.dat` in the data directory, joined with the platform's separator.
    pub fn get_token_file_path(data_dir: String) -> (p: String)
        ensures
            exists|sep: char| (sep == '/' || sep == '\\') && p@ == token_file_path(data_dir@, sep),
    {
        let sep = main_separator();
        let mut p = data_dir;
        crate::text::push_char(&mut p, sep);
        p.append("token.dat");
        assert(p@ == token_file_path(data_dir@, sep));
        p
    }
}

/// The application token kept in a file: its contents without surrounding white space.
pub fn stored_token(contents: &str) -> (t: String)
    ensures
        t@ == crate::text::spec_trim(contents@),
{
    crate::text::trim(contents)
}

/// A client of the API at `api_url` that sends the session token with each request.
#[derive(Clone, Debug)]
pub struct FreeboxClient {
    pub api_url: String,
    pub session_token: String,
}

impl FreeboxClient {
    pub fn new(api_url: String, session_token: String) -> (r: Self)
        ensures
            r.api_url == api_url,
            r.session_token == session_token,
    {
        Self { api_url, session_token }
    }
}

}
