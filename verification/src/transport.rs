//! The envelope of every Freebox API answer, and the errors of the HTTP layer.
use crate::mappers::opt_text;
use vstd::prelude::*;

verus! {

/// The envelope of a Freebox API answer: a success flag, an optional message and
/// error code, and the payload.
#[derive(Clone, Debug)]
pub struct FreeboxResponse<T> {
    pub msg: Option<String>,
    pub success: Option<bool>,
    pub uid: Option<String>,
    pub error_code: Option<String>,
    pub result: Option<T>,
}

/// An answer that the API gave but that cannot be used.
#[derive(Clone, Debug)]
pub struct FreeboxResponseError {
    pub reason: String,
}

impl FreeboxResponseError {
    pub fn new(reason: String) -> (r: Self)
        ensures
            r.reason == reason,
    {
        Self { reason }
    }

    /// The error as it is displayed: its reason.
    pub fn describe(&self) -> (s: String)
        ensures
            s == self.reason,
    {
        self.reason.clone()
    }
}

/// The answer reports success (an absent flag counts as failure).
pub open spec fn succeeded<T>(resp: FreeboxResponse<T>) -> bool {
    resp.success == Some(true)
}

/// The payload of a successful answer. A failed answer gives its message (empty when
/// absent); a successful one without payload gives `empty_reason`.
pub fn expect_result<T>(resp: FreeboxResponse<T>, empty_reason: String) -> (r: Result<T, FreeboxResponseError>)
    ensures
        !succeeded(resp) ==> (r matches Err(e) && e.reason@ == opt_text(resp.msg)),
        succeeded(resp) && resp.result is None ==> (r matches Err(e) && e.reason == empty_reason),
        succeeded(resp) && resp.result is Some ==> r == Ok::<T, FreeboxResponseError>(resp.result.unwrap()),
{
    let ok = match resp.success {
        Some(b) => b,
        None => false,
    };
    if !ok {
        let reason = match resp.msg {
            Some(m) => m,
            None => String::new(),
        };
        return Err(FreeboxResponseError::new(reason));
    }
    match resp.result {
        Some(t) => Ok(t),
        None => Err(FreeboxResponseError::new(empty_reason)),
    }
}

/// The payload of a successful answer; a failed answer gives `failure_reason`, a
/// successful one without payload gives `empty_reason`.
pub fn checked_result<T>(resp: FreeboxResponse<T>, failure_reason: String, empty_reason: String) -> (r: Result<T, FreeboxResponseError>)
    ensures
        !succeeded(resp) ==> (r matches Err(e) && e.reason == failure_reason),
        succeeded(resp) && resp.result is None ==> (r matches Err(e) && e.reason == empty_reason),
        succeeded(resp) && resp.result is Some ==> r == Ok::<T, FreeboxResponseError>(resp.result.unwrap()),
{
    let ok = match resp.success {
        Some(b) => b,
        None => false,
    };
    if !ok {
        return Err(FreeboxResponseError::new(failure_reason));
    }
    match resp.result {
        Some(t) => Ok(t),
        None => Err(FreeboxResponseError::new(empty_reason)),
    }
}

/// The list in a successful answer, empty when it carries none; a failed answer gives
/// its message, or `missing_msg` when it has none.
pub fn list_result<T>(resp: FreeboxResponse<Vec<T>>, missing_msg: &str) -> (r: Result<Vec<T>, FreeboxResponseError>)
    ensures
        !succeeded(resp) ==> (r matches Err(e) && e.reason@ == (match resp.msg { Some(m) => m@, None => missing_msg@ })),
        succeeded(resp) ==> (r matches Ok(v) && v@ == (match resp.result { Some(l) => l@, None => Seq::<T>::empty() })),
{
    let ok = match resp.success {
        Some(b) => b,
        None => false,
    };
    if ok {
        match resp.result {
            Some(l) => Ok(l),
            None => Ok(Vec::new()),
        }
    } else {
        let reason = match resp.msg {
            Some(m) => m,
            None => String::from_str(missing_msg),
        };
        Err(FreeboxResponseError::new(reason))
    }
}

/// The payload of an answer whatever its success flag; `empty_reason` when it has none.
pub fn result_or<T>(resp: FreeboxResponse<T>, empty_reason: String) -> (r: Result<T, FreeboxResponseError>)
    ensures
        resp.result is Some ==> r == Ok::<T, FreeboxResponseError>(resp.result.unwrap()),
        resp.result is None ==> (r matches Err(e) && e.reason == empty_reason),
{
    match resp.result {
        Some(t) => Ok(t),
        None => Err(FreeboxResponseError::new(empty_reason)),
    }
}

/// The payload of an answer that reports success, which must then carry one; a failed
/// answer gives its message (empty when absent).
pub fn success_result<T>(resp: FreeboxResponse<T>) -> (r: Result<T, FreeboxResponseError>)
    requires
        succeeded(resp) ==> resp.result is Some,
    ensures
        !succeeded(resp) ==> (r matches Err(e) && e.reason@ == opt_text(resp.msg)),
        succeeded(resp) ==> r == Ok::<T, FreeboxResponseError>(resp.result.unwrap()),
{
    let ok = match resp.success {
        Some(b) => b,
        None => false,
    };
    if ok {
        match resp.result {
            Some(t) => Ok(t),
            None => Err(FreeboxResponseError::new(String::new())),
        }
    } else {
        let reason = match resp.msg {
            Some(m) => m,
            None => String::new(),
        };
        Err(FreeboxResponseError::new(reason))
    }
}

/// The error of a managed HTTP client.
#[derive(Clone, Debug)]
pub struct ManagedHttpClientError {
    pub error: String,
}

impl ManagedHttpClientError {
    pub fn new(error: String) -> (r: Self)
        ensures
            r.error == error,
    {
        Self { error }
    }

    /// The error as it is displayed: `ManagedHttpClientError: ` then the error.
    pub fn describe(&self) -> (s: String)
        ensures
            s@ == "ManagedHttpClientError: "@ + self.error@,
    {
        crate::text::concat("ManagedHttpClientError: ", self.error.as_str())
    }
}

/// How long a managed HTTP client, and a session token, stay valid: 30 minutes, in nanoseconds.
pub const SESSION_LIFETIME_NANOS: i128 = 1_800_000_000_000;

/// A managed client whose expiry instant is `expiry` has expired at instant `now`
/// (both in nanoseconds since the Unix epoch): strictly after its expiry.
pub fn client_expired(expiry: i128, now: i128) -> (b: bool)
    ensures
        b == (now > expiry),
{
    now > expiry
}

/// A client that stays usable until its expiry instant (nanoseconds since the Unix
/// epoch).
#[derive(Clone, Debug)]
pub struct ManagedHttpClient<C> {
    pub client: C,
    pub expiry: i128,
}

impl<C> ManagedHttpClient<C> {
    /// Wraps `client`, made at instant `now`, to expire `timeout` nanoseconds later.
    pub fn new(client: C, now: i128, timeout: i128) -> (r: Self)
        requires
            i128::MIN <= now + timeout <= i128::MAX,
        ensures
            r.client == client,
            r.expiry == now + timeout,
    {
        ManagedHttpClient { client, expiry: now + timeout }
    }

    /// The client, asked for at instant `now`: refused once its expiry has passed.
    pub fn get(&self, now: i128) -> (r: Result<&C, ManagedHttpClientError>)
        ensures
            now > self.expiry ==> (r matches Err(e) && e.error@ == "HTTP Client expired"@),
            now <= self.expiry ==> (r matches Ok(c) && *c == self.client),
    {
        if client_expired(self.expiry, now) {
            return Err(ManagedHttpClientError::new(String::from_str("HTTP Client expired")));
        }
        Ok(&self.client)
    }
}

/// What a metric map does to get a usable HTTP client.
#[derive(Clone, Copy, Debug, PartialEq, Eq)]
pub enum ClientAction {
    /// There is none yet: make one.
    Create,
    /// The current one is still valid: use it.
    Reuse,
    /// The current one has expired: make a new one.
    Renew,
}

/// Chooses how to get a client, given the expiry instant of the current one (if any)
/// and the current instant.
pub fn managed_client_action(current_expiry: Option<i128>, now: i128) -> (a: ClientAction)
    ensures
        current_expiry is None ==> a == ClientAction::Create,
        current_expiry matches Some(e) && now > e ==> a == ClientAction::Renew,
        current_expiry matches Some(e) && now <= e ==> a == ClientAction::Reuse,
{
    match current_expiry {
        None => ClientAction::Create,
        Some(e) => if client_expired(e, now) { ClientAction::Renew } else { ClientAction::Reuse },
    }
}


/// Which parts of the API the application may use, as the box reports them.
#[derive(Clone, Debug)]
pub struct Permissions {
    pub connection: Option<bool>,
    pub settings: Option<bool>,
    pub contacts: Option<bool>,
    pub calls: Option<bool>,
    pub explorer: Option<bool>,
    pub downloader: Option<bool>,
    pub parental: Option<bool>,
    pub pvr: Option<bool>,
}

impl Default for Permissions {
    /// Nothing reported.
    fn default() -> (p: Self)
        ensures
            p.connection is None && p.settings is None && p.contacts is None && p.calls is None,
            p.explorer is None && p.downloader is None && p.parental is None && p.pvr is None,
    {
        Permissions {
            connection: None,
            settings: None,
            contacts: None,
            calls: None,
            explorer: None,
            downloader: None,
            parental: None,
            pvr: None,
        }
    }
}

}
