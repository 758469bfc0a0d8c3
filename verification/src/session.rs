use vstd::prelude::*;

use crate::error::SpotifyError;

verus! {

/// What a session is established with. A value is used once per attempt, so
/// it can be copied.
#[derive(Debug, PartialEq, Eq)]
pub enum LoginCredentials {
    Password { username: String, password: String },
    /// A bearer token in place of the password.
    Token { username: String, token: String },
}

impl Clone for LoginCredentials {
    fn clone(&self) -> (copy: Self)
        ensures
            copy == *self,
    {
        match self {
            LoginCredentials::Password { username, password } => LoginCredentials::Password {
                username: username.clone(),
                password: password.clone(),
            },
            LoginCredentials::Token { username, token } => LoginCredentials::Token {
                username: username.clone(),
                token: token.clone(),
            },
        }
    }
}

/// What the actor knows of a live session.
#[derive(Debug, PartialEq, Eq)]
pub struct SessionInfo {
    /// The user's name as the service spells it.
    pub username: String,
    pub country: String,
}

impl Clone for SessionInfo {
    fn clone(&self) -> (copy: Self)
        ensures
            copy == *self,
    {
        SessionInfo { username: self.username.clone(), country: self.country.clone() }
    }
}

/// How one attempt to connect ended.
#[derive(Debug, PartialEq, Eq)]
pub enum ConnectOutcome {
    Connected(SessionInfo),
    /// The endpoint could not be reached or the connection broke.
    IoError,
    /// The service rejected the credentials.
    AuthenticationError,
}

/// What follows one attempt to connect.
#[derive(Debug, PartialEq, Eq)]
pub enum Verdict {
    Established(SessionInfo),
    Failed(SpotifyError),
    /// Try again, on this endpoint.
    Retry(Option<u16>),
}

/// The endpoints that are tried in turn where the settings fix none: the
/// service's default, then three well-known ports.
pub open spec fn known_ap_ports() -> Seq<Option<u16>> {
    seq![None, Some(80u16), Some(443u16), Some(4070u16)]
}

/// The endpoint at `index` of the known ones, if there are that many.
pub fn known_ap_port(index: usize) -> (port: Option<Option<u16>>)
    ensures
        index < known_ap_ports().len() ==> port == Some(known_ap_ports()[index as int]),
        index >= known_ap_ports().len() ==> port is None,
{
    if index == 0 {
        Some(None)
    } else if index == 1 {
        Some(Some(80))
    } else if index == 2 {
        Some(Some(443))
    } else if index == 3 {
        Some(Some(4070))
    } else {
        None
    }
}

/// The endpoint of the first attempt: the fixed one, else the first of the
/// known ones.
pub open spec fn first_endpoint(fixed: Option<u16>) -> Option<u16> {
    match fixed {
        Some(port) => Some(port),
        None => known_ap_ports()[0],
    }
}

/// What follows attempt number `attempt` (from 0) when it ended in `outcome`.
/// A rejection of the credentials ends the search at once; a broken endpoint
/// leads to the next known one, unless the endpoint is fixed or none is left.
pub open spec fn verdict(fixed: Option<u16>, attempt: nat, outcome: ConnectOutcome) -> Verdict {
    match outcome {
        ConnectOutcome::Connected(session) => Verdict::Established(session),
        ConnectOutcome::AuthenticationError => Verdict::Failed(SpotifyError::LoginFailed),
        ConnectOutcome::IoError => if fixed is None && attempt + 1 < known_ap_ports().len() {
            Verdict::Retry(known_ap_ports()[attempt + 1 as int])
        } else {
            Verdict::Failed(SpotifyError::LoginFailed)
        },
    }
}

/// Decides what follows attempt number `attempt` (from 0).
pub fn after_attempt(fixed: Option<u16>, attempt: usize, outcome: ConnectOutcome) -> (next: Verdict)
    ensures
        next == verdict(fixed, attempt as nat, outcome),
{
    match outcome {
        ConnectOutcome::Connected(session) => Verdict::Established(session),
        ConnectOutcome::AuthenticationError => Verdict::Failed(SpotifyError::LoginFailed),
        ConnectOutcome::IoError => {
            if fixed.is_some() || attempt >= 3 {
                Verdict::Failed(SpotifyError::LoginFailed)
            } else {
                match known_ap_port(attempt + 1) {
                    Some(port) => Verdict::Retry(port),
                    None => Verdict::Failed(SpotifyError::LoginFailed),
                }
            }
        },
    }
}

/// How a whole search for a session ended.
pub struct Establishment {
    /// How many attempts were made.
    pub attempts: nat,
    pub result: Result<SessionInfo, SpotifyError>,
}

/// The search from attempt number `attempt` on, where the attempt of each
/// number ends as `outcomes` says. Where `outcomes` says nothing of an
/// attempt, the search counts as failed before it.
pub open spec fn establish_from(
    fixed: Option<u16>,
    outcomes: Seq<ConnectOutcome>,
    attempt: nat,
) -> Establishment
    decreases outcomes.len() - attempt,
{
    if attempt >= outcomes.len() {
        Establishment { attempts: attempt, result: Err(SpotifyError::LoginFailed) }
    } else {
        match verdict(fixed, attempt, outcomes[attempt as int]) {
            Verdict::Established(session) => Establishment {
                attempts: attempt + 1,
                result: Ok(session),
            },
            Verdict::Failed(error) => Establishment { attempts: attempt + 1, result: Err(error) },
            Verdict::Retry(_) => establish_from(fixed, outcomes, attempt + 1),
        }
    }
}

/// The whole search, from the first attempt.
pub open spec fn establish(fixed: Option<u16>, outcomes: Seq<ConnectOutcome>) -> Establishment {
    establish_from(fixed, outcomes, 0)
}

proof fn lemma_skip_broken(outcomes: Seq<ConnectOutcome>, good: nat, from: nat)
    requires
        from <= good < known_ap_ports().len(),
        good < outcomes.len(),
        forall|i: int| 0 <= i < good ==> outcomes[i] == ConnectOutcome::IoError,
    ensures
        establish_from(None, outcomes, from) == establish_from(None, outcomes, good),
    decreases good - from,
{
    if from < good {
        lemma_skip_broken(outcomes, good, from + 1);
    }
}

/// Where no endpoint is fixed, the first `broken` endpoints are broken and
/// the next one connects, the search succeeds with that session, after
/// `broken + 1` attempts and no more.
pub proof fn lemma_fallback_reaches_first_good(
    outcomes: Seq<ConnectOutcome>,
    broken: nat,
    session: SessionInfo,
)
    requires
        broken < known_ap_ports().len(),
        broken < outcomes.len(),
        forall|i: int| 0 <= i < broken ==> outcomes[i] == ConnectOutcome::IoError,
        outcomes[broken as int] == ConnectOutcome::Connected(session),
    ensures
        establish(None, outcomes) == (Establishment { attempts: broken + 1, result: Ok(session) }),
{
    lemma_skip_broken(outcomes, broken, 0);
}

/// A rejection of the credentials at the first attempt ends the search
/// there, as a failed login, whatever the later endpoints would have done.
pub proof fn lemma_rejection_stops_search(fixed: Option<u16>, outcomes: Seq<ConnectOutcome>)
    requires
        outcomes.len() > 0,
        outcomes[0] == ConnectOutcome::AuthenticationError,
    ensures
        establish(fixed, outcomes) == (Establishment {
            attempts: 1,
            result: Err(SpotifyError::LoginFailed),
        }),
{
}

/// With a fixed endpoint one attempt is made, and any failure of it is a
/// failed login.
pub proof fn lemma_fixed_endpoint_tried_once(port: u16, outcomes: Seq<ConnectOutcome>)
    requires
        outcomes.len() > 0,
    ensures
        establish(Some(port), outcomes).attempts == 1,
        !(outcomes[0] is Connected) ==> establish(Some(port), outcomes).result == Err::<
            SessionInfo,
            SpotifyError,
        >(SpotifyError::LoginFailed),
{
}

/// Where every known endpoint is broken, the search fails after trying each
/// of them once.
pub proof fn lemma_all_broken_fails(outcomes: Seq<ConnectOutcome>)
    requires
        outcomes.len() >= known_ap_ports().len(),
        forall|i: int| 0 <= i < known_ap_ports().len() ==> outcomes[i] == ConnectOutcome::IoError,
    ensures
        establish(None, outcomes) == (Establishment {
            attempts: known_ap_ports().len(),
            result: Err(SpotifyError::LoginFailed),
        }),
{
    lemma_skip_broken(outcomes, 3, 0);
}

/// A point in time: seconds and nanoseconds since the Unix epoch.
#[derive(Debug, Clone, Copy, PartialEq, Eq, Structural)]
pub struct Timestamp {
    pub secs: u64,
    pub nanos: u32,
}

/// How a request for an access token ended.
#[derive(Debug, PartialEq, Eq)]
pub enum TokenOutcome {
    Fetched {
        access_token: String,
        /// The token's lifetime, in seconds.
        expires_in: u32,
        /// When the token arrived.
        now: Timestamp,
    },
    Failed,
}

impl TokenOutcome {
    /// Whether the expiry time of the token fits a `Timestamp`.
    pub open spec fn in_range(self) -> bool {
        match self {
            TokenOutcome::Fetched { expires_in, now, .. } => now.secs + expires_in <= u64::MAX,
            TokenOutcome::Failed => true,
        }
    }
}

impl TokenOutcome {
    /// Whether the expiry time of the token fits a `Timestamp`.
    pub fn fits(&self) -> (fits: bool)
        ensures
            fits == self.in_range(),
    {
        match self {
            TokenOutcome::Fetched { expires_in, now, .. } => {
                let lifetime: u64 = *expires_in as u64;
                now.secs <= u64::MAX - lifetime
            },
            TokenOutcome::Failed => true,
        }
    }
}

/// The time at which a token expires that arrived at `now` and lives for
/// `expires_in` seconds.
pub open spec fn expiry(now: Timestamp, expires_in: u32) -> Timestamp {
    Timestamp { secs: (now.secs + expires_in) as u64, nanos: now.nanos }
}

/// The time at which a token expires that arrived at `now` and lives for
/// `expires_in` seconds.
pub fn expiry_time(now: Timestamp, expires_in: u32) -> (at: Timestamp)
    requires
        now.secs + expires_in <= u64::MAX,
    ensures
        at == expiry(now, expires_in),
{
    let lifetime: u64 = expires_in as u64;
    Timestamp { secs: now.secs + lifetime, nanos: now.nanos }
}

/// The client identity under which every token is requested.
pub open spec fn client_id_text() -> &'static str {
    "782ae96ea60f4cdf986a766049607005"
}

/// The permissions asked for with every token, joined by commas.
pub open spec fn scopes_text() -> &'static str {
    "user-read-private,playlist-read-private,playlist-read-collaborative,user-library-read,user-library-modify,user-top-read,user-read-recently-played,playlist-modify-public,playlist-modify-private,streaming"
}

/// The client identity under which every token is requested.
pub fn client_id() -> (id: &'static str)
    ensures
        id == client_id_text(),
{
    "782ae96ea60f4cdf986a766049607005"
}

/// The permissions asked for with every token, joined by commas.
pub fn scopes() -> (list: &'static str)
    ensures
        list == scopes_text(),
{
    "user-read-private,playlist-read-private,playlist-read-collaborative,user-library-read,user-library-modify,user-top-read,user-read-recently-played,playlist-modify-public,playlist-modify-private,streaming"
}

} // verus!
