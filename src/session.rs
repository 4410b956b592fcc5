//! The hub session: credentials for the hub and the one access token it caches.
//!
//! A refresh runs in two short steps around the login call, so the session need not be
//! locked while the hub answers: `token_step_at` starts it, `complete_login_at` installs
//! its outcome. Callers that arrive while a refresh runs are told to wait for it, and
//! then read its outcome with `refresh_outcome`, success or failure, instead of logging
//! in themselves.

use vstd::prelude::*;

verus! {

/// A credential as the hub's login endpoint hands it out.
pub struct Token {
    pub access_token: String,
    pub token_type: String,
    /// Lifetime of the token, in seconds from the moment it was obtained.
    pub expires_in: u64,
}

/// The session with the hub. It keeps the login credentials, at most one access token,
/// and the bookkeeping of its refreshes.
pub struct Session {
    token: Option<String>,
    username: String,
    password: String,
    uri: String,
    /// Lifetime in seconds of the held token.
    pub expires_in: u64,
    /// Time the held token was obtained, in whole seconds since the Unix epoch.
    pub created_at: u64,
    refreshing: bool,
    refreshes: u64,
    last_failure: Option<String>,
}

/// The mathematical value of a `Session`.
pub struct SessionView {
    /// The held access token, if any.
    pub token: Option<Seq<char>>,
    pub username: Seq<char>,
    pub password: Seq<char>,
    pub uri: Seq<char>,
    pub expires_in: u64,
    pub created_at: u64,
    /// Whether a login is under way.
    pub refreshing: bool,
    /// How many refreshes have completed, counted modulo 2^64.
    pub refreshes: u64,
    /// The reason the last completed refresh failed, if it did.
    pub last_failure: Option<Seq<char>>,
}

/// The value of an optional string.
pub open spec fn opt_view(o: Option<String>) -> Option<Seq<char>> {
    match o {
        Some(s) => Some(s@),
        None => None,
    }
}

/// The value of a token or a failure's reason.
pub open spec fn result_view(r: Result<String, String>) -> Result<Seq<char>, Seq<char>> {
    match r {
        Ok(t) => Ok(t@),
        Err(e) => Err(e@),
    }
}

impl View for Session {
    type V = SessionView;

    closed spec fn view(&self) -> SessionView {
        SessionView {
            token: opt_view(self.token),
            username: self.username@,
            password: self.password@,
            uri: self.uri@,
            expires_in: self.expires_in,
            created_at: self.created_at,
            refreshing: self.refreshing,
            refreshes: self.refreshes,
            last_failure: opt_view(self.last_failure),
        }
    }
}

/// A session holds a credential valid at time `now` iff it holds a credential and fewer
/// than `expires_in` seconds have passed since it was obtained.
pub open spec fn valid_at(s: SessionView, now: u64) -> bool {
    s.token is Some && (now as int) - (s.created_at as int) < s.expires_in as int
}

/// The count of refreshes after one more completes.
pub open spec fn next_count(n: u64) -> u64 {
    if n == u64::MAX {
        0
    } else {
        (n + 1) as u64
    }
}

/// The session once a refresh has started: the expired credential is dropped.
pub open spec fn refresh_started(s: SessionView) -> SessionView {
    SessionView { token: None, refreshing: true, ..s }
}

/// The session after a login at time `now` handed out `access`, valid for `expires_in`
/// seconds.
pub open spec fn after_login(s: SessionView, access: Seq<char>, expires_in: u64, now: u64) -> SessionView {
    SessionView {
        token: Some(access),
        expires_in,
        created_at: now,
        refreshing: false,
        refreshes: next_count(s.refreshes),
        last_failure: None,
        ..s
    }
}

/// The session after a login failed for `reason`: no credential is held.
pub open spec fn after_failure(s: SessionView, reason: Seq<char>) -> SessionView {
    SessionView {
        token: None,
        refreshing: false,
        refreshes: next_count(s.refreshes),
        last_failure: Some(reason),
        ..s
    }
}

/// What a caller that needs a token does next.
pub enum TokenStep {
    /// The held token is valid: use it, no call to the hub.
    Cached(String),
    /// No valid token is held and no refresh runs: log in to the hub with these
    /// credentials and hand the outcome to `Session::complete_login`.
    Login { username: String, password: String, uri: String },
    /// A refresh is under way: wait until it completes, then read its outcome with
    /// `Session::refresh_outcome`, passing this count of refreshes.
    Wait(u64),
}

/// `step` is the decision taken at time `now` by a session whose value was `pre`, and
/// `post` is its value afterwards.
pub open spec fn token_step(pre: SessionView, now: u64, step: TokenStep, post: SessionView) -> bool {
    if valid_at(pre, now) {
        &&& step is Cached
        &&& pre.token == Some(step->Cached_0@)
        &&& post == pre
    } else if pre.refreshing {
        &&& step is Wait
        &&& step->Wait_0 == pre.refreshes
        &&& post == pre
    } else {
        &&& step is Login
        &&& step->username@ == pre.username
        &&& step->password@ == pre.password
        &&& step->uri@ == pre.uri
        &&& post == refresh_started(pre)
    }
}

/// `r` is what a session whose value was `pre` reports after the login `outcome` at time
/// `now`, and `post` is its value afterwards.
pub open spec fn login_completed(
    pre: SessionView,
    outcome: Result<Token, String>,
    now: u64,
    r: Result<String, String>,
    post: SessionView,
) -> bool {
    match outcome {
        Ok(t) => {
            &&& r is Ok
            &&& r->Ok_0@ == t.access_token@
            &&& post == after_login(pre, t.access_token@, t.expires_in, now)
        },
        Err(e) => {
            &&& r is Err
            &&& r->Err_0@ == e@
            &&& post == after_failure(pre, e@)
        },
    }
}

/// What a caller told to wait when `seen` refreshes had completed learns from the session
/// `s`: nothing while a refresh runs or none has completed since; else the outcome of the
/// last completed refresh, its token or its failure's reason.
pub open spec fn awaited(s: SessionView, seen: u64) -> Option<Result<Seq<char>, Seq<char>>> {
    if s.refreshing || s.refreshes == seen {
        None
    } else {
        match s.last_failure {
            Some(e) => Some(Err(e)),
            None => match s.token {
                Some(t) => Some(Ok(t)),
                None => None,
            },
        }
    }
}

/// Relies on std's `SystemTime::elapsed`, taken from the Unix epoch: the whole seconds the
/// system clock is past the epoch, `None` for a clock set before it. Nothing is promised
/// of the value.
#[verifier::external_body]
fn unix_seconds() -> (r: Option<u64>) {
    match std::time::UNIX_EPOCH.elapsed() {
        Ok(d) => Some(d.as_secs()),
        Err(_) => None,
    }
}

/// The current time in whole seconds since the Unix epoch; 0 for a clock set before it.
fn now_seconds() -> u64 {
    match unix_seconds() {
        Some(s) => s,
        None => 0,
    }
}

/// A session that has just installed a login made at `now` serves every token request
/// made before the token's lifetime has run out from its cache, with that same token and
/// without changing, and starts a new login at the first request made once `expires_in`
/// seconds have passed. So repeated scrapes within the lifetime log in once.
pub proof fn lemma_login_serves_until_expiry(
    pre: SessionView,
    access: Seq<char>,
    expires_in: u64,
    now: u64,
    later: u64,
    step: TokenStep,
    post: SessionView,
)
    requires
        now <= later,
        token_step(after_login(pre, access, expires_in, now), later, step, post),
    ensures
        (later - now < expires_in) ==> step is Cached && step->Cached_0@ == access && post
            == after_login(pre, access, expires_in, now),
        (later - now >= expires_in) ==> step is Login && post == refresh_started(
            after_login(pre, access, expires_in, now),
        ),
{
}

/// While one caller's refresh runs, every other caller is told to wait, leaves the
/// session as it is (so any number of them can arrive), and learns nothing yet. Once the
/// refresh completes, each of them reads exactly what the refreshing caller got: the
/// same token, or the same failure. So concurrent callers on an empty or expired cache
/// make one login between them.
pub proof fn lemma_one_refresh_serves_all_waiters(
    pre: SessionView,
    now: u64,
    first: TokenStep,
    started: SessionView,
    later: u64,
    step: TokenStep,
    mid: SessionView,
    outcome: Result<Token, String>,
    done_at: u64,
    r: Result<String, String>,
    done: SessionView,
)
    requires
        token_step(pre, now, first, started),
        first is Login,
        token_step(started, later, step, mid),
        login_completed(mid, outcome, done_at, r, done),
    ensures
        step is Wait,
        mid == started,
        awaited(mid, step->Wait_0) is None,
        awaited(done, step->Wait_0) == Some(result_view(r)),
{
}

impl Session {
    /// A session that holds no credential yet.
    pub fn new(username: String, password: String, uri: String) -> (s: Session)
        ensures
            s@.token is None,
            s@.username == username@,
            s@.password == password@,
            s@.uri == uri@,
            s@.expires_in == 0,
            !s@.refreshing,
            s@.refreshes == 0,
            s@.last_failure is None,
    {
        Session {
            token: None,
            username,
            password,
            uri,
            expires_in: 0,
            created_at: now_seconds(),
            refreshing: false,
            refreshes: 0,
            last_failure: None,
        }
    }

    /// Whether the session holds a credential that is valid at time `now`.
    pub fn is_valid_at(&self, now: u64) -> (r: bool)
        ensures
            r == valid_at(self@, now),
    {
        match &self.token {
            Some(_) => now < self.created_at || now - self.created_at < self.expires_in,
            None => false,
        }
    }

    /// Whether the session holds a credential that is valid now, on the system clock.
    pub fn is_valid(&self) -> (r: bool)
        ensures
            exists|now: u64| r == valid_at(self@, now),
            self@.token is None ==> !r,
    {
        let now = now_seconds();
        self.is_valid_at(now)
    }

    /// Decides, at time `now`, whether the held token can be used, a refresh must start,
    /// or a refresh under way must be waited for. Starting a refresh drops the expired
    /// token.
    pub fn token_step_at(&mut self, now: u64) -> (step: TokenStep)
        ensures
            token_step(old(self)@, now, step, final(self)@),
    {
        if self.is_valid_at(now) {
            match &self.token {
                Some(t) => {
                    return TokenStep::Cached(t.clone());
                },
                None => {},
            }
        }
        if self.refreshing {
            return TokenStep::Wait(self.refreshes);
        }
        self.token = None;
        self.refreshing = true;
        TokenStep::Login {
            username: self.username.clone(),
            password: self.password.clone(),
            uri: self.uri.clone(),
        }
    }

    /// Decides, on the system clock, whether the held token can be used, a refresh must
    /// start, or a refresh under way must be waited for.
    pub fn get_token(&mut self) -> (step: TokenStep)
        ensures
            exists|now: u64| token_step(old(self)@, now, step, final(self)@),
    {
        let now = now_seconds();
        self.token_step_at(now)
    }

    /// Installs the outcome of a login made at time `now`: the new token on success,
    /// whatever its text, and no token on failure, whose reason is kept for the callers
    /// waiting on this refresh. Returns the token, or the failure's reason.
    pub fn complete_login_at(&mut self, outcome: Result<Token, String>, now: u64) -> (r: Result<
        String,
        String,
    >)
        ensures
            login_completed(old(self)@, outcome, now, r, final(self)@),
    {
        self.refreshing = false;
        self.refreshes = if self.refreshes == u64::MAX {
            0
        } else {
            self.refreshes + 1
        };
        match outcome {
            Ok(t) => {
                let access = t.access_token.clone();
                self.token = Some(t.access_token);
                self.expires_in = t.expires_in;
                self.created_at = now;
                self.last_failure = None;
                Ok(access)
            },
            Err(e) => {
                self.token = None;
                self.last_failure = Some(e.clone());
                Err(e)
            },
        }
    }

    /// Installs the outcome of a login that has just returned, stamped with the system
    /// clock.
    pub fn complete_login(&mut self, outcome: Result<Token, String>) -> (r: Result<String, String>)
        ensures
            exists|now: u64| login_completed(old(self)@, outcome, now, r, final(self)@),
    {
        let now = now_seconds();
        self.complete_login_at(outcome, now)
    }

    /// For a caller told to `Wait(seen)`: the outcome of the refresh it waited on, once
    /// one has completed and no other runs.
    pub fn refresh_outcome(&self, seen: u64) -> (r: Option<Result<String, String>>)
        ensures
            match r {
                Some(x) => awaited(self@, seen) == Some(result_view(x)),
                None => awaited(self@, seen) is None,
            },
    {
        if self.refreshing || self.refreshes == seen {
            return None;
        }
        match &self.last_failure {
            Some(e) => Some(Err(e.clone())),
            None => match &self.token {
                Some(t) => Some(Ok(t.clone())),
                None => None,
            },
        }
    }
}

} // verus!
