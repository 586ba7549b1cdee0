//! Token bookkeeping for backend authentication.
//!
//! Two ways of producing an authentication token: a static password, and a
//! dynamically fetched AWS RDS IAM token that expires and must be
//! refreshed.  The expiry decision and the state update on a fetch are the
//! verified part; performing the fetch itself is backend work done by the
//! embedding, which hands the outcome back to [`AuthTokenState::apply_fetch`].

use vstd::prelude::*;

use crate::aws::ManagerConfig;

verus! {

/// What the authentication logic reads from a Postgres connection
/// configuration: the static password, when one is set.
#[derive(Clone, Debug)]
pub struct PgAuthConfig {
    /// The configured password bytes.
    pub password: Option<Vec<u8>>,
}

/// State of AWS RDS authentication token fetching: the token lifetime, the
/// time of the last fetch, and the current token.
#[derive(Debug)]
pub struct AuthTokenState {
    /// Milliseconds after which a fetched token expires.
    pub expires_in_ms: u64,
    /// When the last token was fetched, in milliseconds; `None` before the
    /// first fetch.
    pub last_token_fetch_ms: Option<u64>,
    /// The current authentication token; empty before the first fetch.
    pub token: Vec<u8>,
}

/// Whether a new token must be fetched at the given time: always before
/// the first fetch, and whenever the time elapsed since the last fetch has
/// reached the token lifetime.  A clock reading before the last fetch
/// counts as no elapsed time.
pub open spec fn spec_fetch_needed(s: AuthTokenState, now_ms: u64) -> bool {
    match s.last_token_fetch_ms {
        None => true,
        Some(t) => (if now_ms >= t {
            now_ms - t
        } else {
            0
        }) >= s.expires_in_ms,
    }
}

impl AuthTokenState {
    /// Fresh state: no token fetched yet.
    pub fn new(expires_in_ms: u64) -> (r: Self)
        ensures
            r.expires_in_ms == expires_in_ms,
            r.last_token_fetch_ms is None,
            r.token@ == Seq::<u8>::empty(),
    {
        let state = AuthTokenState { expires_in_ms, last_token_fetch_ms: None, token: Vec::new() };
        proof {
            assert(state.token@ =~= Seq::<u8>::empty());
        }
        state
    }

    /// Whether the current token has expired or none exists yet.
    pub fn is_fetch_needed(&self, now_ms: u64) -> (r: bool)
        ensures
            r == spec_fetch_needed(*self, now_ms),
    {
        match self.last_token_fetch_ms {
            Some(t) => {
                let elapsed = if now_ms >= t {
                    now_ms - t
                } else {
                    0
                };
                elapsed >= self.expires_in_ms
            }
            None => true,
        }
    }

    /// Records the outcome of one fetch attempt: a fetched token replaces
    /// the current one and restarts the expiry clock; a failed attempt
    /// changes nothing, so the stale token stays in use until a later
    /// attempt succeeds.
    pub fn apply_fetch(&mut self, fetched: Option<Vec<u8>>, now_ms: u64)
        ensures
            final(self).expires_in_ms == old(self).expires_in_ms,
            match fetched {
                Some(token) => final(self).token == token && final(self).last_token_fetch_ms
                    == Some(now_ms),
                None => *final(self) == *old(self),
            },
    {
        match fetched {
            Some(token) => {
                self.token = token;
                self.last_token_fetch_ms = Some(now_ms);
            }
            None => {}
        }
    }

    /// The current authentication token.
    pub fn token(&self) -> (r: &Vec<u8>)
        ensures
            *r == self.token,
    {
        &self.token
    }
}

/// Token fetcher for authentication: a static password, or AWS RDS IAM
/// token state refreshed by the embedding.
#[derive(Debug)]
pub enum AuthTokenFetcher {
    /// Default authentication using a static password.
    Default(Vec<u8>),
    /// AWS RDS IAM authentication token state.
    AwsRds(AuthTokenState),
}

impl AuthTokenFetcher {
    /// The fetcher for a manager configuration: token state with the
    /// configured lifetime when IAM authentication is enabled, the static
    /// password otherwise.
    pub fn for_config(config: &ManagerConfig, pg_config: &PgAuthConfig) -> (r: Self)
        ensures
            match config.aws_rds_signer_config {
                Some(sc) => r matches AuthTokenFetcher::AwsRds(s) && s.expires_in_ms
                    == sc.spec_expires_in() && s.last_token_fetch_ms is None && s.token@
                    == Seq::<u8>::empty(),
                None => r matches AuthTokenFetcher::Default(p) && p@ == spec_password(*pg_config),
            },
    {
        match &config.aws_rds_signer_config {
            Some(signer_config) => Self::aws_rds(signer_config.expires_in()),
            None => Self::default(pg_config),
        }
    }

    /// The static-password fetcher; a missing password is an empty token.
    pub fn default(pg_config: &PgAuthConfig) -> (r: Self)
        ensures
            r matches AuthTokenFetcher::Default(p) && p@ == spec_password(*pg_config),
    {
        let password = match &pg_config.password {
            Some(p) => copy_bytes(p),
            None => Vec::new(),
        };
        proof {
            assert(password@ =~= spec_password(*pg_config));
        }
        AuthTokenFetcher::Default(password)
    }

    /// The AWS RDS token fetcher, with nothing fetched yet.
    pub fn aws_rds(expires_in_ms: u64) -> (r: Self)
        ensures
            r matches AuthTokenFetcher::AwsRds(s) && s.expires_in_ms == expires_in_ms
                && s.last_token_fetch_ms is None && s.token@ == Seq::<u8>::empty(),
    {
        AuthTokenFetcher::AwsRds(AuthTokenState::new(expires_in_ms))
    }

    /// Whether the embedding must fetch a new token now: never for the
    /// static password, and for AWS RDS exactly when the state says the
    /// token expired or none exists.
    pub fn needs_fetch(&self, now_ms: u64) -> (r: bool)
        ensures
            match self {
                AuthTokenFetcher::Default(_) => !r,
                AuthTokenFetcher::AwsRds(s) => r == spec_fetch_needed(*s, now_ms),
            },
    {
        match self {
            AuthTokenFetcher::Default(_) => false,
            AuthTokenFetcher::AwsRds(state) => state.is_fetch_needed(now_ms),
        }
    }

    /// Records the outcome of one fetch attempt; a no-op for the static
    /// password.
    pub fn apply_fetch(&mut self, fetched: Option<Vec<u8>>, now_ms: u64)
        ensures
            match *old(self) {
                AuthTokenFetcher::Default(_) => *final(self) == *old(self),
                AuthTokenFetcher::AwsRds(s) => *final(self) matches AuthTokenFetcher::AwsRds(s2)
                    && s2.expires_in_ms == s.expires_in_ms && (match fetched {
                    Some(token) => s2.token == token && s2.last_token_fetch_ms == Some(now_ms),
                    None => s2 == s,
                }),
            },
    {
        match self {
            AuthTokenFetcher::Default(_) => {}
            AuthTokenFetcher::AwsRds(state) => state.apply_fetch(fetched, now_ms),
        }
    }

    /// The token to authenticate with right now: the static password, or
    /// the most recently fetched token.
    pub fn token_bytes(&self) -> (r: &Vec<u8>)
        ensures
            match self {
                AuthTokenFetcher::Default(p) => r == p,
                AuthTokenFetcher::AwsRds(s) => r == s.token,
            },
    {
        match self {
            AuthTokenFetcher::Default(p) => p,
            AuthTokenFetcher::AwsRds(state) => state.token(),
        }
    }
}

/// The static password of a Postgres connection configuration, with a
/// missing password read as empty.
pub open spec fn spec_password(pg_config: PgAuthConfig) -> Seq<u8> {
    match pg_config.password {
        Some(p) => p@,
        None => Seq::<u8>::empty(),
    }
}

/// A fresh copy of the given bytes.
fn copy_bytes(src: &Vec<u8>) -> (r: Vec<u8>)
    ensures
        r@ == src@,
{
    let mut out: Vec<u8> = Vec::new();
    let mut i: usize = 0;
    while i < src.len()
        invariant
            i <= src.len(),
            out@ == src@.take(i as int),
        decreases src.len() - i,
    {
        out.push(src[i]);
        i = i + 1;
        proof {
            assert(out@ =~= src@.take(i as int));
        }
    }
    proof {
        assert(src@.take(src@.len() as int) =~= src@);
    }
    out
}

} // verus!
