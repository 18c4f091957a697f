//! The cached OAuth bearer token: reused while it is valid, replaced wholesale
//! on each refresh. Times are milliseconds on a monotonic clock.
use vstd::prelude::*;

verus! {

/// The token lifetime, in seconds, when the token endpoint announces none.
pub const DEFAULT_TTL_SECS: u64 = 3600;

/// How many seconds before its announced end a token stops being used.
pub const SAFETY_MARGIN_SECS: u64 = 30;

/// A bearer token and the last instant at which it is used.
pub struct CachedToken {
    pub value: Vec<u8>,
    pub expires_at: u64,
}

/// The process-wide token cache; empty at startup.
pub struct TokenCache {
    pub entry: Option<CachedToken>,
}

/// The last instant at which a token obtained at `now` is used: its announced
/// lifetime less the safety margin, saturating at the clock's end.
pub open spec fn expiry(now: u64, expires_in: Option<u64>) -> u64 {
    let ttl: int = match expires_in {
        Some(e) => e as int,
        None => DEFAULT_TTL_SECS as int,
    };
    let secs: int = if ttl >= SAFETY_MARGIN_SECS { ttl - SAFETY_MARGIN_SECS } else { 0 };
    let at: int = now + secs * 1000;
    if at > u64::MAX {
        u64::MAX
    } else {
        at as u64
    }
}

/// The token that the cache hands out at `now`, if any: one that is present
/// and whose expiry `now` has not passed.
pub open spec fn token_at(c: TokenCache, now: u64) -> Option<Seq<u8>> {
    match c.entry {
        Some(e) => if now <= e.expires_at {
            Some(e.value@)
        } else {
            None
        },
        None => None,
    }
}

/// Computes `expiry(now, expires_in)`.
pub fn expiry_of(now: u64, expires_in: Option<u64>) -> (r: u64)
    ensures
        r == expiry(now, expires_in),
{
    let ttl: u64 = match expires_in {
        Some(e) => e,
        None => DEFAULT_TTL_SECS,
    };
    let secs: u64 = if ttl >= SAFETY_MARGIN_SECS { ttl - SAFETY_MARGIN_SECS } else { 0 };
    if secs > (u64::MAX - now) / 1000 {
        assert(now + secs * 1000 > u64::MAX) by (nonlinear_arith)
            requires
                secs > (u64::MAX - now) / 1000,
        ;
        u64::MAX
    } else {
        assert(now + secs * 1000 <= u64::MAX) by (nonlinear_arith)
            requires
                secs <= (u64::MAX - now) / 1000,
                now <= u64::MAX,
        ;
        now + secs * 1000
    }
}

impl TokenCache {
    /// An empty cache.
    pub fn new() -> (r: TokenCache)
        ensures
            r.entry is None,
    {
        TokenCache { entry: None }
    }

    /// The cached token if it is still valid at `now`; nothing means that a
    /// refresh is due.
    pub fn current(&self, now: u64) -> (r: Option<Vec<u8>>)
        ensures
            r matches Some(t) ==> token_at(*self, now) == Some(t@),
            r is None ==> token_at(*self, now) is None,
    {
        match &self.entry {
            Some(e) => {
                if now <= e.expires_at {
                    Some(vstd::slice::slice_to_vec(e.value.as_slice()))
                } else {
                    None
                }
            },
            None => None,
        }
    }

    /// Replaces the cached token with one obtained at `now`, announced to last
    /// `expires_in` seconds.
    pub fn store(&mut self, value: Vec<u8>, expires_in: Option<u64>, now: u64)
        ensures
            final(self).entry matches Some(e) && e.value == value && e.expires_at == expiry(
                now,
                expires_in,
            ),
    {
        let expires_at = expiry_of(now, expires_in);
        self.entry = Some(CachedToken { value, expires_at });
    }
}

/// A token stored at `now` is handed out at every instant from `now` to its
/// expiry, so callers that re-check the cache after one refresh share its token
/// and make no exchange of their own.
pub proof fn lemma_refresh_shared(c: TokenCache, now: u64, expires_in: Option<u64>, later: u64)
    requires
        c.entry matches Some(e) && e.expires_at == expiry(now, expires_in),
        now <= later <= expiry(now, expires_in),
    ensures
        token_at(c, later) == Some(c.entry->Some_0.value@),
        token_at(c, now) == Some(c.entry->Some_0.value@),
{
}

/// A token announced to last sixty seconds is reused thirty seconds after it
/// was obtained, and is due for a refresh sixty-one seconds after.
pub proof fn lemma_sixty_second_token(c: TokenCache, now: u64)
    requires
        c.entry matches Some(e) && e.expires_at == expiry(now, Some(60)),
        now + 61000 <= u64::MAX,
    ensures
        token_at(c, (now + 30000) as u64) == Some(c.entry->Some_0.value@),
        token_at(c, (now + 61000) as u64) is None,
{
}

} // verus!
