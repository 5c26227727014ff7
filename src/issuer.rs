//! The issuer's key cache: the current and the next epoch's key material,
//! mirrored from the key authority, and the policy that retries a fetch while
//! the authority has not provisioned the epoch yet.
use crate::authority::IssuingKey;
use crate::epoch::{epoch_of, key_epochs, seconds_until_next_epoch, SECONDS_PER_MINUTE};
use crate::error::TokenIssuerError;
use vstd::prelude::*;

verus! {

/// How many times a key is requested from the authority before giving up.
pub const RETRIEVE_KEY_ATTEMPTS: u8 = 10;

/// Seconds to wait between two requests for a key.
pub const RETRIEVE_KEY_INTERVAL: u64 = 2;

/// The issuer's view of one epoch's key material.
pub struct KeyProfile {
    pub epoch: u64,
    pub params: Vec<u8>,
    pub signing_key: Vec<u8>,
    pub public_key: Vec<u8>,
    pub key_lifetime: u64,
}

impl KeyProfile {
    /// The profile of `epoch` built from the material the authority sent.
    pub fn from_issuing_key(epoch: u64, key: IssuingKey, key_lifetime: u64) -> (r: KeyProfile)
        ensures
            r.epoch == epoch,
            r.params@ == key.params@,
            r.signing_key@ == key.signing_key@,
            r.public_key@ == key.public_key@,
            r.key_lifetime == key_lifetime,
    {
        KeyProfile {
            epoch,
            params: key.params,
            signing_key: key.signing_key,
            public_key: key.public_key,
            key_lifetime,
        }
    }
}

/// What one request to the authority for an epoch's key gave.
pub enum FetchOutcome {
    /// The authority sent the key material.
    Found(IssuingKey),
    /// The authority has no material for the epoch (yet).
    NotFound,
    /// Any other failure: authentication, transport, an internal error.
    Failed(String),
}

/// What to do after a request.
pub enum FetchStep {
    /// Wait the policy's interval, then ask again.
    Retry,
    /// Stop with this result.
    Finished(Result<IssuingKey, TokenIssuerError>),
}

/// A bounded retry: at most `max_attempts` requests, `interval_secs` apart.
pub struct RetryPolicy {
    pub max_attempts: u8,
    pub interval_secs: u64,
}

/// Whether the request numbered `attempt` (from 1) with answer `outcome`
/// leads to another request: only a `NotFound` before the last attempt does.
pub open spec fn retries(max_attempts: u8, attempt: u8, outcome: FetchOutcome) -> bool {
    outcome is NotFound && attempt < max_attempts
}

impl RetryPolicy {
    /// Ten attempts, two seconds apart.
    pub fn standard() -> (r: RetryPolicy)
        ensures
            r.max_attempts == RETRIEVE_KEY_ATTEMPTS,
            r.interval_secs == RETRIEVE_KEY_INTERVAL,
    {
        RetryPolicy { max_attempts: RETRIEVE_KEY_ATTEMPTS, interval_secs: RETRIEVE_KEY_INTERVAL }
    }

    /// The decision after request number `attempt` (from 1) answered
    /// `outcome`: material is kept; a `NotFound` is retried while attempts
    /// remain and is a `KeyManagerError` after the last one; any other failure
    /// is a `KeyManagerError` at once.
    pub fn step(&self, attempt: u8, outcome: FetchOutcome) -> (r: FetchStep)
        requires
            1 <= attempt <= self.max_attempts,
        ensures
            r is Retry <==> retries(self.max_attempts, attempt, outcome),
            outcome matches FetchOutcome::Found(k) ==> r == FetchStep::Finished(Ok(k)),
            !(outcome is Found) && !retries(self.max_attempts, attempt, outcome) ==> (r matches FetchStep::Finished(
                Err(e),
            ) && e is KeyManagerError),
    {
        match outcome {
            FetchOutcome::Found(key) => FetchStep::Finished(Ok(key)),
            FetchOutcome::NotFound => {
                if attempt < self.max_attempts {
                    FetchStep::Retry
                } else {
                    FetchStep::Finished(
                        Err(TokenIssuerError::KeyManagerError("Could not get issuing key.".to_owned())),
                    )
                }
            },
            FetchOutcome::Failed(message) => FetchStep::Finished(
                Err(TokenIssuerError::KeyManagerError(message)),
            ),
        }
    }
}

/// Whether fetching stops at request `n` (from 1) when the authority answers
/// `outcomes` in turn: every earlier answer is retried and answer `n` is not.
pub open spec fn stops_at(max_attempts: u8, outcomes: Seq<FetchOutcome>, n: nat) -> bool {
    &&& 1 <= n <= outcomes.len()
    &&& n <= max_attempts
    &&& forall|i: int| 0 <= i < n - 1 ==> retries(max_attempts, (i + 1) as u8, #[trigger] outcomes[i])
    &&& !retries(max_attempts, n as u8, outcomes[n - 1])
}

/// A fetch that is answered `NotFound` by the first `n - 1` requests and
/// brings the material at request `n`, within the budget, stops at request
/// `n`, where the step hands the material over.
pub proof fn lemma_retry_then_found(max_attempts: u8, outcomes: Seq<FetchOutcome>, n: nat)
    requires
        1 <= n <= max_attempts,
        n <= outcomes.len(),
        forall|i: int| 0 <= i < n - 1 ==> outcomes[i] is NotFound,
        outcomes[n - 1] is Found,
    ensures
        stops_at(max_attempts, outcomes, n),
{
}

/// A fetch that is answered `NotFound` by every request up to the budget
/// stops after exactly the budgeted number of requests, on a `NotFound`, where
/// the step fails with a `KeyManagerError`.
pub proof fn lemma_retry_exhausted(max_attempts: u8, outcomes: Seq<FetchOutcome>)
    requires
        1 <= max_attempts,
        max_attempts <= outcomes.len(),
        forall|i: int| 0 <= i < max_attempts ==> outcomes[i] is NotFound,
    ensures
        stops_at(max_attempts, outcomes, max_attempts as nat),
        outcomes[max_attempts - 1] is NotFound,
{
}

/// Whether a slot must be refetched for `epoch`: it is empty or holds another epoch.
pub open spec fn needs_refresh(slot: Option<KeyProfile>, epoch: u64) -> bool {
    match slot {
        Some(p) => p.epoch != epoch,
        None => true,
    }
}

/// The issuer's key cache: the key lifetime in seconds and the profiles of the
/// current and the next epoch, absent until first fetched.
pub struct KeyManager {
    key_lifetime: u64,
    current_key: Option<KeyProfile>,
    next_key: Option<KeyProfile>,
}

impl KeyManager {
    /// The key lifetime, in seconds.
    pub closed spec fn lifetime(&self) -> u64 {
        self.key_lifetime
    }

    /// The cached current profile.
    pub closed spec fn current(&self) -> Option<KeyProfile> {
        self.current_key
    }

    /// The cached next profile.
    pub closed spec fn next(&self) -> Option<KeyProfile> {
        self.next_key
    }

    /// An empty cache for a lifetime of `key_lifetime_minutes`; `ConfigError`
    /// when that is zero or does not fit in 64 bits as seconds.
    pub fn create(key_lifetime_minutes: u64) -> (r: Result<KeyManager, TokenIssuerError>)
        ensures
            r is Err <==> (key_lifetime_minutes == 0 || key_lifetime_minutes * 60 > u64::MAX),
            r is Err ==> r->Err_0 is ConfigError,
            r matches Ok(km) ==> {
                &&& km.lifetime() == key_lifetime_minutes * 60
                &&& km.current() is None
                &&& km.next() is None
            },
    {
        if key_lifetime_minutes == 0 || key_lifetime_minutes > u64::MAX / SECONDS_PER_MINUTE {
            return Err(TokenIssuerError::ConfigError("Key lifetime must be positive and fit in seconds.".to_owned()));
        }
        Ok(KeyManager { key_lifetime: key_lifetime_minutes * SECONDS_PER_MINUTE, current_key: None, next_key: None })
    }

    /// The key lifetime, in seconds.
    pub fn key_lifetime(&self) -> (r: u64)
        ensures
            r == self.lifetime(),
    {
        self.key_lifetime
    }

    /// The cached profile of the current epoch; absent means "not ready yet".
    pub fn get_current_key(&self) -> (r: &Option<KeyProfile>)
        ensures
            *r == self.current(),
    {
        &self.current_key
    }

    /// The cached profile of the next epoch; absent means "not ready yet".
    pub fn get_next_key(&self) -> (r: &Option<KeyProfile>)
        ensures
            *r == self.next(),
    {
        &self.next_key
    }

    /// The current and the next epoch at `now`.
    pub fn get_key_epochs(&self, now: u64) -> (r: (u64, u64))
        requires
            self.lifetime() > 0,
            now + self.lifetime() <= u64::MAX,
        ensures
            r.0 == epoch_of(now as nat, self.lifetime() as nat),
            r.1 == r.0 + self.lifetime(),
    {
        key_epochs(now, self.key_lifetime)
    }

    /// Which epochs must be fetched at `now`, as `(current, next)`: an epoch is
    /// named where its slot is empty or holds another epoch.
    pub fn epochs_to_fetch(&self, now: u64) -> (r: (Option<u64>, Option<u64>))
        requires
            self.lifetime() > 0,
            now + self.lifetime() <= u64::MAX,
        ensures
            ({
                let e = epoch_of(now as nat, self.lifetime() as nat);
                &&& r.0 == (if needs_refresh(self.current(), e as u64) { Some(e as u64) } else { None })
                &&& r.1 == (if needs_refresh(self.next(), (e + self.lifetime()) as u64) {
                    Some((e + self.lifetime()) as u64)
                } else {
                    None
                })
            }),
    {
        let (current_epoch, next_epoch) = key_epochs(now, self.key_lifetime);
        let current = if Self::needs_update(&self.current_key, current_epoch) {
            Some(current_epoch)
        } else {
            None
        };
        let next = if Self::needs_update(&self.next_key, next_epoch) {
            Some(next_epoch)
        } else {
            None
        };
        (current, next)
    }

    /// Whether `slot` must be refetched for `epoch`.
    pub fn needs_update(slot: &Option<KeyProfile>, epoch: u64) -> (r: bool)
        ensures
            r == needs_refresh(*slot, epoch),
    {
        match slot {
            Some(p) => p.epoch != epoch,
            None => true,
        }
    }

    /// Brings both slots to the epochs of `now`: each slot that must be
    /// refetched takes the material given for it (`current`, `next`), and a
    /// slot that is up to date keeps its profile. When material is missing for
    /// a slot that needs it, nothing changes and the result is an
    /// `IllegalStateError`. Both slots change together, so no reader sees a
    /// next key that is not one lifetime after the current key. After a pause
    /// of several lifetimes both slots are stale and both are replaced.
    pub fn update_keys(&mut self, now: u64, current: Option<IssuingKey>, next: Option<IssuingKey>) -> (r: Result<
        (),
        TokenIssuerError,
    >)
        requires
            old(self).lifetime() > 0,
            now + old(self).lifetime() <= u64::MAX,
        ensures
            ({
                let e = epoch_of(now as nat, old(self).lifetime() as nat) as u64;
                let ne = (e + old(self).lifetime()) as u64;
                &&& r is Err <==> ((needs_refresh(old(self).current(), e) && current is None) || (
                needs_refresh(old(self).next(), ne) && next is None))
                &&& r is Err ==> r->Err_0 is IllegalStateError && *final(self) == *old(self)
                &&& final(self).lifetime() == old(self).lifetime()
                &&& r is Ok ==> {
                    &&& final(self).current() matches Some(p) && p.epoch == e
                    &&& final(self).next() matches Some(p) && p.epoch == ne
                    &&& final(self).next()->Some_0.epoch == final(self).current()->Some_0.epoch
                        + final(self).lifetime()
                    &&& !needs_refresh(old(self).current(), e) ==> final(self).current() == old(
                        self,
                    ).current()
                    &&& !needs_refresh(old(self).next(), ne) ==> final(self).next() == old(
                        self,
                    ).next()
                    &&& needs_refresh(old(self).current(), e) ==> (final(self).current()->Some_0.public_key@
                        == current->Some_0.public_key@ && final(self).current()->Some_0.params@
                        == current->Some_0.params@ && final(self).current()->Some_0.signing_key@
                        == current->Some_0.signing_key@)
                    &&& needs_refresh(old(self).next(), ne) ==> (final(self).next()->Some_0.public_key@
                        == next->Some_0.public_key@ && final(self).next()->Some_0.params@
                        == next->Some_0.params@ && final(self).next()->Some_0.signing_key@
                        == next->Some_0.signing_key@)
                }
            }),
    {
        let (current_epoch, next_epoch) = key_epochs(now, self.key_lifetime);
        let refresh_current = Self::needs_update(&self.current_key, current_epoch);
        let refresh_next = Self::needs_update(&self.next_key, next_epoch);
        if (refresh_current && current.is_none()) || (refresh_next && next.is_none()) {
            return Err(TokenIssuerError::IllegalStateError("Missing key material for a stale slot.".to_owned()));
        }
        if refresh_current {
            if let Some(key) = current {
                self.current_key = Some(KeyProfile::from_issuing_key(current_epoch, key, self.key_lifetime));
            }
        }
        if refresh_next {
            if let Some(key) = next {
                self.next_key = Some(KeyProfile::from_issuing_key(next_epoch, key, self.key_lifetime));
            }
        }
        Ok(())
    }

    /// Seconds from `now` until the next epoch boundary, where the first
    /// scheduled refresh is due.
    pub fn calculate_next_key_update(now: u64, key_lifetime: u64) -> (r: u64)
        requires
            key_lifetime > 0,
            now + key_lifetime <= u64::MAX,
        ensures
            r == epoch_of(now as nat, key_lifetime as nat) + key_lifetime - now,
            0 < r <= key_lifetime,
    {
        seconds_until_next_epoch(now, key_lifetime)
    }
}

} // verus!
