//! Epoch arithmetic: an epoch is the largest multiple of the key lifetime
//! (in seconds) that does not exceed the wall-clock time.
use vstd::arithmetic::div_mod::{
    lemma_fundamental_div_mod, lemma_fundamental_div_mod_converse,
    lemma_mod_pos_bound,
};
use vstd::prelude::*;

verus! {

/// Seconds in one minute; key lifetimes are configured in minutes.
pub const SECONDS_PER_MINUTE: u64 = 60;

/// The epoch that contains the instant `now` for a lifetime of `lifetime` seconds.
pub open spec fn epoch_of(now: nat, lifetime: nat) -> nat
    recommends
        lifetime > 0,
{
    (now - now % lifetime) as nat
}

/// A time, in seconds, at which a new epoch starts.
pub open spec fn is_epoch_start(t: nat, lifetime: nat) -> bool {
    t % lifetime == 0
}

/// The epoch in which `now` falls: `now - now % key_lifetime`.
pub fn compute_epoch(now: u64, key_lifetime: u64) -> (r: u64)
    requires
        key_lifetime > 0,
    ensures
        r == epoch_of(now as nat, key_lifetime as nat),
        r <= now,
        now < r + key_lifetime,
        is_epoch_start(r as nat, key_lifetime as nat),
{
    proof {
        let q = (now / key_lifetime) as nat;
        lemma_fundamental_div_mod(now as int, key_lifetime as int);
        lemma_mod_pos_bound(now as int, key_lifetime as int);
        assert(key_lifetime * q == q * key_lifetime) by (nonlinear_arith);
        lemma_multiple_is_start(q, key_lifetime as nat);
    }
    now - now % key_lifetime
}

/// The current and the next epoch at `now`: `(current, current + key_lifetime)`.
pub fn key_epochs(now: u64, key_lifetime: u64) -> (r: (u64, u64))
    requires
        key_lifetime > 0,
        now + key_lifetime <= u64::MAX,
    ensures
        r.0 == epoch_of(now as nat, key_lifetime as nat),
        r.1 == r.0 + key_lifetime,
        r.0 <= now < r.1,
        is_epoch_start(r.0 as nat, key_lifetime as nat),
{
    let current = compute_epoch(now, key_lifetime);
    (current, current + key_lifetime)
}

/// Seconds from `now` until the next epoch starts; always in `1..=key_lifetime`.
pub fn seconds_until_next_epoch(now: u64, key_lifetime: u64) -> (r: u64)
    requires
        key_lifetime > 0,
        now + key_lifetime <= u64::MAX,
    ensures
        r == epoch_of(now as nat, key_lifetime as nat) + key_lifetime - now,
        0 < r <= key_lifetime,
        is_epoch_start((now + r) as nat, key_lifetime as nat),
{
    let (_, next) = key_epochs(now, key_lifetime);
    proof {
        lemma_epoch_advance(epoch_of(now as nat, key_lifetime as nat), key_lifetime as nat);
    }
    next - now
}

proof fn lemma_multiple_is_start(q: nat, lifetime: nat)
    requires
        lifetime > 0,
    ensures
        is_epoch_start(q * lifetime, lifetime),
{
    lemma_fundamental_div_mod_converse((q * lifetime) as int, lifetime as int, q as int, 0);
}

/// An epoch start shifted by one lifetime is again an epoch start, and its own epoch.
pub proof fn lemma_epoch_advance(epoch: nat, lifetime: nat)
    requires
        lifetime > 0,
        is_epoch_start(epoch, lifetime),
    ensures
        is_epoch_start(epoch + lifetime, lifetime),
        epoch_of(epoch + lifetime, lifetime) == epoch + lifetime,
{
    lemma_fundamental_div_mod(epoch as int, lifetime as int);
    let q = epoch / lifetime;
    assert((q + 1) * lifetime == q * lifetime + lifetime) by (nonlinear_arith);
    lemma_fundamental_div_mod_converse((epoch + lifetime) as int, lifetime as int, (q + 1) as int, 0);
}

/// Every instant of the window `[epoch, epoch + lifetime)` of an epoch start
/// lies in that epoch, so any two instants of one window share their epoch; and
/// the instant that closes the window starts the next epoch.
pub proof fn lemma_window_shares_epoch(epoch: nat, lifetime: nat, t1: nat, t2: nat)
    requires
        lifetime > 0,
        is_epoch_start(epoch, lifetime),
        epoch <= t1 < epoch + lifetime,
        epoch <= t2 < epoch + lifetime,
    ensures
        epoch_of(t1, lifetime) == epoch,
        epoch_of(t2, lifetime) == epoch,
        epoch_of(t1, lifetime) == epoch_of(t2, lifetime),
        epoch_of(epoch + lifetime, lifetime) == epoch + lifetime,
{
    lemma_in_window(epoch, lifetime, t1);
    lemma_in_window(epoch, lifetime, t2);
    lemma_epoch_advance(epoch, lifetime);
}

proof fn lemma_in_window(epoch: nat, lifetime: nat, t: nat)
    requires
        lifetime > 0,
        is_epoch_start(epoch, lifetime),
        epoch <= t < epoch + lifetime,
    ensures
        epoch_of(t, lifetime) == epoch,
{
    lemma_fundamental_div_mod(epoch as int, lifetime as int);
    let q = epoch / lifetime;
    lemma_fundamental_div_mod_converse(t as int, lifetime as int, q as int, t - epoch);
}

} // verus!
