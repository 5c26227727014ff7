//! The key authority: provisions key material for the current and the next
//! epoch into the key store, never replacing material that is complete, and
//! serves complete material by epoch.
use crate::epoch::{epoch_of, is_epoch_start, key_epochs, seconds_until_next_epoch, SECONDS_PER_MINUTE};
use crate::error::KeyManagerError;
use crate::key_id::{key_id, key_id_of, KeyRole};
use crate::store::KeyStore;
use vstd::prelude::*;

verus! {

/// The contents of a key store: bytes by `(epoch, role)`.
pub type StoreContents = Map<(u64, KeyRole), Seq<u8>>;

/// Freshly generated, serialized key material for one epoch.
pub struct KeyMaterial {
    pub params: Vec<u8>,
    pub signing_key: Vec<u8>,
    pub public_key: Vec<u8>,
}

/// The three serialized parts as sequences: `(params, signing key, public key)`.
pub open spec fn material_view(m: &KeyMaterial) -> (Seq<u8>, Seq<u8>, Seq<u8>) {
    (m.params@, m.signing_key@, m.public_key@)
}

/// Whether all three parts of `epoch`'s key material are in the store.
pub open spec fn is_complete(store: StoreContents, epoch: u64) -> bool {
    &&& store.contains_key((epoch, KeyRole::Params))
    &&& store.contains_key((epoch, KeyRole::SigningKey))
    &&& store.contains_key((epoch, KeyRole::PublicKey))
}

/// The store with all three parts of `epoch` written from `m`.
pub open spec fn with_material(store: StoreContents, epoch: u64, m: (Seq<u8>, Seq<u8>, Seq<u8>)) -> StoreContents {
    store.insert((epoch, KeyRole::Params), m.0).insert((epoch, KeyRole::SigningKey), m.1).insert(
        (epoch, KeyRole::PublicKey),
        m.2,
    )
}

/// The store after provisioning `epoch` when missing: complete material is
/// kept as it is, anything else is overwritten by `m`.
pub open spec fn provisioned(store: StoreContents, epoch: u64, m: (Seq<u8>, Seq<u8>, Seq<u8>)) -> StoreContents {
    if is_complete(store, epoch) {
        store
    } else {
        with_material(store, epoch, m)
    }
}

/// The authority's view of one epoch's key material.
pub struct KeyProfile {
    pub params: Vec<u8>,
    pub signing_key: Vec<u8>,
    pub public_key: Vec<u8>,
    pub key_lifetime: u64,
}

/// The key material of one epoch as it is sent to an issuer.
pub struct IssuingKey {
    pub signing_key: Vec<u8>,
    pub public_key: Vec<u8>,
    pub params: Vec<u8>,
}

impl KeyProfile {
    /// The material of this profile in the shape that is sent to an issuer.
    pub fn into_issuing_key(self) -> (r: IssuingKey)
        ensures
            r.signing_key@ == self.signing_key@,
            r.public_key@ == self.public_key@,
            r.params@ == self.params@,
    {
        IssuingKey { signing_key: self.signing_key, public_key: self.public_key, params: self.params }
    }
}

/// The key authority's state: the key store, the key lifetime in seconds and
/// the epochs that the last update made current and next.
pub struct KeyManager {
    store: KeyStore,
    key_lifetime: u64,
    current_epoch: Option<u64>,
    next_epoch: Option<u64>,
}

impl KeyManager {
    /// What the store holds.
    pub closed spec fn keys(&self) -> StoreContents {
        self.store@
    }

    /// The key lifetime, in seconds.
    pub closed spec fn lifetime(&self) -> u64 {
        self.key_lifetime
    }

    /// The epochs set by the last update, as `(current, next)`.
    pub closed spec fn epochs(&self) -> (Option<u64>, Option<u64>) {
        (self.current_epoch, self.next_epoch)
    }

    /// The lifetime is positive; the current and next epochs are set together,
    /// one lifetime apart, and both complete in the store.
    pub closed spec fn wf(&self) -> bool {
        &&& self.key_lifetime > 0
        &&& self.current_epoch.is_some() == self.next_epoch.is_some()
        &&& self.current_epoch.is_some() ==> {
            &&& self.next_epoch.unwrap() == self.current_epoch.unwrap() + self.key_lifetime
            &&& is_complete(self.store@, self.current_epoch.unwrap())
            &&& is_complete(self.store@, self.next_epoch.unwrap())
        }
    }

    /// A manager over `store` with a lifetime of `key_lifetime_minutes`, updated
    /// once at `now`: `current` and `next` are fresh material for the current
    /// and the next epoch, used only where that epoch is not yet complete.
    /// Fails with `ConfigError` when the lifetime is zero or too large for
    /// `now` plus one lifetime to fit in 64 bits.
    pub fn create(
        key_lifetime_minutes: u64,
        store: KeyStore,
        now: u64,
        current: KeyMaterial,
        next: KeyMaterial,
    ) -> (r: Result<KeyManager, KeyManagerError>)
        ensures
            r is Err <==> (key_lifetime_minutes == 0 || now + key_lifetime_minutes * 60 > u64::MAX),
            r is Err ==> r->Err_0 is ConfigError,
            r matches Ok(km) ==> {
                let lt = (key_lifetime_minutes * 60) as u64;
                let e = epoch_of(now as nat, lt as nat) as u64;
                &&& km.wf()
                &&& km.lifetime() == lt
                &&& km.epochs() == (Some(e), Some((e + lt) as u64))
                &&& km.keys() == provisioned(
                    provisioned(store@, e, material_view(&current)),
                    (e + lt) as u64,
                    material_view(&next),
                )
            },
    {
        if key_lifetime_minutes == 0 || key_lifetime_minutes > u64::MAX / SECONDS_PER_MINUTE {
            return Err(KeyManagerError::ConfigError("Key lifetime must be positive and fit in seconds.".to_owned()));
        }
        let key_lifetime = key_lifetime_minutes * SECONDS_PER_MINUTE;
        if now > u64::MAX - key_lifetime {
            return Err(KeyManagerError::ConfigError("Key lifetime is too large.".to_owned()));
        }
        let mut key_manager = KeyManager { store, key_lifetime, current_epoch: None, next_epoch: None };
        key_manager.update_keys(now, current, next);
        Ok(key_manager)
    }

    /// The key lifetime, in seconds.
    pub fn key_lifetime(&self) -> (r: u64)
        ensures
            r == self.lifetime(),
    {
        self.key_lifetime
    }

    /// The epochs that the last update made current and next.
    pub fn current_and_next_epoch(&self) -> (r: (Option<u64>, Option<u64>))
        ensures
            r == self.epochs(),
    {
        (self.current_epoch, self.next_epoch)
    }

    /// The key store.
    pub fn store(&self) -> (r: &KeyStore)
        ensures
            r@ == self.keys(),
    {
        &self.store
    }

    /// The stored part of `epoch` for `role` as it is written to durable
    /// storage: its identifier bytes (`"{epoch}-{suffix}"`) and its contents.
    pub fn storage_record(&self, epoch: u64, role: KeyRole) -> (r: Option<(Vec<u8>, Vec<u8>)>)
        ensures
            r is Some <==> self.keys().contains_key((epoch, role)),
            r matches Some(rec) ==> rec.0@ == key_id_of(epoch, role) && rec.1@ == self.keys()[(epoch, role)],
    {
        match self.store.get(epoch, role) {
            Some(bytes) => Some((key_id(epoch, role), bytes)),
            None => None,
        }
    }

    /// The complete key material of `epoch`. Fails with `NotFoundError` when
    /// any of its three parts is missing, so that material whose provisioning
    /// was interrupted is never handed out.
    pub fn get_key_profile(&self, epoch: u64) -> (r: Result<KeyProfile, KeyManagerError>)
        ensures
            r is Err <==> !is_complete(self.keys(), epoch),
            r is Err ==> r->Err_0 is NotFoundError,
            r matches Ok(p) ==> {
                &&& p.params@ == self.keys()[(epoch, KeyRole::Params)]
                &&& p.signing_key@ == self.keys()[(epoch, KeyRole::SigningKey)]
                &&& p.public_key@ == self.keys()[(epoch, KeyRole::PublicKey)]
                &&& p.key_lifetime == self.lifetime()
            },
    {
        if !self.key_exists(epoch) {
            return Err(KeyManagerError::NotFoundError("Key not found".to_owned()));
        }
        let params = self.read_part(epoch, KeyRole::Params)?;
        let signing_key = self.read_part(epoch, KeyRole::SigningKey)?;
        let public_key = self.read_part(epoch, KeyRole::PublicKey)?;
        Ok(KeyProfile { params, signing_key, public_key, key_lifetime: self.key_lifetime })
    }

    /// One stored part; `NotFoundError` when it is missing.
    fn read_part(&self, epoch: u64, role: KeyRole) -> (r: Result<Vec<u8>, KeyManagerError>)
        ensures
            r is Err <==> !self.keys().contains_key((epoch, role)),
            r is Err ==> r->Err_0 is NotFoundError,
            r matches Ok(b) ==> b@ == self.keys()[(epoch, role)],
    {
        match self.store.get(epoch, role) {
            Some(bytes) => Ok(bytes),
            None => Err(KeyManagerError::NotFoundError("Key part not found.".to_owned())),
        }
    }

    /// Whether all three parts of `epoch`'s material are stored.
    pub fn key_exists(&self, epoch: u64) -> (r: bool)
        ensures
            r == is_complete(self.keys(), epoch),
    {
        self.store.contains(epoch, KeyRole::PublicKey) && self.store.contains(epoch, KeyRole::SigningKey)
            && self.store.contains(epoch, KeyRole::Params)
    }

    /// The current and the next epoch at `now`.
    pub fn get_key_epochs(&self, now: u64) -> (r: (u64, u64))
        requires
            self.wf(),
            now + self.lifetime() <= u64::MAX,
        ensures
            r.0 == epoch_of(now as nat, self.lifetime() as nat),
            r.1 == r.0 + self.lifetime(),
    {
        key_epochs(now, self.key_lifetime)
    }

    /// Provisions the current and the next epoch at `now` where they are not
    /// complete, from `current` and `next`, and records them as current and next.
    pub fn update_keys(&mut self, now: u64, current: KeyMaterial, next: KeyMaterial)
        requires
            old(self).wf(),
            now + old(self).lifetime() <= u64::MAX,
        ensures
            final(self).wf(),
            final(self).lifetime() == old(self).lifetime(),
            final(self).epochs() == (
                Some(epoch_of(now as nat, old(self).lifetime() as nat) as u64),
                Some((epoch_of(now as nat, old(self).lifetime() as nat) + old(self).lifetime()) as u64),
            ),
            final(self).keys() == provisioned(
                provisioned(
                    old(self).keys(),
                    epoch_of(now as nat, old(self).lifetime() as nat) as u64,
                    material_view(&current),
                ),
                (epoch_of(now as nat, old(self).lifetime() as nat) + old(self).lifetime()) as u64,
                material_view(&next),
            ),
    {
        let (current_epoch, next_epoch) = key_epochs(now, self.key_lifetime);
        self.update_key(current_epoch, current);
        self.update_key(next_epoch, next);
        self.current_epoch = Some(current_epoch);
        self.next_epoch = Some(next_epoch);
        proof {
            lemma_provisioned_complete(old(self).store@, current_epoch, material_view(&current));
            let mid = provisioned(old(self).store@, current_epoch, material_view(&current));
            lemma_provisioned_complete(mid, next_epoch, material_view(&next));
            lemma_provisioned_keeps_complete(mid, next_epoch, material_view(&next), current_epoch);
        }
    }

    /// Provisions `epoch` from `material` unless its material is already
    /// complete; returns whether it wrote.
    pub fn update_key(&mut self, epoch: u64, material: KeyMaterial) -> (r: bool)
        ensures
            r == !is_complete(old(self).keys(), epoch),
            final(self).keys() == provisioned(old(self).keys(), epoch, material_view(&material)),
            final(self).lifetime() == old(self).lifetime(),
            final(self).epochs() == old(self).epochs(),
    {
        if !self.key_exists(epoch) {
            self.provision_key(epoch, material);
            true
        } else {
            false
        }
    }

    /// Writes the three parts of `material` under `epoch`.
    fn provision_key(&mut self, epoch: u64, material: KeyMaterial)
        ensures
            final(self).keys() == with_material(old(self).keys(), epoch, material_view(&material)),
            final(self).lifetime() == old(self).lifetime(),
            final(self).epochs() == old(self).epochs(),
    {
        let KeyMaterial { params, signing_key, public_key } = material;
        self.store.put(epoch, KeyRole::Params, params);
        self.store.put(epoch, KeyRole::SigningKey, signing_key);
        self.store.put(epoch, KeyRole::PublicKey, public_key);
    }

    /// Seconds from `now` until the next epoch boundary, where the first
    /// scheduled update is due.
    pub fn calculate_next_key_update(now: u64, key_lifetime: u64) -> (r: u64)
        requires
            key_lifetime > 0,
            now + key_lifetime <= u64::MAX,
        ensures
            r == epoch_of(now as nat, key_lifetime as nat) + key_lifetime - now,
            0 < r <= key_lifetime,
            is_epoch_start((now + r) as nat, key_lifetime as nat),
    {
        seconds_until_next_epoch(now, key_lifetime)
    }
}

/// After provisioning, the epoch's material is complete.
pub proof fn lemma_provisioned_complete(store: StoreContents, epoch: u64, m: (Seq<u8>, Seq<u8>, Seq<u8>))
    ensures
        is_complete(provisioned(store, epoch, m), epoch),
{
}

/// Provisioning one epoch leaves the material of every other epoch as it was.
pub proof fn lemma_provisioned_keeps_complete(
    store: StoreContents,
    epoch: u64,
    m: (Seq<u8>, Seq<u8>, Seq<u8>),
    other: u64,
)
    requires
        is_complete(store, other),
    ensures
        is_complete(provisioned(store, epoch, m), other),
{
}

/// Provisioning an epoch a second time changes nothing, whatever material is
/// offered the second time: the signing key of an epoch, once complete, is
/// never replaced.
pub proof fn lemma_provision_idempotent(
    store: StoreContents,
    epoch: u64,
    first: (Seq<u8>, Seq<u8>, Seq<u8>),
    second: (Seq<u8>, Seq<u8>, Seq<u8>),
)
    ensures
        provisioned(provisioned(store, epoch, first), epoch, second) == provisioned(store, epoch, first),
        provisioned(provisioned(store, epoch, first), epoch, second)[(epoch, KeyRole::SigningKey)]
            == provisioned(store, epoch, first)[(epoch, KeyRole::SigningKey)],
{
    lemma_provisioned_complete(store, epoch, first);
}

} // verus!
