//! The key store: an append-only ledger of key-material parts, each filed
//! under an `(epoch, role)` pair. A later write of the same pair supersedes an
//! earlier one; nothing is ever removed.
use crate::key_id::KeyRole;
use vstd::prelude::*;

verus! {

/// One write to the ledger.
pub struct StoredPart {
    pub epoch: u64,
    pub role: KeyRole,
    pub bytes: Vec<u8>,
}

/// The bytes most recently written under `key` in `log`, if any.
pub open spec fn latest(log: Seq<StoredPart>, key: (u64, KeyRole)) -> Option<Seq<u8>>
    decreases log.len(),
{
    if log.len() == 0 {
        None
    } else if log.last().epoch == key.0 && log.last().role == key.1 {
        Some(log.last().bytes@)
    } else {
        latest(log.drop_last(), key)
    }
}

/// The mapping from `(epoch, role)` to the latest bytes written under it.
pub open spec fn contents(log: Seq<StoredPart>) -> Map<(u64, KeyRole), Seq<u8>> {
    Map::new(|k: (u64, KeyRole)| latest(log, k).is_some(), |k: (u64, KeyRole)| latest(log, k).unwrap())
}

/// The store of serialized key material, by epoch and role.
pub struct KeyStore {
    log: Vec<StoredPart>,
}

impl View for KeyStore {
    type V = Map<(u64, KeyRole), Seq<u8>>;

    closed spec fn view(&self) -> Map<(u64, KeyRole), Seq<u8>> {
        contents(self.log@)
    }
}

/// A copy of a byte vector.
pub fn copy_bytes(v: &Vec<u8>) -> (r: Vec<u8>)
    ensures
        r@ == v@,
{
    let mut r: Vec<u8> = Vec::with_capacity(v.len());
    let mut i: usize = 0;
    while i < v.len()
        invariant
            i <= v.len(),
            r@ == v@.take(i as int),
        decreases v.len() - i,
    {
        r.push(v[i]);
        i += 1;
        assert(r@ =~= v@.take(i as int));
    }
    assert(v@.take(v.len() as int) =~= v@);
    r
}

impl KeyStore {
    /// An empty store.
    pub fn new() -> (r: KeyStore)
        ensures
            r@ == Map::<(u64, KeyRole), Seq<u8>>::empty(),
    {
        let r = KeyStore { log: Vec::new() };
        assert(r@ =~= Map::<(u64, KeyRole), Seq<u8>>::empty());
        r
    }

    /// Whether a part is stored under `(epoch, role)`.
    pub fn contains(&self, epoch: u64, role: KeyRole) -> (r: bool)
        ensures
            r == self@.contains_key((epoch, role)),
    {
        match self.get(epoch, role) {
            Some(_) => true,
            None => false,
        }
    }

    /// The bytes stored under `(epoch, role)`, if any.
    pub fn get(&self, epoch: u64, role: KeyRole) -> (r: Option<Vec<u8>>)
        ensures
            r.is_some() == self@.contains_key((epoch, role)),
            r.is_some() ==> r.unwrap()@ == self@[(epoch, role)],
    {
        let mut i: usize = self.log.len();
        assert(self.log@.take(i as int) =~= self.log@);
        while i > 0
            invariant
                i <= self.log.len(),
                latest(self.log@.take(i as int), (epoch, role)) == latest(self.log@, (epoch, role)),
            decreases i,
        {
            let part = &self.log[i - 1];
            proof {
                assert(self.log@.take(i as int).drop_last() =~= self.log@.take(i - 1));
            }
            if part.epoch == epoch && part.role == role {
                return Some(copy_bytes(&part.bytes));
            }
            i -= 1;
        }
        None
    }

    /// Files `bytes` under `(epoch, role)`, superseding what was there.
    pub fn put(&mut self, epoch: u64, role: KeyRole, bytes: Vec<u8>)
        ensures
            final(self)@ == old(self)@.insert((epoch, role), bytes@),
    {
        let ghost before = self.log@;
        self.log.push(StoredPart { epoch, role, bytes });
        proof {
            assert(self.log@.drop_last() =~= before);
        }
        assert(self@ =~= old(self)@.insert((epoch, role), bytes@));
    }
}

} // verus!
