//! The storage of a browser client: its key store, reply store and credential
//! store, held together.

use vstd::prelude::*;

verus! {

/// The three stores of a browser client.
pub struct FullWasmClientStorage<K, R, C> {
    key_store: K,
    reply_storage: R,
    credential_storage: C,
}

impl<K, R, C> FullWasmClientStorage<K, R, C> {
    pub closed spec fn spec_key_store(self) -> K {
        self.key_store
    }

    pub closed spec fn spec_reply_store(self) -> R {
        self.reply_storage
    }

    pub closed spec fn spec_credential_store(self) -> C {
        self.credential_storage
    }

    pub fn new(key_store: K, reply_storage: R, credential_storage: C) -> (res: Self)
        ensures
            res.spec_key_store() == key_store,
            res.spec_reply_store() == reply_storage,
            res.spec_credential_store() == credential_storage,
    {
        FullWasmClientStorage { key_store, reply_storage, credential_storage }
    }

    /// The three stores, taken apart.
    pub fn into_split(self) -> (res: (K, R, C))
        ensures
            res == (self.spec_key_store(), self.spec_reply_store(), self.spec_credential_store()),
    {
        (self.key_store, self.reply_storage, self.credential_storage)
    }

    pub fn key_store(&self) -> (res: &K)
        ensures
            *res == self.spec_key_store(),
    {
        &self.key_store
    }

    pub fn reply_store(&self) -> (res: &R)
        ensures
            *res == self.spec_reply_store(),
    {
        &self.reply_storage
    }

    pub fn credential_store(&self) -> (res: &C)
        ensures
            *res == self.spec_credential_store(),
    {
        &self.credential_storage
    }
}

} // verus!
