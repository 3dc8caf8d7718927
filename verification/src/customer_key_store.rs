//! The root key of a customer as the key store holds it.

use vstd::prelude::*;

verus! {

/// The root key of a customer, from which the keys of the customer are
/// derived. `X` is a cached public key with its domain and `N` the network
/// that the key is for.
#[derive(Debug)]
pub struct CustomerKey<X, N> {
    /// The key under which the store holds the record.
    pub root_key_id: String,
    /// The root key, encrypted under the data encryption key `dek_id`.
    pub key_ciphertext: String,
    /// The nonce of the encryption.
    pub key_nonce: String,
    /// The extended public key with its origin.
    pub xpub_descriptor: String,
    /// The data encryption key that the root key is encrypted under.
    pub dek_id: String,
    /// Cached public keys with their domains.
    pub xpubs: Vec<X>,
    /// The network of the key; absent in records of old.
    pub network: Option<N>,
    /// The signature over the server public key; absent in records of old.
    pub integrity_signature: Option<String>,
}

impl<X, N> CustomerKey<X, N> {
    /// A new record: its network and its integrity signature are present.
    pub fn new(
        root_key_id: String,
        key_ciphertext: String,
        key_nonce: String,
        xpub_descriptor: String,
        dek_id: String,
        xpubs: Vec<X>,
        network: N,
        integrity_signature: String,
    ) -> (key: Self)
        ensures
            key.root_key_id == root_key_id,
            key.key_ciphertext == key_ciphertext,
            key.key_nonce == key_nonce,
            key.xpub_descriptor == xpub_descriptor,
            key.dek_id == dek_id,
            key.xpubs == xpubs,
            key.network == Some(network),
            key.integrity_signature == Some(integrity_signature),
    {
        CustomerKey {
            root_key_id,
            key_ciphertext,
            key_nonce,
            xpub_descriptor,
            dek_id,
            xpubs,
            network: Some(network),
            integrity_signature: Some(integrity_signature),
        }
    }
}

} // verus!
