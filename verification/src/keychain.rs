//! Storage of the private signing key.
//!
//! The key is stored as the bytes of an OpenSSH private-key file. It goes in once and is
//! never overwritten. [`KeyStore`] is the storage boundary: the platform keychain stands
//! behind it in production, [`MemoryKeyStore`] elsewhere.

use crate::ssh::wire;
use crate::text;
use vstd::prelude::*;

verus! {

/// Keychain service of the signing key: the bundle identifier of the application.
pub const KEYCHAIN_SERVICE: &'static str = "ai.aipowerguild.botbox";

/// Keychain account of the signing key.
pub const KEYCHAIN_ACCOUNT: &'static str = "ssh-signing-key-ed25519";

/// Keychain label of the signing key.
pub const KEYCHAIN_LABEL: &'static str = "Botbox SSH signing key";

/// The keychain's status code for a missing item (`errSecItemNotFound`).
pub const ITEM_NOT_FOUND: i32 = -25300;

/// Errors of the storage layer.
#[derive(Debug)]
pub enum KeyStoreError {
    /// No key is stored.
    NotFound,
    /// The underlying store failed. The cause holds no key material.
    Backend(String),
}

/// The model of a [`KeyStoreError`].
#[verifier::ext_equal]
pub enum KeyStoreErrorView {
    NotFound,
    Backend(Seq<char>),
}

impl View for KeyStoreError {
    type V = KeyStoreErrorView;

    open spec fn view(&self) -> KeyStoreErrorView {
        match self {
            KeyStoreError::NotFound => KeyStoreErrorView::NotFound,
            KeyStoreError::Backend(m) => KeyStoreErrorView::Backend(m@),
        }
    }
}

/// What an error reads.
pub open spec fn error_text(e: KeyStoreErrorView) -> Seq<char> {
    match e {
        KeyStoreErrorView::NotFound => "no key found in store"@,
        KeyStoreErrorView::Backend(m) => "key store backend error: "@ + m,
    }
}

impl KeyStoreError {
    /// What the error reads.
    pub fn to_string(&self) -> (r: String)
        ensures
            r@ == error_text(self@),
    {
        match self {
            KeyStoreError::NotFound => "no key found in store".to_owned(),
            KeyStoreError::Backend(m) => text::joined("key store backend error: ", m.as_str()),
        }
    }
}

/// The error of a keychain call that ended with the status `code`.
pub open spec fn keychain_failure(code: i32, message: Seq<char>) -> KeyStoreErrorView {
    if code == ITEM_NOT_FOUND {
        KeyStoreErrorView::NotFound
    } else {
        KeyStoreErrorView::Backend(message)
    }
}

/// The error of a keychain call that ended with the status `code`.
pub fn keychain_error(code: i32, message: &str) -> (r: KeyStoreError)
    ensures
        r@ == keychain_failure(code, message@),
{
    if code == ITEM_NOT_FOUND {
        KeyStoreError::NotFound
    } else {
        KeyStoreError::Backend(message.to_owned())
    }
}

/// Whether a key is stored, told from an attempt to load it.
pub fn presence(loaded: Result<Vec<u8>, KeyStoreError>) -> (r: Result<bool, KeyStoreError>)
    ensures
        (match loaded {
            Ok(_) => r == Ok::<bool, KeyStoreError>(true),
            Err(KeyStoreError::NotFound) => r == Ok::<bool, KeyStoreError>(false),
            Err(e) => r == Err::<bool, KeyStoreError>(e),
        }),
{
    match loaded {
        Ok(_) => Ok(true),
        Err(KeyStoreError::NotFound) => Ok(false),
        Err(e) => Err(e),
    }
}

/// Storage of the private signing key.
///
/// The `spec` methods are the model that contracts speak of; nothing calls them at run time.
pub trait KeyStore: Send + Sync {
    /// The bytes that are stored.
    spec fn stored(&self) -> Option<wire::Bytes>;

    /// Whether a call may end in the error `e`.
    spec fn failure(&self, e: KeyStoreErrorView) -> bool;

    /// The stored bytes.
    fn load(&self) -> (r: Result<Vec<u8>, KeyStoreError>)
        ensures
            (match r {
                Ok(bytes) => self.stored() == Some(bytes@),
                Err(KeyStoreError::NotFound) => self.stored() is None,
                Err(e) => self.failure(e@),
            }),
    ;

    /// Stores `bytes` if nothing is stored, and says whether it did. What is stored is
    /// never overwritten.
    fn store_if_absent(&mut self, bytes: &[u8]) -> (r: Result<bool, KeyStoreError>)
        ensures
            old(self).stored() is Some ==> final(self).stored() == old(self).stored(),
            (match r {
                Ok(wrote) => {
                    &&& wrote == (old(self).stored() is None)
                    &&& wrote ==> final(self).stored() == Some(bytes@)
                },
                Err(e) => old(self).failure(e@),
            }),
    ;

    /// Whether something is stored.
    fn has_key(&self) -> (r: Result<bool, KeyStoreError>)
        ensures
            (match r {
                Ok(b) => b == (self.stored() is Some),
                Err(e) => e !is NotFound && self.failure(e@),
            }),
    {
        presence(self.load())
    }
}

/// A [`KeyStore`] that holds the bytes in memory.
pub struct MemoryKeyStore {
    inner: Option<Vec<u8>>,
}

impl MemoryKeyStore {
    /// The bytes that are held.
    pub closed spec fn held(&self) -> Option<Seq<u8>> {
        match self.inner {
            Some(bytes) => Some(bytes@),
            None => None,
        }
    }

    /// A store with no key.
    pub fn new() -> (r: Self)
        ensures
            r.stored() is None,
    {
        MemoryKeyStore { inner: None }
    }
}

impl Default for MemoryKeyStore {
    fn default() -> (r: Self)
        ensures
            r.stored() is None,
    {
        MemoryKeyStore::new()
    }
}

impl KeyStore for MemoryKeyStore {
    open spec fn stored(&self) -> Option<Seq<u8>> {
        self.held()
    }

    open spec fn failure(&self, e: KeyStoreErrorView) -> bool {
        false
    }

    fn load(&self) -> (r: Result<Vec<u8>, KeyStoreError>) {
        match &self.inner {
            Some(bytes) => Ok(wire::copied(bytes.as_slice())),
            None => Err(KeyStoreError::NotFound),
        }
    }

    fn store_if_absent(&mut self, bytes: &[u8]) -> (r: Result<bool, KeyStoreError>) {
        if self.inner.is_some() {
            return Ok(false);
        }
        self.inner = Some(wire::copied(bytes));
        Ok(true)
    }
}

/// A place that remembers the public key, so that asking for it needs no access to the
/// private one.
///
/// The `spec` methods are the model that contracts speak of; nothing calls them at run time.
pub trait PublicKeyCache: Send + Sync {
    /// The OpenSSH public-key line that is remembered.
    spec fn remembered(&self) -> Option<text::Text>;

    /// The remembered line.
    fn get(&self) -> (r: Option<String>)
        ensures
            (match r {
                Some(line) => self.remembered() == Some(line@),
                None => self.remembered() is None,
            }),
    ;

    /// Remembers `line`, in place of what was remembered before.
    fn put(&mut self, line: &str)
        ensures
            final(self).remembered() == Some(line@),
    ;
}

/// A [`PublicKeyCache`] in memory.
pub struct MemoryPublicKeyCache {
    line: Option<String>,
}

impl MemoryPublicKeyCache {
    /// The line that is held.
    pub closed spec fn held(&self) -> Option<Seq<char>> {
        match self.line {
            Some(line) => Some(line@),
            None => None,
        }
    }

    /// A cache that remembers nothing yet.
    pub fn new() -> (r: Self)
        ensures
            r.remembered() is None,
    {
        MemoryPublicKeyCache { line: None }
    }
}

impl Default for MemoryPublicKeyCache {
    fn default() -> (r: Self)
        ensures
            r.remembered() is None,
    {
        MemoryPublicKeyCache::new()
    }
}

impl PublicKeyCache for MemoryPublicKeyCache {
    open spec fn remembered(&self) -> Option<Seq<char>> {
        self.held()
    }

    fn get(&self) -> (r: Option<String>) {
        match &self.line {
            Some(line) => Some(line.clone()),
            None => None,
        }
    }

    fn put(&mut self, line: &str) {
        self.line = Some(line.to_owned());
    }
}

/// What each error reads, and that its model holds its cause.
pub proof fn key_store_errors_read(e: KeyStoreError)
    ensures
        e is NotFound ==> error_text(e@) == "no key found in store"@ && e@ is NotFound,
        e matches KeyStoreError::Backend(m) ==> error_text(e@) == "key store backend error: "@ + m@
            && e@ == KeyStoreErrorView::Backend(m@),
{
}

/// Exactly the status of a missing item is a missing key; every other status is a failure
/// that keeps the keychain's message.
pub proof fn only_a_missing_item_is_a_missing_key(code: i32, message: Seq<char>)
    ensures
        code == -25300 ==> keychain_failure(code, message) is NotFound,
        code != -25300 ==> keychain_failure(code, message) == KeyStoreErrorView::Backend(message),
{
}

/// A store in memory never fails.
pub proof fn memory_key_stores_never_fail(store: MemoryKeyStore, e: KeyStoreErrorView)
    ensures
        !store.failure(e),
{
}

} // verus!
