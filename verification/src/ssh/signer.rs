//! The signing key: generated once, kept in a [`KeyStore`], used to sign.
//!
//! [`Signer`] is what the connection authenticates through. It says nothing about where
//! the private key lives, and none of its methods hands the private key out. The one way
//! out is [`Ed25519Signer::export_openssh_private`].

use crate::keychain;
use crate::keychain::{
    KeyStore, KeyStoreError, KeyStoreErrorView, MemoryPublicKeyCache, PublicKeyCache,
};
use crate::ssh::keys;
use crate::ssh::keys::{PrivateKeyView, PublicFields, PublicKey};
use crate::ssh::wire;
use crate::text;
use vstd::prelude::*;

verus! {

/// SSH algorithm identifier of ed25519 keys.
pub const SSH_ED25519: &'static str = "ssh-ed25519";

/// Comment of a generated key.
pub const KEY_COMMENT: &'static str = "botbox";

/// Calls `zeroize::Zeroize::zeroize` on the vector, which overwrites its elements and its
/// spare capacity with zeros and then clears it. Claims that the vector is empty
/// afterwards; that the memory held zeros before it was let go is not stated.
#[verifier::external_body]
fn wipe(bytes: &mut Vec<u8>)
    ensures
        final(bytes)@ == Seq::<u8>::empty(),
    opens_invariants none
    no_unwind
{
    zeroize::Zeroize::zeroize(bytes);
}

/// Secret bytes. They are wiped when dropped and never rendered.
pub struct SecretBytes(Vec<u8>);

impl View for SecretBytes {
    type V = Seq<u8>;

    closed spec fn view(&self) -> Seq<u8> {
        self.0@
    }
}

impl SecretBytes {
    /// Takes charge of `bytes`.
    pub fn new(bytes: Vec<u8>) -> (r: Self)
        ensures
            r@ == bytes@,
    {
        SecretBytes(bytes)
    }

    /// The secret bytes, not to be logged.
    pub fn expose(&self) -> (r: &[u8])
        ensures
            r@ == self@,
    {
        self.0.as_slice()
    }

    /// What a log may show of the bytes: nothing.
    pub fn redacted(&self) -> (r: String)
        ensures
            r@ == "SecretBytes([redacted])"@,
    {
        "SecretBytes([redacted])".to_owned()
    }
}

impl Drop for SecretBytes {
    fn drop(&mut self)
        opens_invariants none
        no_unwind
    {
        wipe(&mut self.0);
    }
}

/// Errors of a signer.
#[derive(Debug)]
pub enum SignerError {
    /// No key has been generated yet.
    NoKey,
    /// The key store failed.
    Store(KeyStoreError),
    /// The stored bytes, or the given ones, are no usable key. The message holds no key
    /// material.
    InvalidKey(String),
    /// The key could not be encoded.
    Encode(String),
}

/// The model of a [`SignerError`].
#[verifier::ext_equal]
pub enum SignerErrorView {
    NoKey,
    Store(KeyStoreErrorView),
    InvalidKey(Seq<char>),
    Encode(Seq<char>),
}

impl View for SignerError {
    type V = SignerErrorView;

    open spec fn view(&self) -> SignerErrorView {
        match self {
            SignerError::NoKey => SignerErrorView::NoKey,
            SignerError::Store(e) => SignerErrorView::Store(e@),
            SignerError::InvalidKey(m) => SignerErrorView::InvalidKey(m@),
            SignerError::Encode(m) => SignerErrorView::Encode(m@),
        }
    }
}

/// What an error reads.
pub open spec fn error_text(e: SignerErrorView) -> Seq<char> {
    match e {
        SignerErrorView::NoKey => "no signing key provisioned"@,
        SignerErrorView::Store(e) => "key store error: "@ + keychain::error_text(e),
        SignerErrorView::InvalidKey(m) => "invalid stored key: "@ + m,
        SignerErrorView::Encode(m) => "key encoding error: "@ + m,
    }
}

impl SignerError {
    /// What the error reads.
    pub fn to_string(&self) -> (r: String)
        ensures
            r@ == error_text(self@),
    {
        match self {
            SignerError::NoKey => "no signing key provisioned".to_owned(),
            SignerError::Store(e) => text::joined("key store error: ", e.to_string().as_str()),
            SignerError::InvalidKey(m) => text::joined("invalid stored key: ", m.as_str()),
            SignerError::Encode(m) => text::joined("key encoding error: ", m.as_str()),
        }
    }
}

/// The signer error that a store error becomes: a missing key is no failure of the store.
pub open spec fn store_failure(e: KeyStoreErrorView) -> SignerErrorView {
    match e {
        KeyStoreErrorView::NotFound => SignerErrorView::NoKey,
        KeyStoreErrorView::Backend(_) => SignerErrorView::Store(e),
    }
}

impl From<KeyStoreError> for SignerError {
    fn from(e: KeyStoreError) -> (r: Self) {
        match e {
            KeyStoreError::NotFound => SignerError::NoKey,
            other => SignerError::Store(other),
        }
    }
}

impl vstd::std_specs::convert::FromSpecImpl<KeyStoreError> for SignerError {
    open spec fn obeys_from_spec() -> bool {
        true
    }

    open spec fn from_spec(e: KeyStoreError) -> SignerError {
        match e {
            KeyStoreError::NotFound => SignerError::NoKey,
            other => SignerError::Store(other),
        }
    }
}

/// The key that the stored bytes hold.
pub open spec fn stored_key(stored: Option<Seq<u8>>) -> Result<PrivateKeyView, SignerErrorView> {
    match stored {
        None => Err(SignerErrorView::NoKey),
        Some(file) => match keys::openssh_private(file) {
            Ok(key) => Ok(key),
            Err(m) => Err(SignerErrorView::InvalidKey(m)),
        },
    }
}

/// The OpenSSH public-key line of the key that the stored bytes hold.
pub open spec fn stored_line(stored: Option<Seq<u8>>) -> Result<Seq<char>, SignerErrorView> {
    match stored_key(stored) {
        Ok(key) => match keys::openssh_public_line(key.public.wire, key.public.comment) {
            Ok(line) => Ok(line),
            Err(m) => Err(SignerErrorView::Encode(m)),
        },
        Err(e) => Err(e),
    }
}

/// The seed of the key that the stored bytes hold.
pub open spec fn stored_seed(stored: Option<Seq<u8>>) -> Result<Seq<u8>, SignerErrorView> {
    match stored_key(stored) {
        Ok(key) => match key.seed {
            Some(seed) => Ok(seed),
            None => Err(SignerErrorView::InvalidKey("stored key is not ed25519"@)),
        },
        Err(e) => Err(e),
    }
}

/// The OpenSSH private-key file that the stored bytes are exported as.
pub open spec fn stored_export(stored: Option<Seq<u8>>) -> Result<Seq<u8>, SignerErrorView> {
    match stored_key(stored) {
        Ok(_) => match keys::openssh_private_rewritten(stored->0) {
            Ok(file) => Ok(file),
            Err(m) => Err(SignerErrorView::Encode(m)),
        },
        Err(e) => Err(e),
    }
}

/// The ed25519 verifying key of the key that the stored bytes hold.
pub open spec fn stored_point(stored: Option<Seq<u8>>) -> Result<Seq<u8>, SignerErrorView> {
    match stored_key(stored) {
        Ok(key) => match key.public.point {
            Some(point) => match keys::ed25519_point_fault(point) {
                None => Ok(point),
                Some(m) => Err(SignerErrorView::InvalidKey(m)),
            },
            None => Err(SignerErrorView::InvalidKey("stored key is not ed25519"@)),
        },
        Err(e) => Err(e),
    }
}

/// The verdict on a signature of a message under the key of an OpenSSH line.
pub open spec fn verification(
    line: Seq<char>,
    message: Seq<u8>,
    signature: Seq<u8>,
) -> Result<(), SignerErrorView> {
    match keys::openssh_public(line) {
        Err(m) => Err(SignerErrorView::InvalidKey(m)),
        Ok(key) => match key.point {
            None => Err(SignerErrorView::InvalidKey("not an ed25519 public key"@)),
            Some(point) => if keys::ed25519_point_fault(point) is Some {
                Err(SignerErrorView::InvalidKey(keys::ed25519_point_fault(point)->0))
            } else if signature.len() != 64 {
                Err(SignerErrorView::InvalidKey("signature error"@))
            } else {
                match keys::ed25519_verify_fault(point, message, signature) {
                    None => Ok(()),
                    Some(m) => Err(SignerErrorView::InvalidKey(m)),
                }
            },
        },
    }
}

/// What the connection authenticates through.
///
/// The `spec` methods are the model that contracts speak of; nothing calls them at run time.
pub trait Signer: Send + Sync {
    /// The SSH algorithm identifier of the key.
    spec fn algorithm_id(&self) -> text::Text;

    /// Whether `line` is the public key.
    spec fn publishes(&self, line: text::Text) -> bool;

    /// Whether `signature` is a signature of `message` under the key.
    spec fn signs(&self, message: wire::Bytes, signature: wire::Bytes) -> bool;

    /// Whether a call may end in the error `e`.
    spec fn fails(&self, e: SignerErrorView) -> bool;

    /// The SSH algorithm identifier of the key.
    fn algorithm(&self) -> (r: &'static str)
        ensures
            r@ == self.algorithm_id(),
    ;

    /// The OpenSSH line of the public key. Asking for it leaves the key as it is.
    fn public_openssh(&mut self) -> (r: Result<String, SignerError>)
        ensures
            final(self).algorithm_id() == old(self).algorithm_id(),
            forall|message: wire::Bytes, signature: wire::Bytes| #[trigger]
                final(self).signs(message, signature) == old(self).signs(message, signature),
            (match r {
                Ok(line) => old(self).publishes(line@),
                Err(e) => old(self).fails(e@),
            }),
    ;

    /// The raw signature of a message.
    fn sign(&self, message: &[u8]) -> (r: Result<Vec<u8>, SignerError>)
        ensures
            (match r {
                Ok(signature) => self.signs(message@, signature@),
                Err(e) => self.fails(e@),
            }),
    ;
}

/// The model of an [`Ed25519Signer`]: the stored bytes and, where there is a cache, the
/// line that it remembers.
#[verifier::ext_equal]
pub struct SignerState {
    pub stored: Option<Seq<u8>>,
    pub cache: Option<Option<Seq<char>>>,
}

impl SignerState {
    /// The remembered public-key line.
    pub open spec fn remembered(self) -> Option<Seq<char>> {
        match self.cache {
            Some(line) => line,
            None => None,
        }
    }

    /// The state in which the cache, if there is one, remembers `line`.
    pub open spec fn remembering(self, line: Seq<char>) -> SignerState {
        SignerState {
            stored: self.stored,
            cache: match self.cache {
                Some(_) => Some(Some(line)),
                None => None,
            },
        }
    }

    /// Whether the remembered line, if there is one, is the line of the stored key.
    pub open spec fn is_coherent(self) -> bool {
        self.remembered() matches Some(line) ==> stored_line(self.stored) == Ok::<
            Seq<char>,
            SignerErrorView,
        >(line)
    }

    /// Whether asking for the public key in this state answers `line` and leads to `after`.
    pub open spec fn publishes(self, line: Seq<char>, after: SignerState) -> bool {
        match self.remembered() {
            Some(known) => line == known && after == self,
            None => {
                &&& stored_line(self.stored) == Ok::<Seq<char>, SignerErrorView>(line)
                &&& after == self.remembering(line)
            },
        }
    }

    /// Whether generating a key in this state answers `line` and leads to `after`: a stored
    /// key is kept and answered as it is; otherwise an ed25519 key has been stored, and the
    /// answer is its line.
    pub open spec fn generates(self, line: Seq<char>, after: SignerState) -> bool {
        if self.stored is Some {
            self.publishes(line, after)
        } else {
            &&& stored_seed(after.stored) is Ok
            &&& stored_line(after.stored) == Ok::<Seq<char>, SignerErrorView>(line)
            &&& after == (SignerState { stored: after.stored, ..self }).remembering(line)
        }
    }
}

/// A private key in use. The seed is wiped when the key is dropped.
struct LoadedKey {
    public: PublicFields,
    seed: Option<SecretBytes>,
}

impl View for LoadedKey {
    type V = PrivateKeyView;

    closed spec fn view(&self) -> PrivateKeyView {
        PrivateKeyView {
            public: self.public@,
            seed: match self.seed {
                Some(s) => Some(s@),
                None => None,
            },
        }
    }
}

/// Reads an OpenSSH private-key file.
fn read_key(file: &[u8]) -> (r: Result<LoadedKey, SignerError>)
    ensures
        (match r {
            Ok(key) => {
                &&& keys::openssh_private(file@) == Ok::<PrivateKeyView, Seq<char>>(key@)
                &&& keys::is_consistent(key@)
            },
            Err(e) => keys::openssh_private(file@) matches Err(m) && e@
                == SignerErrorView::InvalidKey(m),
        }),
{
    match keys::read_private_file(file) {
        Ok(fields) => {
            let seed = match fields.seed {
                Some(seed) => Some(SecretBytes::new(seed)),
                None => None,
            };
            Ok(LoadedKey { public: fields.public, seed })
        },
        Err(e) => Err(SignerError::InvalidKey(e)),
    }
}

/// The OpenSSH line of the public half.
fn public_line(public: &PublicFields) -> (r: Result<String, SignerError>)
    ensures
        (match keys::openssh_public_line(public@.wire, public@.comment) {
            Ok(line) => {
                &&& r matches Ok(l) && l@ == line
                &&& keys::ed25519_encoding(public@.wire) ==> keys::starts_with_algorithm(line)
            },
            Err(m) => r matches Err(e) && e@ == SignerErrorView::Encode(m),
        }),
{
    match keys::write_public_line(public.wire.as_slice(), public.comment.as_str()) {
        Ok(line) => Ok(line),
        Err(e) => Err(SignerError::Encode(e)),
    }
}

/// A [`Signer`] with an ed25519 key that a [`KeyStore`] holds.
///
/// The store has the only lasting copy of the private key: it is read for the duration of
/// a call that needs it. A public-key cache, where there is one, answers for the public
/// key without a look at the private one.
pub struct Ed25519Signer<K: KeyStore, C: PublicKeyCache> {
    store: Box<K>,
    cache: Option<Box<C>>,
}

impl<K: KeyStore> Ed25519Signer<K, MemoryPublicKeyCache> {
    /// A signer over `store`, without a cache. It generates no key.
    pub fn new(store: Box<K>) -> (r: Self)
        ensures
            r.state() == (SignerState { stored: store.stored(), cache: None }),
            r.state().is_coherent(),
            r.store() == *store,
    {
        Ed25519Signer { store, cache: None }
    }
}

impl<K: KeyStore, C: PublicKeyCache> Ed25519Signer<K, C> {
    /// The model of the signer.
    pub closed spec fn state(&self) -> SignerState {
        SignerState {
            stored: self.store.stored(),
            cache: match self.cache {
                Some(cache) => Some(cache.remembered()),
                None => None,
            },
        }
    }

    /// The key store.
    pub closed spec fn store(&self) -> K {
        *self.store
    }

    /// Whether the key store may make a call end in the error `e`.
    pub open spec fn breaks(&self, e: SignerErrorView) -> bool {
        exists|cause: KeyStoreErrorView| #[trigger]
            self.store().failure(cause) && e == store_failure(cause)
    }

    /// The signer with `cache` for its public key.
    pub fn with_public_cache<D: PublicKeyCache>(self, cache: Box<D>) -> (r: Ed25519Signer<K, D>)
        ensures
            r.state() == (SignerState {
                stored: self.state().stored,
                cache: Some(cache.remembered()),
            }),
            r.store() == self.store(),
    {
        Ed25519Signer { store: self.store, cache: Some(cache) }
    }

    fn remember(&mut self, line: &str)
        ensures
            final(self).state() == old(self).state().remembering(line@),
            final(self).store() == old(self).store(),
    {
        match self.cache.take() {
            Some(mut cache) => {
                cache.put(line);
                self.cache = Some(cache);
            },
            None => {},
        }
    }

    /// Loads the stored key.
    fn load_private(&self) -> (r: Result<LoadedKey, SignerError>)
        ensures
            (match r {
                Ok(key) => {
                    &&& stored_key(self.state().stored) == Ok::<PrivateKeyView, SignerErrorView>(
                        key@,
                    )
                    &&& keys::is_consistent(key@)
                },
                Err(e) => {
                    ||| stored_key(self.state().stored) == Err::<PrivateKeyView, SignerErrorView>(
                        e@,
                    )
                    ||| self.breaks(e@)
                },
            }),
    {
        match self.store.load() {
            Ok(bytes) => {
                let secret = SecretBytes::new(bytes);
                read_key(secret.expose())
            },
            Err(e) => {
                assert(e !is NotFound ==> self.store().failure(e@));
                Err(SignerError::from(e))
            },
        }
    }

    /// The line of the stored key, from the store.
    fn stored_public_line(&self) -> (r: Result<String, SignerError>)
        ensures
            (match r {
                Ok(line) => stored_line(self.state().stored) == Ok::<Seq<char>, SignerErrorView>(
                    line@,
                ),
                Err(e) => {
                    ||| stored_line(self.state().stored) == Err::<Seq<char>, SignerErrorView>(e@)
                    ||| self.breaks(e@)
                },
            }),
    {
        match self.load_private() {
            Ok(key) => public_line(&key.public),
            Err(e) => Err(e),
        }
    }

    /// The line of the public key: the remembered one, or else that of the stored key,
    /// which is remembered from then on.
    fn known_public_line(&mut self) -> (r: Result<String, SignerError>)
        ensures
            (match r {
                Ok(line) => old(self).state().publishes(line@, final(self).state()),
                Err(e) => {
                    &&& final(self).state() == old(self).state()
                    &&& old(self).state().remembered() is None
                    &&& {
                        ||| stored_line(old(self).state().stored) == Err::<
                            Seq<char>,
                            SignerErrorView,
                        >(e@)
                        ||| old(self).breaks(e@)
                    }
                },
            }),
            final(self).store() == old(self).store(),
    {
        if let Some(cache) = &self.cache {
            if let Some(line) = cache.get() {
                return Ok(line);
            }
        }
        match self.stored_public_line() {
            Ok(line) => {
                self.remember(line.as_str());
                Ok(line)
            },
            Err(e) => Err(e),
        }
    }

    /// Stores the key of `seed` where none is stored, and answers with its public line. A key
    /// that was just made is not read back.
    fn store_key_of(&mut self, seed: &[u8]) -> (r: Result<String, SignerError>)
        requires
            seed@.len() == 32,
            old(self).state().stored is None,
        ensures
            (match r {
                Ok(line) => {
                    &&& old(self).state().generates(line@, final(self).state())
                    &&& keys::openssh_private_file(seed@, KEY_COMMENT@) == Ok::<
                        Seq<u8>,
                        Seq<char>,
                    >(final(self).state().stored->0)
                    &&& stored_seed(final(self).state().stored) == Ok::<Seq<u8>, SignerErrorView>(
                        seed@,
                    )
                    &&& keys::starts_with_algorithm(line@)
                },
                Err(e) => old(self).breaks(e@) && final(self).state().cache == old(
                    self,
                ).state().cache,
            }),
    {
        proof {
            reveal_strlit("botbox");
        }
        let file = match keys::write_private_file(seed, KEY_COMMENT) {
            Ok(file) => SecretBytes::new(file),
            Err(e) => return Err(SignerError::Encode(e)),
        };
        match self.store.store_if_absent(file.expose()) {
            Ok(true) => {},
            Ok(false) => return self.known_public_line(),
            Err(e) => {
                assert(old(self).store().failure(e@));
                return Err(SignerError::from(e));
            },
        }
        let key = match read_key(file.expose()) {
            Ok(key) => key,
            Err(e) => return Err(e),
        };
        match public_line(&key.public) {
            Ok(line) => {
                self.remember(line.as_str());
                Ok(line)
            },
            Err(e) => Err(e),
        }
    }

    /// Makes sure that there is a key, and answers with its public line. A stored key is
    /// kept; otherwise the key of `seed` is stored.
    pub fn generate_from_seed(&mut self, seed: &[u8]) -> (r: Result<String, SignerError>)
        requires
            seed@.len() == 32,
        ensures
            old(self).state().stored is Some ==> final(self).state().stored == old(
                self,
            ).state().stored,
            (match r {
                Ok(line) => {
                    &&& old(self).state().generates(line@, final(self).state())
                    &&& old(self).state().stored is None ==> {
                        &&& keys::openssh_private_file(seed@, KEY_COMMENT@) == Ok::<
                            Seq<u8>,
                            Seq<char>,
                        >(final(self).state().stored->0)
                        &&& stored_seed(final(self).state().stored) == Ok::<
                            Seq<u8>,
                            SignerErrorView,
                        >(seed@)
                        &&& keys::starts_with_algorithm(line@)
                    }
                },
                Err(e) => {
                    &&& final(self).state().cache == old(self).state().cache
                    &&& {
                        ||| old(self).breaks(e@)
                        ||| {
                            &&& old(self).state().stored is Some
                            &&& old(self).state().remembered() is None
                            &&& stored_line(old(self).state().stored) == Err::<
                                Seq<char>,
                                SignerErrorView,
                            >(e@)
                        }
                    }
                },
            }),
    {
        match self.store.has_key() {
            Ok(true) => self.known_public_line(),
            Ok(false) => self.store_key_of(seed),
            Err(e) => {
                assert(self.store().failure(e@));
                Err(SignerError::from(e))
            },
        }
    }

    /// Makes sure that there is a key, and answers with its public line. A stored key is
    /// kept; otherwise a random one is stored.
    pub fn generate(&mut self) -> (r: Result<String, SignerError>)
        ensures
            old(self).state().stored is Some ==> final(self).state().stored == old(
                self,
            ).state().stored,
            (match r {
                Ok(line) => {
                    &&& old(self).state().generates(line@, final(self).state())
                    &&& old(self).state().stored is None ==> {
                        &&& keys::starts_with_algorithm(line@)
                        &&& exists|seed: Seq<u8>|
                            seed.len() == 32 && #[trigger] keys::openssh_private_file(
                                seed,
                                KEY_COMMENT@,
                            ) == Ok::<Seq<u8>, Seq<char>>(final(self).state().stored->0)
                    }
                },
                Err(e) => {
                    &&& final(self).state().cache == old(self).state().cache
                    &&& {
                        ||| old(self).breaks(e@)
                        ||| {
                            &&& old(self).state().stored is Some
                            &&& old(self).state().remembered() is None
                            &&& stored_line(old(self).state().stored) == Err::<
                                Seq<char>,
                                SignerErrorView,
                            >(e@)
                        }
                    }
                },
            }),
    {
        match self.store.has_key() {
            Ok(true) => self.known_public_line(),
            Ok(false) => {
                let seed = SecretBytes::new(keys::random_seed());
                self.store_key_of(seed.expose())
            },
            Err(e) => {
                assert(self.store().failure(e@));
                Err(SignerError::from(e))
            },
        }
    }

    /// The stored key as an OpenSSH private-key file: the one way out for the private key.
    /// It is text with the OpenSSH private-key header, and that of an ed25519 key reads back as
    /// the same key.
    pub fn export_openssh_private(&self) -> (r: Result<SecretBytes, SignerError>)
        ensures
            (match r {
                Ok(file) => {
                    &&& stored_export(self.state().stored) == Ok::<Seq<u8>, SignerErrorView>(file@)
                    &&& keys::has_private_key_header(file@)
                    &&& stored_seed(self.state().stored) is Ok ==> {
                        &&& stored_key(Some(file@)) == stored_key(self.state().stored)
                        &&& stored_line(Some(file@)) == stored_line(self.state().stored)
                    }
                },
                Err(e) => {
                    ||| stored_export(self.state().stored) == Err::<Seq<u8>, SignerErrorView>(e@)
                        && stored_seed(self.state().stored) is Err
                    ||| self.breaks(e@)
                },
            }),
    {
        let bytes = match self.store.load() {
            Ok(bytes) => SecretBytes::new(bytes),
            Err(e) => {
                assert(e !is NotFound ==> self.store().failure(e@));
                return Err(SignerError::from(e));
            },
        };
        match read_key(bytes.expose()) {
            Ok(_) => {},
            Err(e) => return Err(e),
        }
        match keys::rewrite_private_file(bytes.expose()) {
            Ok(file) => Ok(SecretBytes::new(file)),
            Err(e) => Err(SignerError::Encode(e)),
        }
    }

    /// The encoded ed25519 verifying key of the stored key.
    pub fn verifying_key(&self) -> (r: Result<Vec<u8>, SignerError>)
        ensures
            (match r {
                Ok(point) => stored_point(self.state().stored) == Ok::<Seq<u8>, SignerErrorView>(
                    point@,
                ),
                Err(e) => {
                    ||| stored_point(self.state().stored) == Err::<Seq<u8>, SignerErrorView>(e@)
                    ||| self.breaks(e@)
                },
            }),
    {
        let key = match self.load_private() {
            Ok(key) => key,
            Err(e) => return Err(e),
        };
        match &key.public.point {
            Some(point) => match keys::verifying_point(point.as_slice()) {
                Ok(p) => Ok(p),
                Err(e) => Err(SignerError::InvalidKey(e)),
            },
            None => Err(SignerError::InvalidKey("stored key is not ed25519".to_owned())),
        }
    }
}

impl<K: KeyStore, C: PublicKeyCache> Signer for Ed25519Signer<K, C> {
    open spec fn algorithm_id(&self) -> Seq<char> {
        SSH_ED25519@
    }

    open spec fn publishes(&self, line: Seq<char>) -> bool {
        match self.state().remembered() {
            Some(known) => line == known,
            None => stored_line(self.state().stored) == Ok::<Seq<char>, SignerErrorView>(line),
        }
    }

    open spec fn signs(&self, message: Seq<u8>, signature: Seq<u8>) -> bool {
        stored_seed(self.state().stored) matches Ok(seed) && signature == keys::ed25519_signature(
            seed,
            message,
        )
    }

    open spec fn fails(&self, e: SignerErrorView) -> bool {
        ||| stored_line(self.state().stored) == Err::<Seq<char>, SignerErrorView>(e)
        ||| stored_seed(self.state().stored) == Err::<Seq<u8>, SignerErrorView>(e)
        ||| self.breaks(e)
    }

    fn algorithm(&self) -> (r: &'static str) {
        SSH_ED25519
    }

    /// The remembered line, or else that of the stored key, which is remembered from then
    /// on.
    fn public_openssh(&mut self) -> (r: Result<String, SignerError>)
        ensures
            (match r {
                Ok(line) => old(self).state().publishes(line@, final(self).state()),
                Err(e) => {
                    &&& final(self).state() == old(self).state()
                    &&& old(self).state().remembered() is None
                    &&& {
                        ||| stored_line(old(self).state().stored) == Err::<
                            Seq<char>,
                            SignerErrorView,
                        >(e@)
                        ||| old(self).breaks(e@)
                    }
                },
            }),
    {
        self.known_public_line()
    }

    /// The ed25519 signature of a message under the stored key. It is 64 bytes long and
    /// verifies under the public line of the stored key.
    fn sign(&self, message: &[u8]) -> (r: Result<Vec<u8>, SignerError>)
        ensures
            (match r {
                Ok(signature) => {
                    &&& stored_seed(self.state().stored) matches Ok(seed) && signature@
                        == keys::ed25519_signature(seed, message@)
                    &&& signature@.len() == 64
                    &&& stored_line(self.state().stored) matches Ok(line) && verification(
                        line,
                        message@,
                        signature@,
                    ) == Ok::<(), SignerErrorView>(())
                },
                Err(e) => {
                    ||| stored_seed(self.state().stored) == Err::<Seq<u8>, SignerErrorView>(e@)
                    ||| self.breaks(e@)
                },
            }),
    {
        let key = match self.load_private() {
            Ok(key) => key,
            Err(e) => return Err(e),
        };
        match &key.seed {
            Some(seed) => Ok(keys::sign_with_seed(seed.expose(), message)),
            None => Err(SignerError::InvalidKey("stored key is not ed25519".to_owned())),
        }
    }
}

/// Verifies a raw ed25519 signature of a message under the key of an OpenSSH line. That a
/// signature does not verify for a changed message is the strength of ed25519, and is not
/// stated here.
pub fn verify_openssh_ed25519(public_openssh: &str, message: &[u8], signature: &[u8]) -> (r: Result<
    (),
    SignerError,
>)
    ensures
        (match verification(public_openssh@, message@, signature@) {
            Ok(_) => r is Ok,
            Err(m) => r matches Err(e) && e@ == m,
        }),
{
    let key = match PublicKey::from_openssh(public_openssh) {
        Ok(key) => key,
        Err(e) => return Err(SignerError::InvalidKey(e)),
    };
    let point = match key.ed25519_point() {
        Some(point) => point,
        None => return Err(SignerError::InvalidKey("not an ed25519 public key".to_owned())),
    };
    let point = match keys::verifying_point(point.as_slice()) {
        Ok(point) => point,
        Err(e) => return Err(SignerError::InvalidKey(e)),
    };
    let signature = match keys::signature_bytes(signature) {
        Ok(signature) => signature,
        Err(e) => return Err(SignerError::InvalidKey(e)),
    };
    match keys::verify_with_point(point.as_slice(), message, signature.as_slice()) {
        Ok(_) => Ok(()),
        Err(e) => Err(SignerError::InvalidKey(e)),
    }
}

/// Only a 64-byte signature verifies, and only under a line that holds an ed25519 verifying
/// key; every refusal is that of an invalid key.
pub proof fn only_well_formed_signatures_verify(
    line: Seq<char>,
    message: Seq<u8>,
    signature: Seq<u8>,
)
    ensures
        (match verification(line, message, signature) {
            Ok(_) => {
                &&& signature.len() == 64
                &&& keys::openssh_public(line) matches Ok(key) && key.point matches Some(point)
                    && keys::ed25519_point_fault(point) is None
            },
            Err(e) => e is InvalidKey,
        }),
{
}

/// Generating twice answers the same line twice, and keeps the first key.
pub proof fn generating_is_idempotent(
    before: SignerState,
    first: Seq<char>,
    between: SignerState,
    second: Seq<char>,
    after: SignerState,
)
    requires
        before.is_coherent(),
        before.generates(first, between),
        between.generates(second, after),
    ensures
        second == first,
        after == between,
{
    assert(between.stored is Some);
    if before.remembered() is None {
        assert(between.remembering(first) =~= between);
    }
}

/// After a key was generated the public line is the one that generating answered.
pub proof fn generated_key_is_published(
    before: SignerState,
    line: Seq<char>,
    between: SignerState,
    asked: Seq<char>,
    after: SignerState,
)
    requires
        before.is_coherent(),
        before.generates(line, between),
        between.publishes(asked, after),
    ensures
        asked == line,
        after == between,
{
    if before.remembered() is None {
        assert(between.remembering(line) =~= between);
    }
}

/// The cache never answers for another key than the stored one: generating and asking for
/// the public key keep it coherent.
pub proof fn cache_stays_coherent(before: SignerState, line: Seq<char>, after: SignerState)
    requires
        before.is_coherent(),
        before.generates(line, after) || before.publishes(line, after),
    ensures
        after.is_coherent(),
        before.stored is Some ==> after.stored == before.stored,
        stored_line(after.stored) == Ok::<Seq<char>, SignerErrorView>(line),
{
}

/// Once the public key has been asked for, a cache answers for it from then on, whatever
/// becomes of the store.
pub proof fn cache_answers_after_the_first_time(
    before: SignerState,
    line: Seq<char>,
    after: SignerState,
    store: Option<Seq<u8>>,
)
    requires
        before.cache is Some,
        before.publishes(line, after) || before.generates(line, after),
    ensures
        after.remembered() == Some(line),
        (SignerState { stored: store, ..after }).publishes(
            line,
            SignerState { stored: store, ..after },
        ),
{
}

/// Nothing can be signed, published or exported before there is a key.
pub proof fn no_key_before_generating()
    ensures
        stored_key(None) == Err::<PrivateKeyView, SignerErrorView>(SignerErrorView::NoKey),
        stored_line(None) == Err::<Seq<char>, SignerErrorView>(SignerErrorView::NoKey),
        stored_seed(None) == Err::<Seq<u8>, SignerErrorView>(SignerErrorView::NoKey),
        stored_export(None) == Err::<Seq<u8>, SignerErrorView>(SignerErrorView::NoKey),
        stored_point(None) == Err::<Seq<u8>, SignerErrorView>(SignerErrorView::NoKey),
{
}

/// Without stored bytes there is no key; bytes that hold no key are an invalid key, whatever is
/// asked of them.
pub proof fn bytes_without_a_key_are_invalid(file: Seq<u8>, m: Seq<char>)
    requires
        keys::openssh_private(file) == Err::<PrivateKeyView, Seq<char>>(m),
    ensures
        stored_key(Some(file)) == Err::<PrivateKeyView, SignerErrorView>(
            SignerErrorView::InvalidKey(m),
        ),
        stored_line(Some(file)) == Err::<Seq<char>, SignerErrorView>(
            SignerErrorView::InvalidKey(m),
        ),
        stored_seed(Some(file)) == Err::<Seq<u8>, SignerErrorView>(SignerErrorView::InvalidKey(m)),
        stored_export(Some(file)) == Err::<Seq<u8>, SignerErrorView>(
            SignerErrorView::InvalidKey(m),
        ),
        stored_point(Some(file)) == Err::<Seq<u8>, SignerErrorView>(SignerErrorView::InvalidKey(m)),
{
}

/// What is asked of stored bytes that hold a key is told by that key: its line, its seed, its
/// verifying key and its export, or the failure of each.
pub proof fn stored_keys_answer_for_themselves(file: Seq<u8>, key: PrivateKeyView)
    requires
        keys::openssh_private(file) == Ok::<PrivateKeyView, Seq<char>>(key),
    ensures
        stored_key(Some(file)) == Ok::<PrivateKeyView, SignerErrorView>(key),
        match keys::openssh_public_line(key.public.wire, key.public.comment) {
            Ok(line) => stored_line(Some(file)) == Ok::<Seq<char>, SignerErrorView>(line),
            Err(m) => stored_line(Some(file)) == Err::<Seq<char>, SignerErrorView>(
                SignerErrorView::Encode(m),
            ),
        },
        key.seed matches Some(seed) ==> stored_seed(Some(file)) == Ok::<Seq<u8>, SignerErrorView>(
            seed,
        ),
        key.seed is None ==> stored_seed(Some(file)) == Err::<Seq<u8>, SignerErrorView>(
            SignerErrorView::InvalidKey("stored key is not ed25519"@),
        ),
        match keys::openssh_private_rewritten(file) {
            Ok(f) => stored_export(Some(file)) == Ok::<Seq<u8>, SignerErrorView>(f),
            Err(m) => stored_export(Some(file)) == Err::<Seq<u8>, SignerErrorView>(
                SignerErrorView::Encode(m),
            ),
        },
        key.public.point is None ==> stored_point(Some(file)) == Err::<Seq<u8>, SignerErrorView>(
            SignerErrorView::InvalidKey("stored key is not ed25519"@),
        ),
        key.public.point matches Some(p) ==> match keys::ed25519_point_fault(p) {
            None => stored_point(Some(file)) == Ok::<Seq<u8>, SignerErrorView>(p),
            Some(m) => stored_point(Some(file)) == Err::<Seq<u8>, SignerErrorView>(
                SignerErrorView::InvalidKey(m),
            ),
        },
{
}

/// A signature verifies exactly if the line can be read, holds an ed25519 point that is a
/// verifying key, the signature is 64 bytes long and ed25519 finds no fault; each refusal has
/// the first reason of these.
pub proof fn verification_has_these_reasons(
    line: Seq<char>,
    message: Seq<u8>,
    signature: Seq<u8>,
)
    ensures
        match keys::openssh_public(line) {
            Err(m) => verification(line, message, signature) == Err::<(), SignerErrorView>(
                SignerErrorView::InvalidKey(m),
            ),
            Ok(key) => {
                &&& key.point is None ==> verification(line, message, signature) == Err::<
                    (),
                    SignerErrorView,
                >(SignerErrorView::InvalidKey("not an ed25519 public key"@))
                &&& key.point matches Some(p) ==> {
                    &&& keys::ed25519_point_fault(p) matches Some(m) ==> verification(
                        line,
                        message,
                        signature,
                    ) == Err::<(), SignerErrorView>(SignerErrorView::InvalidKey(m))
                    &&& keys::ed25519_point_fault(p) is None && signature.len() != 64
                        ==> verification(line, message, signature) == Err::<(), SignerErrorView>(
                        SignerErrorView::InvalidKey("signature error"@),
                    )
                    &&& keys::ed25519_point_fault(p) is None && signature.len() == 64 ==> (
                    match keys::ed25519_verify_fault(p, message, signature) {
                        None => verification(line, message, signature) == Ok::<
                            (),
                            SignerErrorView,
                        >(()),
                        Some(m) => verification(line, message, signature) == Err::<
                            (),
                            SignerErrorView,
                        >(SignerErrorView::InvalidKey(m)),
                    })
                }
            },
        },
{
}

/// What each error reads, that its model holds what it carries, and what a failure of the
/// store becomes: a missing key is no key, and every other failure is kept.
pub proof fn signer_errors_read(e: SignerError, cause: KeyStoreError)
    ensures
        e is NoKey ==> error_text(e@) == "no signing key provisioned"@ && e@ is NoKey,
        e matches SignerError::Store(s) ==> error_text(e@) == "key store error: "@
            + keychain::error_text(s@) && e@ == SignerErrorView::Store(s@),
        e matches SignerError::InvalidKey(m) ==> error_text(e@) == "invalid stored key: "@ + m@
            && e@ == SignerErrorView::InvalidKey(m@),
        e matches SignerError::Encode(m) ==> error_text(e@) == "key encoding error: "@ + m@ && e@
            == SignerErrorView::Encode(m@),
        cause is NotFound ==> store_failure(cause@) is NoKey,
        cause matches KeyStoreError::Backend(m) ==> store_failure(cause@) == SignerErrorView::Store(
            KeyStoreErrorView::Backend(m@),
        ),
{
}

/// Asking for the public key answers the remembered line where there is one, and else the line
/// of the stored key, which a cache remembers from then on; the stored key stays as it is.
pub proof fn publishing_answers_the_key(before: SignerState, line: Seq<char>, after: SignerState)
    requires
        before.publishes(line, after),
    ensures
        after.stored == before.stored,
        before.cache matches Some(Some(known)) ==> line == known && after.cache == before.cache,
        !(before.cache matches Some(Some(known))) ==> stored_line(before.stored) == Ok::<
            Seq<char>,
            SignerErrorView,
        >(line),
        before.cache == Some(None::<Seq<char>>) ==> after.cache == Some(Some(line)),
        before.cache is None ==> after.cache is None,
{
}

/// Generating where nothing is stored stores an ed25519 key, answers its line, and has a cache
/// remember that line; where something is stored, it stays and is answered for.
pub proof fn generating_stores_a_key_once(before: SignerState, line: Seq<char>, after: SignerState)
    requires
        before.generates(line, after),
    ensures
        before.stored is Some ==> after.stored == before.stored && before.publishes(line, after),
        before.stored is None ==> stored_seed(after.stored) is Ok && stored_line(after.stored)
            == Ok::<Seq<char>, SignerErrorView>(line),
        before.stored is None && before.cache is Some ==> after.cache == Some(Some(line)),
        before.cache is None ==> after.cache is None,
{
}

/// A signer's key is the one in its store, and it fails of its own only as that key makes it
/// fail or as the store does.
pub proof fn a_signer_speaks_for_its_store<K: KeyStore, C: PublicKeyCache>(
    s: Ed25519Signer<K, C>,
    line: Seq<char>,
    message: Seq<u8>,
    signature: Seq<u8>,
    e: SignerErrorView,
)
    ensures
        s.state().stored == s.store().stored(),
        s.algorithm_id() == "ssh-ed25519"@,
        Signer::publishes(&s, line) ==> match s.state().cache {
            Some(Some(known)) => line == known,
            _ => stored_line(s.store().stored()) == Ok::<Seq<char>, SignerErrorView>(line),
        },
        s.signs(message, signature) <==> (stored_seed(s.store().stored()) matches Ok(seed)
            && signature == keys::ed25519_signature(seed, message)),
        s.fails(e) ==> stored_line(s.store().stored()) == Err::<Seq<char>, SignerErrorView>(e)
            || stored_seed(s.store().stored()) == Err::<Seq<u8>, SignerErrorView>(e) || (
        exists|cause: KeyStoreErrorView| #[trigger]
            s.store().failure(cause) && e == store_failure(cause)),
        s.breaks(e) ==> exists|cause: KeyStoreErrorView| #[trigger]
            s.store().failure(cause) && e == store_failure(cause),
{
}

/// A missing key in the store becomes the lack of a key, and a failure of the store is kept.
pub proof fn store_errors_become_signer_errors(cause: KeyStoreError, e: SignerError)
    requires
        e == <SignerError as vstd::std_specs::convert::FromSpec<KeyStoreError>>::from_spec(cause),
    ensures
        cause is NotFound ==> e is NoKey,
        cause is Backend ==> e == SignerError::Store(cause),
{
}

/// A cache is coherent exactly if what it remembers, where it remembers anything, is the line of
/// the stored key.
pub proof fn coherent_means_the_stored_line(s: SignerState)
    ensures
        s.is_coherent() <==> match s.cache {
            Some(Some(line)) => stored_line(s.stored) == Ok::<Seq<char>, SignerErrorView>(line),
            _ => true,
        },
{
}

} // verus!
