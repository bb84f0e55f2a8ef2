//! SSH keys as plain values, and the key operations that the `ssh-key` and
//! `ed25519-dalek` crates perform on them.
//!
//! A public key is its wire encoding and a comment. What the two crates compute from
//! plain values has a name here (`openssh_public` and its siblings), and every contract
//! of the library that depends on a key operation speaks of these names. The functions
//! that make the calls are not proved; each states what it claims of its call.

use crate::ssh::wire;
use vstd::prelude::*;

verus! {

/// The model of a [`PublicKey`]: the wire encoding of its key data, its comment and, for
/// an ed25519 key, the encoded curve point.
#[verifier::ext_equal]
pub struct PublicKeyView {
    pub wire: Seq<u8>,
    pub comment: Seq<char>,
    pub point: Option<Seq<u8>>,
}

/// The model of a private key: its public half and, for an unencrypted ed25519 key, the
/// secret seed.
#[verifier::ext_equal]
pub struct PrivateKeyView {
    pub public: PublicKeyView,
    pub seed: Option<Seq<u8>>,
}

/// The public key that an OpenSSH public-key line holds, or why it holds none.
pub uninterp spec fn openssh_public(line: Seq<char>) -> Result<PublicKeyView, Seq<char>>;

/// The OpenSSH public-key line of a wire encoding and a comment, or why there is none.
pub uninterp spec fn openssh_public_line(
    wire: Seq<u8>,
    comment: Seq<char>,
) -> Result<Seq<char>, Seq<char>>;

/// The SHA-256 fingerprint of a wire encoding, if it encodes a public key.
pub uninterp spec fn key_fingerprint(wire: Seq<u8>) -> Option<Seq<char>>;

/// The key that an OpenSSH private-key file holds, or why it holds none.
pub uninterp spec fn openssh_private(file: Seq<u8>) -> Result<PrivateKeyView, Seq<char>>;

/// The OpenSSH private-key file that an OpenSSH private-key file is rewritten to.
pub uninterp spec fn openssh_private_rewritten(file: Seq<u8>) -> Result<Seq<u8>, Seq<char>>;

/// The OpenSSH private-key file of an ed25519 seed and a comment, or why there is none.
pub uninterp spec fn openssh_private_file(
    seed: Seq<u8>,
    comment: Seq<char>,
) -> Result<Seq<u8>, Seq<char>>;

/// The encoded public point of an ed25519 seed.
pub uninterp spec fn ed25519_point(seed: Seq<u8>) -> Seq<u8>;

/// The ed25519 signature of a message under a seed.
pub uninterp spec fn ed25519_signature(seed: Seq<u8>, message: Seq<u8>) -> Seq<u8>;

/// Why an encoded point is no ed25519 verifying key, if it is none.
pub uninterp spec fn ed25519_point_fault(point: Seq<u8>) -> Option<Seq<char>>;

/// Why an ed25519 signature of a message does not verify, if it does not.
pub uninterp spec fn ed25519_verify_fault(
    point: Seq<u8>,
    message: Seq<u8>,
    signature: Seq<u8>,
) -> Option<Seq<char>>;

/// What is read out of a public key.
pub struct PublicFields {
    pub wire: Vec<u8>,
    pub comment: String,
    pub point: Option<Vec<u8>>,
}

impl View for PublicFields {
    type V = PublicKeyView;

    open spec fn view(&self) -> PublicKeyView {
        PublicKeyView {
            wire: self.wire@,
            comment: self.comment@,
            point: match self.point {
                Some(p) => Some(p@),
                None => None,
            },
        }
    }
}

/// What is read out of a private key. The seed is secret.
pub struct PrivateFields {
    pub public: PublicFields,
    pub seed: Option<Vec<u8>>,
}

impl View for PrivateFields {
    type V = PrivateKeyView;

    open spec fn view(&self) -> PrivateKeyView {
        PrivateKeyView {
            public: self.public@,
            seed: match self.seed {
                Some(s) => Some(s@),
                None => None,
            },
        }
    }
}

/// Whether `line` reads back as the key data `wire` with the point `point`.
pub open spec fn line_holds(line: Seq<char>, wire: Seq<u8>, point: Option<Seq<u8>>) -> bool {
    match openssh_public(line) {
        Ok(k) => k.wire == wire && k.point == point,
        Err(_) => false,
    }
}

/// Whether `key` has a fingerprint and an OpenSSH line that reads back as `key`.
pub open spec fn is_readable(key: PublicKeyView) -> bool {
    &&& key_fingerprint(key.wire) is Some
    &&& openssh_public_line(key.wire, key.comment) matches Ok(line) && openssh_public(line) == Ok::<
        PublicKeyView,
        Seq<char>,
    >(key)
}

/// What holds of every private key that was read from a file: an ed25519 public half starts
/// with its algorithm name and has an OpenSSH line that reads back as the same key data,
/// and a seed has the point of the public half, which is a verifying key.
pub open spec fn is_consistent(key: PrivateKeyView) -> bool {
    &&& key.public.point is Some ==> {
        &&& ed25519_encoding(key.public.wire)
        &&& openssh_public_line(key.public.wire, key.public.comment) matches Ok(line) && line_holds(
            line,
            key.public.wire,
            key.public.point,
        )
    }
    &&& key.seed matches Some(seed) ==> {
        &&& seed.len() == 32
        &&& key.public.point == Some(ed25519_point(seed))
        &&& ed25519_point_fault(ed25519_point(seed)) is None
    }
}

/// Calls `ssh_key::PublicKey::from_openssh`, and takes the key data apart with
/// `to_bytes`, `comment` and `ed25519`. Claims that the outcome depends on the line alone
/// (it has the name `openssh_public`), and that a key read from a line has a fingerprint
/// and is written back, with its comment, as a line that reads as the same key.
#[verifier::external_body]
pub(crate) fn read_public_line(line: &str) -> (r: Result<PublicFields, String>)
    ensures
        (match r {
            Ok(k) => openssh_public(line@) == Ok::<PublicKeyView, Seq<char>>(k@) && is_readable(k@),
            Err(e) => openssh_public(line@) == Err::<PublicKeyView, Seq<char>>(e@),
        }),
{
    let key = ssh_key::PublicKey::from_openssh(line).map_err(|e| e.to_string())?;
    Ok(PublicFields {
        wire: key.to_bytes().map_err(|e| e.to_string())?,
        comment: key.comment().to_string(),
        point: key.key_data().ed25519().map(|p| p.0.to_vec()),
    })
}

/// Calls `ssh_key::PublicKey::to_openssh` on the key that `from_bytes` and `set_comment`
/// make of the arguments. Claims that the outcome depends on the arguments alone (it has
/// the name `openssh_public_line`), and that the line of an `ssh-ed25519` encoding starts
/// with that algorithm name and a space.
#[verifier::external_body]
pub(crate) fn write_public_line(wire: &[u8], comment: &str) -> (r: Result<String, String>)
    ensures
        (match r {
            Ok(line) => {
                &&& openssh_public_line(wire@, comment@) == Ok::<Seq<char>, Seq<char>>(line@)
                &&& ed25519_encoding(wire@) ==> starts_with_algorithm(line@)
            },
            Err(e) => openssh_public_line(wire@, comment@) == Err::<Seq<char>, Seq<char>>(e@),
        }),
{
    let mut key = ssh_key::PublicKey::from_bytes(wire).map_err(|e| e.to_string())?;
    key.set_comment(comment);
    key.to_openssh().map_err(|e| e.to_string())
}

/// Whether `wire` starts with the wire string `ssh-ed25519`.
pub open spec fn ed25519_encoding(wire: Seq<u8>) -> bool {
    wire.len() >= 15 && wire.take(15) == wire::ssh_string(vstd::utf8::encode_utf8("ssh-ed25519"@))
}

/// Whether `line` starts with `ssh-ed25519` and a space.
pub open spec fn starts_with_algorithm(line: Seq<char>) -> bool {
    line.len() >= 12 && line.take(12) == "ssh-ed25519 "@
}

/// Calls `ssh_key::PublicKey::fingerprint` with SHA-256 on the key that `from_bytes` makes
/// of `wire`, and renders it. Claims that the outcome depends on `wire` alone (it has the
/// name `key_fingerprint`), and that it is `SHA256:` and the 43 characters of an unpadded
/// Base64 digest.
#[verifier::external_body]
pub(crate) fn fingerprint_of(wire: &[u8]) -> (r: Option<String>)
    ensures
        (match r {
            Some(f) => {
                &&& key_fingerprint(wire@) == Some(f@)
                &&& f@.len() == 50
                &&& f@.take(7) == "SHA256:"@
            },
            None => key_fingerprint(wire@) is None,
        }),
{
    let key = ssh_key::PublicKey::from_bytes(wire).ok()?;
    Some(key.fingerprint(ssh_key::HashAlg::Sha256).to_string())
}

/// Calls `ssh_key::PrivateKey::from_openssh` and takes the key apart. Claims that the
/// outcome depends on the file alone (it has the name `openssh_private`); that the key data
/// of an ed25519 public half starts with its algorithm name and is written as a line that
/// reads back as the same key data; and that the seed of an ed25519 key belongs to the point
/// of its public half, which is a verifying key.
#[verifier::external_body]
pub(crate) fn read_private_file(file: &[u8]) -> (r: Result<PrivateFields, String>)
    ensures
        (match r {
            Ok(k) => {
                &&& openssh_private(file@) == Ok::<PrivateKeyView, Seq<char>>(k@)
                &&& is_consistent(k@)
            },
            Err(e) => openssh_private(file@) == Err::<PrivateKeyView, Seq<char>>(e@),
        }),
{
    let key = ssh_key::PrivateKey::from_openssh(file).map_err(|e| e.to_string())?;
    let public = PublicFields {
        wire: key.public_key().to_bytes().map_err(|e| e.to_string())?,
        comment: key.public_key().comment().to_string(),
        point: key.public_key().key_data().ed25519().map(|p| p.0.to_vec()),
    };
    Ok(PrivateFields { public, seed: key.key_data().ed25519().map(|k| k.private.to_bytes().to_vec()) })
}

/// Calls `ssh_key::PrivateKey::to_openssh`, with line feeds, on the key that
/// `from_openssh` reads from `file`. Claims that the outcome depends on `file` alone (it
/// has the name `openssh_private_rewritten`), that it is text with the OpenSSH private-key
/// header, and that an ed25519 key is rewritten to a file that holds the same key.
#[verifier::external_body]
pub(crate) fn rewrite_private_file(file: &[u8]) -> (r: Result<Vec<u8>, String>)
    ensures
        (match r {
            Ok(f) => {
                &&& openssh_private_rewritten(file@) == Ok::<Seq<u8>, Seq<char>>(f@)
                &&& has_private_key_header(f@)
                &&& holds_seed(file@) ==> openssh_private(f@) == openssh_private(file@)
            },
            Err(e) => {
                &&& openssh_private_rewritten(file@) == Err::<Seq<u8>, Seq<char>>(e@)
                &&& !holds_seed(file@)
            },
        }),
{
    let key = ssh_key::PrivateKey::from_openssh(file).map_err(|e| e.to_string())?;
    let text = key.to_openssh(ssh_key::LineEnding::LF).map_err(|e| e.to_string())?;
    Ok(text.as_bytes().to_vec())
}

/// Calls `ssh_key::PrivateKey::to_openssh`, with line feeds, on the ed25519 key that
/// `Ed25519Keypair::from_seed` and `PrivateKey::new` make of the arguments. Claims that
/// the outcome depends on the arguments alone (it has the name `openssh_private_file`),
/// and that under a comment of at most 255 characters there is such a file, which reads
/// back as the key of that seed and that comment.
#[verifier::external_body]
pub(crate) fn write_private_file(seed: &[u8], comment: &str) -> (r: Result<Vec<u8>, String>)
    requires
        seed@.len() == 32,
    ensures
        (match r {
            Ok(f) => {
                &&& openssh_private_file(seed@, comment@) == Ok::<Seq<u8>, Seq<char>>(f@)
                &&& comment@.len() <= 255 ==> file_holds(f@, seed@, comment@)
            },
            Err(e) => {
                &&& openssh_private_file(seed@, comment@) == Err::<Seq<u8>, Seq<char>>(e@)
                &&& comment@.len() > 255
            },
        }),
{
    let seed: [u8; 32] = seed.try_into().map_err(|_| "seed length".to_string())?;
    let pair = ssh_key::private::Ed25519Keypair::from_seed(&seed);
    let data = ssh_key::private::KeypairData::Ed25519(pair);
    let key = ssh_key::PrivateKey::new(data, comment).map_err(|e| e.to_string())?;
    let text = key.to_openssh(ssh_key::LineEnding::LF).map_err(|e| e.to_string())?;
    Ok(text.as_bytes().to_vec())
}

/// Whether `file` is UTF-8 text that starts with five hyphens and the OpenSSH private-key
/// header.
pub open spec fn has_private_key_header(file: Seq<u8>) -> bool {
    &&& vstd::utf8::valid_utf8(file)
    &&& file.len() >= 30
    &&& forall|i: int| 0 <= i < 5 ==> #[trigger] file[i] == 0x2d
    &&& file.subrange(5, 30) == vstd::utf8::encode_utf8("BEGIN OPENSSH PRIVATE KEY"@)
}

/// Whether `file` holds an unencrypted ed25519 key.
pub open spec fn holds_seed(file: Seq<u8>) -> bool {
    match openssh_private(file) {
        Ok(k) => k.seed is Some,
        Err(_) => false,
    }
}

/// Whether `file` reads back as the ed25519 key of `seed` with `comment`.
pub open spec fn file_holds(file: Seq<u8>, seed: Seq<u8>, comment: Seq<char>) -> bool {
    match openssh_private(file) {
        Ok(k) => k.seed == Some(seed) && k.public.comment == comment,
        Err(_) => false,
    }
}

/// Calls `ssh_key::private::Ed25519Keypair::random` over `rand_core::OsRng` and hands out
/// the secret seed. Claims nothing of the seed but its length: it is chance. The call
/// panics when the operating system has no randomness to give.
#[verifier::external_body]
pub(crate) fn random_seed() -> (r: Vec<u8>)
    ensures
        r@.len() == 32,
{
    ssh_key::private::Ed25519Keypair::random(&mut rand_core::OsRng).private.to_bytes().to_vec()
}

/// Calls `ed25519_dalek::SigningKey::sign` with the key of `seed`. Claims that the
/// signature depends on the arguments alone (it has the name `ed25519_signature`), that it
/// is 64 bytes long, and that it verifies under the point of the seed.
#[verifier::external_body]
pub(crate) fn sign_with_seed(seed: &[u8], message: &[u8]) -> (r: Vec<u8>)
    requires
        seed@.len() == 32,
    ensures
        r@ == ed25519_signature(seed@, message@),
        r@.len() == 64,
        ed25519_verify_fault(ed25519_point(seed@), message@, r@) is None,
{
    let mut secret = [0u8; 32];
    secret.copy_from_slice(seed);
    let key = ed25519_dalek::SigningKey::from_bytes(&secret);
    zeroize::Zeroize::zeroize(&mut secret);
    ed25519_dalek::Signer::sign(&key, message).to_vec()
}

/// Calls `ed25519_dalek::VerifyingKey::try_from` on the `ssh-key` form of `point`. Claims
/// that the outcome depends on the point alone (its error has the name
/// `ed25519_point_fault`) and that the verifying key is encoded as the point it was made of.
#[verifier::external_body]
pub(crate) fn verifying_point(point: &[u8]) -> (r: Result<Vec<u8>, String>)
    ensures
        (match r {
            Ok(p) => ed25519_point_fault(point@) is None && p@ == point@,
            Err(e) => ed25519_point_fault(point@) == Some(e@),
        }),
{
    let key = ssh_key::public::Ed25519PublicKey::try_from(point).map_err(|e| e.to_string())?;
    let key = ed25519_dalek::VerifyingKey::try_from(&key).map_err(|e| e.to_string())?;
    Ok(key.to_bytes().to_vec())
}

/// Calls `ed25519_dalek::Signature::try_from`. Claims that exactly the 64-byte strings are
/// signatures, and what the error reads.
#[verifier::external_body]
pub(crate) fn signature_bytes(bytes: &[u8]) -> (r: Result<Vec<u8>, String>)
    ensures
        (match r {
            Ok(s) => bytes@.len() == 64 && s@ == bytes@,
            Err(e) => bytes@.len() != 64 && e@ == "signature error"@,
        }),
{
    let signature = ed25519_dalek::Signature::try_from(bytes).map_err(|e| e.to_string())?;
    Ok(signature.to_vec())
}

/// Calls `ed25519_dalek::VerifyingKey::verify` on the ed25519 forms of `point` and
/// `signature`. Claims that the outcome depends on the arguments alone: its error has the
/// name `ed25519_verify_fault`. That a signature of one message does not verify for another
/// one is not claimed: it rests on how hard such messages are to find.
#[verifier::external_body]
pub(crate) fn verify_with_point(point: &[u8], message: &[u8], signature: &[u8]) -> (r: Result<
    (),
    String,
>)
    requires
        ed25519_point_fault(point@) is None,
        signature@.len() == 64,
    ensures
        (match r {
            Ok(_) => ed25519_verify_fault(point@, message@, signature@) is None,
            Err(e) => ed25519_verify_fault(point@, message@, signature@) == Some(e@),
        }),
{
    let key = ed25519_dalek::VerifyingKey::try_from(point).map_err(|e| e.to_string())?;
    let signature = ed25519_dalek::Signature::try_from(signature).map_err(|e| e.to_string())?;
    ed25519_dalek::Verifier::verify(&key, message, &signature).map_err(|e| e.to_string())
}

/// An SSH public key that was read from an OpenSSH line.
pub struct PublicKey {
    fields: PublicFields,
}

impl View for PublicKey {
    type V = PublicKeyView;

    closed spec fn view(&self) -> PublicKeyView {
        self.fields@
    }
}

impl PublicKey {
    #[verifier::type_invariant]
    closed spec fn inv(&self) -> bool {
        is_readable(self.fields@)
    }

    /// Reads an OpenSSH public-key line.
    pub fn from_openssh(line: &str) -> (r: Result<PublicKey, String>)
        ensures
            (match r {
                Ok(k) => openssh_public(line@) == Ok::<PublicKeyView, Seq<char>>(k@),
                Err(e) => openssh_public(line@) == Err::<PublicKeyView, Seq<char>>(e@),
            }),
    {
        match read_public_line(line) {
            Ok(fields) => Ok(PublicKey { fields }),
            Err(e) => Err(e),
        }
    }

    /// The OpenSSH line of the key. It reads back as the same key.
    pub fn to_openssh(&self) -> (r: Result<String, String>)
        ensures
            (match r {
                Ok(line) => {
                    &&& openssh_public_line(self@.wire, self@.comment) == Ok::<
                        Seq<char>,
                        Seq<char>,
                    >(line@)
                    &&& openssh_public(line@) == Ok::<PublicKeyView, Seq<char>>(self@)
                },
                Err(_) => false,
            }),
    {
        proof {
            use_type_invariant(self);
        }
        write_public_line(self.fields.wire.as_slice(), self.fields.comment.as_str())
    }

    /// The SHA-256 fingerprint of the key.
    pub fn fingerprint(&self) -> (r: String)
        ensures
            key_fingerprint(self@.wire) == Some(r@),
            r@.len() == 50,
            r@.take(7) == "SHA256:"@,
    {
        proof {
            use_type_invariant(self);
        }
        match fingerprint_of(self.fields.wire.as_slice()) {
            Some(f) => f,
            None => {
                assert(false);
                String::new()
            },
        }
    }

    /// Whether two keys have the same key data, whatever their comments.
    pub fn same_key(&self, other: &PublicKey) -> (r: bool)
        ensures
            r == (self@.wire == other@.wire),
    {
        wire::same_bytes(self.fields.wire.as_slice(), other.fields.wire.as_slice())
    }

    /// The encoded curve point of an ed25519 key.
    pub fn ed25519_point(&self) -> (r: Option<Vec<u8>>)
        ensures
            (match r {
                Some(p) => self@.point == Some(p@),
                None => self@.point is None,
            }),
    {
        match &self.fields.point {
            Some(p) => Some(wire::copied(p.as_slice())),
            None => None,
        }
    }
}

/// The models of what is read out of a key hold it as it is.
pub proof fn key_models_keep_the_values(public: PublicFields, private: PrivateFields)
    ensures
        public@.wire == public.wire@,
        public@.comment == public.comment@,
        public.point matches Some(p) ==> public@.point == Some(p@),
        public.point is None ==> public@.point is None,
        private@.public == private.public@,
        private.seed matches Some(s) ==> private@.seed == Some(s@),
        private.seed is None ==> private@.seed is None,
{
}

/// A line that starts with the algorithm starts with these twelve characters, and an encoding
/// with these fifteen bytes.
pub proof fn the_algorithm_comes_first(line: Seq<char>, wire: Seq<u8>)
    ensures
        starts_with_algorithm(line) ==> line.len() >= 12 && line.take(12) == "ssh-ed25519 "@,
        ed25519_encoding(wire) ==> wire.len() >= 15 && wire.take(4) == seq![0u8, 0u8, 0u8, 11u8]
            && wire.subrange(4, 15) == vstd::utf8::encode_utf8("ssh-ed25519"@),
{
    if ed25519_encoding(wire) {
        reveal_strlit("ssh-ed25519");
        let name = "ssh-ed25519"@;
        assert(vstd::utf8::is_ascii_chars(name));
        vstd::utf8::is_ascii_chars_encode_utf8(name);
        let head = wire::ssh_string(vstd::utf8::encode_utf8(name));
        assert(wire.take(4) =~= head.take(4));
        assert(head.take(4) =~= seq![0u8, 0u8, 0u8, 11u8]);
        assert(wire.subrange(4, 15) =~= head.subrange(4, 15));
        assert(head.subrange(4, 15) =~= vstd::utf8::encode_utf8(name));
    }
}

/// A file with the header is text, and has the header behind five hyphens.
pub proof fn the_header_comes_first(file: Seq<u8>)
    requires
        has_private_key_header(file),
    ensures
        vstd::utf8::valid_utf8(file),
        file.take(5) == seq![0x2du8, 0x2du8, 0x2du8, 0x2du8, 0x2du8],
        file.subrange(5, 30) == vstd::utf8::encode_utf8("BEGIN OPENSSH PRIVATE KEY"@),
{
    assert(file.take(5) =~= seq![0x2du8, 0x2du8, 0x2du8, 0x2du8, 0x2du8]);
}

} // verus!
