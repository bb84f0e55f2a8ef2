//! Public-key authentication with a local signer.
//!
//! The transport asks for a signature of a request. The raw signature of the signer is
//! framed as an SSH signature blob and appended to the request.

use crate::ssh::signer;
use crate::ssh::signer::{Signer, SignerErrorView};
use crate::ssh::wire;
use crate::text;
use vstd::prelude::*;

verus! {

/// The wire encoding of the key that the transport reads from an OpenSSH public-key line,
/// or why it reads none.
pub uninterp spec fn transport_key(line: Seq<char>) -> Result<Seq<u8>, Seq<char>>;

/// Calls `russh::keys::ssh_key::PublicKey::from_openssh`, which is the transport's own
/// reader of public keys, and takes the key data apart with `to_bytes`. Claims that the
/// outcome depends on the line alone: it has the name `transport_key`.
#[verifier::external_body]
fn read_transport_key(line: &str) -> (r: Result<Vec<u8>, String>)
    ensures
        (match r {
            Ok(key) => transport_key(line@) == Ok::<Seq<u8>, Seq<char>>(key@),
            Err(e) => transport_key(line@) == Err::<Seq<u8>, Seq<char>>(e@),
        }),
{
    let key = russh::keys::ssh_key::PublicKey::from_openssh(line).map_err(|e| e.to_string())?;
    key.to_bytes().map_err(|e| e.to_string())
}

/// Why a raw signature is none of the named algorithm, if it is none.
pub uninterp spec fn signature_fault(algorithm: Seq<char>, raw: Seq<u8>) -> Option<Seq<char>>;

/// The SSH signature blob of a raw signature: the algorithm name and the signature as wire
/// strings. The signature of an ed25519 security key ends with five bytes of flags and
/// counter, which follow the wire string of the rest.
pub open spec fn signature_blob(algorithm: Seq<char>, raw: Seq<u8>) -> Seq<u8> {
    let name = wire::ssh_string(vstd::utf8::encode_utf8(algorithm));
    if algorithm == "sk-ssh-ed25519@openssh.com"@ {
        name + wire::ssh_string(raw.take(64)) + raw.skip(64)
    } else {
        name + wire::ssh_string(raw)
    }
}

/// The length of the raw signatures of an algorithm that has only one.
pub open spec fn signature_length(algorithm: Seq<char>) -> Option<nat> {
    if algorithm == "ssh-ed25519"@ {
        Some(64)
    } else if algorithm == "sk-ssh-ed25519@openssh.com"@ {
        Some(69)
    } else {
        None
    }
}

/// Calls `russh::keys::ssh_key::Signature::new` for the algorithm that `Algorithm::new` makes
/// of the name, and encodes the signature. Claims that whether there is such a signature
/// depends on the arguments alone (the error has the name `signature_fault`); that exactly
/// the 64-byte strings are ed25519 signatures and exactly the 69-byte strings those of ed25519
/// security keys, and what the error reads for others; and that a signature is encoded as
/// `signature_blob` says.
#[verifier::external_body]
fn encode_signature(algorithm: &str, raw: Vec<u8>) -> (r: Result<Vec<u8>, String>)
    ensures
        (match r {
            Ok(blob) => {
                &&& signature_fault(algorithm@, raw@) is None
                &&& signature_length(algorithm@) matches Some(n) ==> raw@.len() == n
                &&& blob@ == signature_blob(algorithm@, raw@)
            },
            Err(e) => {
                &&& signature_fault(algorithm@, raw@) == Some(e@)
                &&& signature_length(algorithm@) matches Some(n) ==> raw@.len() != n && e@
                    == "length invalid"@
            },
        }),
{
    let algorithm = russh::keys::ssh_key::Algorithm::new(algorithm).map_err(|e| e.to_string())?;
    let signature = russh::keys::ssh_key::Signature::new(algorithm, raw);
    let signature = signature.map_err(|e| e.to_string())?;
    let mut blob: Vec<u8> = Vec::new();
    russh::keys::ssh_encoding::Encode::encode(&signature, &mut blob).map_err(|e| e.to_string())?;
    Ok(blob)
}

/// Why a request could not be signed.
#[derive(Debug)]
pub enum SignerAuthError {
    /// The local signer failed.
    LocalSigner(String),
    /// The signature could not be encoded.
    Encode(String),
    /// The transport went away.
    Send,
}

/// The model of a [`SignerAuthError`].
#[verifier::ext_equal]
pub enum SignerAuthErrorView {
    LocalSigner(Seq<char>),
    Encode(Seq<char>),
    Send,
}

impl View for SignerAuthError {
    type V = SignerAuthErrorView;

    open spec fn view(&self) -> SignerAuthErrorView {
        match self {
            SignerAuthError::LocalSigner(m) => SignerAuthErrorView::LocalSigner(m@),
            SignerAuthError::Encode(m) => SignerAuthErrorView::Encode(m@),
            SignerAuthError::Send => SignerAuthErrorView::Send,
        }
    }
}

/// What an error reads.
pub open spec fn error_text(e: SignerAuthErrorView) -> Seq<char> {
    match e {
        SignerAuthErrorView::LocalSigner(m) => "local signer failure: "@ + m,
        SignerAuthErrorView::Encode(m) => "signature encoding failure: "@ + m,
        SignerAuthErrorView::Send => "transport send failure during auth"@,
    }
}

impl SignerAuthError {
    /// What the error reads.
    pub fn to_string(&self) -> (r: String)
        ensures
            r@ == error_text(self@),
    {
        match self {
            SignerAuthError::LocalSigner(m) => text::joined("local signer failure: ", m.as_str()),
            SignerAuthError::Encode(m) => text::joined(
                "signature encoding failure: ",
                m.as_str(),
            ),
            SignerAuthError::Send => "transport send failure during auth".to_owned(),
        }
    }
}

/// Whether the transport can read `line` as a public key; otherwise why not.
pub fn check_offered_key(line: &str) -> (r: Result<(), String>)
    ensures
        (match transport_key(line@) {
            Ok(_) => r is Ok,
            Err(m) => r matches Err(e) && e@ == m,
        }),
{
    match read_transport_key(line) {
        Ok(_) => Ok(()),
        Err(e) => Err(e),
    }
}

/// The signed form of a request: the request followed by the signature blob as a wire
/// string.
pub open spec fn signed_request(
    request: Seq<u8>,
    algorithm: Seq<char>,
    raw: Seq<u8>,
) -> Seq<u8> {
    request + wire::ssh_string(signature_blob(algorithm, raw))
}

/// Appends the raw signature `raw`, made with the named algorithm, to the request that it
/// signs.
pub fn append_signature(request: Vec<u8>, algorithm: &str, raw: Vec<u8>) -> (r: Result<
    Vec<u8>,
    SignerAuthError,
>)
    ensures
        (match signature_fault(algorithm@, raw@) {
            None => r matches Ok(signed) && signed@ == signed_request(request@, algorithm@, raw@),
            Some(m) => r matches Err(e) && e@ == SignerAuthErrorView::Encode(m),
        }),
        signature_length(algorithm@) matches Some(n) ==> (match r {
            Ok(_) => raw@.len() == n,
            Err(e) => raw@.len() != n && e@ == SignerAuthErrorView::Encode("length invalid"@),
        }),
{
    match encode_signature(algorithm, raw) {
        Ok(blob) => {
            let mut signed = request;
            signed.extend_from_slice(wire::length_bytes(blob.len()).as_slice());
            signed.extend_from_slice(blob.as_slice());
            assert(signed@ =~= request@ + wire::ssh_string(blob@));
            Ok(signed)
        },
        Err(e) => Err(SignerAuthError::Encode(e)),
    }
}

/// Has the signer sign a request, and appends the signature to it under the algorithm that
/// the signer names. A failure of the signer is told apart from everything that the server
/// may do.
pub fn sign_request<S: Signer>(signer: &S, request: Vec<u8>) -> (r: Result<
    Vec<u8>,
    SignerAuthError,
>)
    ensures
        (match r {
            Ok(signed) => exists|raw: Seq<u8>| #[trigger]
                signer.signs(request@, raw) && signature_fault(signer.algorithm_id(), raw) is None
                    && signed@ == signed_request(request@, signer.algorithm_id(), raw),
            Err(SignerAuthError::LocalSigner(m)) => exists|e: SignerErrorView| #[trigger]
                signer.fails(e) && m@ == signer::error_text(e),
            Err(SignerAuthError::Encode(m)) => exists|raw: Seq<u8>| #[trigger]
                signer.signs(request@, raw) && signature_fault(signer.algorithm_id(), raw) == Some(
                    m@,
                ),
            Err(SignerAuthError::Send) => false,
        }),
{
    match signer.sign(request.as_slice()) {
        Ok(raw) => {
            assert(signer.signs(request@, raw@));
            append_signature(request, signer.algorithm(), raw)
        },
        Err(e) => {
            assert(signer.fails(e@));
            Err(SignerAuthError::LocalSigner(e.to_string()))
        },
    }
}

/// A request that is signed with ed25519 starts with the request and ends with the raw
/// signature, 23 bytes further on.
pub proof fn signing_keeps_the_request(request: Seq<u8>, raw: Seq<u8>)
    requires
        raw.len() == 64,
    ensures
        signed_request(request, "ssh-ed25519"@, raw).len() == request.len() + 87,
        signed_request(request, "ssh-ed25519"@, raw).take(request.len() as int) == request,
        signed_request(request, "ssh-ed25519"@, raw).skip(request.len() as int + 23) == raw,
{
    reveal_strlit("ssh-ed25519");
    let name = "ssh-ed25519"@;
    assert(vstd::utf8::is_ascii_chars(name));
    vstd::utf8::is_ascii_chars_encode_utf8(name);
    let signed = signed_request(request, name, raw);
    let blob = signature_blob(name, raw);
    assert(blob.skip(19) =~= raw);
    assert(signed.take(request.len() as int) =~= request);
    assert(signed.skip(request.len() as int + 23) =~= blob.skip(19));
}

/// The 23 bytes between a request and its ed25519 signature are the same for every request
/// and every signature: the length of the blob, the algorithm name as a wire string and the
/// length of the signature.
pub proof fn the_ed25519_frame_is_fixed(request: Seq<u8>, raw: Seq<u8>)
    requires
        raw.len() == 64,
    ensures
        ({
            let n = request.len() as int;
            let signed = signed_request(request, "ssh-ed25519"@, raw);
            signed.subrange(n, n + 4) == seq![0u8, 0u8, 0u8, 83u8] && signed.subrange(n + 4, n + 8)
                == seq![0u8, 0u8, 0u8, 11u8] && signed.subrange(n + 8, n + 19)
                == vstd::utf8::encode_utf8("ssh-ed25519"@) && signed.subrange(n + 19, n + 23)
                == seq![0u8, 0u8, 0u8, 64u8]
        }),
{
    reveal_strlit("ssh-ed25519");
    reveal_strlit("sk-ssh-ed25519@openssh.com");
    let name = "ssh-ed25519"@;
    assert(name.len() != "sk-ssh-ed25519@openssh.com"@.len());
    assert(vstd::utf8::is_ascii_chars(name));
    vstd::utf8::is_ascii_chars_encode_utf8(name);
    let n = request.len() as int;
    let signed = signed_request(request, name, raw);
    let blob = signature_blob(name, raw);
    assert(blob.len() == 83);
    assert(signed.subrange(n, n + 4) =~= seq![0u8, 0u8, 0u8, 83u8]);
    assert(signed.subrange(n + 4, n + 8) =~= seq![0u8, 0u8, 0u8, 11u8]);
    assert(signed.subrange(n + 8, n + 19) =~= vstd::utf8::encode_utf8(name));
    assert(signed.subrange(n + 19, n + 23) =~= seq![0u8, 0u8, 0u8, 64u8]);
}

/// A signed request is the request and then one wire string, whatever the algorithm and the
/// lengths. The string holds the algorithm name as a wire string and then the signature: as a
/// wire string to its end, or, for an ed25519 security key, as a wire string of 64 bytes and
/// the other five bytes bare.
pub proof fn a_signed_request_can_be_taken_apart(
    request: Seq<u8>,
    algorithm: Seq<char>,
    raw: Seq<u8>,
)
    ensures
        ({
            let n = request.len() as int;
            let signed = signed_request(request, algorithm, raw);
            let name = vstd::utf8::encode_utf8(algorithm);
            let tail = signed.skip(n + 8 + name.len());
            &&& signed.take(n) == request
            &&& wire::big_endian(signed.subrange(n, n + 4)) == (signed.len() - n - 4)
                % 0x1_0000_0000
            &&& wire::big_endian(signed.subrange(n + 4, n + 8)) == name.len() % 0x1_0000_0000
            &&& signed.subrange(n + 8, n + 8 + name.len()) == name
            &&& if algorithm == "sk-ssh-ed25519@openssh.com"@ && raw.len() == 69 {
                &&& tail.len() == 73
                &&& wire::big_endian(tail.take(4)) == 64
                &&& tail.skip(4) == raw
            } else {
                algorithm != "sk-ssh-ed25519@openssh.com"@ ==> {
                    &&& tail.len() == 4 + raw.len()
                    &&& wire::big_endian(tail.take(4)) == raw.len() % 0x1_0000_0000
                    &&& tail.skip(4) == raw
                }
            }
        }),
{
    let n = request.len() as int;
    let signed = signed_request(request, algorithm, raw);
    let name = vstd::utf8::encode_utf8(algorithm);
    let blob = signature_blob(algorithm, raw);
    let tail = signed.skip(n + 8 + name.len());
    wire::be32_reads_back(blob.len());
    wire::be32_reads_back(name.len());
    wire::be32_reads_back(raw.len());
    wire::be32_reads_back(64);
    assert(signed.take(n) =~= request);
    assert(signed.subrange(n, n + 4) =~= wire::be32(blob.len()));
    assert(blob.take(4) =~= wire::be32(name.len()));
    assert(signed.subrange(n + 4, n + 8) =~= wire::be32(name.len()));
    assert(signed.subrange(n + 8, n + 8 + name.len()) =~= name);
    if algorithm == "sk-ssh-ed25519@openssh.com"@ {
        if raw.len() == 69 {
            assert(tail.take(4) =~= wire::be32(64));
            assert(tail.skip(4) =~= raw);
        }
    } else {
        assert(tail.take(4) =~= wire::be32(raw.len()));
        assert(tail.skip(4) =~= raw);
    }
}

/// The signature length of an algorithm is 64 for ed25519, 69 for ed25519 security keys, and
/// fixed for no other.
pub proof fn ed25519_signatures_have_one_length(algorithm: Seq<char>)
    ensures
        signature_length("ssh-ed25519"@) == Some(64nat),
        signature_length("sk-ssh-ed25519@openssh.com"@) == Some(69nat),
        algorithm != "ssh-ed25519"@ && algorithm != "sk-ssh-ed25519@openssh.com"@
            ==> signature_length(algorithm) is None,
{
    reveal_strlit("ssh-ed25519");
    reveal_strlit("sk-ssh-ed25519@openssh.com");
    assert("ssh-ed25519"@.len() != "sk-ssh-ed25519@openssh.com"@.len());
}

/// What each error reads, and that its model holds its message.
pub proof fn auth_errors_read(e: SignerAuthError)
    ensures
        e matches SignerAuthError::LocalSigner(m) ==> error_text(e@) == "local signer failure: "@
            + m@ && e@ == SignerAuthErrorView::LocalSigner(m@),
        e matches SignerAuthError::Encode(m) ==> error_text(e@) == "signature encoding failure: "@
            + m@ && e@ == SignerAuthErrorView::Encode(m@),
        e is Send ==> error_text(e@) == "transport send failure during auth"@ && e@ is Send,
{
}

} // verus!
