//! The crypto identity value types: ed25519 public keys, secret keys and
//! signatures as fixed-size byte values, with signing and verification,
//! canonical base-58 text encoding, raw-byte conversions and a tagged wire
//! form for public keys.

use vstd::prelude::*;

use crate::bytes::{bytes_cmp, bytes_eq, copy_to_array, copy_to_vec, spec_bytes_cmp, zero_bytes};
use crate::errors::ParseError;
use crate::serialize::{base_decoded, base_encoded, from_base, to_base};
use crate::types::ReadablePublicKey;
use vstd::std_specs::cmp::{PartialEqSpec, PartialOrdSpec};

verus! {

/// Number of bytes in an ed25519 public key.
pub const PUBLIC_KEY_LENGTH: usize = 32;

/// Number of bytes in an ed25519 secret key: the seed followed by the
/// public key it determines.
pub const SECRET_KEY_LENGTH: usize = 64;

/// Number of bytes in an ed25519 signature.
pub const SIGNATURE_LENGTH: usize = 64;

/// The ed25519 signature that signing `data` with the secret key bytes `sk`
/// yields.
pub uninterp spec fn ed25519_signature(data: Seq<u8>, sk: Seq<u8>) -> Seq<u8>;

/// Whether ed25519 verification accepts `sig` as a signature over `data` by
/// the public key bytes `pk`.
pub uninterp spec fn ed25519_verifies(data: Seq<u8>, sig: Seq<u8>, pk: Seq<u8>) -> bool;

/// Whether `pk` and `sk` form an ed25519 key pair as key generation yields
/// them: `sk` carries a seed and the public key `pk` that the seed
/// determines.
pub uninterp spec fn ed25519_key_pair(pk: Seq<u8>, sk: Seq<u8>) -> bool;

/// Relies on ed25519_dalek::SigningKey::from_bytes, ::verifying_key and
/// ::to_keypair_bytes: a fresh key pair from 32 random bytes of the
/// operating system; the secret half is the seed followed by the public
/// half, so the two halves form a key pair.
#[verifier::external_body]
fn ed25519_gen_keypair() -> (r: ([u8; 32], [u8; 64]))
    ensures
        ed25519_key_pair(r.0@, r.1@),
{
    let mut seed = [0u8; 32];
    getrandom::fill(&mut seed).expect("operating system randomness is unavailable");
    let signing_key = ed25519_dalek::SigningKey::from_bytes(&seed);
    (signing_key.verifying_key().to_bytes(), signing_key.to_keypair_bytes())
}

/// Relies on ed25519_dalek::Signer::sign: the deterministic ed25519
/// signature over `data` by the seed half of `sk`, a pure function of its
/// arguments; every public key paired with `sk` accepts the result over
/// `data`.
#[verifier::external_body]
fn ed25519_sign(data: &[u8], sk: &[u8; 64]) -> (r: [u8; 64])
    ensures
        r@ == ed25519_signature(data@, sk@),
        forall|pk: Seq<u8>| ed25519_key_pair(pk, sk@) ==> ed25519_verifies(data@, r@, pk),
{
    let mut seed = [0u8; 32];
    seed.copy_from_slice(&sk[..32]);
    let signing_key = ed25519_dalek::SigningKey::from_bytes(&seed);
    ed25519_dalek::Signer::sign(&signing_key, data).to_bytes()
}

/// Relies on ed25519_dalek::VerifyingKey::from_bytes and
/// ed25519_dalek::Verifier::verify: whether `pk` names a valid public key
/// that accepts `sig` over `data`, a pure function of the arguments; bytes
/// that name no valid key accept nothing.
#[verifier::external_body]
fn ed25519_verify(data: &[u8], sig: &[u8; 64], pk: &[u8; 32]) -> (r: bool)
    ensures
        r == ed25519_verifies(data@, sig@, pk@),
{
    let verifying_key = match ed25519_dalek::VerifyingKey::from_bytes(pk) {
        Ok(verifying_key) => verifying_key,
        Err(_) => return false,
    };
    let signature = ed25519_dalek::Signature::from_bytes(sig);
    ed25519_dalek::Verifier::verify(&verifying_key, data, &signature).is_ok()
}

/// An ed25519 public key: 32 bytes, immutable after construction, totally
/// ordered bytewise.
#[derive(Clone, Copy, Hash)]
pub struct PublicKey {
    bytes: [u8; PUBLIC_KEY_LENGTH],
}

/// An ed25519 secret key: 64 bytes, the seed followed by the public key it
/// determines.
pub struct SecretKey {
    bytes: [u8; SECRET_KEY_LENGTH],
}

/// An ed25519 signature: 64 bytes; the all-zero value is a reserved
/// "empty" sentinel, not a valid signature over any data.
#[derive(Hash)]
pub struct Signature {
    bytes: [u8; SIGNATURE_LENGTH],
}

impl View for PublicKey {
    type V = Seq<u8>;

    closed spec fn view(&self) -> Seq<u8> {
        self.bytes@
    }
}

impl View for SecretKey {
    type V = Seq<u8>;

    closed spec fn view(&self) -> Seq<u8> {
        self.bytes@
    }
}

impl View for Signature {
    type V = Seq<u8>;

    closed spec fn view(&self) -> Seq<u8> {
        self.bytes@
    }
}

/// Sign `data` with `secret_key`. Signing is total and deterministic; every
/// public key paired with `secret_key` accepts the returned signature over
/// `data` (sign/verify correctness).
pub fn sign(data: &[u8], secret_key: &SecretKey) -> (r: Signature)
    ensures
        r@ == ed25519_signature(data@, secret_key@),
        forall|pk: Seq<u8>| ed25519_key_pair(pk, secret_key@) ==> ed25519_verifies(data@, r@, pk),
{
    Signature { bytes: ed25519_sign(data, &secret_key.bytes) }
}

/// Whether `signature` is a valid signature over `data` by `public_key`.
/// Verification is a pure predicate: any mismatch — tampered data, a wrong
/// key, or a malformed signature — yields `false`, never an error.
pub fn verify(data: &[u8], signature: &Signature, public_key: &PublicKey) -> (r: bool)
    ensures
        r == ed25519_verifies(data@, signature@, public_key@),
{
    ed25519_verify(data, &signature.bytes, &public_key.bytes)
}

/// Generate a fresh random key pair; the two halves form a key pair, so
/// signatures by the secret half verify under the public half.
pub fn get_key_pair() -> (r: (PublicKey, SecretKey))
    ensures
        ed25519_key_pair(r.0@, r.1@),
        r.0@.len() == PUBLIC_KEY_LENGTH as nat,
        r.1@.len() == SECRET_KEY_LENGTH as nat,
{
    let (pk, sk) = ed25519_gen_keypair();
    (PublicKey { bytes: pk }, SecretKey { bytes: sk })
}

impl PublicKey {
    /// The key in its canonical, human-readable text form.
    pub fn to_readable(&self) -> (r: ReadablePublicKey)
        ensures
            r.0@ == base_encoded(self@),
    {
        ReadablePublicKey(self.to_base())
    }

    /// The all-zero public key, a placeholder where no real key is known.
    pub fn empty() -> (r: Self)
        ensures
            r@ == zero_bytes(PUBLIC_KEY_LENGTH as nat),
    {
        let r = PublicKey { bytes: [0u8; PUBLIC_KEY_LENGTH] };
        proof {
            assert(r@ =~= zero_bytes(PUBLIC_KEY_LENGTH as nat));
        }
        r
    }

    /// Construct a key from raw bytes: succeeds exactly on input of the
    /// key's fixed size, copying the bytes verbatim; no curve-point check
    /// happens here (that collapse lives inside `verify`).
    pub fn try_from_bytes(bytes: &[u8]) -> (r: Result<Self, ParseError>)
        ensures
            match r {
                Ok(k) => bytes@.len() == PUBLIC_KEY_LENGTH as nat && k@ == bytes@,
                Err(e) => bytes@.len() != PUBLIC_KEY_LENGTH as nat && e == (
                ParseError::SizeMismatch { expected: PUBLIC_KEY_LENGTH, actual: bytes@.len() as usize }),
            },
    {
        if bytes.len() != PUBLIC_KEY_LENGTH {
            return Err(
                ParseError::SizeMismatch { expected: PUBLIC_KEY_LENGTH, actual: bytes.len() },
            );
        }
        Ok(PublicKey { bytes: copy_to_array(bytes) })
    }

    /// Construct a key from canonical base-58 text: rejected with a decode
    /// error when the text is not valid base-58, and with a size-mismatch
    /// error when it decodes to other than the key's fixed size.
    pub fn try_from_str(s: &str) -> (r: Result<Self, ParseError>)
        ensures
            match r {
                Ok(k) => base_decoded(s@) == Some(k@),
                Err(e) => match e {
                    ParseError::DecodeError => base_decoded(s@) is None,
                    ParseError::SizeMismatch { expected, actual } => expected == PUBLIC_KEY_LENGTH
                        && (base_decoded(s@) matches Some(b) && b.len() == actual as nat && b.len()
                        != PUBLIC_KEY_LENGTH as nat),
                    ParseError::UnsupportedKeyType => false,
                },
            },
    {
        let decoded = match from_base(s) {
            Ok(v) => v,
            Err(e) => { return Err(e) },
        };
        if decoded.len() != PUBLIC_KEY_LENGTH {
            return Err(
                ParseError::SizeMismatch { expected: PUBLIC_KEY_LENGTH, actual: decoded.len() },
            );
        }
        Ok(PublicKey { bytes: copy_to_array(decoded.as_slice()) })
    }

    /// The key's canonical base-58 text; decoding it gives the key's bytes
    /// back (round trip).
    pub fn to_base(&self) -> (r: String)
        ensures
            r@ == base_encoded(self@),
            base_decoded(r@) == Some(self@),
    {
        to_base(self.bytes.as_slice())
    }

    /// The key's raw bytes.
    pub fn to_vec(&self) -> (r: Vec<u8>)
        ensures
            r@ == self@,
    {
        copy_to_vec(self.bytes.as_slice())
    }

    /// The key in its wire form: the supported key-type tag and the raw
    /// bytes.
    pub fn to_wire(&self) -> (r: WirePublicKey)
        ensures
            r.key_type == ED25519_KEY_TYPE,
            r.data@ == self@,
    {
        WirePublicKey { key_type: ED25519_KEY_TYPE, data: copy_to_vec(self.bytes.as_slice()) }
    }

    /// Construct a key from its wire form: a tag other than the supported
    /// scheme is rejected, never silently coerced; then the raw bytes must
    /// have the key's fixed size.
    pub fn try_from_wire(wire: &WirePublicKey) -> (r: Result<Self, ParseError>)
        ensures
            match r {
                Ok(k) => wire.key_type == ED25519_KEY_TYPE && k@ == wire.data@,
                Err(e) => match e {
                    ParseError::UnsupportedKeyType => wire.key_type != ED25519_KEY_TYPE,
                    ParseError::SizeMismatch { expected, actual } => wire.key_type
                        == ED25519_KEY_TYPE && expected == PUBLIC_KEY_LENGTH && wire.data@.len()
                        == actual as nat && wire.data@.len() != PUBLIC_KEY_LENGTH as nat,
                    ParseError::DecodeError => false,
                },
            },
    {
        if wire.key_type != ED25519_KEY_TYPE {
            return Err(ParseError::UnsupportedKeyType);
        }
        if wire.data.len() != PUBLIC_KEY_LENGTH {
            return Err(
                ParseError::SizeMismatch { expected: PUBLIC_KEY_LENGTH, actual: wire.data.len() },
            );
        }
        Ok(PublicKey { bytes: copy_to_array(wire.data.as_slice()) })
    }
}

/// The key-type tag of the one supported scheme, ed25519, in the wire form
/// of a public key.
pub const ED25519_KEY_TYPE: u32 = 0;

/// The wire form of a public key: an explicit key-type tag beside the raw
/// key bytes.
pub struct WirePublicKey {
    pub key_type: u32,
    pub data: Vec<u8>,
}

impl SecretKey {
    /// Construct a secret key from raw bytes: succeeds exactly on input of
    /// the key's fixed size, copying the bytes verbatim.
    pub fn try_from_bytes(bytes: &[u8]) -> (r: Result<Self, ParseError>)
        ensures
            match r {
                Ok(k) => bytes@.len() == SECRET_KEY_LENGTH as nat && k@ == bytes@,
                Err(e) => bytes@.len() != SECRET_KEY_LENGTH as nat && e == (
                ParseError::SizeMismatch { expected: SECRET_KEY_LENGTH, actual: bytes@.len() as usize }),
            },
    {
        if bytes.len() != SECRET_KEY_LENGTH {
            return Err(
                ParseError::SizeMismatch { expected: SECRET_KEY_LENGTH, actual: bytes.len() },
            );
        }
        Ok(SecretKey { bytes: copy_to_array(bytes) })
    }

    /// Construct a secret key from canonical base-58 text.
    pub fn try_from_str(s: &str) -> (r: Result<Self, ParseError>)
        ensures
            match r {
                Ok(k) => base_decoded(s@) == Some(k@),
                Err(e) => match e {
                    ParseError::DecodeError => base_decoded(s@) is None,
                    ParseError::SizeMismatch { expected, actual } => expected == SECRET_KEY_LENGTH
                        && (base_decoded(s@) matches Some(b) && b.len() == actual as nat && b.len()
                        != SECRET_KEY_LENGTH as nat),
                    ParseError::UnsupportedKeyType => false,
                },
            },
    {
        let decoded = match from_base(s) {
            Ok(v) => v,
            Err(e) => { return Err(e) },
        };
        if decoded.len() != SECRET_KEY_LENGTH {
            return Err(
                ParseError::SizeMismatch { expected: SECRET_KEY_LENGTH, actual: decoded.len() },
            );
        }
        Ok(SecretKey { bytes: copy_to_array(decoded.as_slice()) })
    }

    /// The key's canonical base-58 text; decoding it gives the key's bytes
    /// back (round trip).
    pub fn to_base(&self) -> (r: String)
        ensures
            r@ == base_encoded(self@),
            base_decoded(r@) == Some(self@),
    {
        to_base(self.bytes.as_slice())
    }

    /// The key's raw bytes.
    pub fn to_vec(&self) -> (r: Vec<u8>)
        ensures
            r@ == self@,
    {
        copy_to_vec(self.bytes.as_slice())
    }
}

impl Signature {
    /// Construct a signature from raw bytes: succeeds exactly on input of
    /// the signature's fixed size, copying the bytes verbatim.
    pub fn try_from_bytes(bytes: &[u8]) -> (r: Result<Self, ParseError>)
        ensures
            match r {
                Ok(k) => bytes@.len() == SIGNATURE_LENGTH as nat && k@ == bytes@,
                Err(e) => bytes@.len() != SIGNATURE_LENGTH as nat && e == (
                ParseError::SizeMismatch { expected: SIGNATURE_LENGTH, actual: bytes@.len() as usize }),
            },
    {
        if bytes.len() != SIGNATURE_LENGTH {
            return Err(
                ParseError::SizeMismatch { expected: SIGNATURE_LENGTH, actual: bytes.len() },
            );
        }
        Ok(Signature { bytes: copy_to_array(bytes) })
    }

    /// Construct a signature from canonical base-58 text.
    pub fn try_from_str(s: &str) -> (r: Result<Self, ParseError>)
        ensures
            match r {
                Ok(k) => base_decoded(s@) == Some(k@),
                Err(e) => match e {
                    ParseError::DecodeError => base_decoded(s@) is None,
                    ParseError::SizeMismatch { expected, actual } => expected == SIGNATURE_LENGTH
                        && (base_decoded(s@) matches Some(b) && b.len() == actual as nat && b.len()
                        != SIGNATURE_LENGTH as nat),
                    ParseError::UnsupportedKeyType => false,
                },
            },
    {
        let decoded = match from_base(s) {
            Ok(v) => v,
            Err(e) => { return Err(e) },
        };
        if decoded.len() != SIGNATURE_LENGTH {
            return Err(
                ParseError::SizeMismatch { expected: SIGNATURE_LENGTH, actual: decoded.len() },
            );
        }
        Ok(Signature { bytes: copy_to_array(decoded.as_slice()) })
    }

    /// The signature's canonical base-58 text; decoding it gives the
    /// signature's bytes back (round trip).
    pub fn to_base(&self) -> (r: String)
        ensures
            r@ == base_encoded(self@),
            base_decoded(r@) == Some(self@),
    {
        to_base(self.bytes.as_slice())
    }

    /// The signature's raw bytes.
    pub fn to_vec(&self) -> (r: Vec<u8>)
        ensures
            r@ == self@,
    {
        copy_to_vec(self.bytes.as_slice())
    }
}

impl Default for Signature {
    /// The reserved all-zero "empty" signature; callers must not treat it
    /// as a valid signature over any data.
    fn default() -> (r: Self)
        ensures
            r@ == zero_bytes(SIGNATURE_LENGTH as nat),
    {
        let r = Signature { bytes: [0u8; SIGNATURE_LENGTH] };
        proof {
            assert(r@ =~= zero_bytes(SIGNATURE_LENGTH as nat));
        }
        r
    }
}

impl Clone for SecretKey {
    /// An exact copy of the key.
    fn clone(&self) -> (r: Self)
        ensures
            r == *self,
    {
        SecretKey { bytes: self.bytes }
    }
}

impl Clone for Signature {
    /// An exact copy of the signature.
    fn clone(&self) -> (r: Self)
        ensures
            r == *self,
    {
        Signature { bytes: self.bytes }
    }
}

impl PartialEq for PublicKey {
    /// Keys are equal exactly when their raw bytes are.
    fn eq(&self, other: &Self) -> (r: bool) {
        bytes_eq(self.bytes.as_slice(), other.bytes.as_slice())
    }
}

impl Eq for PublicKey {

}

impl vstd::std_specs::cmp::PartialEqSpecImpl for PublicKey {
    open spec fn obeys_eq_spec() -> bool {
        true
    }

    open spec fn eq_spec(&self, other: &Self) -> bool {
        self@ == other@
    }
}

impl PartialEq for SecretKey {
    /// Keys are equal exactly when their raw bytes are.
    fn eq(&self, other: &Self) -> (r: bool) {
        bytes_eq(self.bytes.as_slice(), other.bytes.as_slice())
    }
}

impl Eq for SecretKey {

}

impl vstd::std_specs::cmp::PartialEqSpecImpl for SecretKey {
    open spec fn obeys_eq_spec() -> bool {
        true
    }

    open spec fn eq_spec(&self, other: &Self) -> bool {
        self@ == other@
    }
}

impl PartialEq for Signature {
    /// Signatures are equal exactly when their raw bytes are.
    fn eq(&self, other: &Self) -> (r: bool) {
        bytes_eq(self.bytes.as_slice(), other.bytes.as_slice())
    }
}

impl Eq for Signature {

}

impl vstd::std_specs::cmp::PartialEqSpecImpl for Signature {
    open spec fn obeys_eq_spec() -> bool {
        true
    }

    open spec fn eq_spec(&self, other: &Self) -> bool {
        self@ == other@
    }
}

impl PartialOrd for PublicKey {
    /// The bytewise lexicographic order on the keys' raw bytes.
    fn partial_cmp(&self, other: &Self) -> (r: Option<core::cmp::Ordering>) {
        Some(bytes_cmp(self.bytes.as_slice(), other.bytes.as_slice()))
    }
}

impl vstd::std_specs::cmp::PartialOrdSpecImpl for PublicKey {
    open spec fn obeys_partial_cmp_spec() -> bool {
        true
    }

    open spec fn partial_cmp_spec(&self, other: &Self) -> Option<core::cmp::Ordering> {
        Some(spec_bytes_cmp(self@, other@))
    }
}

/// Law: every public key holds exactly `PUBLIC_KEY_LENGTH` bytes, however
/// it was constructed.
pub proof fn lemma_public_key_len(k: &PublicKey)
    ensures
        k@.len() == PUBLIC_KEY_LENGTH as nat,
{
}

/// Law: every secret key holds exactly `SECRET_KEY_LENGTH` bytes, however
/// it was constructed.
pub proof fn lemma_secret_key_len(k: &SecretKey)
    ensures
        k@.len() == SECRET_KEY_LENGTH as nat,
{
}

/// Law: every signature holds exactly `SIGNATURE_LENGTH` bytes, however it
/// was constructed.
pub proof fn lemma_signature_len(s: &Signature)
    ensures
        s@.len() == SIGNATURE_LENGTH as nat,
{
}

/// Law: equality and ordering of public keys are consistent with the raw
/// bytes — two keys compare equal exactly when their bytes are equal, and
/// the bytewise order beneath `<` is antisymmetric and transitive, so it is
/// a total order.
pub proof fn lemma_public_key_order(a: PublicKey, b: PublicKey, c: PublicKey)
    ensures
        a.eq_spec(&b) <==> a@ == b@,
        (a.partial_cmp_spec(&b) == Some(core::cmp::Ordering::Equal)) <==> a@ == b@,
        (a.partial_cmp_spec(&b) == Some(core::cmp::Ordering::Less)) <==> (b.partial_cmp_spec(&a)
            == Some(core::cmp::Ordering::Greater)),
        a.partial_cmp_spec(&b) == Some(core::cmp::Ordering::Less) && b.partial_cmp_spec(&c) == Some(
            core::cmp::Ordering::Less,
        ) ==> a.partial_cmp_spec(&c) == Some(core::cmp::Ordering::Less),
{
    crate::bytes::lemma_bytes_cmp_equal(a@, b@);
    crate::bytes::lemma_bytes_cmp_antisymmetric(a@, b@);
    if spec_bytes_cmp(a@, b@) == core::cmp::Ordering::Less && spec_bytes_cmp(b@, c@)
        == core::cmp::Ordering::Less {
        crate::bytes::lemma_bytes_cmp_transitive(a@, b@, c@);
    }
}

} // verus!
