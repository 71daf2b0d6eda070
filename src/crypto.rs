use blake2::Digest;
use ed25519_dalek::Signer;
use ed25519_dalek::Verifier;
use chacha20poly1305::aead::{Aead, KeyInit};
use rand::RngCore;
use vstd::prelude::*;
use vstd::string::StringSliceAdditionalSpecFns;

use crate::bytes::{extend_bytes, le8, to_array32, u64_le_bytes, all_zero};
use crate::error::PostError;

verus! {

/// Domain-separation tag hashed in front of a shared secret to form a session key.
pub const SESSION_KEY_TAG: &'static str = "post-clipboard-v1";

/// Domain-separation tag for keys derived from an overlay-network identity.
pub const IDENTITY_KEY_TAG: &'static str = "post-tailscale-identity-v1";

/// Largest plaintext the AEAD takes: 2^32 - 2 blocks of 64 bytes, which is
/// what the stream cipher has left after the block that keys the tag.
pub const AEAD_MAX_PLAINTEXT: u64 = 274877906816;

/// Length of the authentication tag after every ciphertext.
pub const TAG_LEN: usize = 16;

/// Length of the nonce prefix on every ciphertext.
pub const NONCE_LEN: usize = 12;

// ---------------------------------------------------------------------------
// Names for what the outside primitives compute.
// ---------------------------------------------------------------------------

/// The Ed25519 verifying key of a 32-byte secret key.
pub uninterp spec fn ed25519_public_of(secret: Seq<u8>) -> Seq<u8>;

/// The Ed25519 signature of `msg` under a 32-byte secret key.
pub uninterp spec fn ed25519_signature_of(secret: Seq<u8>, msg: Seq<u8>) -> Seq<u8>;

/// Whether Ed25519 verification of `sig` on `msg` under `public` succeeds.
pub uninterp spec fn ed25519_accepts(public: Seq<u8>, msg: Seq<u8>, sig: Seq<u8>) -> bool;

/// The X25519 public key of a 32-byte secret.
pub uninterp spec fn x25519_public_of(secret: Seq<u8>) -> Seq<u8>;

/// The X25519 function: the clamped scalar `k` times the Montgomery point `u`.
pub uninterp spec fn x25519_of(k: Seq<u8>, u: Seq<u8>) -> Seq<u8>;

/// The BLAKE2s-256 digest of `data`.
pub uninterp spec fn blake2s_256_of(data: Seq<u8>) -> Seq<u8>;

/// ChaCha20-Poly1305 ciphertext-and-tag of `plaintext` under `key` and `nonce`.
pub uninterp spec fn chacha20poly1305_seal_of(key: Seq<u8>, nonce: Seq<u8>, plaintext: Seq<u8>) -> Seq<u8>;

/// ChaCha20-Poly1305 decryption of `ciphertext` under `key` and `nonce`:
/// `None` where the tag does not verify.
pub uninterp spec fn chacha20poly1305_open_of(
    key: Seq<u8>,
    nonce: Seq<u8>,
    ciphertext: Seq<u8>,
) -> Option<Seq<u8>>;

// ---------------------------------------------------------------------------
// Trusted wrappers.
// ---------------------------------------------------------------------------

/// Relies on rand's `OsRng::try_fill_bytes`: 32 bytes from the operating
/// system's CSPRNG, or `None` when the operating system cannot give them.
/// Nothing is promised of their value.
#[verifier::external_body]
fn os_random_32() -> (r: Option<[u8; 32]>) {
    let mut bytes = [0u8; 32];
    match rand::rngs::OsRng.try_fill_bytes(&mut bytes) {
        Ok(()) => Some(bytes),
        Err(_) => None,
    }
}

/// Relies on ed25519_dalek's `SigningKey::verifying_key`: the public half of a secret key.
#[verifier::external_body]
fn ed25519_public(secret: &[u8; 32]) -> (r: [u8; 32])
    ensures
        r@ == ed25519_public_of(secret@),
{
    ed25519_dalek::SigningKey::from_bytes(secret).verifying_key().to_bytes()
}

/// Relies on ed25519_dalek's `Signer::sign` for `SigningKey`: a deterministic
/// Ed25519 signature, which verification under the key's own verifying key accepts.
#[verifier::external_body]
fn ed25519_sign(secret: &[u8; 32], msg: &[u8]) -> (r: [u8; 64])
    ensures
        r@ == ed25519_signature_of(secret@, msg@),
        ed25519_accepts(ed25519_public_of(secret@), msg@, r@),
{
    ed25519_dalek::SigningKey::from_bytes(secret).sign(msg).to_bytes()
}

/// Relies on ed25519_dalek's `VerifyingKey::from_bytes` and `Verifier::verify`:
/// a key that does not decode verifies nothing.
#[verifier::external_body]
fn ed25519_verify(public: &[u8; 32], msg: &[u8], sig: &[u8; 64]) -> (r: bool)
    ensures
        r == ed25519_accepts(public@, msg@, sig@),
{
    match ed25519_dalek::VerifyingKey::from_bytes(public) {
        Ok(key) => key.verify(msg, &ed25519_dalek::Signature::from_bytes(sig)).is_ok(),
        Err(_) => false,
    }
}

/// Relies on x25519_dalek's `PublicKey::from(&StaticSecret)`: the public key of a secret.
#[verifier::external_body]
fn x25519_public(secret: &[u8; 32]) -> (r: [u8; 32])
    ensures
        r@ == x25519_public_of(secret@),
{
    x25519_dalek::PublicKey::from(&x25519_dalek::StaticSecret::from(*secret)).to_bytes()
}

/// Relies on x25519_dalek's `x25519`: Diffie-Hellman of a local secret and a remote point.
#[verifier::external_body]
fn x25519(k: &[u8; 32], u: &[u8; 32]) -> (r: [u8; 32])
    ensures
        r@ == x25519_of(k@, u@),
{
    x25519_dalek::x25519(*k, *u)
}

/// Relies on blake2's `Blake2s256::digest`.
#[verifier::external_body]
pub(crate) fn blake2s_256(data: &[u8]) -> (r: [u8; 32])
    ensures
        r@ == blake2s_256_of(data@),
{
    blake2::Blake2s256::digest(data).into()
}

/// Relies on chacha20poly1305's `Aead::encrypt` for `ChaCha20Poly1305`: up to
/// `AEAD_MAX_PLAINTEXT` bytes it succeeds, appends a 16-byte tag, and its
/// output decrypts under the same key and nonce to the plaintext.
#[verifier::external_body]
fn aead_seal(key: &[u8; 32], nonce: &[u8; 12], plaintext: &[u8]) -> (r: Option<Vec<u8>>)
    requires
        plaintext@.len() <= AEAD_MAX_PLAINTEXT,
    ensures
        r is Some,
        r matches Some(c) ==> c@ == chacha20poly1305_seal_of(key@, nonce@, plaintext@),
        r matches Some(c) ==> c@.len() == plaintext@.len() + TAG_LEN,
        r matches Some(c) ==> chacha20poly1305_open_of(key@, nonce@, c@) == Some(plaintext@),
{
    let cipher = chacha20poly1305::ChaCha20Poly1305::new(key.into());
    cipher.encrypt(nonce.into(), plaintext).ok()
}

/// Relies on chacha20poly1305's `Aead::decrypt` for `ChaCha20Poly1305`, on a
/// ciphertext no longer than the largest plaintext and its tag.
#[verifier::external_body]
fn aead_open(key: &[u8; 32], nonce: &[u8; 12], ciphertext: &[u8]) -> (r: Option<Vec<u8>>)
    requires
        ciphertext@.len() <= AEAD_MAX_PLAINTEXT + TAG_LEN,
    ensures
        r is Some <==> chacha20poly1305_open_of(key@, nonce@, ciphertext@) is Some,
        r matches Some(q) ==> chacha20poly1305_open_of(key@, nonce@, ciphertext@) == Some(q@),
{
    let cipher = chacha20poly1305::ChaCha20Poly1305::new(key.into());
    cipher.decrypt(nonce.into(), ciphertext).ok()
}

// ---------------------------------------------------------------------------
// Key material.
// ---------------------------------------------------------------------------

/// An X25519 key-agreement key pair.
#[derive(Clone, Copy)]
pub struct KeyPair {
    pub public_key: [u8; 32],
    pub private_key: [u8; 32],
}

impl KeyPair {
    /// Whether the public half belongs to the secret half.
    pub open spec fn wf(&self) -> bool {
        self.public_key@ == x25519_public_of(self.private_key@)
    }

    /// The key pair of a given secret.
    pub fn from_secret(private_key: [u8; 32]) -> (r: KeyPair)
        ensures
            r.private_key == private_key,
            r.wf(),
    {
        let public_key = x25519_public(&private_key);
        KeyPair { public_key, private_key }
    }
}

/// An Ed25519 identity key pair. The secret half never leaves this type except
/// through signing.
#[derive(Clone, Copy)]
pub struct SigningKeyPair {
    signing_key: [u8; 32],
    verifying_key: [u8; 32],
}

impl SigningKeyPair {
    /// The secret half.
    pub closed spec fn secret(&self) -> Seq<u8> {
        self.signing_key@
    }

    /// The verifying half.
    pub closed spec fn public(&self) -> Seq<u8> {
        self.verifying_key@
    }

    /// Whether the verifying key belongs to the secret.
    pub open spec fn wf(&self) -> bool {
        self.public() == ed25519_public_of(self.secret())
    }

    /// The verifying half.
    pub fn verifying_key(&self) -> (r: [u8; 32])
        ensures
            r@ == self.public(),
    {
        self.verifying_key
    }

    /// The key pair of a given secret.
    pub fn from_secret(signing_key: [u8; 32]) -> (r: SigningKeyPair)
        ensures
            r.secret() == signing_key@,
            r.wf(),
    {
        let verifying_key = ed25519_public(&signing_key);
        SigningKeyPair { signing_key, verifying_key }
    }

    /// Signs `message` with the secret half.
    pub fn sign(&self, message: &[u8]) -> (r: [u8; 64])
        ensures
            r@ == ed25519_signature_of(self.secret(), message@),
            ed25519_accepts(ed25519_public_of(self.secret()), message@, r@),
    {
        ed25519_sign(&self.signing_key, message)
    }
}

/// A fresh X25519 key pair from the operating system's CSPRNG.
/// Fails, with a crypto error, only when the operating system gives no randomness.
pub fn generate_keypair() -> (r: Result<KeyPair, PostError>)
    ensures
        r matches Ok(kp) ==> kp.wf(),
        r matches Err(e) ==> e is Crypto,
{
    match os_random_32() {
        Some(secret) => Ok(KeyPair::from_secret(secret)),
        None => Err(PostError::Crypto("No randomness for an exchange key".to_string())),
    }
}

/// A fresh Ed25519 identity key pair from the operating system's CSPRNG.
/// Fails, with a crypto error, only when the operating system gives no randomness.
pub fn generate_signing_keypair() -> (r: Result<SigningKeyPair, PostError>)
    ensures
        r matches Ok(kp) ==> kp.wf(),
        r matches Err(e) ==> e is Crypto,
{
    match os_random_32() {
        Some(secret) => Ok(SigningKeyPair::from_secret(secret)),
        None => Err(PostError::Crypto("No randomness for an identity key".to_string())),
    }
}

/// Whether every byte is zero: the weak key that a forger would send.
pub open spec fn is_zero_key(key: Seq<u8>) -> bool {
    forall|k: int| 0 <= k < key.len() ==> key[k] == 0
}

/// Diffie-Hellman of a local secret and a remote public key. An all-zero
/// remote key is refused.
pub fn derive_shared_secret(private_key: &[u8; 32], public_key: &[u8; 32]) -> (r: Result<
    [u8; 32],
    PostError,
>)
    ensures
        is_zero_key(public_key@) <==> r is Err,
        r matches Err(e) ==> e is Crypto,
        r matches Ok(s) ==> s@ == x25519_of(private_key@, public_key@),
{
    if all_zero(public_key.as_slice()) {
        return Err(PostError::Crypto("Invalid public key: all zeros".to_string()));
    }
    Ok(x25519(private_key, public_key))
}

/// The bytes of the session-key tag.
pub open spec fn session_tag() -> Seq<u8> {
    SESSION_KEY_TAG.spec_bytes()
}

/// The bytes of the identity-key tag.
pub open spec fn identity_tag() -> Seq<u8> {
    IDENTITY_KEY_TAG.spec_bytes()
}

/// The hash of a tag followed by `data`.
fn tagged_hash(tag: &str, data: &[u8]) -> (r: [u8; 32])
    ensures
        r@ == blake2s_256_of(tag.spec_bytes() + data@),
{
    let mut input: Vec<u8> = Vec::new();
    extend_bytes(&mut input, tag.as_bytes());
    extend_bytes(&mut input, data);
    blake2s_256(input.as_slice())
}

/// The AEAD key of a session: BLAKE2s-256 of the session tag and the shared secret.
pub fn derive_encryption_key(shared_secret: &[u8]) -> (r: Result<[u8; 32], PostError>)
    ensures
        r matches Ok(k) && k@ == blake2s_256_of(session_tag() + shared_secret@),
{
    Ok(tagged_hash(SESSION_KEY_TAG, shared_secret))
}

/// A key derived from an overlay-network identity: BLAKE2s-256 of the identity
/// tag and the identity bytes.
pub fn derive_key_from_tailscale_identity(identity: &[u8]) -> (r: Result<[u8; 32], PostError>)
    ensures
        r matches Ok(k) && k@ == blake2s_256_of(identity_tag() + identity@),
{
    Ok(tagged_hash(IDENTITY_KEY_TAG, identity))
}

/// Signs `message` with a raw 32-byte secret key.
pub fn sign_message(signing_key_bytes: &[u8], message: &[u8]) -> (r: Result<Vec<u8>, PostError>)
    ensures
        signing_key_bytes@.len() != 32 <==> r is Err,
        r matches Err(e) ==> e is Crypto,
        r matches Ok(sig) ==> sig@ == ed25519_signature_of(signing_key_bytes@, message@),
{
    if signing_key_bytes.len() != 32 {
        return Err(PostError::Crypto("Invalid signing key length".to_string()));
    }
    let key = to_array32(signing_key_bytes);
    let sig = ed25519_sign(&key, message);
    let mut out: Vec<u8> = Vec::new();
    extend_bytes(&mut out, sig.as_slice());
    Ok(out)
}

/// Signs `message` with an identity key pair.
pub fn sign_message_with_signing_key(signing_key_pair: &SigningKeyPair, message: &[u8]) -> (r:
    Result<Vec<u8>, PostError>)
    ensures
        r matches Ok(sig) && sig@ == ed25519_signature_of(signing_key_pair.secret(), message@),
{
    let sig = signing_key_pair.sign(message);
    let mut out: Vec<u8> = Vec::new();
    extend_bytes(&mut out, sig.as_slice());
    Ok(out)
}

/// Whether `signature` is a valid Ed25519 signature of `message` under
/// `verifying_key`. Keys of other than 32 bytes and signatures of other than
/// 64 bytes are refused.
pub fn verify_signature(verifying_key: &[u8], message: &[u8], signature: &[u8]) -> (r: Result<
    bool,
    PostError,
>)
    ensures
        (verifying_key@.len() == 32 && signature@.len() == 64) <==> r is Ok,
        r matches Err(e) ==> e is Crypto,
        r matches Ok(b) ==> b == ed25519_accepts(verifying_key@, message@, signature@),
{
    if verifying_key.len() != 32 {
        return Err(PostError::Crypto("Invalid verifying key length".to_string()));
    }
    if signature.len() != 64 {
        return Err(PostError::Crypto("Invalid signature length".to_string()));
    }
    let key = to_array32(verifying_key);
    let mut sig: [u8; 64] = [0u8; 64];
    let mut i: usize = 0;
    while i < 64
        invariant
            i <= 64,
            signature@.len() == 64,
            sig@.len() == 64,
            forall|k: int| 0 <= k < i ==> sig@[k] == signature@[k],
        decreases 64 - i,
    {
        sig[i] = signature[i];
        i = i + 1;
    }
    assert(sig@ =~= signature@);
    Ok(ed25519_verify(&key, message, &sig))
}

// ---------------------------------------------------------------------------
// Per-peer AEAD session.
// ---------------------------------------------------------------------------

/// The nonce of a session message: four zero bytes, then the counter in little-endian.
pub open spec fn nonce_of(counter: u64) -> Seq<u8> {
    seq![0u8, 0u8, 0u8, 0u8] + le8(counter)
}

/// The counter after one more message: wrapping addition.
pub open spec fn next_counter(counter: u64) -> u64 {
    if counter == u64::MAX {
        0
    } else {
        (counter + 1) as u64
    }
}

/// Whether `data` decrypts under `key` to `plaintext`: a 12-byte nonce followed
/// by a ciphertext that opens to it.
pub open spec fn opens_to(key: Seq<u8>, data: Seq<u8>, plaintext: Seq<u8>) -> bool {
    data.len() >= NONCE_LEN && data.len() <= NONCE_LEN + AEAD_MAX_PLAINTEXT + TAG_LEN
        && chacha20poly1305_open_of(
        key,
        data.subrange(0, NONCE_LEN as int),
        data.subrange(NONCE_LEN as int, data.len() as int),
    ) == Some(plaintext)
}

/// A ChaCha20-Poly1305 session with one peer, with a per-message nonce counter.
#[derive(Clone, Copy)]
pub struct CryptoSession {
    key: [u8; 32],
    nonce_counter: u64,
}

impl CryptoSession {
    /// The AEAD key.
    pub closed spec fn key(&self) -> Seq<u8> {
        self.key@
    }

    /// The counter of the last nonce used.
    pub closed spec fn counter(&self) -> u64 {
        self.nonce_counter
    }

    /// A session keyed by the hash of the session tag and `shared_secret`, counter at zero.
    pub fn new(shared_secret: &[u8]) -> (r: Result<CryptoSession, PostError>)
        ensures
            r matches Ok(s) && s.key() == blake2s_256_of(session_tag() + shared_secret@)
                && s.counter() == 0,
    {
        let key = tagged_hash(SESSION_KEY_TAG, shared_secret);
        Ok(CryptoSession { key, nonce_counter: 0 })
    }

    /// Encrypts `plaintext` under the next nonce; the result is the nonce
    /// followed by ciphertext and tag. A plaintext longer than the AEAD takes
    /// is refused, and then the counter stays.
    pub fn encrypt(&mut self, plaintext: &[u8]) -> (r: Result<Vec<u8>, PostError>)
        ensures
            final(self).key() == old(self).key(),
            plaintext@.len() <= AEAD_MAX_PLAINTEXT <==> r is Ok,
            r is Ok ==> final(self).counter() == next_counter(old(self).counter()),
            r is Err ==> final(self).counter() == old(self).counter(),
            r matches Err(e) ==> e is Crypto,
            r matches Ok(c) ==> c@.len() == NONCE_LEN + plaintext@.len() + TAG_LEN,
            r matches Ok(c) ==> c@ == nonce_of(final(self).counter()) + chacha20poly1305_seal_of(
                old(self).key(),
                nonce_of(final(self).counter()),
                plaintext@,
            ),
            r matches Ok(c) ==> opens_to(old(self).key(), c@, plaintext@),
    {
        if plaintext.len() as u64 > AEAD_MAX_PLAINTEXT {
            return Err(PostError::Crypto("Plaintext too long".to_string()));
        }
        self.nonce_counter = if self.nonce_counter == u64::MAX {
            0
        } else {
            self.nonce_counter + 1
        };
        let le = u64_le_bytes(self.nonce_counter);
        let mut nonce: [u8; 12] = [0u8; 12];
        let mut i: usize = 0;
        while i < 8
            invariant
                i <= 8,
                nonce@.len() == 12,
                le@ == le8(self.nonce_counter),
                forall|k: int| 0 <= k < 4 ==> nonce@[k] == 0,
                forall|k: int| 0 <= k < i ==> nonce@[k + 4] == le@[k],
            decreases 8 - i,
        {
            nonce[i + 4] = le[i];
            i = i + 1;
        }
        assert(nonce@ =~= nonce_of(self.nonce_counter));
        match aead_seal(&self.key, &nonce, plaintext) {
            Some(sealed) => {
                let mut out: Vec<u8> = Vec::new();
                extend_bytes(&mut out, nonce.as_slice());
                extend_bytes(&mut out, sealed.as_slice());
                assert(out@.subrange(0, NONCE_LEN as int) =~= nonce@);
                assert(out@.subrange(NONCE_LEN as int, out@.len() as int) =~= sealed@);
                Ok(out)
            },
            None => Err(PostError::Crypto("Encryption failed".to_string())),
        }
    }

    /// Decrypts the output of `encrypt`: data shorter than a nonce, longer
    /// than a nonce with the largest ciphertext, or whose tag does not verify,
    /// is refused.
    pub fn decrypt(&self, encrypted_data: &[u8]) -> (r: Result<Vec<u8>, PostError>)
        ensures
            r matches Err(e) ==> e is Crypto,
            r matches Ok(p) ==> opens_to(self.key(), encrypted_data@, p@),
            encrypted_data@.len() < NONCE_LEN ==> r is Err,
            encrypted_data@.len() > NONCE_LEN + AEAD_MAX_PLAINTEXT + TAG_LEN ==> r is Err,
            forall|p: Seq<u8>|
                #[trigger] opens_to(self.key(), encrypted_data@, p) ==> (r matches Ok(q) && q@
                    == p),
    {
        if encrypted_data.len() < NONCE_LEN {
            return Err(PostError::Crypto("Invalid encrypted data length".to_string()));
        }
        if (encrypted_data.len() - NONCE_LEN) as u64 > AEAD_MAX_PLAINTEXT + TAG_LEN as u64 {
            return Err(PostError::Crypto("Encrypted data too long".to_string()));
        }
        let mut nonce: [u8; 12] = [0u8; 12];
        let mut i: usize = 0;
        while i < 12
            invariant
                i <= 12,
                nonce@.len() == 12,
                encrypted_data@.len() >= 12,
                forall|k: int| 0 <= k < i ==> nonce@[k] == encrypted_data@[k],
            decreases 12 - i,
        {
            nonce[i] = encrypted_data[i];
            i = i + 1;
        }
        assert(nonce@ =~= encrypted_data@.subrange(0, NONCE_LEN as int));
        let mut body: Vec<u8> = Vec::new();
        let mut j: usize = NONCE_LEN;
        while j < encrypted_data.len()
            invariant
                NONCE_LEN <= j <= encrypted_data@.len(),
                body@ == encrypted_data@.subrange(NONCE_LEN as int, j as int),
            decreases encrypted_data@.len() - j,
        {
            body.push(encrypted_data[j]);
            j = j + 1;
            assert(body@ =~= encrypted_data@.subrange(NONCE_LEN as int, j as int));
        }
        match aead_open(&self.key, &nonce, body.as_slice()) {
            Some(p) => Ok(p),
            None => Err(PostError::Crypto("Decryption failed".to_string())),
        }
    }
}

/// Encrypt-then-decrypt is the identity: whatever a session's `encrypt`
/// returns for a plaintext, `decrypt` under the same key returns that plaintext.
pub proof fn lemma_encrypt_then_decrypt(s: CryptoSession, t: CryptoSession, c: Seq<u8>, p: Seq<u8>)
    requires
        s.key() == t.key(),
        opens_to(s.key(), c, p),
    ensures
        opens_to(t.key(), c, p),
        c.len() >= NONCE_LEN,
{
}

} // verus!
