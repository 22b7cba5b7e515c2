//! Sealing and opening of wire payloads with AES-256-CCM (8-byte nonce,
//! 8-byte tag, no associated data).
//!
//! The nonce is the sender's 6-byte radio address padded with two zero bytes,
//! so every frame of one sender uses the same nonce under the shared key. That
//! reuse weakens the cipher's guarantees and frames may be replayed: this
//! framing keeps noise and foreign traffic out, it is no protection against a
//! determined attacker.
use vstd::prelude::*;
use ccm::aead::AeadInPlace;
use ccm::KeyInit;

verus! {

#[verifier::external_type_specification]
#[verifier::external_body]
pub struct ExAeadError(ccm::Error);

/// Width of the shared key in bytes.
pub const KEY_LEN: usize = 32;

/// Width of a radio address in bytes.
pub const ADDRESS_LEN: usize = 6;

/// Width of the nonce in bytes.
pub const NONCE_LEN: usize = 8;

/// Width of the authentication tag appended to each frame.
pub const TAG_LEN: usize = 8;

/// Longest plaintext that the 7-byte CCM length field can describe.
pub const MAX_PLAINTEXT_LEN: u64 = 0xFF_FFFF_FFFF_FFFF;

/// The frame that AES-256-CCM makes of `plaintext` under `key` and `nonce`.
pub uninterp spec fn ccm_sealed(key: Seq<u8>, nonce: Seq<u8>, plaintext: Seq<u8>) -> Seq<u8>;

/// A frame was rejected: its tag does not verify under the key and nonce.
#[derive(Debug, Clone, Copy, PartialEq, Eq, Structural)]
pub enum AuthError {
    Rejected,
}

/// The network key, the same on every node.
pub struct SharedKey {
    pub bytes: [u8; 32],
}

/// Key byte `i` made of a provisioned secret of any length: the secret's own
/// byte where it has one, zero past its end.
pub open spec fn key_byte(secret: Seq<u8>, i: int) -> u8 {
    if i < secret.len() { secret[i] } else { 0 }
}

/// `plaintext` can be sealed: its length fits in the CCM length field.
pub open spec fn sealable(plaintext: Seq<u8>) -> bool {
    plaintext.len() <= MAX_PLAINTEXT_LEN
}

impl SharedKey {
    /// Makes the key of a provisioned secret: truncated to 32 bytes when
    /// longer, padded with zeros when shorter.
    pub fn from_secret(secret: &[u8]) -> (r: Self)
        ensures
            forall|i: int| 0 <= i < KEY_LEN ==> #[trigger] r.bytes@[i] == key_byte(secret@, i),
    {
        let mut bytes = [0u8; 32];
        let n: usize = if secret.len() < KEY_LEN { secret.len() } else { KEY_LEN };
        let mut i: usize = 0;
        while i < n
            invariant
                n <= KEY_LEN,
                n <= secret@.len(),
                n == secret@.len() || n == KEY_LEN,
                i <= n,
                bytes@.len() == KEY_LEN,
                forall|j: int| 0 <= j < i ==> #[trigger] bytes@[j] == secret@[j],
                forall|j: int| i <= j < KEY_LEN ==> #[trigger] bytes@[j] == 0,
            decreases n - i,
        {
            bytes.set(i, secret[i]);
            i = i + 1;
        }
        SharedKey { bytes }
    }
}

/// The nonce of a sender: its address followed by two zero bytes.
pub fn mac_to_nonce(mac: [u8; 6]) -> (r: [u8; 8])
    ensures
        r@ == mac@ + seq![0u8, 0u8],
{
    let r: [u8; 8] = [mac[0], mac[1], mac[2], mac[3], mac[4], mac[5], 0, 0];
    assert(r@ =~= mac@ + seq![0u8, 0u8]);
    r
}

/// Relies on ccm's `KeyInit::new` and `AeadInPlace::encrypt_in_place` for
/// `Ccm<Aes256, U8, U8>`: the ciphertext with the 8-byte tag appended; it
/// fails only when the plaintext is longer than the length field allows.
#[verifier::external_body]
fn ccm_encrypt(key: &[u8; 32], nonce: &[u8; 8], plaintext: &[u8]) -> (r: Result<Vec<u8>, ccm::Error>)
    requires
        sealable(plaintext@),
    ensures
        r is Ok,
        r->Ok_0@ == ccm_sealed(key@, nonce@, plaintext@),
        r->Ok_0@.len() == plaintext@.len() + TAG_LEN,
{
    let cipher = ccm::Ccm::<aes::Aes256, ccm::consts::U8, ccm::consts::U8>::new(ccm::Key::<aes::Aes256>::from_slice(key));
    let mut buf = plaintext.to_vec();
    match cipher.encrypt_in_place(ccm::Nonce::<ccm::consts::U8>::from_slice(nonce), &[], &mut buf) {
        Ok(()) => Ok(buf),
        Err(e) => Err(e),
    }
}

/// Relies on ccm's `KeyInit::new` and `AeadInPlace::decrypt_in_place` for
/// `Ccm<Aes256, U8, U8>`: decryption is the inverse of encryption. A frame
/// that is the encryption of some plaintext opens to it; a frame that opens
/// to a plaintext is its encryption, since CCM recomputes the tag from the
/// recovered plaintext and compares it.
#[verifier::external_body]
fn ccm_decrypt(key: &[u8; 32], nonce: &[u8; 8], frame: &[u8]) -> (r: Result<Vec<u8>, ccm::Error>)
    ensures
        forall|p: Seq<u8>| sealable(p) && frame@ == #[trigger] ccm_sealed(key@, nonce@, p)
            ==> r is Ok && r->Ok_0@ == p,
        r is Ok ==> sealable(r->Ok_0@) && frame@ == ccm_sealed(key@, nonce@, r->Ok_0@),
{
    let cipher = ccm::Ccm::<aes::Aes256, ccm::consts::U8, ccm::consts::U8>::new(ccm::Key::<aes::Aes256>::from_slice(key));
    let mut buf = frame.to_vec();
    match cipher.decrypt_in_place(ccm::Nonce::<ccm::consts::U8>::from_slice(nonce), &[], &mut buf) {
        Ok(()) => Ok(buf),
        Err(e) => Err(e),
    }
}

/// Seals `plaintext` under `key` and `nonce`.
pub fn seal(key: &SharedKey, nonce: &[u8; 8], plaintext: &[u8]) -> (r: Vec<u8>)
    requires
        sealable(plaintext@),
    ensures
        r@ == ccm_sealed(key.bytes@, nonce@, plaintext@),
        r@.len() == plaintext@.len() + TAG_LEN,
{
    match ccm_encrypt(&key.bytes, nonce, plaintext) {
        Ok(c) => c,
        Err(_) => Vec::new(),
    }
}

/// Opens `frame` under `key` and `nonce`. The seal of any plaintext opens to
/// that plaintext; any other frame is rejected.
pub fn open(key: &SharedKey, nonce: &[u8; 8], frame: &[u8]) -> (r: Result<Vec<u8>, AuthError>)
    ensures
        forall|p: Seq<u8>| sealable(p) && frame@ == #[trigger] ccm_sealed(key.bytes@, nonce@, p)
            ==> r is Ok && r->Ok_0@ == p,
        r is Ok ==> sealable(r->Ok_0@) && frame@ == ccm_sealed(key.bytes@, nonce@, r->Ok_0@),
        r is Err ==> r == Err::<Vec<u8>, AuthError>(AuthError::Rejected),
{
    match ccm_decrypt(&key.bytes, nonce, frame) {
        Ok(p) => Ok(p),
        Err(_) => Err(AuthError::Rejected),
    }
}

} // verus!
