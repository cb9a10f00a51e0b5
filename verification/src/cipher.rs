//! Stream-cipher encryption of byte buffers.
//!
//! A buffer is encrypted in place by XORing it with the ChaCha8 keystream
//! generated from a 256-bit key and a fixed all-zero nonce.  Decryption is
//! the same operation (XOR-stream symmetry).  A key must never be reused
//! across two plaintexts with the same nonce; the protocol guarantees that
//! by deriving a fresh key from a fresh group point for every encryption.

use chacha20::cipher::KeyIvInit;
use chacha20::cipher::StreamCipher;
use vstd::prelude::*;

verus! {

/// The longest buffer one ChaCha8 keystream can cover: the cipher counts
/// 64-byte blocks with a 32-bit counter, so a fresh cipher can produce
/// (2^32 - 1) * 64 bytes before `apply_keystream` would panic.
pub const MAX_MESSAGE_LEN: u64 = 0x3f_ffff_ffc0;

/// The prefix of length `len` of the ChaCha8 keystream generated from
/// `key` and `nonce`.  The keystream is a function of the key and the
/// nonce alone.
pub uninterp spec fn chacha8_keystream(key: Seq<u8>, nonce: Seq<u8>, len: nat) -> Seq<u8>;

/// The 12-byte all-zero nonce this protocol fixes for every encryption.
pub open spec fn zero_nonce() -> Seq<u8> {
    Seq::new(12, |i: int| 0u8)
}

/// Byte-wise XOR of `data` with `stream`, truncated to the length of `data`.
pub open spec fn xor_bytes(data: Seq<u8>, stream: Seq<u8>) -> Seq<u8> {
    Seq::new(data.len(), |i: int| data[i] ^ stream[i])
}

/// What one in-place cipher application does to a buffer: XOR with the
/// keystream of the same length, under the fixed all-zero nonce.
pub open spec fn stream_cipher(key: Seq<u8>, data: Seq<u8>) -> Seq<u8> {
    xor_bytes(data, chacha8_keystream(key, zero_nonce(), data.len()))
}

/// Relies on `chacha20::ChaCha8` (`cipher::KeyIvInit::new` and
/// `cipher::StreamCipher::apply_keystream`): a fresh cipher XORs into the
/// buffer a keystream that is a function of the key and the nonce alone,
/// and panics only when the buffer outruns the 32-bit block counter, which
/// the length bound rules out.
#[verifier::external_body]
fn apply_chacha8(key: &[u8; 32], nonce: &[u8; 12], data: &mut Vec<u8>)
    requires
        old(data)@.len() <= MAX_MESSAGE_LEN,
    ensures
        final(data)@ == xor_bytes(old(data)@, chacha8_keystream(key@, nonce@, old(data)@.len())),
{
    let mut cipher = chacha20::ChaCha8::new(key.into(), nonce.into());
    cipher.apply_keystream(data.as_mut_slice());
}

/// Encrypts `data` in place: XORs it with the ChaCha8 keystream generated
/// from `key` and the fixed all-zero nonce.
pub fn encrypt_once(key: &[u8; 32], data: &mut Vec<u8>)
    requires
        old(data)@.len() <= MAX_MESSAGE_LEN,
    ensures
        final(data)@ == stream_cipher(key@, old(data)@),
{
    let nonce = [0u8; 12];
    proof {
        assert(nonce@ =~= zero_nonce());
    }
    apply_chacha8(key, &nonce, data);
}

/// Decrypts `data` in place.  The stream cipher is its own inverse, so this
/// is the same XOR that `encrypt_once` applies.
pub fn decrypt(key: &[u8; 32], data: &mut Vec<u8>)
    requires
        old(data)@.len() <= MAX_MESSAGE_LEN,
    ensures
        final(data)@ == stream_cipher(key@, old(data)@),
{
    encrypt_once(key, data);
}

/// Cipher involution: applying the cipher twice under the same key gives the
/// buffer back, for every key and every byte buffer.
pub proof fn lemma_cipher_involution(key: Seq<u8>, data: Seq<u8>)
    ensures
        stream_cipher(key, stream_cipher(key, data)) == data,
{
    let once = stream_cipher(key, data);
    let ks = chacha8_keystream(key, zero_nonce(), data.len());
    assert(once.len() == data.len());
    assert forall|i: int| 0 <= i < data.len() implies stream_cipher(key, once)[i] == data[i] by {
        let a = data[i];
        let b = ks[i];
        assert(((a ^ b) ^ b) == a) by (bit_vector);
    }
    assert(stream_cipher(key, stream_cipher(key, data)) =~= data);
}

} // verus!
