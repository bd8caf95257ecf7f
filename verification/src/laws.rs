//! Properties of the driver's decisions that relate several functions or
//! hold over all inputs, stated and proved over the same spec functions the
//! operations' contracts use.

use vstd::prelude::*;
use crate::validator::CcmError;
use crate::validator::CryptMode;
use crate::validator::Launch;
use crate::validator::Residency;
use crate::validator::spec_decrypt_plan;
use crate::validator::spec_encrypt_plan;
use crate::validator::spec_params;
use crate::validator::spec_scratch_needed;

verus! {

/// A buffer reported as non-addressable by the residency predicate yields
/// `BufferNotInRAM`, for either direction, whatever the buffer lengths — the
/// residency verdict is consulted before any length check.
pub proof fn lemma_residency_checked_first(
    residency: Residency,
    clear: Seq<u8>,
    cipher: Seq<u8>,
    scratch_len: int,
)
    requires
        !residency.spec_all_in_ram(),
    ensures
        spec_encrypt_plan(residency, clear, cipher.len() as int, scratch_len)
            == Err::<Launch, CcmError>(CcmError::BufferNotInRAM),
        spec_decrypt_plan(residency, clear.len() as int, cipher, scratch_len)
            == Err::<Launch, CcmError>(CcmError::BufferNotInRAM),
{
}

/// Encrypting a packet whose header length field is zero succeeds without
/// running the engine: the plan is the header-copy shortcut, whatever the
/// scratch size. The counter is untouched because `encrypt_packet` never
/// takes the nonce state and only `encrypt_complete` advances it.
pub proof fn lemma_encrypt_zero_payload(
    residency: Residency,
    clear: Seq<u8>,
    cipher_len: int,
    scratch_len: int,
)
    requires
        residency.spec_all_in_ram(),
        clear.len() >= 3,
        cipher_len >= 3,
        clear[1] == 0,
    ensures
        spec_encrypt_plan(residency, clear, cipher_len, scratch_len)
            == Ok::<Launch, CcmError>(Launch::Copied),
{
}

/// Decrypting a packet whose header length field is zero succeeds without
/// running the engine, symmetrically to encryption.
pub proof fn lemma_decrypt_zero_payload(
    residency: Residency,
    clear_len: int,
    cipher: Seq<u8>,
    scratch_len: int,
)
    requires
        residency.spec_all_in_ram(),
        clear_len >= 3,
        cipher.len() >= 3,
        cipher[1] == 0,
    ensures
        spec_decrypt_plan(residency, clear_len, cipher, scratch_len)
            == Ok::<Launch, CcmError>(Launch::Copied),
{
}

/// A ciphertext length field of one to four cannot hold a payload together
/// with the 4-byte MIC: the plan is always `InvalidMIC`, before any further
/// length or scratch check and without running the engine.
pub proof fn lemma_decrypt_short_payload_is_mic_failure(
    residency: Residency,
    clear_len: int,
    cipher: Seq<u8>,
    scratch_len: int,
)
    requires
        residency.spec_all_in_ram(),
        clear_len >= 3,
        cipher.len() >= 3,
        1 <= cipher[1] < 5,
    ensures
        spec_decrypt_plan(residency, clear_len, cipher, scratch_len)
            == Err::<Launch, CcmError>(CcmError::InvalidMIC),
{
}

/// Round-trip admissibility: a cleartext packet accepted for encryption
/// turns, after the engine appends the MIC and raises the length field by
/// four, into a ciphertext packet accepted for decryption, with the original
/// cleartext buffer large enough to take the payload back. The payload bytes
/// themselves are transformed by the hardware's AES-CCM, outside this
/// driver; on each completed run the matching completion function advances
/// the counter by one, so both sessions stay aligned.
pub proof fn lemma_round_trip_admissible(
    residency: Residency,
    clear: Seq<u8>,
    cipher: Seq<u8>,
    scratch_len: int,
)
    requires
        residency.spec_all_in_ram(),
        clear.len() >= 3,
        1 <= clear[1] <= 251,
        clear.len() >= clear[1] + 3,
        cipher.len() >= clear[1] + 7,
        cipher[1] == clear[1] + 4,
        scratch_len >= spec_scratch_needed(clear[1] + 4),
    ensures
        spec_encrypt_plan(residency, clear, cipher.len() as int, scratch_len)
            == Ok::<Launch, CcmError>(Launch::Run(spec_params(CryptMode::Encryption, clear[1]))),
        spec_decrypt_plan(residency, clear.len() as int, cipher, scratch_len)
            == Ok::<Launch, CcmError>(Launch::Run(spec_params(CryptMode::Decryption, cipher[1]))),
{
}

} // verus!
