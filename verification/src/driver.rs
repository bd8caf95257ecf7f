//! The public driver operations: initialize, encrypt, decrypt.
//!
//! Each operation is one attempt, never retried. A call first resolves every
//! pre-flight check locally ([`crate::validator`]) without touching hardware
//! state; where the engine must run, the surrounding runtime performs the
//! steps of [`crate::protocol::engine_sequence`] against the memory-mapped
//! registers and reports the observed signals to the matching completion
//! function, which forms the verdict and advances the nonce counter only on
//! full success.

use vstd::prelude::*;
use crate::nonce::CcmData;
use crate::nonce::spec_increment;
use crate::protocol::CryptSignal;
use crate::protocol::MicStatus;
use crate::protocol::crypt_verdict;
use crate::protocol::spec_crypt_verdict;
use crate::validator::CcmError;
use crate::validator::CryptMode;
use crate::validator::HEADER_SIZE;
use crate::validator::Launch;
use crate::validator::Residency;
use crate::validator::decrypt_plan;
use crate::validator::encrypt_plan;
use crate::validator::spec_decrypt_plan;
use crate::validator::spec_encrypt_plan;

verus! {

/// Data rate that CCM peripheral shall run in sync with.
#[derive(Debug, Copy, Clone, PartialEq, Eq)]
pub enum DataRate {
    _1Mbit,
    _2Mbit,
}

/// The blocking driver for the AES-CCM peripheral.
///
/// The engine and its register-sharing companion peripheral are an exclusive
/// hardware singleton: the surrounding runtime must hand ownership of both
/// handles to at most one driver instance, disable the companion, and perform
/// the steps of [`crate::protocol::init_sequence`] before using it.
pub struct Ccm {
    data_rate: DataRate,
}

/// Copies the 3-byte header of `src` over the start of `dst`, leaving the
/// rest of `dst` as it was.
fn copy_header(src: &Vec<u8>, dst: &mut Vec<u8>)
    requires
        src@.len() >= HEADER_SIZE,
        old(dst)@.len() >= HEADER_SIZE,
    ensures
        final(dst)@ == src@.subrange(0, HEADER_SIZE as int) + old(dst)@.skip(HEADER_SIZE as int),
{
    let mut i: usize = 0;
    while i < HEADER_SIZE
        invariant
            i <= HEADER_SIZE,
            src@.len() >= HEADER_SIZE,
            dst@.len() == old(dst)@.len(),
            old(dst)@.len() >= HEADER_SIZE,
            forall|j: int| 0 <= j < i ==> dst@[j] == src@[j],
            forall|j: int| i <= j < dst@.len() ==> dst@[j] == old(dst)@[j],
        decreases HEADER_SIZE - i,
    {
        dst[i] = src[i];
        i = i + 1;
    }
    assert(dst@ =~= src@.subrange(0, HEADER_SIZE as int) + old(dst)@.skip(HEADER_SIZE as int));
}

impl Ccm {
    pub closed spec fn spec_data_rate(self) -> DataRate {
        self.data_rate
    }

    /// Inits the CCM driver for an engine running at the given data rate.
    ///
    /// The hardware side of initialization is the runtime's part: it must own
    /// both the engine handle and the register-sharing companion peripheral's
    /// handle, and perform the steps of [`crate::protocol::init_sequence`]
    /// before the first operation. There is no error path.
    pub fn init(data_rate: DataRate) -> (r: Ccm)
        ensures
            r.spec_data_rate() == data_rate,
    {
        Ccm { data_rate }
    }

    /// The data rate the engine was configured with.
    pub fn data_rate(&self) -> (r: DataRate)
        ensures
            r == self.spec_data_rate(),
    {
        self.data_rate
    }

    /// Validates an encryption request and, where the payload is empty,
    /// completes it on the spot.
    ///
    /// The verdict is exactly [`spec_encrypt_plan`] over the inputs. On
    /// `Ok(Launch::Copied)` the 3-byte header has been copied verbatim into
    /// `cipher_packet` and the operation is a success that consumed no
    /// cryptographic material: the engine is not run and the nonce counter
    /// must not be advanced. On `Ok(Launch::Run(params))` no buffer has been
    /// touched; the runtime must run the engine with `params` and report the
    /// outcome to [`Ccm::encrypt_complete`]. On `Err` nothing was touched.
    pub fn encrypt_packet(
        &self,
        clear_packet: &Vec<u8>,
        cipher_packet: &mut Vec<u8>,
        scratch_len: usize,
        residency: Residency,
    ) -> (r: Result<Launch, CcmError>)
        ensures
            r == spec_encrypt_plan(
                residency,
                clear_packet@,
                old(cipher_packet)@.len() as int,
                scratch_len as int,
            ),
            final(cipher_packet)@.len() == old(cipher_packet)@.len(),
            r == Ok::<Launch, CcmError>(Launch::Copied) ==> final(cipher_packet)@
                == clear_packet@.subrange(0, HEADER_SIZE as int)
                + old(cipher_packet)@.skip(HEADER_SIZE as int),
            r != Ok::<Launch, CcmError>(Launch::Copied) ==> final(cipher_packet)@
                == old(cipher_packet)@,
    {
        let plan = encrypt_plan(residency, clear_packet, cipher_packet.len(), scratch_len);
        if let Ok(Launch::Copied) = plan {
            copy_header(clear_packet, cipher_packet);
        }
        plan
    }

    /// Forms the verdict of a completed encryption run from the observed
    /// crypt signal, and advances the nonce counter exactly on success.
    ///
    /// An observed error signal is a bus/DMA failure and leaves `ccm_data`
    /// untouched. Encryption never reads the MIC status.
    pub fn encrypt_complete(&self, ccm_data: &mut CcmData, signal: CryptSignal) -> (r: Result<
        (),
        CcmError,
    >)
        ensures
            r == spec_crypt_verdict(CryptMode::Encryption, signal, MicStatus::Passed),
            signal == CryptSignal::Error ==> r == Err::<(), CcmError>(CcmError::EasyDMAError)
                && *final(ccm_data) == *old(ccm_data),
            signal == CryptSignal::Done ==> r == Ok::<(), CcmError>(())
                && final(ccm_data).spec_counter() == spec_increment(
                old(ccm_data).spec_counter()),
            final(ccm_data).spec_key() == old(ccm_data).spec_key(),
            final(ccm_data).spec_direction() == old(ccm_data).spec_direction(),
            final(ccm_data).spec_iv() == old(ccm_data).spec_iv(),
            old(ccm_data).wf() ==> final(ccm_data).wf(),
    {
        let r = crypt_verdict(CryptMode::Encryption, signal, MicStatus::Passed);
        if r.is_ok() {
            ccm_data.increment_counter();
        }
        r
    }

    /// Validates a decryption request and, where the length field is zero,
    /// completes it on the spot.
    ///
    /// The verdict is exactly [`spec_decrypt_plan`] over the inputs. On
    /// `Ok(Launch::Copied)` the 3-byte header has been copied verbatim into
    /// `clear_packet`; as for encryption, this success consumes no nonce
    /// value. A length field of one to four is reported as `InvalidMIC`
    /// without running the engine. On `Ok(Launch::Run(params))` the runtime
    /// must run the engine and report the outcome, including the MIC status,
    /// to [`Ccm::decrypt_complete`].
    pub fn decrypt_packet(
        &self,
        clear_packet: &mut Vec<u8>,
        cipher_packet: &Vec<u8>,
        scratch_len: usize,
        residency: Residency,
    ) -> (r: Result<Launch, CcmError>)
        ensures
            r == spec_decrypt_plan(
                residency,
                old(clear_packet)@.len() as int,
                cipher_packet@,
                scratch_len as int,
            ),
            final(clear_packet)@.len() == old(clear_packet)@.len(),
            r == Ok::<Launch, CcmError>(Launch::Copied) ==> final(clear_packet)@
                == cipher_packet@.subrange(0, HEADER_SIZE as int)
                + old(clear_packet)@.skip(HEADER_SIZE as int),
            r != Ok::<Launch, CcmError>(Launch::Copied) ==> final(clear_packet)@
                == old(clear_packet)@,
    {
        let plan = decrypt_plan(residency, clear_packet.len(), cipher_packet, scratch_len);
        if let Ok(Launch::Copied) = plan {
            copy_header(cipher_packet, clear_packet);
        }
        plan
    }

    /// Forms the verdict of a completed decryption run from the observed
    /// signals, and advances the nonce counter exactly on success.
    ///
    /// A bus/DMA error takes priority: the MIC status is not inspected then.
    /// A completed run whose MIC check failed is reported as `InvalidMIC`.
    /// On either failure `ccm_data` is untouched.
    pub fn decrypt_complete(
        &self,
        ccm_data: &mut CcmData,
        signal: CryptSignal,
        mic: MicStatus,
    ) -> (r: Result<(), CcmError>)
        ensures
            r == spec_crypt_verdict(CryptMode::Decryption, signal, mic),
            signal == CryptSignal::Error ==> r == Err::<(), CcmError>(CcmError::EasyDMAError)
                && *final(ccm_data) == *old(ccm_data),
            signal == CryptSignal::Done && mic == MicStatus::CheckFailed
                ==> r == Err::<(), CcmError>(CcmError::InvalidMIC)
                && *final(ccm_data) == *old(ccm_data),
            signal == CryptSignal::Done && mic == MicStatus::Passed ==> r == Ok::<(), CcmError>(())
                && final(ccm_data).spec_counter() == spec_increment(old(ccm_data).spec_counter()),
            final(ccm_data).spec_key() == old(ccm_data).spec_key(),
            final(ccm_data).spec_direction() == old(ccm_data).spec_direction(),
            final(ccm_data).spec_iv() == old(ccm_data).spec_iv(),
            old(ccm_data).wf() ==> final(ccm_data).wf(),
    {
        let r = crypt_verdict(CryptMode::Decryption, signal, mic);
        if r.is_ok() {
            ccm_data.increment_counter();
        }
        r
    }
}

} // verus!
