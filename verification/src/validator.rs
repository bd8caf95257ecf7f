//! Packet-format validation and buffer-sizing rules, resolved entirely before
//! the hardware is touched.
//!
//! Packets use the link-layer format below.
//!
//! Cleartext packet: `[S0:1][payload_len:1][S1:1][payload: payload_len bytes]`.
//!
//! Ciphertext packet: `[S0:1][payload_len+4:1][S1:1][payload][MIC:4]`, whose
//! length field already includes the 4-byte Message Integrity Code.
//!
//! The contents of `S0` and `S1` are caller-defined and never interpreted
//! here. The validator models the richer device families, whose native 5-bit
//! length field can be exchanged for an extended encoding backed by a
//! dedicated maximum-packet-size register.

use vstd::prelude::*;

verus! {

/// Least scratch-area size the engine accepts for any packet.
pub const MINIMUM_SCRATCH_AREA_SIZE: usize = 43;

/// Bytes in the packet header: `S0`, the length field, `S1`.
pub const HEADER_SIZE: usize = 3;

/// Index of the length field within the header.
pub const LENGTH_HEADER_INDEX: usize = 1;

/// Bytes in the Message Integrity Code appended after the payload.
pub const MIC_SIZE: usize = 4;

/// Largest value of the native 5-bit length field.
pub const MAXIMUM_LENGTH_5BITS: usize = 31;

/// CCM error.
#[derive(Debug, PartialEq, Eq, Clone, Copy)]
pub enum CcmError {
    /// One or more buffers passed to CCM are not in RAM.
    BufferNotInRAM,
    /// Some bus conflict caused an error during encryption/decryption.
    EasyDMAError,
    /// The packet header contains an invalid length field.
    WrongPacketLength,
    /// The slice passed in for the scratch area is not big enough.
    InsufficientScratchArea,
    /// The MIC validation failed during decryption, this will always be true
    /// for cipher packets that have payload lengths of one to four
    /// (inclusive).
    InvalidMIC,
}

/// What the buffer-residency predicate reported for each buffer handed to one
/// operation. The predicate itself is an external collaborator: the
/// surrounding runtime evaluates it and passes the verdicts in.
#[derive(Debug, PartialEq, Eq, Clone, Copy)]
pub struct Residency {
    pub clear_in_ram: bool,
    pub cipher_in_ram: bool,
    pub scratch_in_ram: bool,
}

impl Residency {
    /// All three buffers are directly addressable by the engine's DMA path.
    pub open spec fn spec_all_in_ram(self) -> bool {
        self.clear_in_ram && self.cipher_in_ram && self.scratch_in_ram
    }

    pub fn all_in_ram(&self) -> (r: bool)
        ensures
            r == self.spec_all_in_ram(),
    {
        self.clear_in_ram && self.cipher_in_ram && self.scratch_in_ram
    }
}

/// Which way the engine is run.
#[derive(Debug, PartialEq, Eq, Clone, Copy)]
pub enum CryptMode {
    Encryption,
    Decryption,
}

/// How the hardware interprets the length field.
#[derive(Debug, PartialEq, Eq, Clone, Copy)]
pub enum LengthEncoding {
    /// The native 5-bit length field.
    Default,
    /// The extended encoding, backed by the maximum-packet-size register.
    Extended,
}

/// Everything the engine must be programmed with for one validated operation.
#[derive(Debug, PartialEq, Eq, Clone, Copy)]
pub struct EngineParams {
    pub mode: CryptMode,
    pub length_encoding: LengthEncoding,
    /// Value to write to the maximum-packet-size register before starting the
    /// engine, where the extended length encoding is selected.
    pub extended_length: Option<u8>,
    /// The raw value of the packet header's length field.
    pub payload_len: u8,
}

/// Verdict of validation: either the operation is already complete without
/// the engine, or the engine must be run with the given parameters.
#[derive(Debug, PartialEq, Eq, Clone, Copy)]
pub enum Launch {
    /// Zero-payload shortcut: the 3-byte header was copied verbatim to the
    /// output buffer; the operation succeeded without the engine and without
    /// consuming a nonce value.
    Copied,
    /// Run the engine with these parameters, then report the observed signals
    /// to the matching completion function.
    Run(EngineParams),
}

/// Least scratch length accepted for a packet whose header length field holds
/// `payload_len`: `max(43, payload_len + 16)`.
pub open spec fn spec_scratch_needed(payload_len: int) -> int {
    if payload_len + 16 > MINIMUM_SCRATCH_AREA_SIZE as int {
        payload_len + 16
    } else {
        MINIMUM_SCRATCH_AREA_SIZE as int
    }
}

/// Largest header length-field value the native 5-bit encoding covers for a
/// direction. Encryption raises the field by the 4-byte MIC on output, so its
/// limit sits four below the field's maximum; decryption's field already
/// includes the MIC.
pub open spec fn spec_native_limit(mode: CryptMode) -> int {
    if mode == CryptMode::Encryption {
        MAXIMUM_LENGTH_5BITS as int - MIC_SIZE as int
    } else {
        MAXIMUM_LENGTH_5BITS as int
    }
}

/// Length encoding for a length-field value: the native field where it fits,
/// otherwise the extended encoding together with a write of the true length
/// to the maximum-packet-size register.
pub open spec fn spec_length_encoding(mode: CryptMode, field_len: int) -> LengthEncoding {
    if field_len <= spec_native_limit(mode) {
        LengthEncoding::Default
    } else {
        LengthEncoding::Extended
    }
}

/// Engine parameters for a validated operation whose header length field
/// holds `field_len`.
pub open spec fn spec_params(mode: CryptMode, field_len: u8) -> EngineParams {
    EngineParams {
        mode,
        length_encoding: spec_length_encoding(mode, field_len as int),
        extended_length: if field_len as int <= spec_native_limit(mode) {
            None
        } else {
            Some(field_len)
        },
        payload_len: field_len,
    }
}

/// The complete pre-hardware verdict for an encryption request, in the order
/// the checks are made: residency first, then the header, then the
/// zero-payload shortcut, then the length arithmetic, then scratch sizing.
///
/// `payload_len` is read from the cleartext header and counts payload bytes
/// only; the ciphertext must additionally hold the 4-byte MIC, and
/// `payload_len + 4` must still fit the 8-bit length field the engine writes.
pub open spec fn spec_encrypt_plan(
    residency: Residency,
    clear: Seq<u8>,
    cipher_len: int,
    scratch_len: int,
) -> Result<Launch, CcmError> {
    if !residency.spec_all_in_ram() {
        Err(CcmError::BufferNotInRAM)
    } else if clear.len() < HEADER_SIZE as int || cipher_len < HEADER_SIZE as int {
        Err(CcmError::WrongPacketLength)
    } else {
        let payload_len = clear[LENGTH_HEADER_INDEX as int] as int;
        if payload_len == 0 {
            Ok(Launch::Copied)
        } else if clear.len() < payload_len + HEADER_SIZE as int
            || cipher_len < payload_len + HEADER_SIZE as int + MIC_SIZE as int
            || payload_len + MIC_SIZE as int > u8::MAX as int {
            Err(CcmError::WrongPacketLength)
        } else if scratch_len < spec_scratch_needed(payload_len) {
            Err(CcmError::InsufficientScratchArea)
        } else {
            Ok(Launch::Run(spec_params(CryptMode::Encryption, clear[LENGTH_HEADER_INDEX as int])))
        }
    }
}

/// The complete pre-hardware verdict for a decryption request. The length
/// field is read from the ciphertext header and already includes the 4-byte
/// MIC; values one to four cannot hold a payload and a MIC, so they are the
/// documented guaranteed MIC-failure shortcut, reported without touching the
/// hardware.
pub open spec fn spec_decrypt_plan(
    residency: Residency,
    clear_len: int,
    cipher: Seq<u8>,
    scratch_len: int,
) -> Result<Launch, CcmError> {
    if !residency.spec_all_in_ram() {
        Err(CcmError::BufferNotInRAM)
    } else if clear_len < HEADER_SIZE as int || cipher.len() < HEADER_SIZE as int {
        Err(CcmError::WrongPacketLength)
    } else {
        let payload_len = cipher[LENGTH_HEADER_INDEX as int] as int;
        if payload_len == 0 {
            Ok(Launch::Copied)
        } else if payload_len < 5 {
            Err(CcmError::InvalidMIC)
        } else if cipher.len() < payload_len + HEADER_SIZE as int
            || clear_len < payload_len + HEADER_SIZE as int - MIC_SIZE as int {
            Err(CcmError::WrongPacketLength)
        } else if scratch_len < spec_scratch_needed(payload_len) {
            Err(CcmError::InsufficientScratchArea)
        } else {
            Ok(Launch::Run(spec_params(CryptMode::Decryption, cipher[LENGTH_HEADER_INDEX as int])))
        }
    }
}

/// Least scratch length accepted for a packet whose header length field holds
/// `payload_len`.
pub fn required_scratch_len(payload_len: u8) -> (r: usize)
    ensures
        r == spec_scratch_needed(payload_len as int),
{
    let with_packet: usize = payload_len as usize + 16;
    if with_packet > MINIMUM_SCRATCH_AREA_SIZE {
        with_packet
    } else {
        MINIMUM_SCRATCH_AREA_SIZE
    }
}

fn params_for(mode: CryptMode, field_len: u8) -> (r: EngineParams)
    ensures
        r == spec_params(mode, field_len),
{
    let native_limit: usize = match mode {
        CryptMode::Encryption => MAXIMUM_LENGTH_5BITS - MIC_SIZE,
        CryptMode::Decryption => MAXIMUM_LENGTH_5BITS,
    };
    if field_len as usize <= native_limit {
        EngineParams {
            mode,
            length_encoding: LengthEncoding::Default,
            extended_length: None,
            payload_len: field_len,
        }
    } else {
        EngineParams {
            mode,
            length_encoding: LengthEncoding::Extended,
            extended_length: Some(field_len),
            payload_len: field_len,
        }
    }
}

/// Decides an encryption request without touching any hardware state.
pub fn encrypt_plan(
    residency: Residency,
    clear_packet: &Vec<u8>,
    cipher_len: usize,
    scratch_len: usize,
) -> (r: Result<Launch, CcmError>)
    ensures
        r == spec_encrypt_plan(residency, clear_packet@, cipher_len as int, scratch_len as int),
{
    if !residency.all_in_ram() {
        return Err(CcmError::BufferNotInRAM);
    }
    if clear_packet.len() < HEADER_SIZE || cipher_len < HEADER_SIZE {
        return Err(CcmError::WrongPacketLength);
    }
    let payload_len = clear_packet[LENGTH_HEADER_INDEX];
    if payload_len == 0 {
        return Ok(Launch::Copied);
    }
    if clear_packet.len() < payload_len as usize + HEADER_SIZE
        || cipher_len < payload_len as usize + HEADER_SIZE + MIC_SIZE
        || payload_len as usize + MIC_SIZE > u8::MAX as usize {
        return Err(CcmError::WrongPacketLength);
    }
    if scratch_len < required_scratch_len(payload_len) {
        return Err(CcmError::InsufficientScratchArea);
    }
    Ok(Launch::Run(params_for(CryptMode::Encryption, payload_len)))
}

/// Decides a decryption request without touching any hardware state.
pub fn decrypt_plan(
    residency: Residency,
    clear_len: usize,
    cipher_packet: &Vec<u8>,
    scratch_len: usize,
) -> (r: Result<Launch, CcmError>)
    ensures
        r == spec_decrypt_plan(residency, clear_len as int, cipher_packet@, scratch_len as int),
{
    if !residency.all_in_ram() {
        return Err(CcmError::BufferNotInRAM);
    }
    if clear_len < HEADER_SIZE || cipher_packet.len() < HEADER_SIZE {
        return Err(CcmError::WrongPacketLength);
    }
    let payload_len = cipher_packet[LENGTH_HEADER_INDEX];
    if payload_len == 0 {
        return Ok(Launch::Copied);
    }
    if payload_len < 5 {
        return Err(CcmError::InvalidMIC);
    }
    if cipher_packet.len() < payload_len as usize + HEADER_SIZE
        || clear_len < payload_len as usize + HEADER_SIZE - MIC_SIZE {
        return Err(CcmError::WrongPacketLength);
    }
    if scratch_len < required_scratch_len(payload_len) {
        return Err(CcmError::InsufficientScratchArea);
    }
    Ok(Launch::Run(params_for(CryptMode::Decryption, payload_len)))
}

} // verus!
