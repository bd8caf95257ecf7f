//! Runs against a simulated engine: completion verdicts, counter movement,
//! the fixed protocol order, and a full encrypt-then-decrypt round trip.

use ccm_driver::Ccm;
use ccm_driver::CcmData;
use ccm_driver::CcmError;
use ccm_driver::CryptSignal;
use ccm_driver::DataRate;
use ccm_driver::EngineStep;
use ccm_driver::InitStep;
use ccm_driver::Launch;
use ccm_driver::MicStatus;
use ccm_driver::Residency;
use ccm_driver::protocol::engine_sequence;
use ccm_driver::protocol::init_sequence;

fn all_in_ram() -> Residency {
    Residency { clear_in_ram: true, cipher_in_ram: true, scratch_in_ram: true }
}

/// A byte of the simulated engine's keystream, derived deterministically
/// from the 33-byte nonce image.
fn keystream_byte(nonce_layout: &[u8], i: usize) -> u8 {
    let mut acc: u8 = 0x5A;
    for (j, b) in nonce_layout.iter().enumerate() {
        acc = acc.wrapping_add(b.wrapping_mul((i + j + 1) as u8));
    }
    acc
}

/// The simulated engine's 4-byte MIC over the cleartext payload.
fn mic_of(nonce_layout: &[u8], payload: &[u8]) -> [u8; 4] {
    let mut mic = [0x10u8, 0x20, 0x30, 0x40];
    for (i, b) in payload.iter().enumerate() {
        mic[i % 4] = mic[i % 4].rotate_left(3) ^ b ^ keystream_byte(nonce_layout, i);
    }
    mic
}

/// Simulated encryption run: writes the ciphertext packet the hardware
/// would produce (header with the length field raised by four, payload
/// XORed with the keystream, MIC appended).
fn simulate_encrypt(nonce: &CcmData, clear: &[u8], cipher: &mut [u8]) {
    let layout = nonce.layout_bytes();
    let payload_len = clear[1] as usize;
    cipher[0] = clear[0];
    cipher[1] = clear[1] + 4;
    cipher[2] = clear[2];
    for i in 0..payload_len {
        cipher[3 + i] = clear[3 + i] ^ keystream_byte(&layout, i);
    }
    let mic = mic_of(&layout, &clear[3..3 + payload_len]);
    cipher[3 + payload_len..3 + payload_len + 4].copy_from_slice(&mic);
}

/// Simulated decryption run: writes the cleartext packet and reports the
/// MIC status.
fn simulate_decrypt(nonce: &CcmData, cipher: &[u8], clear: &mut [u8]) -> MicStatus {
    let layout = nonce.layout_bytes();
    let field_len = cipher[1] as usize;
    let payload_len = field_len - 4;
    clear[0] = cipher[0];
    clear[1] = cipher[1] - 4;
    clear[2] = cipher[2];
    for i in 0..payload_len {
        clear[3 + i] = cipher[3 + i] ^ keystream_byte(&layout, i);
    }
    let mic = mic_of(&layout, &clear[3..3 + payload_len]);
    if mic[..] == cipher[3 + payload_len..3 + payload_len + 4] {
        MicStatus::Passed
    } else {
        MicStatus::CheckFailed
    }
}

#[test]
fn data_rate_is_kept() {
    let ccm = Ccm::init(DataRate::_2Mbit);
    assert_eq!(ccm.data_rate(), DataRate::_2Mbit);
}

#[test]
fn engine_sequence_orders_barriers() {
    let steps = engine_sequence();
    assert_eq!(
        steps,
        vec![
            EngineStep::Program,
            EngineStep::ClearEvents,
            EngineStep::WriteBarrier,
            EngineStep::StartKeySchedule,
            EngineStep::AwaitKeySchedule,
            EngineStep::StartCrypt,
            EngineStep::AwaitCrypt,
            EngineStep::ReadBarrier,
            EngineStep::ReadSignals,
        ]
    );
}

#[test]
fn init_sequence_disables_companion_first() {
    let steps = init_sequence();
    assert_eq!(
        steps,
        vec![
            InitStep::DisableCompanion,
            InitStep::DisableInterrupts,
            InitStep::StopTasks,
            InitStep::ConfigureDataRate,
            InitStep::EnableEngine,
        ]
    );
}

#[test]
fn dma_error_leaves_counter_unchanged() {
    let ccm = Ccm::init(DataRate::_1Mbit);
    let mut nonce = CcmData::new([3u8; 16], [4u8; 8]);
    let clear = vec![0xAA, 0x02, 0xBB, 0x01, 0x02];
    let mut cipher = vec![0u8; 16];
    let r = ccm.encrypt_packet(&clear, &mut cipher, 64, all_in_ram());
    assert!(matches!(r, Ok(Launch::Run(_))));
    // the engine raises the error signal after crypt-start
    let r = ccm.encrypt_complete(&mut nonce, CryptSignal::Error);
    assert_eq!(r, Err(CcmError::EasyDMAError));
    assert_eq!(nonce.counter_value(), 0);
    let r = ccm.decrypt_complete(&mut nonce, CryptSignal::Error, MicStatus::Passed);
    assert_eq!(r, Err(CcmError::EasyDMAError));
    assert_eq!(nonce.counter_value(), 0);
}

#[test]
fn mic_status_failure_leaves_counter_unchanged() {
    let ccm = Ccm::init(DataRate::_1Mbit);
    let mut nonce = CcmData::new([3u8; 16], [4u8; 8]);
    // the engine completes without error but the MIC check failed
    let r = ccm.decrypt_complete(&mut nonce, CryptSignal::Done, MicStatus::CheckFailed);
    assert_eq!(r, Err(CcmError::InvalidMIC));
    assert_eq!(nonce.counter_value(), 0);
    // encryption never reads the MIC status: its completion takes the crypt
    // signal alone and a completed run is a success
    let r = ccm.encrypt_complete(&mut nonce, CryptSignal::Done);
    assert_eq!(r, Ok(()));
    assert_eq!(nonce.counter_value(), 1);
}

#[test]
fn round_trip_reproduces_payload() {
    let ccm = Ccm::init(DataRate::_1Mbit);
    let key = [0xC3u8; 16];
    let iv = [0x96u8; 8];
    let mut tx_nonce = CcmData::new(key, iv);
    let payload = vec![10u8, 20, 30, 40, 50];
    let mut clear = vec![0x01, payload.len() as u8, 0x02];
    clear.extend(&payload);
    let mut cipher = vec![0u8; 3 + payload.len() + 4];
    let scratch_len = 64;

    let r = ccm.encrypt_packet(&clear, &mut cipher, scratch_len, all_in_ram());
    assert!(matches!(r, Ok(Launch::Run(_))));
    simulate_encrypt(&tx_nonce, &clear, &mut cipher);
    let r = ccm.encrypt_complete(&mut tx_nonce, CryptSignal::Done);
    assert_eq!(r, Ok(()));
    assert_eq!(tx_nonce.counter_value(), 1);
    assert_eq!(cipher[1], payload.len() as u8 + 4);

    // an identically-initialized nonce state on the receiving side
    let mut rx_nonce = CcmData::new(key, iv);
    let mut recovered = vec![0u8; 3 + payload.len()];
    let r = ccm.decrypt_packet(&mut recovered, &cipher, scratch_len, all_in_ram());
    assert!(matches!(r, Ok(Launch::Run(_))));
    let mic = simulate_decrypt(&rx_nonce, &cipher, &mut recovered);
    let r = ccm.decrypt_complete(&mut rx_nonce, CryptSignal::Done, mic);
    assert_eq!(r, Ok(()));
    assert_eq!(rx_nonce.counter_value(), 1);
    assert_eq!(&recovered[3..], &payload[..]);
    assert_eq!(&recovered[..3], &clear[..3]);
}

#[test]
fn tampered_ciphertext_fails_mic() {
    let ccm = Ccm::init(DataRate::_1Mbit);
    let key = [0xC3u8; 16];
    let iv = [0x96u8; 8];
    let tx_nonce = CcmData::new(key, iv);
    let clear = vec![0x01, 0x03, 0x02, 7, 8, 9];
    let mut cipher = vec![0u8; 3 + 3 + 4];
    simulate_encrypt(&tx_nonce, &clear, &mut cipher);
    // flip one payload bit in flight
    cipher[4] ^= 0x80;

    let mut rx_nonce = CcmData::new(key, iv);
    let mut recovered = vec![0u8; 6];
    let r = ccm.decrypt_packet(&mut recovered, &cipher, 64, all_in_ram());
    assert!(matches!(r, Ok(Launch::Run(_))));
    let mic = simulate_decrypt(&rx_nonce, &cipher, &mut recovered);
    let r = ccm.decrypt_complete(&mut rx_nonce, CryptSignal::Done, mic);
    assert_eq!(r, Err(CcmError::InvalidMIC));
    assert_eq!(rx_nonce.counter_value(), 0);
}
