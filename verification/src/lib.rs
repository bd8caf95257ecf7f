//! Blocking driver logic for a hardware AES-CCM (Counter with CBC-MAC)
//! authenticated-encryption accelerator, as used for link-layer packets in a
//! low-power radio protocol.
//!
//! The crate holds everything the driver decides before and after the hardware
//! runs: packet-format validation and buffer sizing, the nonce/counter state
//! the engine consumes, the ordered protocol for sequencing the engine, and
//! the error taxonomy. The memory-mapped register accesses themselves are left
//! to the surrounding runtime, which performs the steps of
//! [`protocol::engine_sequence`] and hands the observed signals back to the
//! completion functions.

pub mod driver;
pub mod laws;
pub mod nonce;
pub mod protocol;
pub mod validator;

pub use driver::Ccm;
pub use driver::DataRate;
pub use nonce::CcmData;
pub use protocol::CryptSignal;
pub use protocol::EngineStep;
pub use protocol::InitStep;
pub use protocol::MicStatus;
pub use validator::CcmError;
pub use validator::CryptMode;
pub use validator::EngineParams;
pub use validator::Launch;
pub use validator::LengthEncoding;
pub use validator::Residency;
