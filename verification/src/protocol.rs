//! Sequencing of the hardware engine for one validated operation.
//!
//! The engine runs asynchronously over DMA, so the order of the steps — in
//! particular the position of the two memory barriers around the start
//! trigger and the completion observation — is part of the driver's contract
//! with the hardware. [`engine_sequence`] fixes that order; the surrounding
//! runtime performs each step against the memory-mapped registers and hands
//! the observed signals back to [`crypt_verdict`].

use vstd::prelude::*;
use crate::validator::CcmError;
use crate::validator::CryptMode;

verus! {

/// One step of the engine protocol. The surrounding runtime performs these in
/// the exact order given by [`engine_sequence`].
#[derive(Debug, PartialEq, Eq, Clone, Copy)]
pub enum EngineStep {
    /// Program the engine: pointer to the nonce-state image, input buffer,
    /// output buffer, scratch buffer, and the mode and length-encoding
    /// selection (writing the maximum-packet-size register first where the
    /// parameters carry an extended length).
    Program,
    /// Clear stale completion, error and key-schedule-done signals left from
    /// a prior operation.
    ClearEvents,
    /// Memory barrier: all preceding buffer and register writes must be
    /// visible before the engine is started (writes-before-start).
    WriteBarrier,
    /// Trigger key-schedule generation.
    StartKeySchedule,
    /// Busy-poll until the key-schedule-done signal is observed.
    AwaitKeySchedule,
    /// Trigger the crypt operation.
    StartCrypt,
    /// Busy-poll until the completion signal or the error signal is observed,
    /// both polled each iteration, first one wins.
    AwaitCrypt,
    /// Memory barrier: subsequent reads must not be reordered before the
    /// observation of completion (completion-before-reads).
    ReadBarrier,
    /// Read the error signal, and for decryption the MIC status, to form the
    /// operation's verdict.
    ReadSignals,
}

/// One step of driver initialization. The engine and the companion
/// peripheral share registers, so the companion is disabled for the driver's
/// whole lifetime before anything else is written.
#[derive(Debug, PartialEq, Eq, Clone, Copy)]
pub enum InitStep {
    /// Disable the register-sharing companion peripheral, whose handle the
    /// driver owns exclusively.
    DisableCompanion,
    /// Disable the engine's completion, key-schedule-done and error
    /// interrupts: completion is observed by polling only.
    DisableInterrupts,
    /// Stop any operation a previous owner left running.
    StopTasks,
    /// Write the configured data rate to the shared mode register.
    ConfigureDataRate,
    /// Enable the engine.
    EnableEngine,
}

/// The fixed order of driver initialization.
pub open spec fn spec_init_sequence() -> Seq<InitStep> {
    seq![
        InitStep::DisableCompanion,
        InitStep::DisableInterrupts,
        InitStep::StopTasks,
        InitStep::ConfigureDataRate,
        InitStep::EnableEngine,
    ]
}

/// The steps of driver initialization, in the order the runtime must perform
/// them against the hardware.
pub fn init_sequence() -> (r: Vec<InitStep>)
    ensures
        r@ == spec_init_sequence(),
{
    let mut r: Vec<InitStep> = Vec::new();
    r.push(InitStep::DisableCompanion);
    r.push(InitStep::DisableInterrupts);
    r.push(InitStep::StopTasks);
    r.push(InitStep::ConfigureDataRate);
    r.push(InitStep::EnableEngine);
    assert(r@ =~= spec_init_sequence());
    r
}

/// What the crypt poll loop observed first.
#[derive(Debug, PartialEq, Eq, Clone, Copy)]
pub enum CryptSignal {
    /// The completion signal was observed.
    Done,
    /// The error signal was observed: a bus/DMA conflict.
    Error,
}

/// What the MIC-status signal reported after a completed decryption.
#[derive(Debug, PartialEq, Eq, Clone, Copy)]
pub enum MicStatus {
    Passed,
    CheckFailed,
}

/// The fixed order of the engine protocol.
pub open spec fn spec_engine_sequence() -> Seq<EngineStep> {
    seq![
        EngineStep::Program,
        EngineStep::ClearEvents,
        EngineStep::WriteBarrier,
        EngineStep::StartKeySchedule,
        EngineStep::AwaitKeySchedule,
        EngineStep::StartCrypt,
        EngineStep::AwaitCrypt,
        EngineStep::ReadBarrier,
        EngineStep::ReadSignals,
    ]
}

/// The steps of one engine run, in the order the runtime must perform them.
pub fn engine_sequence() -> (r: Vec<EngineStep>)
    ensures
        r@ == spec_engine_sequence(),
{
    let mut r: Vec<EngineStep> = Vec::new();
    r.push(EngineStep::Program);
    r.push(EngineStep::ClearEvents);
    r.push(EngineStep::WriteBarrier);
    r.push(EngineStep::StartKeySchedule);
    r.push(EngineStep::AwaitKeySchedule);
    r.push(EngineStep::StartCrypt);
    r.push(EngineStep::AwaitCrypt);
    r.push(EngineStep::ReadBarrier);
    r.push(EngineStep::ReadSignals);
    assert(r@ =~= spec_engine_sequence());
    r
}

/// Verdict of one engine run from the observed signals: a bus error takes
/// priority over MIC inspection, and the MIC status is inspected for
/// decryption only — encryption never reads it.
pub open spec fn spec_crypt_verdict(
    mode: CryptMode,
    signal: CryptSignal,
    mic: MicStatus,
) -> Result<(), CcmError> {
    if signal == CryptSignal::Error {
        Err(CcmError::EasyDMAError)
    } else if mode == CryptMode::Decryption && mic == MicStatus::CheckFailed {
        Err(CcmError::InvalidMIC)
    } else {
        Ok(())
    }
}

/// Forms the verdict of one engine run.
pub fn crypt_verdict(mode: CryptMode, signal: CryptSignal, mic: MicStatus) -> (r: Result<
    (),
    CcmError,
>)
    ensures
        r == spec_crypt_verdict(mode, signal, mic),
{
    match signal {
        CryptSignal::Error => Err(CcmError::EasyDMAError),
        CryptSignal::Done => {
            match (mode, mic) {
                (CryptMode::Decryption, MicStatus::CheckFailed) => Err(CcmError::InvalidMIC),
                _ => Ok(()),
            }
        },
    }
}

} // verus!
