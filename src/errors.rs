//! The error each failed chip command is reported as. Each command with no
//! error kind of its own carries a numbered tag that no other step uses, so that
//! a failure can be traced to its step without interpreting the driver's cause.

use vstd::prelude::*;
use lora_phy::mod_params::RadioError;

verus! {

/// A chip command issued by the adapter.
#[derive(Clone, Copy, PartialEq, Eq, Debug)]
pub enum Operation {
    Reset,
    /// Wake-up or readiness check.
    Ready,
    /// Standby or sleep request.
    ChipMode,
    /// Front-end calibration at LoRa initialisation.
    CalibrateFrontEnd,
    SetPacketType,
    SetSyncWord,
    SetTxParams,
    SetModulation,
    SetPacketShape,
    CalibrateImage,
    SetChannel,
    WritePayload,
    Transmit,
    Receive,
    ReadPacketLength,
    ReadPayload,
    ReadPacketStatus,
    SetCadParams,
    StartCad,
    ContinuousWave,
    ReadRssi,
    ClearIrqs,
    ReadIrqStatus,
    SetIrqMask,
    /// Waiting on the interrupt line.
    AwaitIrq,
}

pub open spec fn failure_of(op: Operation) -> RadioError {
    match op {
        Operation::Reset => RadioError::Reset,
        Operation::Ready => RadioError::DIO1,
        Operation::ChipMode => RadioError::SPI,
        Operation::CalibrateFrontEnd => RadioError::OpError(0),
        Operation::SetPacketType => RadioError::OpError(1),
        Operation::SetSyncWord => RadioError::OpError(2),
        Operation::SetTxParams => RadioError::InvalidConfiguration,
        Operation::SetModulation => RadioError::InvalidConfiguration,
        Operation::SetPacketShape => RadioError::InvalidConfiguration,
        Operation::CalibrateImage => RadioError::OpError(3),
        Operation::SetChannel => RadioError::OpError(4),
        Operation::WritePayload => RadioError::OpError(5),
        Operation::Transmit => RadioError::OpError(6),
        Operation::Receive => RadioError::OpError(7),
        Operation::ReadPacketLength => RadioError::OpError(8),
        Operation::ReadPayload => RadioError::OpError(9),
        Operation::ReadPacketStatus => RadioError::OpError(10),
        Operation::SetCadParams => RadioError::OpError(11),
        Operation::StartCad => RadioError::OpError(12),
        Operation::ContinuousWave => RadioError::OpError(17),
        Operation::ReadRssi => RadioError::OpError(13),
        Operation::ClearIrqs => RadioError::OpError(14),
        Operation::ReadIrqStatus => RadioError::OpError(15),
        Operation::SetIrqMask => RadioError::OpError(16),
        Operation::AwaitIrq => RadioError::Irq,
    }
}

/// The error a failure of `op` is reported as.
pub fn failure(op: Operation) -> (r: RadioError)
    ensures
        r == failure_of(op),
{
    match op {
        Operation::Reset => RadioError::Reset,
        Operation::Ready => RadioError::DIO1,
        Operation::ChipMode => RadioError::SPI,
        Operation::CalibrateFrontEnd => RadioError::OpError(0),
        Operation::SetPacketType => RadioError::OpError(1),
        Operation::SetSyncWord => RadioError::OpError(2),
        Operation::SetTxParams => RadioError::InvalidConfiguration,
        Operation::SetModulation => RadioError::InvalidConfiguration,
        Operation::SetPacketShape => RadioError::InvalidConfiguration,
        Operation::CalibrateImage => RadioError::OpError(3),
        Operation::SetChannel => RadioError::OpError(4),
        Operation::WritePayload => RadioError::OpError(5),
        Operation::Transmit => RadioError::OpError(6),
        Operation::Receive => RadioError::OpError(7),
        Operation::ReadPacketLength => RadioError::OpError(8),
        Operation::ReadPayload => RadioError::OpError(9),
        Operation::ReadPacketStatus => RadioError::OpError(10),
        Operation::SetCadParams => RadioError::OpError(11),
        Operation::StartCad => RadioError::OpError(12),
        Operation::ContinuousWave => RadioError::OpError(17),
        Operation::ReadRssi => RadioError::OpError(13),
        Operation::ClearIrqs => RadioError::OpError(14),
        Operation::ReadIrqStatus => RadioError::OpError(15),
        Operation::SetIrqMask => RadioError::OpError(16),
        Operation::AwaitIrq => RadioError::Irq,
    }
}

/// The steps of LoRa initialisation fail with distinct errors.
pub proof fn lemma_init_steps_distinct()
    ensures
        failure_of(Operation::CalibrateFrontEnd) != failure_of(Operation::SetPacketType),
        failure_of(Operation::SetPacketType) != failure_of(Operation::SetSyncWord),
        failure_of(Operation::CalibrateFrontEnd) != failure_of(Operation::SetSyncWord),
{
}

/// No two commands share a numbered tag: a numbered failure names its step.
pub proof fn lemma_numbered_tags_distinct(a: Operation, b: Operation)
    requires
        failure_of(a) is OpError,
        failure_of(a) == failure_of(b),
    ensures
        a == b,
{
}

} // verus!
