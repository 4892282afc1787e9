//! Interrupt masks and the decoding of the chip's interrupt flags into the
//! generic completion states.

use vstd::prelude::*;
use lora_phy::mod_params::{RadioError, RadioMode};
use lora_phy::mod_traits::IrqState;

verus! {

/// LoRa preamble detected.
pub const IRQ_PREAMBLE_DETECTED: u32 = 0x0000_0020;
/// LoRa header (or sync word) valid.
pub const IRQ_HEADER_VALID: u32 = 0x0000_0040;
/// Activity found by a channel-activity scan.
pub const IRQ_CAD_DETECTED: u32 = 0x0000_0080;
/// LoRa header CRC error.
pub const IRQ_HEADER_ERR: u32 = 0x0000_0200;
/// Packet received.
pub const IRQ_RX_DONE: u32 = 0x0004_0000;
/// Packet sent.
pub const IRQ_TX_DONE: u32 = 0x0008_0000;
/// Channel-activity scan finished.
pub const IRQ_CAD_DONE: u32 = 0x0010_0000;
/// Receive or transmit timeout.
pub const IRQ_TIMEOUT: u32 = 0x0020_0000;
/// Payload CRC error.
pub const IRQ_CRC_ERROR: u32 = 0x0040_0000;

/// Every interrupt a LoRa transmission or reception can raise.
pub const IRQ_LORA_TXRX: u32 = IRQ_PREAMBLE_DETECTED | IRQ_HEADER_ERR | IRQ_HEADER_VALID
    | IRQ_RX_DONE | IRQ_TX_DONE | IRQ_CAD_DETECTED | IRQ_CAD_DONE | IRQ_TIMEOUT | IRQ_CRC_ERROR;

/// Mask that acknowledges every interrupt at once.
pub const IRQ_ALL: u32 = 0xFFFF_FFFF;

/// Whether a flag of `mask` is raised in `flags`.
pub open spec fn raised(flags: u32, mask: u32) -> bool {
    flags & mask != 0
}

/// Interrupts routed to the interrupt line for a target radio mode.
pub open spec fn mask_for(radio_mode: Option<RadioMode>) -> u32 {
    match radio_mode {
        Some(RadioMode::Standby) => IRQ_LORA_TXRX,
        Some(RadioMode::Receive(_)) => IRQ_LORA_TXRX,
        Some(RadioMode::Transmit) => IRQ_TX_DONE | IRQ_TIMEOUT,
        Some(RadioMode::ChannelActivityDetection) => IRQ_CAD_DONE | IRQ_CAD_DETECTED,
        _ => 0,
    }
}

/// The state that one reading of the interrupt flags stands for. A timeout
/// ends any operation; header and CRC errors during reception leave it
/// unresolved; a finished reception outranks a detected preamble.
pub open spec fn state_of(radio_mode: RadioMode, flags: u32) -> Result<Option<IrqState>, RadioError> {
    if raised(flags, IRQ_TIMEOUT) {
        Err(RadioError::TransmitTimeout)
    } else {
        match radio_mode {
            RadioMode::Transmit => if raised(flags, IRQ_TX_DONE) { Ok(Some(IrqState::Done)) } else { Ok(None) },
            RadioMode::Receive(_) => if raised(flags, IRQ_HEADER_ERR) || raised(flags, IRQ_CRC_ERROR) {
                Ok(None)
            } else if raised(flags, IRQ_RX_DONE) {
                Ok(Some(IrqState::Done))
            } else if raised(flags, IRQ_PREAMBLE_DETECTED) || raised(flags, IRQ_HEADER_VALID) {
                Ok(Some(IrqState::PreambleReceived))
            } else {
                Ok(None)
            },
            RadioMode::ChannelActivityDetection => if raised(flags, IRQ_CAD_DONE) {
                Ok(Some(IrqState::Done))
            } else {
                Ok(None)
            },
            _ => Ok(None),
        }
    }
}

/// Whether a reading of the flags completes a channel-activity scan, so that
/// its result is handed back.
pub open spec fn reports_cad(radio_mode: RadioMode, flags: u32) -> bool {
    !raised(flags, IRQ_TIMEOUT) && radio_mode is ChannelActivityDetection && raised(flags, IRQ_CAD_DONE)
}

/// A raised timeout flag ends the operation with a transmit-timeout error,
/// whatever the mode and whatever else is raised.
pub proof fn lemma_timeout_is_terminal(radio_mode: RadioMode, flags: u32)
    requires
        raised(flags, IRQ_TIMEOUT),
    ensures
        state_of(radio_mode, flags) == Err::<Option<IrqState>, RadioError>(RadioError::TransmitTimeout),
        !reports_cad(radio_mode, flags),
{
}

/// During reception with no timeout and no header or CRC error, a finished
/// packet is reported as done even when a preamble or valid header is raised
/// too; a preamble or valid header alone is reported as an early wake-up.
pub proof fn lemma_rx_done_outranks_preamble(radio_mode: RadioMode, flags: u32)
    requires
        radio_mode is Receive,
        !raised(flags, IRQ_TIMEOUT),
        !raised(flags, IRQ_HEADER_ERR),
        !raised(flags, IRQ_CRC_ERROR),
    ensures
        raised(flags, IRQ_RX_DONE) ==> state_of(radio_mode, flags) == Ok::<Option<IrqState>, RadioError>(Some(IrqState::Done)),
        !raised(flags, IRQ_RX_DONE) && raised(flags, IRQ_HEADER_VALID)
            ==> state_of(radio_mode, flags) == Ok::<Option<IrqState>, RadioError>(Some(IrqState::PreambleReceived)),
{
}

pub fn irq_mask(radio_mode: Option<RadioMode>) -> (r: u32)
    ensures
        r == mask_for(radio_mode),
{
    match radio_mode {
        Some(RadioMode::Standby) => IRQ_LORA_TXRX,
        Some(RadioMode::Receive(_)) => IRQ_LORA_TXRX,
        Some(RadioMode::Transmit) => IRQ_TX_DONE | IRQ_TIMEOUT,
        Some(RadioMode::ChannelActivityDetection) => IRQ_CAD_DONE | IRQ_CAD_DETECTED,
        _ => 0,
    }
}

/// What one reading of the interrupt flags resolves to.
pub struct IrqReport {
    /// The completion state, or the error that ends the operation.
    pub state: Result<Option<IrqState>, RadioError>,
    /// Whether activity was detected, when a channel-activity scan finished.
    pub cad_detected: Option<bool>,
}

/// Decodes the interrupt flags read once from the chip for an operation in
/// `radio_mode`.
pub fn decode_irq(radio_mode: RadioMode, flags: u32) -> (r: IrqReport)
    ensures
        r.state == state_of(radio_mode, flags),
        r.cad_detected == (if reports_cad(radio_mode, flags) {
            Some(raised(flags, IRQ_CAD_DETECTED))
        } else {
            None
        }),
{
    if flags & IRQ_TIMEOUT != 0 {
        return IrqReport { state: Err(RadioError::TransmitTimeout), cad_detected: None };
    }
    match radio_mode {
        RadioMode::Transmit => {
            let state = if flags & IRQ_TX_DONE != 0 { Some(IrqState::Done) } else { None };
            IrqReport { state: Ok(state), cad_detected: None }
        },
        RadioMode::Receive(_) => {
            let state = if flags & IRQ_HEADER_ERR != 0 || flags & IRQ_CRC_ERROR != 0 {
                None
            } else if flags & IRQ_RX_DONE != 0 {
                Some(IrqState::Done)
            } else if flags & IRQ_PREAMBLE_DETECTED != 0 || flags & IRQ_HEADER_VALID != 0 {
                Some(IrqState::PreambleReceived)
            } else {
                None
            };
            IrqReport { state: Ok(state), cad_detected: None }
        },
        RadioMode::ChannelActivityDetection => {
            if flags & IRQ_CAD_DONE != 0 {
                IrqReport {
                    state: Ok(Some(IrqState::Done)),
                    cad_detected: Some(flags & IRQ_CAD_DETECTED != 0),
                }
            } else {
                IrqReport { state: Ok(None), cad_detected: None }
            }
        },
        _ => IrqReport { state: Ok(None), cad_detected: None },
    }
}

/// Result of processing an interrupt: the acknowledgement, when one was made
/// and failed, reports its error; otherwise the decoded state is returned as
/// it came, error included.
pub fn irq_event_result(
    state: Result<Option<IrqState>, RadioError>,
    clear: Option<Result<(), RadioError>>,
) -> (r: Result<Option<IrqState>, RadioError>)
    ensures
        match clear {
            Some(Err(e)) => r == Err::<Option<IrqState>, RadioError>(e),
            _ => r == state,
        },
{
    match clear {
        Some(Err(e)) => Err(e),
        _ => state,
    }
}

} // verus!
