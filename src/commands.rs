//! Arguments of the power, calibration, receive, sleep and channel-activity
//! commands, and the operations that need no command at all.

use vstd::prelude::*;
use lora_phy::mod_params::{RadioError, RadioMode, RxMode, SpreadingFactor};
use lr2021::lora::{ExitMode, Sf};
use lr2021::radio::RampTime;
use lr2021::system::ChipMode;
use crate::translate::{chip_sf, sf_code};

verus! {

/// Lowest transmit power the chip is programmed with.
pub const MIN_TX_POWER: i32 = -9;

/// Highest transmit power the chip is programmed with.
pub const MAX_TX_POWER: i32 = 22;

/// The chip calibrates the image rejection in steps of 2^22 Hz (about 4.194 MHz).
pub const CALIBRATION_STEP_HZ: u32 = 4_194_304;

/// Receive timeout that means "no timeout".
pub const NO_RX_TIMEOUT: u32 = 0xFFFF_FFFF;

/// Symbols a channel-activity scan listens for.
pub const CAD_SYMBOLS: u8 = 4;

/// Detection threshold step of a channel-activity scan.
pub const CAD_PNR_DELTA: u8 = 9;

/// `power` clamped to `MIN_TX_POWER..=MAX_TX_POWER`.
pub open spec fn clamped_power(power: int) -> int {
    if power < MIN_TX_POWER {
        MIN_TX_POWER as int
    } else if power > MAX_TX_POWER {
        MAX_TX_POWER as int
    } else {
        power
    }
}

/// Power and ramp time of the "set TX parameters" command.
#[derive(Clone, Copy)]
pub struct TxParams {
    pub power: i8,
    pub ramp: RampTime,
}

/// The transmit settings for a requested power: the power is clamped to what
/// the chip supports, and the ramp is short while preparing a transmission and
/// long otherwise.
pub fn tx_params(output_power: i32, is_tx_prep: bool) -> (r: TxParams)
    ensures
        r.power as int == clamped_power(output_power as int),
        MIN_TX_POWER <= r.power <= MAX_TX_POWER,
        r.ramp == (if is_tx_prep { RampTime::Ramp32u } else { RampTime::Ramp128u }),
{
    let ramp = if is_tx_prep { RampTime::Ramp32u } else { RampTime::Ramp128u };
    let pwr: i32 = if output_power < MIN_TX_POWER {
        MIN_TX_POWER
    } else if output_power > MAX_TX_POWER {
        MAX_TX_POWER
    } else {
        output_power
    };
    TxParams { power: pwr as i8, ramp }
}

/// Index of the calibration step that holds `frequency_in_hz`: the frequency
/// shifted right by 22 bits.
pub fn image_calibration_step(frequency_in_hz: u32) -> (r: u16)
    ensures
        r as int == frequency_in_hz as int / CALIBRATION_STEP_HZ as int,
        r == frequency_in_hz >> 22,
{
    let step = frequency_in_hz >> 22;
    assert(step == frequency_in_hz / 4_194_304u32 && step <= 1023u32) by (bit_vector)
        requires
            step == frequency_in_hz >> 22,
    ;
    step as u16
}

/// The receive command to issue for a receive mode.
#[derive(Clone, Copy)]
pub enum RxCommand {
    /// Listen for `listen_time`, sleep, and repeat every `cycle_time`.
    DutyCycle { listen_time: u32, cycle_time: u32, use_lora_cad: bool, dram_retention: u8 },
    /// Receive with a timeout, waiting for the chip to be ready afterwards.
    Receive { timeout: u32, wait_ready: bool },
}

/// Duty-cycled reception keeps no auxiliary memory bank, as no firmware patch
/// is loaded; the other modes receive once with their timeout, or with none
/// when continuous.
pub fn rx_command(rx_mode: RxMode) -> (r: RxCommand)
    ensures
        match rx_mode {
            RxMode::DutyCycle(p) => r == (RxCommand::DutyCycle {
                listen_time: p.rx_time,
                cycle_time: p.sleep_time,
                use_lora_cad: false,
                dram_retention: 0,
            }),
            RxMode::Single(timeout) => r == (RxCommand::Receive { timeout: timeout as u32, wait_ready: true }),
            RxMode::Continuous => r == (RxCommand::Receive { timeout: NO_RX_TIMEOUT, wait_ready: true }),
        },
{
    match rx_mode {
        RxMode::DutyCycle(params) => RxCommand::DutyCycle {
            listen_time: params.rx_time,
            cycle_time: params.sleep_time,
            use_lora_cad: false,
            dram_retention: 0,
        },
        RxMode::Single(timeout) => RxCommand::Receive { timeout: timeout as u32, wait_ready: true },
        RxMode::Continuous => RxCommand::Receive { timeout: NO_RX_TIMEOUT, wait_ready: true },
    }
}

/// Chip mode for a sleep request: retention when a warm start is wanted, deep
/// sleep (volatile state lost) otherwise.
pub fn sleep_chip_mode(warm_start_if_possible: bool) -> (r: ChipMode)
    ensures
        r == (if warm_start_if_possible { ChipMode::DeepRetention } else { ChipMode::DeepSleep }),
{
    if warm_start_if_possible {
        ChipMode::DeepRetention
    } else {
        ChipMode::DeepSleep
    }
}

/// Chip mode for a standby request: standby on the crystal oscillator.
pub fn standby_chip_mode() -> (r: ChipMode)
    ensures
        r == ChipMode::StandbyXosc,
{
    ChipMode::StandbyXosc
}

/// How the chip is brought to accept commands.
#[derive(Clone, Copy, PartialEq, Eq, Debug)]
pub enum ReadyAction {
    /// Wake the chip from sleep.
    WakeUp,
    /// Wait for the busy line to drop, with no extra delay.
    WaitReady,
}

/// A sleeping chip is woken up; in any other mode readiness is only checked.
pub fn ready_action(mode: RadioMode) -> (r: ReadyAction)
    ensures
        r == (if mode is Sleep { ReadyAction::WakeUp } else { ReadyAction::WaitReady }),
{
    match mode {
        RadioMode::Sleep => ReadyAction::WakeUp,
        _ => ReadyAction::WaitReady,
    }
}

/// The detection threshold lr2021 recommends for a scan over `nb_symbols`
/// symbols at spreading factor `sf`.
pub open spec fn recommended_cad_threshold(sf: Sf, nb_symbols: u8) -> u8 {
    let base: u8 = if nb_symbols <= 1 {
        60
    } else if nb_symbols == 2 {
        56
    } else if nb_symbols == 3 {
        52
    } else {
        51
    };
    let offset: u8 = match sf {
        Sf::Sf5 => 0,
        Sf::Sf6 => 1,
        Sf::Sf7 => 2,
        Sf::Sf8 => 3,
        Sf::Sf9 => 5,
        Sf::Sf10 => 6,
        Sf::Sf11 => 8,
        Sf::Sf12 => 10,
    };
    (base + offset) as u8
}

/// Relies on lr2021::lora::lora_cad_thr: a base value for the number of
/// symbols plus an offset for the spreading factor.
#[verifier::external_body]
fn cad_threshold(sf: Sf, nb_symbols: u8) -> (r: u8)
    ensures
        r == recommended_cad_threshold(sf, nb_symbols),
{
    lr2021::lora::lora_cad_thr(sf, nb_symbols)
}

/// Settings of a channel-activity scan.
#[derive(Clone, Copy)]
pub struct CadSettings {
    pub nb_symbols: u8,
    pub preamble_only: bool,
    pub pnr_delta: u8,
    pub exit_mode: ExitMode,
    pub timeout: u32,
    /// Detection threshold.
    pub threshold: u8,
}

/// A scan over `CAD_SYMBOLS` symbols, at the threshold recommended for the
/// configured spreading factor, that reports its result and does nothing
/// else afterwards.
pub fn cad_settings(sf: SpreadingFactor) -> (r: CadSettings)
    ensures
        r.nb_symbols == CAD_SYMBOLS,
        !r.preamble_only,
        r.pnr_delta == CAD_PNR_DELTA,
        r.exit_mode == ExitMode::CadOnly,
        r.timeout == 0,
        r.threshold == recommended_cad_threshold(sf_code(sf), CAD_SYMBOLS),
{
    let threshold = cad_threshold(chip_sf(sf), CAD_SYMBOLS);
    CadSettings {
        nb_symbols: CAD_SYMBOLS,
        preamble_only: false,
        pnr_delta: CAD_PNR_DELTA,
        exit_mode: ExitMode::CadOnly,
        timeout: 0,
        threshold,
    }
}

/// Transmit and receive payloads share one FIFO, so there are no base
/// addresses to program: this always succeeds.
pub fn set_tx_rx_buffer_base_address(tx_base_addr: usize, rx_base_addr: usize) -> (r: Result<(), RadioError>)
    ensures
        r is Ok,
{
    Ok(())
}

/// Length of the packet just received, as the generic layer reports it: LoRa
/// packets are shorter than 256 bytes, and the low byte is kept.
pub fn rx_payload_length(pkt_len: u16) -> (r: u8)
    ensures
        r as int == pkt_len as int % 256,
{
    (pkt_len % 256) as u8
}

} // verus!
