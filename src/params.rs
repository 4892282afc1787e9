//! Modulation and packet parameter records, built with the two physical-layer
//! rules that the caller cannot override.

use vstd::prelude::*;
use lora_phy::mod_params::{Bandwidth, CodingRate, RadioError, SpreadingFactor};

verus! {

/// Modulation settings of one channel.
#[derive(Clone, Copy)]
pub struct ModulationParams {
    pub spreading_factor: SpreadingFactor,
    pub bandwidth: Bandwidth,
    pub coding_rate: CodingRate,
    /// 1 when low data-rate optimisation is on, 0 otherwise.
    pub low_data_rate_optimize: u8,
    pub frequency_in_hz: u32,
}

/// Packet shape of one exchange.
#[derive(Clone, Copy)]
pub struct PacketParams {
    /// Preamble length, in symbols.
    pub preamble_length: u16,
    pub implicit_header: bool,
    /// Payload length, in bytes.
    pub payload_length: u8,
    pub crc_on: bool,
    pub iq_inverted: bool,
}

/// Low data-rate optimisation is needed where a symbol lasts long enough for
/// clock drift to matter: 125 kHz with SF11 or SF12, and 250 kHz with SF12.
pub open spec fn ldro_required(sf: SpreadingFactor, bw: Bandwidth) -> bool {
    (bw == Bandwidth::_125KHz && (sf == SpreadingFactor::_11 || sf == SpreadingFactor::_12))
        || (bw == Bandwidth::_250KHz && sf == SpreadingFactor::_12)
}

/// The two lowest spreading factors, which need a longer preamble.
pub open spec fn is_short_sf(sf: SpreadingFactor) -> bool {
    sf == SpreadingFactor::_5 || sf == SpreadingFactor::_6
}

/// Smallest preamble, in symbols, that SF5 and SF6 can be detected with.
pub const MIN_SHORT_SF_PREAMBLE: u16 = 12;

/// The preamble length that is programmed for a requested one.
pub open spec fn effective_preamble(sf: SpreadingFactor, requested: u16) -> u16 {
    if is_short_sf(sf) && requested < MIN_SHORT_SF_PREAMBLE {
        MIN_SHORT_SF_PREAMBLE
    } else {
        requested
    }
}

/// Whether low data-rate optimisation must be on for `sf` at `bw`.
pub fn needs_ldro(sf: SpreadingFactor, bw: Bandwidth) -> (r: bool)
    ensures
        r == ldro_required(sf, bw),
{
    match bw {
        Bandwidth::_125KHz => matches!(sf, SpreadingFactor::_11 | SpreadingFactor::_12),
        Bandwidth::_250KHz => matches!(sf, SpreadingFactor::_12),
        _ => false,
    }
}

/// Builds the modulation record; the optimisation flag is derived from the
/// spreading factor and bandwidth, never taken from the caller.
pub fn create_modulation_params(
    spreading_factor: SpreadingFactor,
    bandwidth: Bandwidth,
    coding_rate: CodingRate,
    frequency_in_hz: u32,
) -> (r: Result<ModulationParams, RadioError>)
    ensures
        r is Ok,
        r->Ok_0.spreading_factor == spreading_factor,
        r->Ok_0.bandwidth == bandwidth,
        r->Ok_0.coding_rate == coding_rate,
        r->Ok_0.frequency_in_hz == frequency_in_hz,
        r->Ok_0.low_data_rate_optimize == (if ldro_required(spreading_factor, bandwidth) { 1u8 } else { 0u8 }),
{
    let ldro_en = needs_ldro(spreading_factor, bandwidth);
    let low_data_rate_optimize: u8 = if ldro_en { 1 } else { 0 };
    Ok(ModulationParams {
        spreading_factor,
        bandwidth,
        coding_rate,
        low_data_rate_optimize,
        frequency_in_hz,
    })
}

/// Builds the packet record; with SF5 and SF6 the preamble is raised to
/// `MIN_SHORT_SF_PREAMBLE` symbols when shorter.
pub fn create_packet_params(
    preamble_length: u16,
    implicit_header: bool,
    payload_length: u8,
    crc_on: bool,
    iq_inverted: bool,
    modulation_params: &ModulationParams,
) -> (r: Result<PacketParams, RadioError>)
    ensures
        r is Ok,
        r->Ok_0.preamble_length == effective_preamble(modulation_params.spreading_factor, preamble_length),
        is_short_sf(modulation_params.spreading_factor) ==> r->Ok_0.preamble_length >= MIN_SHORT_SF_PREAMBLE,
        !is_short_sf(modulation_params.spreading_factor) ==> r->Ok_0.preamble_length == preamble_length,
        r->Ok_0.implicit_header == implicit_header,
        r->Ok_0.payload_length == payload_length,
        r->Ok_0.crc_on == crc_on,
        r->Ok_0.iq_inverted == iq_inverted,
{
    let short_sf = matches!(
        modulation_params.spreading_factor,
        SpreadingFactor::_5 | SpreadingFactor::_6
    );
    let preamble_length = if short_sf && preamble_length < MIN_SHORT_SF_PREAMBLE {
        MIN_SHORT_SF_PREAMBLE
    } else {
        preamble_length
    };
    Ok(PacketParams { preamble_length, implicit_header, payload_length, crc_on, iq_inverted })
}

} // verus!
