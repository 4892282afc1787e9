//! Translation of the generic settings into the LR2021's own command
//! arguments: total one-to-one tables, the power window, the calibration step
//! and the choice of receive, sleep and activity-detection commands.

use vstd::prelude::*;
use lora_phy::mod_params::{Bandwidth, CodingRate, SpreadingFactor};
use lr2021::lora::{HeaderType, Ldro, LoraBw, LoraCr, LoraModulationParams, LoraPacketParams, Sf};
use crate::params::{ModulationParams, PacketParams};

verus! {

/// Chip code of each spreading factor.
pub open spec fn sf_code(sf: SpreadingFactor) -> Sf {
    match sf {
        SpreadingFactor::_5 => Sf::Sf5,
        SpreadingFactor::_6 => Sf::Sf6,
        SpreadingFactor::_7 => Sf::Sf7,
        SpreadingFactor::_8 => Sf::Sf8,
        SpreadingFactor::_9 => Sf::Sf9,
        SpreadingFactor::_10 => Sf::Sf10,
        SpreadingFactor::_11 => Sf::Sf11,
        SpreadingFactor::_12 => Sf::Sf12,
    }
}

/// Chip code of each bandwidth.
pub open spec fn bw_code(bw: Bandwidth) -> LoraBw {
    match bw {
        Bandwidth::_7KHz => LoraBw::Bw7,
        Bandwidth::_10KHz => LoraBw::Bw10,
        Bandwidth::_15KHz => LoraBw::Bw15,
        Bandwidth::_20KHz => LoraBw::Bw20,
        Bandwidth::_31KHz => LoraBw::Bw31,
        Bandwidth::_41KHz => LoraBw::Bw41,
        Bandwidth::_62KHz => LoraBw::Bw62,
        Bandwidth::_125KHz => LoraBw::Bw125,
        Bandwidth::_250KHz => LoraBw::Bw250,
        Bandwidth::_500KHz => LoraBw::Bw500,
    }
}

/// Chip code of each coding rate: Hamming codes with short interleaving.
pub open spec fn cr_code(cr: CodingRate) -> LoraCr {
    match cr {
        CodingRate::_4_5 => LoraCr::Cr1Ham45Si,
        CodingRate::_4_6 => LoraCr::Cr2Ham23Si,
        CodingRate::_4_7 => LoraCr::Cr3Ham47Si,
        CodingRate::_4_8 => LoraCr::Cr4Ham12Si,
    }
}

pub fn chip_sf(sf: SpreadingFactor) -> (r: Sf)
    ensures
        r == sf_code(sf),
{
    match sf {
        SpreadingFactor::_5 => Sf::Sf5,
        SpreadingFactor::_6 => Sf::Sf6,
        SpreadingFactor::_7 => Sf::Sf7,
        SpreadingFactor::_8 => Sf::Sf8,
        SpreadingFactor::_9 => Sf::Sf9,
        SpreadingFactor::_10 => Sf::Sf10,
        SpreadingFactor::_11 => Sf::Sf11,
        SpreadingFactor::_12 => Sf::Sf12,
    }
}

pub fn chip_bw(bw: Bandwidth) -> (r: LoraBw)
    ensures
        r == bw_code(bw),
{
    match bw {
        Bandwidth::_7KHz => LoraBw::Bw7,
        Bandwidth::_10KHz => LoraBw::Bw10,
        Bandwidth::_15KHz => LoraBw::Bw15,
        Bandwidth::_20KHz => LoraBw::Bw20,
        Bandwidth::_31KHz => LoraBw::Bw31,
        Bandwidth::_41KHz => LoraBw::Bw41,
        Bandwidth::_62KHz => LoraBw::Bw62,
        Bandwidth::_125KHz => LoraBw::Bw125,
        Bandwidth::_250KHz => LoraBw::Bw250,
        Bandwidth::_500KHz => LoraBw::Bw500,
    }
}

pub fn chip_cr(cr: CodingRate) -> (r: LoraCr)
    ensures
        r == cr_code(cr),
{
    match cr {
        CodingRate::_4_5 => LoraCr::Cr1Ham45Si,
        CodingRate::_4_6 => LoraCr::Cr2Ham23Si,
        CodingRate::_4_7 => LoraCr::Cr3Ham47Si,
        CodingRate::_4_8 => LoraCr::Cr4Ham12Si,
    }
}

/// The arguments of the "program modulation" command.
pub fn lora_modulation(mdltn_params: &ModulationParams) -> (r: LoraModulationParams)
    ensures
        r.sf == sf_code(mdltn_params.spreading_factor),
        r.bw == bw_code(mdltn_params.bandwidth),
        r.cr == cr_code(mdltn_params.coding_rate),
        r.ldro == (if mdltn_params.low_data_rate_optimize != 0 { Ldro::On } else { Ldro::Off }),
{
    let sf = chip_sf(mdltn_params.spreading_factor);
    let bw = chip_bw(mdltn_params.bandwidth);
    let cr = chip_cr(mdltn_params.coding_rate);
    let ldro = if mdltn_params.low_data_rate_optimize != 0 { Ldro::On } else { Ldro::Off };
    LoraModulationParams { sf, bw, cr, ldro }
}

/// The arguments of the "program packet shape" command.
pub fn lora_packet(pkt_params: &PacketParams) -> (r: LoraPacketParams)
    ensures
        r.pbl_len == pkt_params.preamble_length,
        r.payload_len == pkt_params.payload_length,
        r.header_type == (if pkt_params.implicit_header { HeaderType::Implicit } else { HeaderType::Explicit }),
        r.crc_en == pkt_params.crc_on,
        r.invert_iq == pkt_params.iq_inverted,
{
    let header_type = if pkt_params.implicit_header { HeaderType::Implicit } else { HeaderType::Explicit };
    LoraPacketParams {
        pbl_len: pkt_params.preamble_length,
        payload_len: pkt_params.payload_length,
        header_type,
        crc_en: pkt_params.crc_on,
        invert_iq: pkt_params.iq_inverted,
    }
}

} // verus!
