//! Fixed-point decoding of the chip's signal-quality registers.

use vstd::prelude::*;
use lora_phy::mod_params::PacketStatus;

verus! {

/// RSSI register value (in -0.5 dBm units) as whole dBm: `-(raw >> 1)`.
pub open spec fn rssi_dbm(raw: u16) -> int {
    -(raw as int / 2)
}

/// SNR register value (in 0.25 dB units) rounded to whole dB: `(raw + 2) >> 2`.
pub open spec fn snr_db(raw: i8) -> int {
    (raw as int + 2) / 4
}

pub fn decode_rssi(raw: u16) -> (r: i16)
    ensures
        r as int == rssi_dbm(raw),
{
    let half = raw >> 1;
    assert(half == raw / 2 && half <= 32767u16) by (bit_vector)
        requires
            half == raw >> 1,
    ;
    -(half as i16)
}

pub fn decode_snr(raw: i8) -> (r: i16)
    ensures
        r as int == snr_db(raw),
{
    let biased: i16 = raw as i16 + 2;
    let q = biased >> 2;
    assert(q as int == (biased as int) / 4) by (bit_vector)
        requires
            q == biased >> 2,
    ;
    q
}

/// Signal quality of the last packet, from the packet-status registers.
pub fn packet_status(rssi_raw: u16, snr_raw: i8) -> (r: PacketStatus)
    ensures
        r.rssi as int == rssi_dbm(rssi_raw),
        r.snr as int == snr_db(snr_raw),
{
    PacketStatus { rssi: decode_rssi(rssi_raw), snr: decode_snr(snr_raw) }
}

} // verus!
