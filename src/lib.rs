//! Verified adaptation layer between the generic LoRa PHY model of `lora_phy`
//! and the LR2021 transceiver driver.
//!
//! Everything that decides what the chip is told, and how its answers are read
//! back, lives here as plain functions with contracts: parameter records,
//! translation tables, power and calibration arithmetic, status decoding and
//! the interrupt state machine. Issuing the commands over SPI is left to the
//! caller.

mod radio_types;

pub mod params;
pub mod translate;
pub mod commands;
pub mod status;
pub mod irq;
pub mod errors;
