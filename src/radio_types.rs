//! Declarations that let verified code read and build values of the
//! `lora_phy` and `lr2021` data types: plain enums and structs with public
//! fields, which Verus takes in as they are defined.

use vstd::prelude::*;

verus! {

#[verifier::external_type_specification]
pub struct ExSpreadingFactor(lora_phy::mod_params::SpreadingFactor);

#[verifier::external_type_specification]
pub struct ExBandwidth(lora_phy::mod_params::Bandwidth);

#[verifier::external_type_specification]
pub struct ExCodingRate(lora_phy::mod_params::CodingRate);

#[verifier::external_type_specification]
pub struct ExRadioError(lora_phy::mod_params::RadioError);

} // verus!

verus! {

#[verifier::external_type_specification]
pub struct ExRadioMode(lora_phy::mod_params::RadioMode);

#[verifier::external_type_specification]
pub struct ExRxMode(lora_phy::mod_params::RxMode);

#[verifier::external_type_specification]
pub struct ExDutyCycleParams(lora_phy::mod_params::DutyCycleParams);

#[verifier::external_type_specification]
pub struct ExIrqState(lora_phy::mod_traits::IrqState);

#[verifier::external_type_specification]
pub struct ExPacketStatus(lora_phy::mod_params::PacketStatus);

#[verifier::external_type_specification]
pub struct ExSf(lr2021::lora::Sf);

#[verifier::external_type_specification]
pub struct ExLoraBw(lr2021::lora::LoraBw);

#[verifier::external_type_specification]
pub struct ExLoraCr(lr2021::lora::LoraCr);

#[verifier::external_type_specification]
pub struct ExLdro(lr2021::lora::Ldro);

#[verifier::external_type_specification]
pub struct ExHeaderType(lr2021::lora::HeaderType);

#[verifier::external_type_specification]
pub struct ExLoraModulationParams(lr2021::lora::LoraModulationParams);

#[verifier::external_type_specification]
pub struct ExLoraPacketParams(lr2021::lora::LoraPacketParams);

#[verifier::external_type_specification]
pub struct ExCadExitMode(lr2021::lora::ExitMode);

#[verifier::external_type_specification]
pub struct ExRampTime(lr2021::radio::RampTime);

#[verifier::external_type_specification]
pub struct ExChipMode(lr2021::system::ChipMode);

} // verus!
