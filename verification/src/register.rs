//! The card registers, as `sdio_host` reads them. A register is held as the raw
//! value that came over the bus.
use vstd::prelude::*;

verus! {

/// The state that a card reports of itself.
#[derive(Debug, Clone, Copy, PartialEq, Eq, Structural)]
pub enum CurrentState {
    /// Ready
    Ready,
    /// Identification
    Identification,
    /// Standby
    Standby,
    /// Transfer
    Transfer,
    /// Sending data
    Sending,
    /// Receiving data
    Receiving,
    /// Programming
    Programming,
    /// Disconnected
    Disconnected,
    /// Bus test, on eMMC only
    BusTest,
    /// Sleep, on eMMC only
    Sleep,
    /// Any other code
    Error,
}

/// The state that a code in the card status names.
pub open spec fn state_of_code(code: u32) -> CurrentState {
    match code {
        1 => CurrentState::Ready,
        2 => CurrentState::Identification,
        3 => CurrentState::Standby,
        4 => CurrentState::Transfer,
        5 => CurrentState::Sending,
        6 => CurrentState::Receiving,
        7 => CurrentState::Programming,
        8 => CurrentState::Disconnected,
        9 => CurrentState::BusTest,
        10 => CurrentState::Sleep,
        _ => CurrentState::Error,
    }
}

/// Whether a card in this operating condition is still powering up.
pub open spec fn ocr_busy(ocr: u32) -> bool {
    ocr & 0x8000_0000 == 0
}

/// Whether an SD card in this operating condition is addressed by blocks.
pub open spec fn ocr_sd_high_capacity(ocr: u32) -> bool {
    ocr & 0x4000_0000 != 0
}

/// The access mode of an eMMC device in this operating condition.
pub open spec fn ocr_emmc_access_mode(ocr: u32) -> u32 {
    ocr % 4
}

/// Whether a card with this configuration takes four data lines.
pub open spec fn scr_width_four(scr: u64) -> bool {
    (scr >> 50u64) & 1 != 0
}

/// Whether a card with this status can take data.
pub open spec fn status_ready(word: u32) -> bool {
    word & 0x100 != 0
}

/// The number of 512 byte blocks of an SD card. The top two bits of its card
/// specific data say where the capacity stands.
pub open spec fn sd_block_count(csd: u128) -> int {
    let version = csd / 0x4000_0000_0000_0000_0000_0000_0000_0000;
    if version == 0 {
        let size = (csd / 0x4000_0000_0000_0000) % 0x1000;
        let multiplier = (csd / 0x8000_0000_0000) % 8;
        (size + 1) * vstd::arithmetic::power2::pow2((multiplier + 2) as nat)
    } else if version == 1 {
        ((csd / 0x1_0000_0000_0000) % 0x40_0000 + 1) * 1024
    } else if version == 2 {
        ((csd / 0x1_0000_0000_0000) % 0x1000_0000 + 1) * 1024
    } else {
        0
    }
}

/// `sdio_host::sd::CIC::pattern`: the low byte.
#[verifier::external_body]
pub(crate) fn cic_pattern(word: u32) -> (r: u8)
    ensures
        r == word % 0x100,
{
    sdio_host::sd::CIC::from(word).pattern()
}

/// `sdio_host::sd::CIC::voltage_accepted`: the second byte.
#[verifier::external_body]
pub(crate) fn cic_voltage_accepted(word: u32) -> (r: u8)
    ensures
        r == (word / 0x100) % 0x100,
{
    sdio_host::sd::CIC::from(word).voltage_accepted()
}

/// `sdio_host::sd::OCR::is_busy`: bit 31 is clear.
#[verifier::external_body]
pub(crate) fn ocr_is_busy(ocr: u32) -> (r: bool)
    ensures
        r == ocr_busy(ocr),
{
    sdio_host::sd::OCR::<sdio_host::sd::SD>::from(ocr).is_busy()
}

/// `sdio_host::sd::OCR::<SD>::high_capacity`: bit 30 is set.
#[verifier::external_body]
pub(crate) fn ocr_high_capacity(ocr: u32) -> (r: bool)
    ensures
        r == ocr_sd_high_capacity(ocr),
{
    sdio_host::sd::OCR::<sdio_host::sd::SD>::from(ocr).high_capacity()
}

/// `sdio_host::emmc::OCR::<EMMC>::access_mode`: the two low bits of the register.
#[verifier::external_body]
pub(crate) fn ocr_access_mode(ocr: u32) -> (r: u8)
    ensures
        r == ocr_emmc_access_mode(ocr),
{
    sdio_host::emmc::OCR::<sdio_host::emmc::EMMC>::from(ocr).access_mode()
}

/// `sdio_host::sd::RCA::address`: the upper half.
#[verifier::external_body]
pub(crate) fn rca_address(word: u32) -> (r: u16)
    ensures
        r == word / 0x1_0000,
{
    sdio_host::sd::RCA::<sdio_host::sd::SD>::from(word).address()
}

/// `sdio_host::sd::CSD::<SD>::block_count`: the capacity in blocks, for each version of
/// the register.
#[verifier::external_body]
pub(crate) fn csd_block_count(csd: u128) -> (r: u64)
    ensures
        r == sd_block_count(csd),
{
    sdio_host::sd::CSD::<sdio_host::sd::SD>::from(csd).block_count()
}

/// `sdio_host::sd::SCR::bus_width_four`: bit 50 is set.
#[verifier::external_body]
pub(crate) fn scr_bus_width_four(scr: u64) -> (r: bool)
    ensures
        r == scr_width_four(scr),
{
    sdio_host::sd::SCR(scr).bus_width_four()
}

/// `sdio_host::sd::CardStatus::ready_for_data`: bit 8 is set.
#[verifier::external_body]
pub(crate) fn status_ready_for_data(word: u32) -> (r: bool)
    ensures
        r == status_ready(word),
{
    sdio_host::sd::CardStatus::<sdio_host::sd::SD>::from(word).ready_for_data()
}

/// `sdio_host::emmc::ExtCSD::sector_count`: word 53.
#[verifier::external_body]
pub(crate) fn ext_csd_sector_count(words: &[u32; 128]) -> (r: u32)
    ensures
        r == words@[53],
{
    sdio_host::emmc::ExtCSD::from(*words).sector_count()
}

/// `sdio_host::emmc::ExtCSD::csd_structure_version`: bits 15 to 8 of word 48.
#[verifier::external_body]
pub(crate) fn ext_csd_structure_version(words: &[u32; 128]) -> (r: u8)
    ensures
        r == (words@[48] / 0x100) % 0x100,
{
    sdio_host::emmc::ExtCSD::from(*words).csd_structure_version()
}

/// `sdio_host::sd::CardStatus::state`: the state that bits 12 to 9 name.
#[verifier::external_body]
pub(crate) fn status_state(word: u32) -> (r: CurrentState)
    ensures
        r == state_of_code((word / 0x200) % 0x10),
{
    match sdio_host::sd::CardStatus::<sdio_host::sd::SD>::from(word).state() {
        sdio_host::sd::CurrentState::Ready => CurrentState::Ready,
        sdio_host::sd::CurrentState::Identification => CurrentState::Identification,
        sdio_host::sd::CurrentState::Standby => CurrentState::Standby,
        sdio_host::sd::CurrentState::Transfer => CurrentState::Transfer,
        sdio_host::sd::CurrentState::Sending => CurrentState::Sending,
        sdio_host::sd::CurrentState::Receiving => CurrentState::Receiving,
        sdio_host::sd::CurrentState::Programming => CurrentState::Programming,
        sdio_host::sd::CurrentState::Disconnected => CurrentState::Disconnected,
        sdio_host::sd::CurrentState::BusTest => CurrentState::BusTest,
        sdio_host::sd::CurrentState::Sleep => CurrentState::Sleep,
        sdio_host::sd::CurrentState::Error => CurrentState::Error,
    }
}

} // verus!
