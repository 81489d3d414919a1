//! The commands of the card protocols, as `sdio_host` builds them.
use vstd::prelude::*;

verus! {

/// A command and its argument. All commands of this library are answered with a
/// short (48 bit) response.
#[derive(Debug, Clone, Copy, PartialEq, Eq)]
pub struct Command {
    /// The command number
    pub index: u8,
    /// The command argument
    pub arg: u32,
}

/// A way to modify a field of the extended card specific data.
#[derive(Debug, Clone, Copy, PartialEq, Eq)]
pub enum AccessMode {
    /// Set the bits that are set in the value
    SetBits,
    /// Clear the bits that are set in the value
    ClearBits,
    /// Write the value
    WriteByte,
}

/// The code of an access mode.
pub open spec fn access_bits(mode: AccessMode) -> u32 {
    match mode {
        AccessMode::SetBits => 1,
        AccessMode::ClearBits => 2,
        AccessMode::WriteByte => 3,
    }
}

/// One for a flag that is set, else zero.
pub open spec fn flag(b: bool) -> u32 {
    if b {
        1
    } else {
        0
    }
}

/// `sdio_host::common_cmd::cmd`: the command with that number and argument.
#[verifier::external_body]
pub(crate) fn cmd(index: u8, arg: u32) -> (r: Command)
    ensures
        r == (Command { index: index, arg: arg }),
{
    let c = sdio_host::common_cmd::cmd::<sdio_host::common_cmd::R1>(index, arg);
    Command { index: c.cmd, arg: c.arg }
}

/// `sdio_host::common_cmd::stop_transmission`: CMD12.
#[verifier::external_body]
pub(crate) fn stop_transmission() -> (r: Command)
    ensures
        r == (Command { index: 12, arg: 0 }),
{
    let c = sdio_host::common_cmd::stop_transmission();
    Command { index: c.cmd, arg: c.arg }
}

/// `sdio_host::common_cmd::set_block_length`: CMD16 with the length as its argument.
#[verifier::external_body]
pub(crate) fn set_block_length(block_length: u32) -> (r: Command)
    ensures
        r == (Command { index: 16, arg: block_length }),
{
    let c = sdio_host::common_cmd::set_block_length(block_length);
    Command { index: c.cmd, arg: c.arg }
}

/// `sdio_host::common_cmd::read_single_block`: CMD17 with the address as its argument.
#[verifier::external_body]
pub(crate) fn read_single_block(address: u32) -> (r: Command)
    ensures
        r == (Command { index: 17, arg: address }),
{
    let c = sdio_host::common_cmd::read_single_block(address);
    Command { index: c.cmd, arg: c.arg }
}

/// `sdio_host::common_cmd::read_multiple_blocks`: CMD18 with the address as its argument.
#[verifier::external_body]
pub(crate) fn read_multiple_blocks(address: u32) -> (r: Command)
    ensures
        r == (Command { index: 18, arg: address }),
{
    let c = sdio_host::common_cmd::read_multiple_blocks(address);
    Command { index: c.cmd, arg: c.arg }
}

/// `sdio_host::common_cmd::write_single_block`: CMD24 with the address as its argument.
#[verifier::external_body]
pub(crate) fn write_single_block(address: u32) -> (r: Command)
    ensures
        r == (Command { index: 24, arg: address }),
{
    let c = sdio_host::common_cmd::write_single_block(address);
    Command { index: c.cmd, arg: c.arg }
}

/// `sdio_host::common_cmd::write_multiple_blocks`: CMD25 with the address as its argument.
#[verifier::external_body]
pub(crate) fn write_multiple_blocks(address: u32) -> (r: Command)
    ensures
        r == (Command { index: 25, arg: address }),
{
    let c = sdio_host::common_cmd::write_multiple_blocks(address);
    Command { index: c.cmd, arg: c.arg }
}

/// `sdio_host::common_cmd::erase`: CMD38.
#[verifier::external_body]
pub(crate) fn erase() -> (r: Command)
    ensures
        r == (Command { index: 38, arg: 0 }),
{
    let c = sdio_host::common_cmd::erase();
    Command { index: c.cmd, arg: c.arg }
}

/// `sdio_host::common_cmd::app_cmd`: CMD55 with the card address in the upper half of its
/// argument.
#[verifier::external_body]
pub(crate) fn app_cmd(rca: u16) -> (r: Command)
    ensures
        r == (Command { index: 55, arg: (rca as u32) << 16u32 }),
{
    let c = sdio_host::common_cmd::app_cmd(rca);
    Command { index: c.cmd, arg: c.arg }
}

/// `sdio_host::sd_cmd::send_relative_address`: CMD3 without an argument.
#[verifier::external_body]
pub(crate) fn send_relative_address() -> (r: Command)
    ensures
        r == (Command { index: 3, arg: 0 }),
{
    let c = sdio_host::sd_cmd::send_relative_address();
    Command { index: c.cmd, arg: c.arg }
}

/// `sdio_host::sd_cmd::cmd6`: CMD6, or ACMD6 after CMD55, with that argument.
#[verifier::external_body]
pub(crate) fn cmd6(arg: u32) -> (r: Command)
    ensures
        r == (Command { index: 6, arg: arg }),
{
    let c = sdio_host::sd_cmd::cmd6(arg);
    Command { index: c.cmd, arg: c.arg }
}

/// `sdio_host::sd_cmd::send_if_cond`: CMD8 with four bits of voltage above eight bits of
/// check pattern.
#[verifier::external_body]
pub(crate) fn send_if_cond(voltage: u8, checkpattern: u8) -> (r: Command)
    ensures
        r == (Command { index: 8, arg: ((voltage & 0xF) as u32) << 8u32 | checkpattern as u32 }),
{
    let c = sdio_host::sd_cmd::send_if_cond(voltage, checkpattern);
    Command { index: c.cmd, arg: c.arg }
}

/// `sdio_host::sd_cmd::sd_status`: ACMD13.
#[verifier::external_body]
pub(crate) fn sd_status() -> (r: Command)
    ensures
        r == (Command { index: 13, arg: 0 }),
{
    let c = sdio_host::sd_cmd::sd_status();
    Command { index: c.cmd, arg: c.arg }
}

/// `sdio_host::sd_cmd::sd_send_op_cond`: ACMD41 with the three flags in bits 30, 28
/// and 24, and the nine bits of the voltage window from bit 15 up.
#[verifier::external_body]
pub(crate) fn sd_send_op_cond(
    high_capacity: bool,
    power_control: bool,
    switch_to_1_8v: bool,
    voltage_window: u16,
) -> (r: Command)
    ensures
        r == (Command {
            index: 41,
            arg: flag(high_capacity) << 30u32 | flag(power_control) << 28u32 | flag(switch_to_1_8v)
                << 24u32 | ((voltage_window & 0x1FF) as u32) << 15u32,
        }),
{
    let c = sdio_host::sd_cmd::sd_send_op_cond(
        high_capacity,
        power_control,
        switch_to_1_8v,
        voltage_window,
    );
    Command { index: c.cmd, arg: c.arg }
}

/// `sdio_host::sd_cmd::send_scr`: ACMD51.
#[verifier::external_body]
pub(crate) fn send_scr() -> (r: Command)
    ensures
        r == (Command { index: 51, arg: 0 }),
{
    let c = sdio_host::sd_cmd::send_scr();
    Command { index: c.cmd, arg: c.arg }
}

/// `sdio_host::emmc_cmd::send_op_cond`: CMD1 with the operation conditions as its argument.
#[verifier::external_body]
pub(crate) fn send_op_cond(ocr: u32) -> (r: Command)
    ensures
        r == (Command { index: 1, arg: ocr }),
{
    let c = sdio_host::emmc_cmd::send_op_cond(ocr);
    Command { index: c.cmd, arg: c.arg }
}

/// `sdio_host::emmc_cmd::assign_relative_address`: CMD3 with the address in the upper half of
/// its argument.
#[verifier::external_body]
pub(crate) fn assign_relative_address(address: u16) -> (r: Command)
    ensures
        r == (Command { index: 3, arg: (address as u32) << 16u32 }),
{
    let c = sdio_host::emmc_cmd::assign_relative_address(address);
    Command { index: c.cmd, arg: c.arg }
}

/// `sdio_host::emmc_cmd::modify_ext_csd`: CMD6 with the access mode in bits 25 and 24,
/// the index above bit 16 and the value above bit 8.
#[verifier::external_body]
pub(crate) fn modify_ext_csd(access_mode: AccessMode, index: u8, value: u8) -> (r: Command)
    ensures
        r == (Command {
            index: 6,
            arg: access_bits(access_mode) << 24u32 | (index as u32) << 16u32 | (value as u32)
                << 8u32,
        }),
{
    let mode = match access_mode {
        AccessMode::SetBits => sdio_host::emmc_cmd::AccessMode::SetBits,
        AccessMode::ClearBits => sdio_host::emmc_cmd::AccessMode::ClearBits,
        AccessMode::WriteByte => sdio_host::emmc_cmd::AccessMode::WriteByte,
    };
    let c = sdio_host::emmc_cmd::modify_ext_csd(mode, index, value);
    Command { index: c.cmd, arg: c.arg }
}

/// `sdio_host::emmc_cmd::send_ext_csd`: CMD8 without an argument.
#[verifier::external_body]
pub(crate) fn send_ext_csd() -> (r: Command)
    ensures
        r == (Command { index: 8, arg: 0 }),
{
    let c = sdio_host::emmc_cmd::send_ext_csd();
    Command { index: c.cmd, arg: c.arg }
}

/// `sdio_host::emmc_cmd::erase_group_start`: CMD35 with the address as its argument.
#[verifier::external_body]
pub(crate) fn erase_group_start(address: u32) -> (r: Command)
    ensures
        r == (Command { index: 35, arg: address }),
{
    let c = sdio_host::emmc_cmd::erase_group_start(address);
    Command { index: c.cmd, arg: c.arg }
}

/// `sdio_host::emmc_cmd::erase_group_end`: CMD36 with the address as its argument.
#[verifier::external_body]
pub(crate) fn erase_group_end(address: u32) -> (r: Command)
    ensures
        r == (Command { index: 36, arg: address }),
{
    let c = sdio_host::emmc_cmd::erase_group_end(address);
    Command { index: c.cmd, arg: c.arg }
}

} // verus!
