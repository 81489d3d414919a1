//! What the registers, codes and units of the library mean, bit by bit.
use crate::bus::{fits, Action, Buffer, BusWidth, Reply};
use crate::card::{Addressable, Card, CardCapacity, Emmc};
use crate::command::Command;
use crate::emmc::{emmc_capacity, width_code, write_ext_csd};
use crate::register::{
    ocr_busy, ocr_emmc_access_mode, ocr_sd_high_capacity, scr_width_four, sd_block_count,
    state_of_code, status_ready, CurrentState,
};
use crate::sd::{
    chosen_width, cmd48_supported, default_clock, op_cond_argument, sd_capacity, width_argument,
};
use crate::signalling::{send_app, switch_argument, Signalling};
use crate::time::{millis_in_ticks, secs_in_ticks, Hertz};
use crate::transfer::{send, BLOCK_SIZE, WRITE_TIMEOUT};
use vstd::arithmetic::power2::{lemma2_to64, pow2};
use vstd::prelude::*;

verus! {

/// A card has powered up once the top bit of its operating condition is set. The bit below
/// says of an SD card that it is addressed by blocks; of an eMMC device the two lowest bits
/// do, if they read 2.
pub proof fn law_operating_condition(ocr: u32)
    ensures
        ocr_busy(ocr) <==> ocr < 0x8000_0000,
        ocr_sd_high_capacity(ocr) <==> (ocr / 0x4000_0000) % 2 == 1,
        sd_capacity(ocr) == if (ocr / 0x4000_0000) % 2 == 1 {
            CardCapacity::HighCapacity
        } else {
            CardCapacity::StandardCapacity
        },
        ocr_emmc_access_mode(ocr) == ocr - 4 * (ocr / 4),
        emmc_capacity(ocr) == if ocr - 4 * (ocr / 4) == 2 {
            CardCapacity::HighCapacity
        } else {
            CardCapacity::StandardCapacity
        },
{
    assert((ocr & 0x8000_0000 == 0) <==> ocr < 0x8000_0000) by (bit_vector);
    assert((ocr & 0x4000_0000 != 0) <==> (ocr / 0x4000_0000) % 2 == 1) by (bit_vector);
}

/// Bit 8 of the card status says that the card can take data, and bits 12 to 9 name its
/// state, of which only code 4 is the transfer state.
pub proof fn law_card_status(word: u32)
    ensures
        status_ready(word) <==> (word / 0x100) % 2 == 1,
        state_of_code((word / 0x200) % 0x10) is Transfer <==> 0x800 <= word % 0x2000 < 0xA00,
{
    assert((word & 0x100 != 0) <==> (word / 0x100) % 2 == 1) by (bit_vector);
}

/// The codes of the states of a card, in the order of its life; every code past the last one
/// is an error, and so is 0.
pub proof fn law_states_are_numbered(code: u32)
    ensures
        state_of_code(code) == (if 1 <= code <= 10 {
            seq![
                CurrentState::Ready,
                CurrentState::Identification,
                CurrentState::Standby,
                CurrentState::Transfer,
                CurrentState::Sending,
                CurrentState::Receiving,
                CurrentState::Programming,
                CurrentState::Disconnected,
                CurrentState::BusTest,
                CurrentState::Sleep,
            ][code - 1]
        } else {
            CurrentState::Error
        }),
{
}

/// Bit 50 of the configuration register says that the card takes four data lines, and bit 34
/// that it has extension registers.
pub proof fn law_configuration(scr: u64)
    ensures
        scr_width_four(scr) <==> (scr / 0x4_0000_0000_0000) % 2 == 1,
        cmd48_supported(scr) <==> (scr / 0x4_0000_0000) % 2 == 1,
{
    assert(((scr >> 50u64) & 1 != 0) <==> (scr / 0x4_0000_0000_0000) % 2 == 1) by (bit_vector);
    assert((scr & 0x4_0000_0000 != 0) <==> (scr / 0x4_0000_0000) % 2 == 1) by (bit_vector);
}

/// The bus has four lines if both the controller is configured for four and bit 50 of the
/// card's configuration register is set, and one line otherwise; the card is told 2 or 0.
pub proof fn law_width_is_agreed(configured: BusWidth, scr: u64)
    ensures
        chosen_width(configured, scr) == if configured == BusWidth::Four && (scr
            / 0x4_0000_0000_0000) % 2 == 1 {
            BusWidth::Four
        } else {
            BusWidth::One
        },
        width_argument(chosen_width(configured, scr)) == if configured == BusWidth::Four && (scr
            / 0x4_0000_0000_0000) % 2 == 1 {
            2u32
        } else {
            0u32
        },
{
    law_configuration(scr);
}

/// The clock of a card in its default mode is the lesser of the requested one and 25 MHz.
pub proof fn law_default_clock(freq: Hertz)
    ensures
        default_clock(freq).0 <= freq.0,
        default_clock(freq).0 <= 25_000_000,
        default_clock(freq).0 == freq.0 || default_clock(freq).0 == 25_000_000,
{
}

/// ACMD41 asks for high capacity (bit 30), a switch to 1.8 V (bit 24) and 3.2 V to 3.3 V
/// (bit 20), and for nothing else.
pub proof fn law_op_cond_argument()
    ensures
        op_cond_argument() == 0x4000_0000 + 0x0100_0000 + 0x0010_0000,
{
    assert(1u32 << 30u32 | 0u32 << 28u32 | 1u32 << 24u32 | ((0x20u16 & 0x1FF) as u32) << 15u32
        == 0x4110_0000) by (bit_vector);
}

/// An application command is announced with the address of the card in the upper half of the
/// argument.
pub proof fn law_announcement(rca: u16)
    ensures
        send_app(rca) == (Action::Command {
            command: Command { index: 55, arg: (rca * 0x1_0000) as u32 },
            check_crc: true,
            data: false,
        }),
{
    assert((rca as u32) << 16u32 == rca * 0x1_0000) by (bit_vector);
}

/// A command is sent as its number, its argument and the two flags say.
pub proof fn law_command_is_sent(index: u8, arg: u32, check_crc: bool, data: bool)
    ensures
        send(index, arg, check_crc, data) == (Action::Command {
            command: Command { index, arg },
            check_crc,
            data,
        }),
        BLOCK_SIZE == 512,
        WRITE_TIMEOUT == 16_777_215,
{
}

/// A byte of the extended card specific data is written with CMD6: 3 in bits 25 and 24, then
/// the index, then the value.
pub proof fn law_ext_csd_byte_is_written(index: u8, value: u8)
    ensures
        write_ext_csd(index, value) == (Action::Command {
            command: Command {
                index: 6,
                arg: (0x300_0000 + index * 0x1_0000 + value * 0x100) as u32,
            },
            check_crc: true,
            data: false,
        }),
{
    assert(3u32 << 24u32 | (index as u32) << 16u32 | (value as u32) << 8u32 == 0x300_0000 + index
        * 0x1_0000 + value * 0x100) by (bit_vector);
}

/// The codes of the bus widths of eMMC count the doublings, with four lines as the first.
pub proof fn law_width_codes(width: BusWidth)
    requires
        !(width is Unknown),
    ensures
        width_code(width) == 0 <==> width == BusWidth::One,
        width_code(width) == 1 <==> width == BusWidth::Four,
        width_code(width) == 2 <==> width == BusWidth::Eight,
        width_code(width) <= 2,
{
}

/// CMD6 sets the functions of the groups: the top bit asks for the switch, group 1 gets the
/// code of the mode, and group 3 gets driver type B for the two fastest single rate modes.
/// All other groups stay as they are.
pub proof fn law_switch_arguments(signalling: Signalling)
    ensures
        switch_argument(signalling) % 0x10 == (match signalling {
            Signalling::SDR12 => 0u32,
            Signalling::SDR25 => 1,
            Signalling::SDR50 => 2,
            Signalling::SDR104 => 3,
            Signalling::DDR50 => 4,
        }),
        switch_argument(signalling) / 0x10 == if signalling is SDR50 || signalling is SDR104 {
            0x80F_F1F0u32
        } else {
            0x80F_FFF0u32
        },
{
}

/// The blocks of an SD card, for each version of its card specific data: bits 73 to 62 and a
/// power of two, bits 69 to 48, or bits 75 to 48. A later version has none.
pub proof fn law_block_counts(csd: u128)
    ensures
        csd >> 126u128 == 0 ==> {
            let size = (csd >> 62u128) & 0xFFF;
            let multiplier = (csd >> 47u128) & 7;
            &&& multiplier == 0 ==> sd_block_count(csd) == (size + 1) * 4
            &&& multiplier == 1 ==> sd_block_count(csd) == (size + 1) * 8
            &&& multiplier == 2 ==> sd_block_count(csd) == (size + 1) * 16
            &&& multiplier == 3 ==> sd_block_count(csd) == (size + 1) * 32
            &&& multiplier == 4 ==> sd_block_count(csd) == (size + 1) * 64
            &&& multiplier == 5 ==> sd_block_count(csd) == (size + 1) * 128
            &&& multiplier == 6 ==> sd_block_count(csd) == (size + 1) * 256
            &&& multiplier == 7 ==> sd_block_count(csd) == (size + 1) * 512
            &&& multiplier <= 7
        },
        csd >> 126u128 == 1 ==> sd_block_count(csd) == ((csd >> 48u128) & 0x3F_FFFF) * 1024 + 1024,
        csd >> 126u128 == 2 ==> sd_block_count(csd) == ((csd >> 48u128) & 0xFFF_FFFF) * 1024 + 1024,
        csd >> 126u128 > 2 ==> sd_block_count(csd) == 0,
{
    assert(csd >> 126u128 == csd / 0x4000_0000_0000_0000_0000_0000_0000_0000) by (bit_vector);
    assert((csd >> 62u128) & 0xFFF == (csd / 0x4000_0000_0000_0000) % 0x1000) by (bit_vector);
    assert((csd >> 47u128) & 7 == (csd / 0x8000_0000_0000) % 8) by (bit_vector);
    assert((csd >> 48u128) & 0x3F_FFFF == (csd / 0x1_0000_0000_0000) % 0x40_0000) by (bit_vector);
    assert((csd >> 48u128) & 0xFFF_FFFF == (csd / 0x1_0000_0000_0000) % 0x1000_0000) by (bit_vector);
    lemma2_to64();
    assert(pow2(2) == 4 && pow2(3) == 8 && pow2(4) == 16 && pow2(5) == 32 && pow2(6) == 64
        && pow2(7) == 128 && pow2(8) == 256 && pow2(9) == 512);
}

/// An SD card is addressed as its fields say, and holds 512 bytes for every block of its card
/// specific data.
pub proof fn law_card_fields(card: Card)
    ensures
        card.address() == card.rca,
        card.capacity_class() == card.card_type,
        card.bytes() == 512 * sd_block_count(card.csd),
{
}

/// An eMMC device is addressed as its fields say, and holds 512 bytes for every sector that
/// word 53 of its extended card specific data counts.
pub proof fn law_emmc_fields(device: Emmc)
    ensures
        device.address() == device.rca,
        device.capacity_class() == device.capacity,
        device.bytes() == 512 * device.ext_csd@[53],
{
}

/// A card of which nothing is known has zeros in every register, and is addressed by bytes.
pub proof fn law_blank_cards(card: Card, device: Emmc)
    requires
        card.is_blank(),
        device.is_blank(),
    ensures
        card.ocr == 0 && card.rca == 0 && card.cid == 0 && card.csd == 0 && card.scr == 0,
        card.card_type == CardCapacity::StandardCapacity,
        card.power_ext is None,
        forall|i: int| 0 <= i < 16 ==> #[trigger] card.status@[i] == 0,
        device.ocr == 0 && device.rca == 0 && device.cid == 0 && device.csd == 0,
        device.capacity == CardCapacity::StandardCapacity,
        forall|i: int| 0 <= i < 128 ==> #[trigger] device.ext_csd@[i] == 0,
{
}

/// A time span of milliseconds is the least number of ticks that is not shorter.
pub proof fn law_milliseconds_are_rounded_up(millis: u64)
    ensures
        millis_in_ticks(millis) * 1000 >= millis * secs_in_ticks(1),
        (millis_in_ticks(millis) - 1) * 1000 < millis * secs_in_ticks(1),
{
}

/// Each kind of reply answers certain actions, and each action can have one kind of reply
/// besides a failure. What only the host does cannot fail.
pub proof fn law_replies_that_fit(action: Action, reply: Reply)
    ensures
        fits(action, reply) == (match reply {
            Reply::Failed(_) => !(action is ReadResponse || action is PrepareRead
                || action is PrepareWrite || action is PrepareWriteBlock
                || action is ClearInterruptFlags || action is Delay || action is StoreCmdBlock
                || action is StartTimer || action is ReadTimer || action is Proceed),
            Reply::Word(_) => action is Command || action is ReadResponse || action is ReadStatus,
            Reply::Register(_) => action is GetCid || action is GetCsd,
            Reply::Elapsed(_) => action is ReadTimer,
            Reply::CmdData(_) => action matches Action::CompleteRead { buffer, single } && buffer
                == Buffer::Command,
            Reply::BlockData(_) => action matches Action::CompleteRead { buffer, single } && buffer
                == Buffer::Block,
            Reply::Done => {
                ||| action is InitIdle || action is SelectCard || action is SetClock
                ||| action is PrepareRead || action is PrepareWrite || action is PrepareWriteBlock
                ||| action is CompleteWrite || action is ClearInterruptFlags || action is Delay
                ||| action is StoreCmdBlock || action is StartTimer || action is Proceed
                ||| action matches Action::CompleteRead { buffer, single } && buffer
                    == Buffer::Caller
            },
        }),
{
}

} // verus!
