//! Bringing up an SD card.
use crate::bus::{
    step, take_register, take_word, Action, BusWidth, ControllerVersion, Error, Operation, Progress,
    Reply,
};
use crate::card::{Card, CardCapacity};
use crate::command::{app_cmd, cmd6, flag, sd_send_op_cond, send_if_cond, send_relative_address};
use crate::device::StorageDevice;
use crate::ext_register::{read_at, read_ext_registers, ExtStage, ReadExtRegisters};
use crate::register::{
    cic_pattern, cic_voltage_accepted, ocr_busy, ocr_high_capacity, ocr_is_busy,
    ocr_sd_high_capacity, rca_address, scr_bus_width_four, scr_width_four, state_of_code,
    status_state, CurrentState,
};
use crate::signalling::{
    get_scr, read_sd_status, scr_at, sd_status_at, send_app, switch_signalling_mode, switch_to,
    GetScr, ReadSdStatus, Signalling, SwitchSignalling,
};
use crate::time::{mhz, Hertz};
use crate::transfer::send;
use vstd::prelude::*;

verus! {

/// How far the bring-up of an SD card has come.
#[derive(Debug, PartialEq, Eq)]
pub enum SdStage {
    /// The card is put in the idle state
    InitIdle,
    /// The card is asked whether it takes the supply voltage
    SendIfCond,
    /// Its answer is read
    ReadIfCond,
    /// ACMD41 is announced
    AnnounceOpCond,
    /// The card is asked whether it has powered up
    OpCond,
    /// The card is asked for its identification
    Cid,
    /// The card is asked for its address
    RelativeAddress,
    /// The card is asked for its card specific data
    Csd,
    /// The card is selected
    Select,
    /// The configuration register is read
    Scr(GetScr),
    /// ACMD6 is announced
    AnnounceWidth,
    /// The card is told the bus width
    Width,
    /// The controller is told clock and bus width
    Clock,
    /// The SD status is read
    Status(ReadSdStatus),
    /// The card is asked to switch to SDR25
    Switch(SwitchSignalling),
    /// The controller is told the final clock
    FastClock,
    /// The card is asked for its state at the final clock
    FastStatus,
    /// The SD status is read again
    StatusAgain(ReadSdStatus),
    /// The extension registers are read
    Extensions(ReadExtRegisters),
}

/// Initializes the card into a known state (or at least tries to).
#[derive(Debug, PartialEq, Eq)]
pub struct SdAcquire {
    /// The controller's generation
    pub version: ControllerVersion,
    /// The bus width that the controller is configured for
    pub width: BusWidth,
    /// The requested clock frequency
    pub freq: Hertz,
    /// What is known of the card
    pub info: Card,
    /// How far the bring-up has come
    pub stage: SdStage,
}

/// The fastest clock for a card in its default signalling mode.
pub open spec fn default_clock(freq: Hertz) -> Hertz {
    if freq.0 > 25_000_000 {
        Hertz(25_000_000)
    } else {
        freq
    }
}

/// `freq`, but no more than 25 MHz.
pub fn clamp_clock(freq: Hertz) -> (r: Hertz)
    ensures
        r == default_clock(freq),
{
    let limit = mhz(25);
    if freq.0 > limit.0 {
        limit
    } else {
        freq
    }
}

/// The bus width for a card with the given configuration: four lines only if both the
/// controller is configured for it and the card supports it.
pub open spec fn chosen_width(configured: BusWidth, scr: u64) -> BusWidth {
    if configured is Four && scr_width_four(scr) {
        BusWidth::Four
    } else {
        BusWidth::One
    }
}

/// Select bus width based on controller configuration and card capability.
pub fn choose_width(configured: BusWidth, scr: u64) -> (r: BusWidth)
    ensures
        r == chosen_width(configured, scr),
{
    match configured {
        BusWidth::Four => if scr_bus_width_four(scr) {
            BusWidth::Four
        } else {
            BusWidth::One
        },
        _ => BusWidth::One,
    }
}

/// The argument of ACMD6 for a bus width.
pub open spec fn width_argument(width: BusWidth) -> u32 {
    if width is Four {
        2
    } else {
        0
    }
}

/// Whether a card with this configuration reads and writes extension registers.
pub open spec fn cmd48_supported(scr: u64) -> bool {
    scr & 0x4_0000_0000 != 0
}

/// The operating condition that ACMD41 asks for: high capacity, no power control, a
/// switch to 1.8 V, and 3.2 V to 3.3 V.
pub open spec fn op_cond_argument() -> u32 {
    flag(true) << 30u32 | flag(false) << 28u32 | flag(true) << 24u32 | ((0x20u16 & 0x1FF) as u32)
        << 15u32
}

/// What an SD card's operating condition says of its addressing.
pub open spec fn sd_capacity(ocr: u32) -> CardCapacity {
    if ocr_sd_high_capacity(ocr) {
        CardCapacity::HighCapacity
    } else {
        CardCapacity::StandardCapacity
    }
}

/// A card that has powered up, and whose addressing is known.
pub open spec fn identified(info: Card) -> bool {
    !ocr_busy(info.ocr) && info.card_type == sd_capacity(info.ocr)
}

impl SdAcquire {
    /// The bring-up at another stage.
    pub open spec fn to(self, info: Card, stage: SdStage) -> Progress<
        Self,
        StorageDevice<Card>,
    > {
        Progress::Pending(
            SdAcquire {
                version: self.version,
                width: self.width,
                freq: self.freq,
                info,
                stage,
            },
        )
    }

    /// What comes once the SD status is final: the extension registers, on a card that
    /// has any.
    pub open spec fn finish(
        version: ControllerVersion,
        width: BusWidth,
        freq: Hertz,
        info: Card,
    ) -> Progress<Self, StorageDevice<Card>> {
        if cmd48_supported(info.scr) {
            Progress::Pending(
                SdAcquire {
                    version,
                    width,
                    freq,
                    info,
                    stage: SdStage::Extensions(
                        ReadExtRegisters {
                            power_ext: info.power_ext,
                            stage: ExtStage::Information(read_at(0, 0, 0)),
                        },
                    ),
                },
            )
        } else {
            Progress::Finished(Ok(StorageDevice { info, version }))
        }
    }

    fn conclude(version: ControllerVersion, width: BusWidth, freq: Hertz, info: Card) -> (r:
        Progress<Self, StorageDevice<Card>>)
        ensures
            r == Self::finish(version, width, freq, info),
            r matches Progress::Pending(next) ==> next.stage matches SdStage::Extensions(op)
                && op.wf(),
    {
        let cmd48_support: bool = (info.scr & 0x4_0000_0000) != 0;
        if cmd48_support {
            let stage = SdStage::Extensions(read_ext_registers(info.power_ext));
            Progress::Pending(SdAcquire { version, width, freq, info, stage })
        } else {
            Progress::Finished(Ok(StorageDevice { info, version }))
        }
    }
}

/// The card with its operating condition known.
pub open spec fn with_ocr(info: Card, ocr: u32) -> Card {
    Card { card_type: sd_capacity(ocr), ocr, ..info }
}

impl Operation for SdAcquire {
    type Output = StorageDevice<Card>;

    open spec fn wf(self) -> bool {
        match self.stage {
            SdStage::InitIdle | SdStage::SendIfCond | SdStage::ReadIfCond => true,
            SdStage::AnnounceOpCond | SdStage::OpCond => true,
            SdStage::Scr(op) => identified(self.info) && op.wf(),
            SdStage::Status(op) => identified(self.info) && op.wf(),
            SdStage::Switch(op) => identified(self.info) && op.wf() && self.freq.0 > 25_000_000,
            SdStage::FastClock | SdStage::FastStatus => identified(self.info) && self.freq.0
                > 25_000_000,
            SdStage::StatusAgain(op) => identified(self.info) && op.wf() && self.freq.0
                > 25_000_000,
            SdStage::Extensions(op) => identified(self.info) && op.wf() && cmd48_supported(
                self.info.scr,
            ),
            _ => identified(self.info),
        }
    }

    open spec fn pending(self) -> Action {
        match self.stage {
            SdStage::InitIdle => Action::InitIdle,
            // one supply range, and a pattern to be echoed
            SdStage::SendIfCond => send(
                8,
                ((1u8 & 0xF) as u32) << 8u32 | 0xAAu8 as u32,
                true,
                false,
            ),
            SdStage::ReadIfCond => Action::ReadResponse,
            SdStage::AnnounceOpCond => send_app(0),
            SdStage::OpCond => send(41, op_cond_argument(), false, false),
            SdStage::Cid => Action::GetCid,
            SdStage::RelativeAddress => send(3, 0, true, false),
            SdStage::Csd => Action::GetCsd { address: self.info.rca },
            SdStage::Select => Action::SelectCard { address: self.info.rca },
            SdStage::Scr(op) => op.pending(),
            SdStage::AnnounceWidth => send_app(self.info.rca),
            SdStage::Width => send(
                6,
                width_argument(chosen_width(self.width, self.info.scr)),
                true,
                false,
            ),
            SdStage::Clock => Action::SetClock {
                freq: default_clock(self.freq),
                width: chosen_width(self.width, self.info.scr),
            },
            SdStage::Status(op) => op.pending(),
            SdStage::Switch(op) => op.pending(),
            SdStage::FastClock => Action::SetClock {
                freq: self.freq,
                width: chosen_width(self.width, self.info.scr),
            },
            SdStage::FastStatus => Action::ReadStatus { address: self.info.rca },
            SdStage::StatusAgain(op) => op.pending(),
            SdStage::Extensions(op) => op.pending(),
        }
    }

    open spec fn tolerates(self, error: Error) -> bool {
        false
    }

    open spec fn demands_success(self) -> bool {
        false
    }

    open spec fn after(self, reply: Reply) -> Progress<Self, StorageDevice<Card>> {
        let info = self.info;
        if let Reply::Failed(e) = reply {
            Progress::Finished(Err(e))
        } else {
            match self.stage {
                SdStage::InitIdle => self.to(info, SdStage::SendIfCond),
                SdStage::SendIfCond => self.to(info, SdStage::ReadIfCond),
                SdStage::ReadIfCond => if (reply->Word_0) % 0x100 != 0xAA {
                    Progress::Finished(Err(Error::UnsupportedCardVersion))
                } else if (reply->Word_0 / 0x100) % 2 == 0 {
                    Progress::Finished(Err(Error::UnsupportedVoltage))
                } else {
                    self.to(info, SdStage::AnnounceOpCond)
                },
                SdStage::AnnounceOpCond => self.to(info, SdStage::OpCond),
                SdStage::OpCond => if ocr_busy(reply->Word_0) {
                    self.to(info, SdStage::AnnounceOpCond)
                } else {
                    self.to(with_ocr(info, reply->Word_0), SdStage::Cid)
                },
                SdStage::Cid => self.to(
                    Card { cid: reply->Register_0, ..info },
                    SdStage::RelativeAddress,
                ),
                SdStage::RelativeAddress => self.to(
                    Card { rca: (reply->Word_0 / 0x1_0000) as u16, ..info },
                    SdStage::Csd,
                ),
                SdStage::Csd => self.to(Card { csd: reply->Register_0, ..info }, SdStage::Select),
                SdStage::Select => self.to(info, SdStage::Scr(scr_at(info.rca))),
                SdStage::Scr(op) => match step(op, reply) {
                    Progress::Pending(next) => self.to(info, SdStage::Scr(next)),
                    Progress::Finished(Err(e)) => Progress::Finished(Err(e)),
                    Progress::Finished(Ok(scr)) => self.to(
                        Card { scr, ..info },
                        SdStage::AnnounceWidth,
                    ),
                },
                SdStage::AnnounceWidth => self.to(info, SdStage::Width),
                SdStage::Width => self.to(info, SdStage::Clock),
                SdStage::Clock => self.to(info, SdStage::Status(sd_status_at(info.rca))),
                SdStage::Status(op) => match step(op, reply) {
                    Progress::Pending(next) => self.to(info, SdStage::Status(next)),
                    Progress::Finished(Err(e)) => Progress::Finished(Err(e)),
                    Progress::Finished(Ok(status)) => if self.freq.0 > 25_000_000 {
                        self.to(
                            Card { status, ..info },
                            SdStage::Switch(switch_to(Signalling::SDR25)),
                        )
                    } else {
                        Self::finish(
                            self.version,
                            self.width,
                            self.freq,
                            Card { status, ..info },
                        )
                    },
                },
                SdStage::Switch(op) => match step(op, reply) {
                    Progress::Pending(next) => self.to(info, SdStage::Switch(next)),
                    Progress::Finished(Err(e)) => Progress::Finished(Err(e)),
                    Progress::Finished(Ok(signalling)) => if signalling is SDR25 {
                        self.to(info, SdStage::FastClock)
                    } else {
                        self.to(info, SdStage::StatusAgain(sd_status_at(info.rca)))
                    },
                },
                SdStage::FastClock => self.to(info, SdStage::FastStatus),
                SdStage::FastStatus => if state_of_code((reply->Word_0 / 0x200) % 0x10)
                    is Transfer {
                    self.to(info, SdStage::StatusAgain(sd_status_at(info.rca)))
                } else {
                    Progress::Finished(Err(Error::SignalingSwitchFailed))
                },
                SdStage::StatusAgain(op) => match step(op, reply) {
                    Progress::Pending(next) => self.to(info, SdStage::StatusAgain(next)),
                    Progress::Finished(Err(e)) => Progress::Finished(Err(e)),
                    Progress::Finished(Ok(_)) => Self::finish(
                        self.version,
                        self.width,
                        self.freq,
                        info,
                    ),
                },
                SdStage::Extensions(op) => match step(op, reply) {
                    Progress::Pending(next) => self.to(info, SdStage::Extensions(next)),
                    Progress::Finished(Err(e)) => Progress::Finished(Err(e)),
                    Progress::Finished(Ok(power_ext)) => Progress::Finished(
                        Ok(
                            StorageDevice {
                                info: Card { power_ext, ..info },
                                version: self.version,
                            },
                        ),
                    ),
                },
            }
        }
    }

    proof fn lemma_after(self, reply: Reply) {
        reveal(step);
        match self.stage {
            SdStage::Scr(op) => op.lemma_after(reply),
            SdStage::Status(op) => op.lemma_after(reply),
            SdStage::Switch(op) => op.lemma_after(reply),
            SdStage::StatusAgain(op) => op.lemma_after(reply),
            SdStage::Extensions(op) => op.lemma_after(reply),
            _ => {},
        }
    }

    fn action(&self) -> Action {
        let rca: u16 = self.info.rca;
        let command = match &self.stage {
            SdStage::InitIdle => {
                return Action::InitIdle;
            },
            SdStage::SendIfCond => send_if_cond(1, 0xAA),
            SdStage::ReadIfCond => {
                return Action::ReadResponse;
            },
            SdStage::AnnounceOpCond => app_cmd(0),
            SdStage::OpCond => {
                // 3.2-3.3V
                let voltage_window: u16 = 0x20;
                return Action::Command {
                    command: sd_send_op_cond(true, false, true, voltage_window),
                    check_crc: false,
                    data: false,
                };
            },
            SdStage::Cid => {
                return Action::GetCid;
            },
            SdStage::RelativeAddress => send_relative_address(),
            SdStage::Csd => {
                return Action::GetCsd { address: rca };
            },
            SdStage::Select => {
                return Action::SelectCard { address: rca };
            },
            SdStage::Scr(op) => {
                return op.action();
            },
            SdStage::AnnounceWidth => app_cmd(rca),
            SdStage::Width => {
                let acmd_arg: u32 = match choose_width(self.width, self.info.scr) {
                    BusWidth::Four => 2,
                    _ => 0,
                };
                cmd6(acmd_arg)
            },
            SdStage::Clock => {
                return Action::SetClock {
                    freq: clamp_clock(self.freq),
                    width: choose_width(self.width, self.info.scr),
                };
            },
            SdStage::Status(op) => {
                return op.action();
            },
            SdStage::Switch(op) => {
                return op.action();
            },
            SdStage::FastClock => {
                return Action::SetClock {
                    freq: self.freq,
                    width: choose_width(self.width, self.info.scr),
                };
            },
            SdStage::FastStatus => {
                return Action::ReadStatus { address: rca };
            },
            SdStage::StatusAgain(op) => {
                return op.action();
            },
            SdStage::Extensions(op) => {
                return op.action();
            },
        };
        Action::Command { command, check_crc: true, data: false }
    }

    fn needs_success(&self) -> bool {
        false
    }

    fn advance(self, reply: Reply) -> (r: Progress<Self, StorageDevice<Card>>)
        ensures
            self.stage matches SdStage::Scr(op) ==> step(op, reply) == op.after(reply),
            self.stage matches SdStage::Status(op) ==> step(op, reply) == op.after(reply),
            self.stage matches SdStage::Switch(op) ==> step(op, reply) == op.after(reply),
            self.stage matches SdStage::StatusAgain(op) ==> step(op, reply) == op.after(reply),
            self.stage matches SdStage::Extensions(op) ==> step(op, reply) == op.after(reply),
    {
        let version: ControllerVersion = self.version;
        let width: BusWidth = self.width;
        let freq: Hertz = self.freq;
        let mut info: Card = self.info;
        proof {
            reveal(step);
        }
        if let Reply::Failed(e) = reply {
            return Progress::Finished(Err(e));
        }
        let stage = match self.stage {
            SdStage::InitIdle => SdStage::SendIfCond,
            SdStage::SendIfCond => SdStage::ReadIfCond,
            SdStage::ReadIfCond => {
                let cic: u32 = take_word(reply);
                if cic_pattern(cic) != 0xAA {
                    return Progress::Finished(Err(Error::UnsupportedCardVersion));
                }
                let voltage: u8 = cic_voltage_accepted(cic);
                assert((voltage & 1 == 0) == (voltage % 2 == 0)) by (bit_vector);
                if voltage & 1 == 0 {
                    return Progress::Finished(Err(Error::UnsupportedVoltage));
                }
                SdStage::AnnounceOpCond
            },
            SdStage::AnnounceOpCond => SdStage::OpCond,
            SdStage::OpCond => {
                let ocr: u32 = take_word(reply);
                if ocr_is_busy(ocr) {
                    SdStage::AnnounceOpCond
                } else {
                    // Power up done
                    info.card_type = if ocr_high_capacity(ocr) {
                        // Card is SDHC or SDXC or SDUC
                        CardCapacity::HighCapacity
                    } else {
                        CardCapacity::StandardCapacity
                    };
                    info.ocr = ocr;
                    SdStage::Cid
                }
            },
            SdStage::Cid => {
                info.cid = take_register(reply);
                SdStage::RelativeAddress
            },
            SdStage::RelativeAddress => {
                info.rca = rca_address(take_word(reply));
                SdStage::Csd
            },
            SdStage::Csd => {
                info.csd = take_register(reply);
                SdStage::Select
            },
            SdStage::Select => SdStage::Scr(get_scr(info.rca)),
            SdStage::Scr(op) => match op.advance(reply) {
                Progress::Pending(next) => SdStage::Scr(next),
                Progress::Finished(Err(e)) => {
                    return Progress::Finished(Err(e));
                },
                Progress::Finished(Ok(scr)) => {
                    info.scr = scr;
                    SdStage::AnnounceWidth
                },
            },
            SdStage::AnnounceWidth => SdStage::Width,
            SdStage::Width => SdStage::Clock,
            SdStage::Clock => SdStage::Status(read_sd_status(info.rca)),
            SdStage::Status(op) => match op.advance(reply) {
                Progress::Pending(next) => SdStage::Status(next),
                Progress::Finished(Err(e)) => {
                    return Progress::Finished(Err(e));
                },
                Progress::Finished(Ok(status)) => {
                    info.status = status;
                    if freq.0 > mhz(25).0 {
                        // Switch to SDR25
                        SdStage::Switch(switch_signalling_mode(Signalling::SDR25))
                    } else {
                        return Self::conclude(version, width, freq, info);
                    }
                },
            },
            SdStage::Switch(op) => match op.advance(reply) {
                Progress::Pending(next) => SdStage::Switch(next),
                Progress::Finished(Err(e)) => {
                    return Progress::Finished(Err(e));
                },
                Progress::Finished(Ok(Signalling::SDR25)) => SdStage::FastClock,
                Progress::Finished(Ok(_)) => SdStage::StatusAgain(read_sd_status(info.rca)),
            },
            SdStage::FastClock => SdStage::FastStatus,
            SdStage::FastStatus => match status_state(take_word(reply)) {
                CurrentState::Transfer => SdStage::StatusAgain(read_sd_status(info.rca)),
                _ => {
                    return Progress::Finished(Err(Error::SignalingSwitchFailed));
                },
            },
            SdStage::StatusAgain(op) => match op.advance(reply) {
                Progress::Pending(next) => SdStage::StatusAgain(next),
                Progress::Finished(Err(e)) => {
                    return Progress::Finished(Err(e));
                },
                Progress::Finished(Ok(_)) => {
                    return Self::conclude(version, width, freq, info);
                },
            },
            SdStage::Extensions(op) => match op.advance(reply) {
                Progress::Pending(next) => SdStage::Extensions(next),
                Progress::Finished(Err(e)) => {
                    return Progress::Finished(Err(e));
                },
                Progress::Finished(Ok(power_ext)) => {
                    info.power_ext = power_ext;
                    return Progress::Finished(Ok(StorageDevice { info, version }));
                },
            },
        };
        Progress::Pending(SdAcquire { version, width, freq, info, stage })
    }
}

} // verus!
