//! Bringing up an eMMC device.
use crate::bus::{
    take_block, take_register, take_word, Action, Buffer, BusWidth, ControllerVersion, Error,
    Operation, Progress, Reply,
};
use crate::card::{CardCapacity, Emmc};
use crate::command::{
    access_bits, assign_relative_address, modify_ext_csd, send_ext_csd, send_op_cond,
    set_block_length, AccessMode,
};
use crate::device::StorageDevice;
use crate::register::{
    ocr_access_mode, ocr_busy, ocr_emmc_access_mode, ocr_is_busy, status_ready,
    status_ready_for_data,
};
use crate::sd::{clamp_clock, default_clock};
use crate::sequence::{Script, Sequence};
use crate::time::Hertz;
use crate::transfer::{send, BLOCK_SIZE};
use vstd::prelude::*;

verus! {

/// The byte of the extended card specific data that selects the bus width.
pub const BUS_WIDTH_EXT_CSD_INDEX: u8 = 183;

/// The byte of the extended card specific data that takes power off notifications.
pub const POWER_OFF_NOTIFICATION_EXT_CSD_INDEX: u8 = 34;

/// The action that writes one byte of the extended card specific data.
pub open spec fn write_ext_csd(index: u8, value: u8) -> Action {
    send(
        6,
        access_bits(AccessMode::WriteByte) << 24u32 | (index as u32) << 16u32 | (value as u32)
            << 8u32,
        true,
        false,
    )
}

/// The action that writes one byte of the extended card specific data.
pub fn write_ext_csd_byte(index: u8, value: u8) -> (r: Action)
    ensures
        r == write_ext_csd(index, value),
{
    Action::Command {
        command: modify_ext_csd(AccessMode::WriteByte, index, value),
        check_crc: true,
        data: false,
    }
}

/// The code of a bus width, in the controller and in the device.
pub open spec fn width_code(width: BusWidth) -> u8 {
    match width {
        BusWidth::Four => 1,
        BusWidth::Eight => 2,
        _ => 0,
    }
}

/// The code of a bus width that is known.
pub fn bus_width_code(width: BusWidth) -> (r: u8)
    requires
        !(width is Unknown),
    ensures
        r == width_code(width),
{
    match width {
        BusWidth::Four => 1,
        BusWidth::Eight => 2,
        _ => 0,
    }
}

/// Asks an eMMC device for its extended card specific data. A device that refuses the
/// block length at this point is not one that was brought up.
#[derive(Debug, PartialEq, Eq)]
pub struct ExtCsdScript;

impl Script for ExtCsdScript {
    open spec fn actions(self) -> Seq<Action> {
        seq![
            send(16, 512, true, false),
            Action::PrepareRead { buffer: Buffer::Block, block_size: 512 },
            send(8, 0, true, true),
            Action::CompleteRead { buffer: Buffer::Block, single: true },
        ]
    }

    open spec fn unwraps(self, i: int) -> bool {
        i == 0
    }

    proof fn lemma_not_empty(self) {
    }

    fn count(&self) -> usize {
        4
    }

    fn nth(&self, i: usize) -> Action {
        match i {
            0 => Action::Command {
                command: set_block_length(BLOCK_SIZE),
                check_crc: true,
                data: false,
            },
            1 => Action::PrepareRead { buffer: Buffer::Block, block_size: BLOCK_SIZE },
            2 => Action::Command { command: send_ext_csd(), check_crc: true, data: true },
            _ => Action::CompleteRead { buffer: Buffer::Block, single: true },
        }
    }

    fn nth_unwraps(&self, i: usize) -> bool {
        i == 0
    }
}

/// The start of a read of the extended card specific data.
pub open spec fn ext_csd_start() -> Sequence<ExtCsdScript> {
    Sequence { script: ExtCsdScript, next: 0 }
}

/// Gets the EXT_CSD register.
///
/// eMMC only.
pub fn read_ext_csd() -> (r: Sequence<ExtCsdScript>)
    ensures
        r.wf(),
        r == ext_csd_start(),
{
    Sequence::new(ExtCsdScript)
}

/// How far the bring-up of an eMMC device has come.
#[derive(Debug, PartialEq, Eq)]
pub enum EmmcStage {
    /// The device is put in the idle state
    InitIdle,
    /// The device is asked whether it has powered up
    OpCond,
    /// Its answer is read
    ReadOcr,
    /// The device is asked for its identification
    Cid,
    /// The device is given its address
    AssignAddress,
    /// The device is asked for its card specific data
    Csd,
    /// The device is selected
    Select,
    /// The device is told the bus width
    Width,
    /// The device is waited for
    WidthBusy,
    /// Power off notifications are enabled
    Notification,
    /// The device is waited for
    NotificationBusy,
    /// The controller is told clock and bus width
    Clock,
    /// The extended card specific data are read
    ExtCsd(Sequence<ExtCsdScript>),
}

/// Initializes an eMMC device.
#[derive(Debug, PartialEq, Eq)]
pub struct EmmcAcquire {
    /// The controller's generation
    pub version: ControllerVersion,
    /// The bus width that the controller is configured for
    pub width: BusWidth,
    /// The requested clock frequency
    pub freq: Hertz,
    /// What is known of the device
    pub info: Emmc,
    /// How far the bring-up has come
    pub stage: EmmcStage,
}

/// What an eMMC device's operating condition says of its addressing.
pub open spec fn emmc_capacity(ocr: u32) -> CardCapacity {
    if ocr_emmc_access_mode(ocr) == 2 {
        CardCapacity::HighCapacity
    } else {
        CardCapacity::StandardCapacity
    }
}

/// A device that has powered up, and whose addressing is known.
pub open spec fn emmc_identified(info: Emmc) -> bool {
    !ocr_busy(info.ocr) && info.capacity == emmc_capacity(info.ocr)
}

impl EmmcAcquire {
    /// The bring-up at another stage.
    pub open spec fn to(self, info: Emmc, stage: EmmcStage) -> Progress<
        Self,
        StorageDevice<Emmc>,
    > {
        Progress::Pending(
            EmmcAcquire {
                version: self.version,
                width: self.width,
                freq: self.freq,
                info,
                stage,
            },
        )
    }
}

impl Operation for EmmcAcquire {
    type Output = StorageDevice<Emmc>;

    open spec fn wf(self) -> bool {
        &&& !(self.width is Unknown)
        &&& match self.stage {
            EmmcStage::InitIdle | EmmcStage::OpCond | EmmcStage::ReadOcr => true,
            EmmcStage::Cid => emmc_identified(self.info),
            EmmcStage::ExtCsd(op) => emmc_identified(self.info) && self.info.rca == 1 && op.wf(),
            _ => emmc_identified(self.info) && self.info.rca == 1,
        }
    }

    open spec fn pending(self) -> Action {
        match self.stage {
            EmmcStage::InitIdle => Action::InitIdle,
            // high voltage, sector mode
            EmmcStage::OpCond => send(1, 0x40FF_8000, true, false),
            EmmcStage::ReadOcr => Action::ReadResponse,
            EmmcStage::Cid => Action::GetCid,
            EmmcStage::AssignAddress => send(3, (self.info.rca as u32) << 16u32, true, false),
            EmmcStage::Csd => Action::GetCsd { address: self.info.rca },
            EmmcStage::Select => Action::SelectCard { address: self.info.rca },
            EmmcStage::Width => write_ext_csd(183, width_code(self.width)),
            EmmcStage::WidthBusy => Action::ReadStatus { address: self.info.rca },
            EmmcStage::Notification => write_ext_csd(34, 1),
            EmmcStage::NotificationBusy => Action::ReadStatus { address: self.info.rca },
            EmmcStage::Clock => Action::SetClock {
                freq: default_clock(self.freq),
                width: self.width,
            },
            EmmcStage::ExtCsd(op) => op.pending(),
        }
    }

    /// The operating condition is sent without a checksum, so that it does not matter
    /// that the controller misses one.
    open spec fn tolerates(self, error: Error) -> bool {
        self.stage is OpCond && error is Crc
    }

    open spec fn demands_success(self) -> bool {
        self.stage matches EmmcStage::ExtCsd(op) && op.demands_success()
    }

    open spec fn after(self, reply: Reply) -> Progress<Self, StorageDevice<Emmc>> {
        let info = self.info;
        if reply matches Reply::Failed(e) && !self.tolerates(e) {
            Progress::Finished(Err(reply->Failed_0))
        } else {
            match self.stage {
                EmmcStage::InitIdle => self.to(info, EmmcStage::OpCond),
                EmmcStage::OpCond => self.to(info, EmmcStage::ReadOcr),
                EmmcStage::ReadOcr => if ocr_busy(reply->Word_0) {
                    self.to(info, EmmcStage::OpCond)
                } else {
                    self.to(
                        Emmc {
                            capacity: emmc_capacity(reply->Word_0),
                            ocr: reply->Word_0,
                            ..info
                        },
                        EmmcStage::Cid,
                    )
                },
                EmmcStage::Cid => self.to(
                    Emmc { cid: reply->Register_0, rca: 1, ..info },
                    EmmcStage::AssignAddress,
                ),
                EmmcStage::AssignAddress => self.to(info, EmmcStage::Csd),
                EmmcStage::Csd => self.to(
                    Emmc { csd: reply->Register_0, ..info },
                    EmmcStage::Select,
                ),
                EmmcStage::Select => self.to(info, EmmcStage::Width),
                EmmcStage::Width => self.to(info, EmmcStage::WidthBusy),
                EmmcStage::WidthBusy => if status_ready(reply->Word_0) {
                    self.to(info, EmmcStage::Notification)
                } else {
                    self.to(info, EmmcStage::WidthBusy)
                },
                EmmcStage::Notification => self.to(info, EmmcStage::NotificationBusy),
                EmmcStage::NotificationBusy => if status_ready(reply->Word_0) {
                    self.to(info, EmmcStage::Clock)
                } else {
                    self.to(info, EmmcStage::NotificationBusy)
                },
                EmmcStage::Clock => self.to(info, EmmcStage::ExtCsd(ext_csd_start())),
                EmmcStage::ExtCsd(op) => match op.after(reply) {
                    Progress::Pending(next) => self.to(info, EmmcStage::ExtCsd(next)),
                    Progress::Finished(Err(e)) => Progress::Finished(Err(e)),
                    Progress::Finished(Ok(data)) => Progress::Finished(
                        Ok(
                            StorageDevice {
                                info: Emmc { ext_csd: (data->BlockData_0).0, ..info },
                                version: self.version,
                            },
                        ),
                    ),
                },
            }
        }
    }

    proof fn lemma_after(self, reply: Reply) {
        match self.stage {
            EmmcStage::ExtCsd(op) => op.lemma_after(reply),
            _ => {},
        }
    }

    fn action(&self) -> Action {
        let rca: u16 = self.info.rca;
        match &self.stage {
            EmmcStage::InitIdle => Action::InitIdle,
            EmmcStage::OpCond => {
                let high_voltage: u32 = 0b0 << 7u32;
                let access_mode: u32 = 0b10 << 29u32;
                let op_cond: u32 = high_voltage | access_mode | 0b1_1111_1111 << 15u32;
                assert(0u32 << 7u32 | 2u32 << 29u32 | 0x1FFu32 << 15u32 == 0x40FF_8000)
                    by (bit_vector);
                Action::Command { command: send_op_cond(op_cond), check_crc: true, data: false }
            },
            EmmcStage::ReadOcr => Action::ReadResponse,
            EmmcStage::Cid => Action::GetCid,
            EmmcStage::AssignAddress => Action::Command {
                command: assign_relative_address(rca),
                check_crc: true,
                data: false,
            },
            EmmcStage::Csd => Action::GetCsd { address: rca },
            EmmcStage::Select => Action::SelectCard { address: rca },
            EmmcStage::Width => write_ext_csd_byte(
                BUS_WIDTH_EXT_CSD_INDEX,
                bus_width_code(self.width),
            ),
            EmmcStage::WidthBusy => Action::ReadStatus { address: rca },
            EmmcStage::Notification => write_ext_csd_byte(POWER_OFF_NOTIFICATION_EXT_CSD_INDEX, 1),
            EmmcStage::NotificationBusy => Action::ReadStatus { address: rca },
            EmmcStage::Clock => Action::SetClock {
                freq: clamp_clock(self.freq),
                width: self.width,
            },
            EmmcStage::ExtCsd(op) => op.action(),
        }
    }

    fn needs_success(&self) -> bool {
        match &self.stage {
            EmmcStage::ExtCsd(op) => op.needs_success(),
            _ => false,
        }
    }

    fn advance(self, reply: Reply) -> Progress<Self, StorageDevice<Emmc>> {
        let version: ControllerVersion = self.version;
        let width: BusWidth = self.width;
        let freq: Hertz = self.freq;
        let mut info: Emmc = self.info;
        let stage = match self.stage {
            EmmcStage::OpCond => match reply {
                Reply::Failed(Error::Crc) => EmmcStage::ReadOcr,
                Reply::Failed(e) => {
                    return Progress::Finished(Err(e));
                },
                _ => EmmcStage::ReadOcr,
            },
            stage => {
                if let Reply::Failed(e) = reply {
                    return Progress::Finished(Err(e));
                }
                match stage {
                    EmmcStage::InitIdle => EmmcStage::OpCond,
                    EmmcStage::OpCond => EmmcStage::ReadOcr,
                    EmmcStage::ReadOcr => {
                        let ocr: u32 = take_word(reply);
                        if ocr_is_busy(ocr) {
                            EmmcStage::OpCond
                        } else {
                            // Power up done
                            info.capacity = if ocr_access_mode(ocr) == 0b10 {
                                // Card is SDHC or SDXC or SDUC
                                CardCapacity::HighCapacity
                            } else {
                                CardCapacity::StandardCapacity
                            };
                            info.ocr = ocr;
                            EmmcStage::Cid
                        }
                    },
                    EmmcStage::Cid => {
                        info.cid = take_register(reply);
                        info.rca = 1;
                        EmmcStage::AssignAddress
                    },
                    EmmcStage::AssignAddress => EmmcStage::Csd,
                    EmmcStage::Csd => {
                        info.csd = take_register(reply);
                        EmmcStage::Select
                    },
                    EmmcStage::Select => EmmcStage::Width,
                    EmmcStage::Width => EmmcStage::WidthBusy,
                    EmmcStage::WidthBusy => if status_ready_for_data(take_word(reply)) {
                        EmmcStage::Notification
                    } else {
                        EmmcStage::WidthBusy
                    },
                    EmmcStage::Notification => EmmcStage::NotificationBusy,
                    EmmcStage::NotificationBusy => if status_ready_for_data(take_word(reply)) {
                        EmmcStage::Clock
                    } else {
                        EmmcStage::NotificationBusy
                    },
                    EmmcStage::Clock => EmmcStage::ExtCsd(read_ext_csd()),
                    EmmcStage::ExtCsd(op) => match op.advance(reply) {
                        Progress::Pending(next) => EmmcStage::ExtCsd(next),
                        Progress::Finished(Err(e)) => {
                            return Progress::Finished(Err(e));
                        },
                        Progress::Finished(Ok(data)) => {
                            info.ext_csd = take_block(data).0;
                            return Progress::Finished(Ok(StorageDevice { info, version }));
                        },
                    },
                }
            },
        };
        Progress::Pending(EmmcAcquire { version, width, freq, info, stage })
    }
}

} // verus!
