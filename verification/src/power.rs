//! Power off notifications, which wait for the card up to a time limit.
use crate::block::DataBlock;
use crate::bus::{
    admitted, fits, law_last_reply_decides, law_run_follows, law_run_goes_on, law_run_keeps,
    law_run_starts, run, take_block, take_elapsed, take_word, trace, Action, Buffer,
    ControllerVersion, Error, Operation, Progress, Reply,
};
use crate::card::RegisterAddress;
use crate::confirmed::Confirmed;
use crate::emmc::{
    ext_csd_start, read_ext_csd, write_ext_csd, write_ext_csd_byte, ExtCsdScript,
    POWER_OFF_NOTIFICATION_EXT_CSD_INDEX,
};
use crate::ext_register::{
    ext_reg_argument, read_at, read_ext_reg, write_at, write_ext_reg, ReadExtReg, WriteExtReg,
};
use crate::register::{ext_csd_structure_version, status_ready, status_ready_for_data};
use crate::sequence::Sequence;
use crate::transfer::send;
use vstd::prelude::*;

verus! {

/// How far the power off notification of an SD card has come.
#[derive(Debug, PartialEq, Eq)]
pub enum NotifyStage {
    /// The notification is being written
    Write(Confirmed<WriteExtReg>),
    /// The wait begins
    StartTimer,
    /// The time limit is checked
    Timer,
    /// The status of the function is being read
    Read(Sequence<ReadExtReg>),
}

/// Tells an SD card that its power will be shut down, and waits until the card says
/// that this is safe.
#[derive(Debug, PartialEq, Eq)]
pub struct PowerOffNotify {
    /// The register of the power management function
    pub at: RegisterAddress,
    /// The time limit in ticks
    pub timeout: u64,
    /// How far the operation has come
    pub stage: NotifyStage,
}

/// A block of zeros after a one: the POFN bit of the Power Management Setting Register.
pub open spec fn notification_bytes() -> Seq<u8> {
    Seq::new(
        512,
        |i: int|
            if i == 0 {
                1u8
            } else {
                0u8
            },
    )
}

impl PowerOffNotify {
    /// Starts a notification of the card at `address`, whose power management register
    /// is at `at`, with a time limit in ticks.
    pub fn with_timeout(
        at: RegisterAddress,
        address: u16,
        version: ControllerVersion,
        timeout: u64,
    ) -> (r: Self)
        requires
            at.offset < 0x200,
        ensures
            r.wf(),
            r.at == at,
            r.timeout == timeout,
            exists|buffer: DataBlock|
                buffer.bytes() == notification_bytes() && r.stage == NotifyStage::Write(
                    #[trigger] write_at(
                        at.fno,
                        at.page,
                        (at.offset + 2) as u16,
                        buffer,
                        address,
                        version,
                    ),
                ),
    {
        let mut buffer = DataBlock::new();
        // Set the POFN bit in the Power Management Setting Register.
        buffer.set_byte(0, 0x1);
        assert(buffer.bytes() =~= notification_bytes());
        let write = write_ext_reg(at.fno, at.page, at.offset + 2, buffer, address, version);
        PowerOffNotify { at, timeout, stage: NotifyStage::Write(write) }
    }

    /// The operation at another stage.
    pub open spec fn to(self, stage: NotifyStage) -> Progress<Self, ()> {
        Progress::Pending(PowerOffNotify { at: self.at, timeout: self.timeout, stage })
    }
}

impl Operation for PowerOffNotify {
    type Output = ();

    open spec fn wf(self) -> bool {
        &&& self.at.offset < 0x200
        &&& match self.stage {
            NotifyStage::Write(op) => op.wf(),
            NotifyStage::Read(op) => op.wf(),
            _ => true,
        }
    }

    open spec fn pending(self) -> Action {
        match self.stage {
            NotifyStage::Write(op) => op.pending(),
            NotifyStage::StartTimer => Action::StartTimer,
            NotifyStage::Timer => Action::ReadTimer,
            NotifyStage::Read(op) => op.pending(),
        }
    }

    open spec fn tolerates(self, error: Error) -> bool {
        false
    }

    open spec fn demands_success(self) -> bool {
        false
    }

    open spec fn after(self, reply: Reply) -> Progress<Self, ()> {
        match self.stage {
            NotifyStage::Write(op) => match op.after(reply) {
                Progress::Pending(next) => self.to(NotifyStage::Write(next)),
                Progress::Finished(Err(e)) => Progress::Finished(Err(e)),
                Progress::Finished(Ok(_)) => self.to(NotifyStage::StartTimer),
            },
            NotifyStage::StartTimer => self.to(NotifyStage::Timer),
            NotifyStage::Timer => if reply->Elapsed_0 < self.timeout {
                self.to(
                    NotifyStage::Read(
                        read_at(self.at.fno, self.at.page, (self.at.offset + 1) as u16),
                    ),
                )
            } else {
                Progress::Finished(Err(Error::SoftwareTimeout))
            },
            NotifyStage::Read(op) => match op.after(reply) {
                Progress::Pending(next) => self.to(NotifyStage::Read(next)),
                Progress::Finished(Err(e)) => Progress::Finished(Err(e)),
                // the POFR bit in the Power Management Status Register
                Progress::Finished(Ok(data)) => if (data->BlockData_0).bytes()[0] % 2 == 1 {
                    Progress::Finished(Ok(()))
                } else {
                    self.to(NotifyStage::Timer)
                },
            },
        }
    }

    proof fn lemma_after(self, reply: Reply) {
        match self.stage {
            NotifyStage::Write(op) => op.lemma_after(reply),
            NotifyStage::Read(op) => op.lemma_after(reply),
            _ => {},
        }
    }

    fn action(&self) -> Action {
        match &self.stage {
            NotifyStage::Write(op) => op.action(),
            NotifyStage::StartTimer => Action::StartTimer,
            NotifyStage::Timer => Action::ReadTimer,
            NotifyStage::Read(op) => op.action(),
        }
    }

    fn needs_success(&self) -> bool {
        false
    }

    fn advance(self, reply: Reply) -> Progress<Self, ()> {
        let at: RegisterAddress = self.at;
        let timeout: u64 = self.timeout;
        let stage = match self.stage {
            NotifyStage::Write(op) => match op.advance(reply) {
                Progress::Pending(next) => NotifyStage::Write(next),
                Progress::Finished(Err(e)) => {
                    return Progress::Finished(Err(e));
                },
                Progress::Finished(Ok(_)) => NotifyStage::StartTimer,
            },
            NotifyStage::StartTimer => NotifyStage::Timer,
            NotifyStage::Timer => if take_elapsed(reply) < timeout {
                NotifyStage::Read(read_ext_reg(at.fno, at.page, at.offset + 1))
            } else {
                return Progress::Finished(Err(Error::SoftwareTimeout));
            },
            NotifyStage::Read(op) => match op.advance(reply) {
                Progress::Pending(next) => NotifyStage::Read(next),
                Progress::Finished(Err(e)) => {
                    return Progress::Finished(Err(e));
                },
                Progress::Finished(Ok(data)) => {
                    let byte: u8 = take_block(data).byte(0);
                    assert((byte & 0x1 != 0) == (byte % 2 == 1)) by (bit_vector);
                    if (byte & 0x1) != 0 {
                        return Progress::Finished(Ok(()));
                    }
                    NotifyStage::Timer
                },
            },
        };
        Progress::Pending(PowerOffNotify { at, timeout, stage })
    }
}

/// A notification succeeds only when the card has just set the POFR bit, and a card that has
/// taken it is given up exactly when the time limit has been reached.
pub proof fn law_notification_is_acknowledged(op: PowerOffNotify, reply: Reply)
    requires
        op.wf(),
        fits(op.pending(), reply),
    ensures
        op.after(reply) == Progress::<PowerOffNotify, ()>::Finished(Ok(())) ==> (reply matches Reply::BlockData(
            data,
        ) && data.bytes()[0] % 2 == 1),
        op.stage is Timer ==> (reply->Elapsed_0 >= op.timeout <==> op.after(reply) == Progress::<
            PowerOffNotify,
            (),
        >::Finished(Err(Error::SoftwareTimeout))),
        !(op.stage is Write) && !(op.stage is Timer) && !(reply is Failed) ==> !(op.after(
            reply,
        ) matches Progress::Finished(Err(_))),
{
    match op.stage {
        NotifyStage::Read(read) => {
            let i = read.next;
            assert(i == 0 || i == 1 || i == 2);
        },
        _ => {},
    }
}

/// Whatever the card answers, a notification that succeeds does so with the answer in which
/// the card sets the POFR bit.
pub proof fn law_success_means_safe(op: PowerOffNotify, replies: Seq<Reply>, last: Reply)
    requires
        op.wf(),
        admitted(op, replies.push(last)),
        run(op, replies) is Pending,
        run(op, replies.push(last)) == Progress::<PowerOffNotify, ()>::Finished(Ok(())),
    ensures
        last matches Reply::BlockData(data) && data.bytes()[0] % 2 == 1,
{
    law_last_reply_decides(op, replies, last);
    law_notification_is_acknowledged(run(op, replies)->Pending_0, last);
}

/// One round of the wait: while the time limit has not been reached, the status register
/// is read with CMD48, one byte behind the function's register. The POFR bit ends the wait;
/// without it the wait goes on as before.
pub proof fn law_notification_round(op: PowerOffNotify, replies: Seq<Reply>)
    requires
        op.stage is Timer,
        replies.len() == 4,
        replies[0] matches Reply::Elapsed(ticks) && ticks < op.timeout,
        replies[1] is Done,
        replies[2] is Word,
        replies[3] is BlockData,
    ensures
        run(op, replies) == if (replies[3]->BlockData_0).bytes()[0] % 2 == 1 {
            Progress::Finished(Ok(()))
        } else {
            Progress::Pending(op)
        },
        trace(op, replies) == seq![
            Action::ReadTimer,
            Action::PrepareRead { buffer: Buffer::Block, block_size: 512 },
            send(
                48,
                ext_reg_argument(op.at.fno, op.at.page, (op.at.offset + 1) as u16),
                true,
                true,
            ),
            Action::CompleteRead { buffer: Buffer::Block, single: true },
        ],
{
    let read = read_at(op.at.fno, op.at.page, (op.at.offset + 1) as u16);
    let s1 = PowerOffNotify { stage: NotifyStage::Read(read), ..op };
    let s2 = PowerOffNotify { stage: NotifyStage::Read(Sequence { next: 1, ..read }), ..op };
    let s3 = PowerOffNotify { stage: NotifyStage::Read(Sequence { next: 2, ..read }), ..op };
    assert(op.after(replies[0]) == op.to(s1.stage));
    assert(s1.after(replies[1]) == op.to(s2.stage));
    assert(s2.after(replies[2]) == op.to(s3.stage));
    law_run_follows(seq![op, s1, s2, s3], replies.take(3));
    law_run_goes_on(op, replies, 3, s3);
    assert(replies.take(4) =~= replies);
    assert(trace(op, replies) =~= seq![
        Action::ReadTimer,
        Action::PrepareRead { buffer: Buffer::Block, block_size: 512 },
        send(
            48,
            ext_reg_argument(op.at.fno, op.at.page, (op.at.offset + 1) as u16),
            true,
            true,
        ),
        Action::CompleteRead { buffer: Buffer::Block, single: true },
    ]);
}

/// The write of the notification runs as it does by itself, and once the card has confirmed
/// it, the wait begins.
pub proof fn law_notification_is_written(op: PowerOffNotify, replies: Seq<Reply>)
    requires
        op.stage is Write,
        run(op.stage->Write_0, replies) is Pending || run(op.stage->Write_0, replies)
            == Progress::<Confirmed<WriteExtReg>, ()>::Finished(Ok(())),
        trace(op.stage->Write_0, replies).len() == replies.len(),
    ensures
        run(op, replies) == op.to(
            match run(op.stage->Write_0, replies) {
                Progress::Pending(next) => NotifyStage::Write(next),
                Progress::Finished(_) => NotifyStage::StartTimer,
            },
        ),
        trace(op, replies) == trace(op.stage->Write_0, replies),
    decreases replies.len(),
{
    reveal_with_fuel(run, 2);
    reveal_with_fuel(trace, 2);
    if replies.len() > 0 {
        match op.stage->Write_0.after(replies[0]) {
            Progress::Pending(next) => {
                law_notification_is_written(
                    PowerOffNotify { stage: NotifyStage::Write(next), ..op },
                    replies.drop_first(),
                );
            },
            Progress::Finished(_) => {
                assert(replies.drop_first() =~= Seq::empty());
                assert(trace(op, replies) =~= seq![op.pending()]);
            },
        }
    }
}

/// The power off notifications of eMMC.
#[derive(Debug, Clone, Copy, PartialEq, Eq)]
pub enum PowerOffMode {
    /// A short notification
    Short,
    /// A long notification
    Long,
}

/// The value that notifies the device.
pub open spec fn mode_code(mode: PowerOffMode) -> u8 {
    match mode {
        PowerOffMode::Short => 2,
        PowerOffMode::Long => 3,
    }
}

/// Whether the extended card specific data show the long notification: the byte that takes
/// notifications (byte 34) holds its value.
pub open spec fn long_off_done(ext_csd: DataBlock) -> bool {
    ext_csd.bytes()[34] == 3
}

/// How many milliseconds a device may take for a notification: from version 6 of the
/// register structure on, ten times byte 248 (GENERIC_CMD6_TIMEOUT, the low byte of word 62)
/// for a short one and ten times byte 247 (POWER_OFF_LONG_TIME, the top byte of word 61) for
/// a long one, before that half a second.
pub open spec fn power_off_limit(ext_csd: [u32; 128], mode: PowerOffMode) -> int {
    if (ext_csd@[48] / 0x100) % 0x100 >= 6 {
        match mode {
            PowerOffMode::Short => (ext_csd@[62] % 0x100) * 10,
            PowerOffMode::Long => (ext_csd@[61] / 0x100_0000) * 10,
        }
    } else {
        500
    }
}

/// From version 6 of the register structure on, the time limits are ten times bytes 248 and
/// 247 of the extended card specific data, in the order in which they cross the bus.
pub proof fn law_limits_are_bytes(ext_csd: DataBlock)
    requires
        (ext_csd.0@[48] / 0x100) % 0x100 >= 6,
    ensures
        power_off_limit(ext_csd.0, PowerOffMode::Short) == ext_csd.bytes()[248] * 10,
        power_off_limit(ext_csd.0, PowerOffMode::Long) == ext_csd.bytes()[247] * 10,
{
    let short: u32 = ext_csd.0@[62];
    let long: u32 = ext_csd.0@[61];
    assert((short & 0xFF) as u8 == short % 0x100) by (bit_vector);
    assert(((long >> 24u32) & 0xFF) as u8 == long / 0x100_0000) by (bit_vector);
}

/// The time limit of a notification in milliseconds.
pub fn power_off_millis(ext_csd: &[u32; 128], mode: PowerOffMode) -> (r: u64)
    ensures
        r == power_off_limit(*ext_csd, mode),
        r <= 2550,
{
    if ext_csd_structure_version(ext_csd) >= 6 {
        let tens: u32 = match mode {
            // Byte 248 is the GENERIC_CMD6_TIMEOUT field, in units of 10ms.
            PowerOffMode::Short => {
                let word: u32 = ext_csd[62];
                assert(word & 0xFF == word % 0x100) by (bit_vector);
                word & 0xFF
            },
            // Byte 247 is the POWER_OFF_LONG_TIME field, in units of 10ms.
            PowerOffMode::Long => {
                let word: u32 = ext_csd[61];
                assert((word >> 24u32) & 0xFF == word / 0x100_0000) by (bit_vector);
                (word >> 24u32) & 0xFF
            },
        };
        (tens * 10) as u64
    } else {
        500
    }
}

/// How far the power off notification of an eMMC device has come.
#[derive(Debug, PartialEq, Eq)]
pub enum EmmcPowerOffStage {
    /// The notification is sent
    Notify,
    /// The wait begins
    StartTimer,
    /// The time limit is checked
    Timer,
    /// The device is asked for its status
    Status,
    /// The extended card specific data are read; the status said `ready`
    ExtCsd { ready: bool, read: Sequence<ExtCsdScript> },
}

/// Tells an eMMC device that its power will be shut down, and waits until the device
/// says that it is ready for that.
#[derive(Debug, PartialEq, Eq)]
pub struct EmmcPowerOff {
    /// The address of the device
    pub address: u16,
    /// The notification
    pub mode: PowerOffMode,
    /// The time limit in ticks
    pub timeout: u64,
    /// How far the operation has come
    pub stage: EmmcPowerOffStage,
}

impl EmmcPowerOff {
    /// Starts a notification of the device at `address` with a time limit in ticks.
    pub fn with_timeout(address: u16, mode: PowerOffMode, timeout: u64) -> (r: Self)
        ensures
            r.wf(),
            r == (EmmcPowerOff { address, mode, timeout, stage: EmmcPowerOffStage::Notify }),
    {
        EmmcPowerOff { address, mode, timeout, stage: EmmcPowerOffStage::Notify }
    }

    /// The operation at another stage.
    pub open spec fn to(self, stage: EmmcPowerOffStage) -> Progress<Self, ()> {
        Progress::Pending(
            EmmcPowerOff { address: self.address, mode: self.mode, timeout: self.timeout, stage },
        )
    }
}

impl Operation for EmmcPowerOff {
    type Output = ();

    open spec fn wf(self) -> bool {
        match self.stage {
            EmmcPowerOffStage::ExtCsd { ready, read } => read.wf() && self.mode is Long,
            _ => true,
        }
    }

    open spec fn pending(self) -> Action {
        match self.stage {
            EmmcPowerOffStage::Notify => write_ext_csd(34, mode_code(self.mode)),
            EmmcPowerOffStage::StartTimer => Action::StartTimer,
            EmmcPowerOffStage::Timer => Action::ReadTimer,
            EmmcPowerOffStage::Status => Action::ReadStatus { address: self.address },
            EmmcPowerOffStage::ExtCsd { ready, read } => read.pending(),
        }
    }

    open spec fn tolerates(self, error: Error) -> bool {
        false
    }

    open spec fn demands_success(self) -> bool {
        self.stage matches EmmcPowerOffStage::ExtCsd { ready, read } && read.demands_success()
    }

    open spec fn after(self, reply: Reply) -> Progress<Self, ()> {
        if let Reply::Failed(e) = reply {
            Progress::Finished(Err(e))
        } else {
            match self.stage {
                EmmcPowerOffStage::Notify => self.to(EmmcPowerOffStage::StartTimer),
                EmmcPowerOffStage::StartTimer => self.to(EmmcPowerOffStage::Timer),
                EmmcPowerOffStage::Timer => if reply->Elapsed_0 < self.timeout {
                    self.to(EmmcPowerOffStage::Status)
                } else {
                    Progress::Finished(Err(Error::SoftwareTimeout))
                },
                EmmcPowerOffStage::Status => match self.mode {
                    PowerOffMode::Short => if status_ready(reply->Word_0) {
                        Progress::Finished(Ok(()))
                    } else {
                        self.to(EmmcPowerOffStage::Timer)
                    },
                    PowerOffMode::Long => self.to(
                        EmmcPowerOffStage::ExtCsd {
                            ready: status_ready(reply->Word_0),
                            read: ext_csd_start(),
                        },
                    ),
                },
                EmmcPowerOffStage::ExtCsd { ready, read } => match read.after(reply) {
                    Progress::Pending(read) => self.to(EmmcPowerOffStage::ExtCsd { ready, read }),
                    Progress::Finished(Err(e)) => Progress::Finished(Err(e)),
                    Progress::Finished(Ok(data)) => if ready && long_off_done(data->BlockData_0) {
                        Progress::Finished(Ok(()))
                    } else {
                        self.to(EmmcPowerOffStage::Timer)
                    },
                },
            }
        }
    }

    proof fn lemma_after(self, reply: Reply) {
        match self.stage {
            EmmcPowerOffStage::ExtCsd { ready, read } => read.lemma_after(reply),
            _ => {},
        }
    }

    fn action(&self) -> Action {
        match &self.stage {
            EmmcPowerOffStage::Notify => {
                let value: u8 = match self.mode {
                    PowerOffMode::Short => 2,
                    PowerOffMode::Long => 3,
                };
                write_ext_csd_byte(POWER_OFF_NOTIFICATION_EXT_CSD_INDEX, value)
            },
            EmmcPowerOffStage::StartTimer => Action::StartTimer,
            EmmcPowerOffStage::Timer => Action::ReadTimer,
            EmmcPowerOffStage::Status => Action::ReadStatus { address: self.address },
            EmmcPowerOffStage::ExtCsd { ready, read } => read.action(),
        }
    }

    fn needs_success(&self) -> bool {
        match &self.stage {
            EmmcPowerOffStage::ExtCsd { ready, read } => read.needs_success(),
            _ => false,
        }
    }

    fn advance(self, reply: Reply) -> Progress<Self, ()> {
        let address: u16 = self.address;
        let mode: PowerOffMode = self.mode;
        let timeout: u64 = self.timeout;
        if let Reply::Failed(e) = reply {
            return Progress::Finished(Err(e));
        }
        let stage = match self.stage {
            EmmcPowerOffStage::Notify => EmmcPowerOffStage::StartTimer,
            EmmcPowerOffStage::StartTimer => EmmcPowerOffStage::Timer,
            EmmcPowerOffStage::Timer => if take_elapsed(reply) < timeout {
                EmmcPowerOffStage::Status
            } else {
                return Progress::Finished(Err(Error::SoftwareTimeout));
            },
            EmmcPowerOffStage::Status => {
                let ready: bool = status_ready_for_data(take_word(reply));
                match mode {
                    PowerOffMode::Short => if ready {
                        return Progress::Finished(Ok(()));
                    } else {
                        EmmcPowerOffStage::Timer
                    },
                    PowerOffMode::Long => EmmcPowerOffStage::ExtCsd {
                        ready,
                        read: read_ext_csd(),
                    },
                }
            },
            EmmcPowerOffStage::ExtCsd { ready, read } => match read.advance(reply) {
                Progress::Pending(read) => EmmcPowerOffStage::ExtCsd { ready, read },
                Progress::Finished(Err(e)) => {
                    return Progress::Finished(Err(e));
                },
                Progress::Finished(Ok(data)) => {
                    let power_off_status: u8 = take_block(data).byte(
                        POWER_OFF_NOTIFICATION_EXT_CSD_INDEX as usize,
                    );
                    if ready && power_off_status == 3 {
                        return Progress::Finished(Ok(()));
                    }
                    EmmcPowerOffStage::Timer
                },
            },
        };
        Progress::Pending(EmmcPowerOff { address, mode, timeout, stage })
    }
}

/// A notification succeeds only when the device has just reported that it is ready, for a
/// long one also with the extended card specific data, and the device is given up exactly when
/// the time limit has been reached.
pub proof fn law_emmc_notification_is_acknowledged(op: EmmcPowerOff, reply: Reply)
    requires
        op.wf(),
        fits(op.pending(), reply),
    ensures
        op.after(reply) == Progress::<EmmcPowerOff, ()>::Finished(Ok(())) ==> match op.mode {
            PowerOffMode::Short => reply matches Reply::Word(status) && status_ready(status),
            PowerOffMode::Long => reply matches Reply::BlockData(data) && long_off_done(data) && (
            op.stage matches EmmcPowerOffStage::ExtCsd { ready, read } && ready),
        },
        op.stage is Timer ==> (reply->Elapsed_0 >= op.timeout <==> op.after(reply)
            == Progress::<EmmcPowerOff, ()>::Finished(Err(Error::SoftwareTimeout))),
        !(op.stage is Timer) && !(reply is Failed) ==> !(op.after(reply) matches Progress::Finished(
            Err(_),
        )),
{
    if let EmmcPowerOffStage::ExtCsd { ready, read } = op.stage {
        let i = read.next;
        assert(i == 0 || i == 1 || i == 2 || i == 3);
    }
}

/// Whatever the device answers, a notification that succeeds does so with the answer in which
/// the device reports that it is ready, or for a long one with the answer that shows the
/// notification, after a status that was ready.
pub proof fn law_emmc_success_means_ready(op: EmmcPowerOff, replies: Seq<Reply>, last: Reply)
    requires
        op.wf(),
        admitted(op, replies.push(last)),
        run(op, replies) is Pending,
        run(op, replies.push(last)) == Progress::<EmmcPowerOff, ()>::Finished(Ok(())),
    ensures
        match op.mode {
            PowerOffMode::Short => last matches Reply::Word(status) && status_ready(status),
            PowerOffMode::Long => {
                &&& last matches Reply::BlockData(data) && long_off_done(data)
                &&& run(op, replies) matches Progress::Pending(now) && (
                now.stage matches EmmcPowerOffStage::ExtCsd { ready, read } && ready)
            },
        },
{
    law_last_reply_decides(op, replies, last);
    law_run_keeps(
        op,
        replies,
        |now: EmmcPowerOff| now.mode == op.mode,
        |r: Result<(), Error>| true,
    );
    law_emmc_notification_is_acknowledged(run(op, replies)->Pending_0, last);
}

/// One round of the wait after a short notification: while the time limit has not been
/// reached, the device is asked for its status. A device that is ready ends the wait;
/// otherwise the wait goes on as before.
pub proof fn law_short_round(op: EmmcPowerOff, replies: Seq<Reply>)
    requires
        op.stage is Timer,
        op.mode is Short,
        replies.len() == 2,
        replies[0] matches Reply::Elapsed(ticks) && ticks < op.timeout,
        replies[1] is Word,
    ensures
        run(op, replies) == if status_ready(replies[1]->Word_0) {
            Progress::Finished(Ok(()))
        } else {
            Progress::Pending(op)
        },
        trace(op, replies) == seq![
            Action::ReadTimer,
            Action::ReadStatus { address: op.address },
        ],
{
    let s1 = EmmcPowerOff { stage: EmmcPowerOffStage::Status, ..op };
    law_run_starts(op, replies);
    assert(op.after(replies[0]) == op.to(s1.stage));
    law_run_goes_on(op, replies, 0, op);
    law_run_goes_on(op, replies, 1, s1);
    assert(replies.take(2) =~= replies);
    assert(trace(op, replies) =~= seq![
        Action::ReadTimer,
        Action::ReadStatus { address: op.address },
    ]);
}

/// One round of the wait after a long notification: while the time limit has not been
/// reached, the device is asked for its status and for its extended card specific data. The
/// wait ends if both say that the device is ready; otherwise it goes on as before.
pub proof fn law_long_round(op: EmmcPowerOff, replies: Seq<Reply>)
    requires
        op.stage is Timer,
        op.mode is Long,
        replies.len() == 6,
        replies[0] matches Reply::Elapsed(ticks) && ticks < op.timeout,
        replies[1] is Word,
        replies[2] is Word,
        replies[3] is Done,
        replies[4] is Word,
        replies[5] is BlockData,
    ensures
        run(op, replies) == if status_ready(replies[1]->Word_0) && long_off_done(
            replies[5]->BlockData_0,
        ) {
            Progress::Finished(Ok(()))
        } else {
            Progress::Pending(op)
        },
        trace(op, replies) == seq![
            Action::ReadTimer,
            Action::ReadStatus { address: op.address },
            send(16, 512, true, false),
            Action::PrepareRead { buffer: Buffer::Block, block_size: 512 },
            send(8, 0, true, true),
            Action::CompleteRead { buffer: Buffer::Block, single: true },
        ],
{
    let ready = status_ready(replies[1]->Word_0);
    let r0 = ext_csd_start();
    let s1 = EmmcPowerOff { stage: EmmcPowerOffStage::Status, ..op };
    let s2 = EmmcPowerOff { stage: EmmcPowerOffStage::ExtCsd { ready, read: r0 }, ..op };
    let r1 = Sequence { next: 1, ..r0 };
    let s3 = EmmcPowerOff { stage: EmmcPowerOffStage::ExtCsd { ready, read: r1 }, ..op };
    let r2 = Sequence { next: 2, ..r0 };
    let s4 = EmmcPowerOff { stage: EmmcPowerOffStage::ExtCsd { ready, read: r2 }, ..op };
    let r3 = Sequence { next: 3, ..r0 };
    let s5 = EmmcPowerOff { stage: EmmcPowerOffStage::ExtCsd { ready, read: r3 }, ..op };
    assert(op.after(replies[0]) == op.to(s1.stage));
    assert(s1.after(replies[1]) == op.to(s2.stage));
    assert(s2.after(replies[2]) == op.to(s3.stage));
    assert(s3.after(replies[3]) == op.to(s4.stage));
    assert(s4.after(replies[4]) == op.to(s5.stage));
    law_run_follows(seq![op, s1, s2, s3, s4, s5], replies.take(5));
    law_run_goes_on(op, replies, 5, s5);
    assert(replies.take(6) =~= replies);
    assert(trace(op, replies) =~= seq![
        Action::ReadTimer,
        Action::ReadStatus { address: op.address },
        send(16, 512, true, false),
        Action::PrepareRead { buffer: Buffer::Block, block_size: 512 },
        send(8, 0, true, true),
        Action::CompleteRead { buffer: Buffer::Block, single: true },
    ]);
}

} // verus!
