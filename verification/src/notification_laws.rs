//! What writes to extension registers and power off notifications put on the wire.
use crate::block::{law_words_are_spelled_by_bytes, DataBlock};
use crate::bus::{
    law_run_follows, law_run_goes_on, run, trace, Action, Buffer, ControllerVersion, Error,
    Operation, Progress, Reply,
};
use crate::confirmed::{law_confirmed_gives_up, law_confirmed_succeeds, Confirmed};
use crate::ext_register::{ext_reg_argument, read_at, write_at, ReadExtReg, WriteExtReg};
use crate::poll::not_ready;
use crate::power::{
    law_notification_is_written, long_off_done, notification_bytes, power_off_limit, EmmcPowerOff,
    EmmcPowerOffStage, NotifyStage, PowerOffMode, PowerOffNotify,
};
use crate::register_laws::{law_card_status, law_ext_csd_byte_is_written};
use crate::sequence::{law_script_is_performed, Script, Sequence};
use crate::transfer_laws::{all_busy, all_succeed, asks, checked};
use vstd::prelude::*;

verus! {

/// A read of an extension register whose actions succeed is one CMD48, with the data path
/// armed before it.
pub proof fn law_register_is_read(fno: u8, page: u8, offset: u16, replies: Seq<Reply>)
    requires
        replies.len() == 3,
        all_succeed(replies),
    ensures
        trace(read_at(fno, page, offset), replies) == seq![
            Action::PrepareRead { buffer: Buffer::Block, block_size: 512 },
            checked(48, ext_reg_argument(fno, page, offset) as int, true),
            Action::CompleteRead { buffer: Buffer::Block, single: true },
        ],
        run(read_at(fno, page, offset), replies) == Progress::<
            Sequence<ReadExtReg>,
            Reply,
        >::Finished(Ok(replies[2])),
{
    let op = read_at(fno, page, offset);
    law_script_is_performed(op, replies);
    assert(op.script.actions().skip(0) =~= seq![
        Action::PrepareRead { buffer: Buffer::Block, block_size: 512 },
        checked(48, ext_reg_argument(fno, page, offset) as int, true),
        Action::CompleteRead { buffer: Buffer::Block, single: true },
    ]);
}

/// A write to an extension register, up to the wait for the card.
pub open spec fn register_write(argument: u32, buffer: DataBlock, version: ControllerVersion) -> Seq<
    Action,
> {
    if version == ControllerVersion::V1 {
        seq![
            checked(16, 512, false),
            checked(49, argument as int, false),
            Action::PrepareWriteBlock(buffer),
            Action::CompleteWrite { single: true },
        ]
    } else {
        seq![
            checked(16, 512, false),
            Action::PrepareWriteBlock(buffer),
            checked(49, argument as int, false),
            Action::CompleteWrite { single: true },
        ]
    }
}

/// A write to an extension register whose actions succeed is one CMD49 with the block that is
/// written. Then the card is asked for its status until bit 8 is set, but no more than 16777215
/// times.
pub proof fn law_register_is_written(
    fno: u8,
    page: u8,
    offset: u16,
    buffer: DataBlock,
    address: u16,
    version: ControllerVersion,
    replies: Seq<Reply>,
    busy: Seq<Reply>,
    status: u32,
)
    requires
        replies.len() == 4,
        all_succeed(replies),
        all_busy(busy),
        (status / 0x100) % 2 == 1,
    ensures
        ({
            let op = write_at(fno, page, offset, buffer, address, version);
            let wire = register_write(ext_reg_argument(fno, page, offset), buffer, version);
            let answered = replies + busy.push(Reply::Word(status));
            &&& busy.len() < 16_777_215 ==> run(op, answered) == Progress::<
                Confirmed<WriteExtReg>,
                (),
            >::Finished(Ok(()))
            &&& busy.len() < 16_777_215 ==> trace(op, answered) == wire + asks(
                address,
                busy.len() + 1,
            )
            &&& busy.len() == 16_777_215 ==> run(op, replies + busy) == Progress::<
                Confirmed<WriteExtReg>,
                (),
            >::Finished(Err(Error::SoftwareTimeout))
            &&& busy.len() == 16_777_215 ==> trace(op, replies + busy) == wire + asks(
                address,
                busy.len(),
            )
        }),
{
    let op = write_at(fno, page, offset, buffer, address, version);
    let script = (op.stage->Script_0).script;
    assert(script.actions().skip(0) =~= register_write(
        ext_reg_argument(fno, page, offset),
        buffer,
        version,
    ));
    assert forall|i: int| 0 <= i < busy.len() implies not_ready(#[trigger] busy[i]) by {
        law_card_status(busy[i]->Word_0);
    }
    law_card_status(status);
    if busy.len() < 16_777_215 {
        law_confirmed_succeeds(op, replies, busy, status);
    }
    if busy.len() == 16_777_215 {
        law_confirmed_gives_up(op, replies, busy);
    }
}

/// A notification of an SD card is a block that starts with a one and is zero otherwise.
pub proof fn law_notification_block(buffer: DataBlock)
    requires
        buffer.bytes() == notification_bytes(),
    ensures
        buffer.0@[0] == 1,
        forall|w: int| 1 <= w < 128 ==> #[trigger] buffer.0@[w] == 0,
{
    law_words_are_spelled_by_bytes(buffer);
    assert(buffer.0@[0] == buffer.bytes()[0] + 0x100 * buffer.bytes()[1] + 0x1_0000
        * buffer.bytes()[2] + 0x100_0000 * buffer.bytes()[3]);
    assert forall|w: int| 1 <= w < 128 implies #[trigger] buffer.0@[w] == 0 by {
        assert(buffer.0@[w] == buffer.bytes()[4 * w] + 0x100 * buffer.bytes()[4 * w + 1] + 0x1_0000
            * buffer.bytes()[4 * w + 2] + 0x100_0000 * buffer.bytes()[4 * w + 3]);
    }
}

/// A write that fails ends the notification with its error.
proof fn lemma_failed_write(op: PowerOffNotify, replies: Seq<Reply>, error: Error)
    requires
        op.stage is Write,
        run(op.stage->Write_0, replies) == Progress::<Confirmed<WriteExtReg>, ()>::Finished(
            Err(error),
        ),
    ensures
        run(op, replies) == Progress::<PowerOffNotify, ()>::Finished(Err(error)),
    decreases replies.len(),
{
    reveal(run);
    if replies.len() > 0 {
        match op.stage->Write_0.after(replies[0]) {
            Progress::Pending(next) => lemma_failed_write(
                PowerOffNotify { stage: NotifyStage::Write(next), ..op },
                replies.drop_first(),
                error,
            ),
            Progress::Finished(_) => {},
        }
    }
}

/// The notification of an SD card: the block is written two bytes behind the register of the
/// function, the card is waited for, and then the clock starts. A card that stays busy is given
/// up.
pub proof fn law_notification_on_the_wire(
    op: PowerOffNotify,
    buffer: DataBlock,
    address: u16,
    version: ControllerVersion,
    replies: Seq<Reply>,
    busy: Seq<Reply>,
    status: u32,
)
    requires
        op.at.offset < 0x200,
        op.stage == NotifyStage::Write(
            write_at(
                op.at.fno,
                op.at.page,
                (op.at.offset + 2) as u16,
                buffer,
                address,
                version,
            ),
        ),
        replies.len() == 4,
        all_succeed(replies),
        all_busy(busy),
        (status / 0x100) % 2 == 1,
    ensures
        ({
            let answered = (replies + busy.push(Reply::Word(status))).push(Reply::Done);
            &&& busy.len() < 16_777_215 ==> run(op, answered) == op.to(NotifyStage::Timer)
            &&& busy.len() < 16_777_215 ==> trace(op, answered) == (register_write(
                ext_reg_argument(op.at.fno, op.at.page, (op.at.offset + 2) as u16),
                buffer,
                version,
            ) + asks(address, busy.len() + 1)).push(Action::StartTimer)
            &&& busy.len() == 16_777_215 ==> run(op, replies + busy) == Progress::<
                PowerOffNotify,
                (),
            >::Finished(Err(Error::SoftwareTimeout))
        }),
{
    let written = replies + busy.push(Reply::Word(status));
    let answered = written.push(Reply::Done);
    law_register_is_written(
        op.at.fno,
        op.at.page,
        (op.at.offset + 2) as u16,
        buffer,
        address,
        version,
        replies,
        busy,
        status,
    );
    if busy.len() < 16_777_215 {
        law_notification_is_written(op, written);
        assert(answered.take(written.len() as int) =~= written);
        assert(answered.take(answered.len() as int) =~= answered);
        law_run_goes_on(
            op,
            answered,
            written.len() as int,
            PowerOffNotify { stage: NotifyStage::StartTimer, ..op },
        );
    }
    if busy.len() == 16_777_215 {
        lemma_failed_write(op, replies + busy, Error::SoftwareTimeout);
    }
}

/// The notification of an eMMC device: byte 34 of its extended card specific data is set to 2
/// for a short one and to 3 for a long one, and then the clock starts.
pub proof fn law_emmc_notification_on_the_wire(op: EmmcPowerOff, replies: Seq<Reply>)
    requires
        op.stage is Notify,
        replies.len() == 2,
        replies[0] is Word,
        replies[1] is Done,
    ensures
        run(op, replies) == op.to(EmmcPowerOffStage::Timer),
        trace(op, replies) == seq![
            checked(
                6,
                if op.mode == PowerOffMode::Short {
                    0x0322_0200
                } else {
                    0x0322_0300
                },
                false,
            ),
            Action::StartTimer,
        ],
{
    let s1 = EmmcPowerOff { stage: EmmcPowerOffStage::StartTimer, ..op };
    let s2 = EmmcPowerOff { stage: EmmcPowerOffStage::Timer, ..op };
    law_ext_csd_byte_is_written(34, 2);
    law_ext_csd_byte_is_written(34, 3);
    assert(op.after(replies[0]) == op.to(s1.stage));
    assert(s1.after(replies[1]) == op.to(s2.stage));
    law_run_follows(seq![op, s1, s2], replies);
    assert(trace(op, replies) =~= seq![
        checked(
            6,
            if op.mode == PowerOffMode::Short {
                0x0322_0200
            } else {
                0x0322_0300
            },
            false,
        ),
        Action::StartTimer,
    ]);
}

/// The long notification shows in byte 34, which is the third byte of word 8, and nowhere else.
pub proof fn law_long_notification_shows(ext_csd: DataBlock)
    ensures
        long_off_done(ext_csd) <==> (ext_csd.0@[8] / 0x1_0000) % 0x100 == 3,
{
    law_words_are_spelled_by_bytes(ext_csd);
    assert(ext_csd.0@[8] == ext_csd.bytes()[32] + 0x100 * ext_csd.bytes()[33] + 0x1_0000
        * ext_csd.bytes()[34] + 0x100_0000 * ext_csd.bytes()[35]);
}

/// Before version 6 of the register structure, which is byte 193, a device has half a second for
/// every notification.
pub proof fn law_default_limit(ext_csd: DataBlock, mode: PowerOffMode)
    requires
        ext_csd.bytes()[193] < 6,
    ensures
        power_off_limit(ext_csd.0, mode) == 500,
{
    let word: u32 = ext_csd.0@[48];
    assert(((word >> 8u32) & 0xFF) as u8 == (word / 0x100) % 0x100) by (bit_vector);
    assert(ext_csd.bytes()[193] == ((word >> 8u32) & 0xFF) as u8);
}

} // verus!
