//! What holds of the bring-up of an eMMC device, whatever the device answers.
use crate::bus::{
    admitted, fits, law_run_follows, law_run_goes_on, law_run_in_parts, law_run_keeps,
    law_run_starts, run, trace, Action, Buffer, Error, Operation, Progress, Reply,
};
use crate::card::Emmc;
use crate::device::StorageDevice;
use crate::emmc::{
    emmc_capacity, emmc_identified, ext_csd_start, width_code, write_ext_csd, EmmcAcquire,
    EmmcStage, ExtCsdScript,
};
use crate::poll::not_ready;
use crate::register::{ocr_busy, status_ready};
use crate::sd::default_clock;
use crate::sequence::Sequence;
use crate::transfer::send;
use crate::transfer_laws::asks;
use vstd::prelude::*;

verus! {

/// The only clock that the bring-up asks for is the requested one, but no more than 25 MHz,
/// with the bus width that the device was told.
pub proof fn law_emmc_clock_and_width(op: EmmcAcquire)
    requires
        op.wf(),
    ensures
        op.pending() matches Action::SetClock { freq, width } ==> freq.0 <= op.freq.0 && freq.0
            <= 25_000_000 && width == op.width,
{
    if let EmmcStage::ExtCsd(read) = op.stage {
        let i = read.next;
        assert(i == 0 || i == 1 || i == 2 || i == 3);
    }
}

/// A device that was brought up has powered up, is addressed as its operating condition
/// says, has the address that it was given, and is driven by the controller that it was
/// brought up with.
pub proof fn law_acquired_emmc_is_identified(op: EmmcAcquire, replies: Seq<Reply>)
    requires
        op.wf(),
        admitted(op, replies),
    ensures
        run(op, replies) matches Progress::Finished(Ok(device)) ==> emmc_identified(device.info)
            && device.info.rca == 1 && device.version == op.version,
{
    law_run_keeps(
        op,
        replies,
        |now: EmmcAcquire| now.version == op.version,
        |r: Result<StorageDevice<Emmc>, Error>|
            match r {
                Ok(device) => emmc_identified(device.info) && device.info.rca == 1
                    && device.version == op.version,
                Err(_) => true,
            },
    );
}

/// No answer turns a device away: the bring-up fails only where an action fails.
pub proof fn law_emmc_is_not_refused(op: EmmcAcquire, reply: Reply)
    requires
        op.wf(),
        fits(op.pending(), reply),
        !(reply is Failed),
    ensures
        !(op.after(reply) matches Progress::Finished(Err(_))),
{
}

/// A missing checksum in the answer to the operating condition is passed over, and nothing
/// else is.
pub proof fn law_checksum_is_passed_over(op: EmmcAcquire, error: Error)
    ensures
        op.tolerates(error) <==> op.stage is OpCond && error is Crc,
        op.stage is OpCond ==> op.after(Reply::Failed(Error::Crc)) == op.to(
            op.info,
            EmmcStage::ReadOcr,
        ),
{
}

/// Whether a reply lets the bring-up go on to the operating condition.
pub open spec fn op_cond_sent(reply: Reply) -> bool {
    reply is Word || reply == Reply::Failed(Error::Crc)
}

/// A run of operating conditions of a device that is still busy: each has been asked for.
pub open spec fn emmc_busy_rounds(rounds: Seq<Reply>) -> bool {
    &&& rounds.len() % 2 == 0
    &&& forall|i: int|
        0 <= i < rounds.len() ==> if i % 2 == 0 {
            op_cond_sent(#[trigger] rounds[i])
        } else {
            rounds[i] matches Reply::Word(ocr) && ocr_busy(ocr)
        }
}

/// A busy device is asked again, as often as it takes, and the bring-up stays where it is.
pub proof fn law_busy_emmc_is_asked_again(op: EmmcAcquire, rounds: Seq<Reply>)
    requires
        op.stage is OpCond,
        emmc_busy_rounds(rounds),
    ensures
        run(op, rounds) == Progress::<EmmcAcquire, StorageDevice<Emmc>>::Pending(op),
        trace(op, rounds) == Seq::new(
            rounds.len(),
            |i: int|
                if i % 2 == 0 {
                    send(1, 0x40FF_8000, true, false)
                } else {
                    Action::ReadResponse
                },
        ),
    decreases rounds.len(),
{
    let n = rounds.len() as int;
    let asks = Seq::new(
        rounds.len(),
        |i: int|
            if i % 2 == 0 {
                send(1, 0x40FF_8000, true, false)
            } else {
                Action::ReadResponse
            },
    );
    if n == 0 {
        law_run_starts(op, rounds);
        assert(rounds.take(0) =~= rounds);
        assert(trace(op, rounds) =~= asks);
    } else {
        let fewer = rounds.take(n - 2);
        assert forall|i: int| 0 <= i < fewer.len() implies if i % 2 == 0 {
            op_cond_sent(#[trigger] fewer[i])
        } else {
            fewer[i] matches Reply::Word(ocr) && ocr_busy(ocr)
        } by {
            assert(fewer[i] == rounds[i]);
        }
        law_busy_emmc_is_asked_again(op, fewer);
        assert(op_cond_sent(rounds[n - 2]));
        assert(rounds[n - 1] matches Reply::Word(ocr) && ocr_busy(ocr));
        law_run_goes_on(op, rounds, n - 2, op);
        law_run_goes_on(op, rounds, n - 1, EmmcAcquire { stage: EmmcStage::ReadOcr, ..op });
        assert(rounds.take(n) =~= rounds);
        assert(trace(op, rounds) =~= asks);
    }
}

/// A device that is busy with a write to its extended card specific data is asked again, as
/// often as it takes.
pub proof fn law_busy_emmc_is_waited_for(op: EmmcAcquire, busy: Seq<Reply>)
    requires
        op.stage is WidthBusy || op.stage is NotificationBusy,
        forall|i: int| 0 <= i < busy.len() ==> not_ready(#[trigger] busy[i]),
    ensures
        run(op, busy) == Progress::<EmmcAcquire, StorageDevice<Emmc>>::Pending(op),
        trace(op, busy) == Seq::new(
            busy.len(),
            |i: int| Action::ReadStatus { address: op.info.rca },
        ),
{
    let states = Seq::new(busy.len() + 1, |i: int| op);
    assert forall|k: int| 0 <= k < busy.len() implies (#[trigger] states[k]).after(busy[k])
        == Progress::<EmmcAcquire, StorageDevice<Emmc>>::Pending(states[k + 1]) by {
        assert(not_ready(busy[k]));
        assert(op.after(busy[k]) == op.to(op.info, op.stage));
    }
    law_run_follows(states, busy);
    assert(trace(op, busy) =~= Seq::new(
        busy.len(),
        |i: int| Action::ReadStatus { address: op.info.rca },
    ));
}

/// What a device says of itself with its answers up to the choice of the bus width.
pub open spec fn emmc_described(info: Emmc, replies: Seq<Reply>) -> Emmc {
    let ocr = replies[1]->Word_0;
    Emmc {
        capacity: emmc_capacity(ocr),
        ocr,
        rca: 1,
        cid: replies[2]->Register_0,
        csd: replies[4]->Register_0,
        ext_csd: info.ext_csd,
    }
}

/// The replies of a device that has powered up, up to the choice of the bus width.
pub open spec fn emmc_describes(replies: Seq<Reply>) -> bool {
    &&& replies.len() == 7
    &&& op_cond_sent(replies[0])
    &&& replies[1] matches Reply::Word(ocr) && !ocr_busy(ocr)
    &&& replies[2] is Register
    &&& replies[3] is Word
    &&& replies[4] is Register
    &&& replies[5] is Done
    &&& replies[6] is Word
}

/// A device that has powered up is given the address 1, is selected, and is told the bus
/// width.
pub proof fn law_emmc_is_described(op: EmmcAcquire, replies: Seq<Reply>)
    requires
        op.stage is OpCond,
        emmc_describes(replies),
    ensures
        run(op, replies) == op.to(emmc_described(op.info, replies), EmmcStage::WidthBusy),
        trace(op, replies) == seq![
            send(1, 0x40FF_8000, true, false),
            Action::ReadResponse,
            Action::GetCid,
            send(3, 1u32 << 16u32, true, false),
            Action::GetCsd { address: 1 },
            Action::SelectCard { address: 1 },
            write_ext_csd(183, width_code(op.width)),
        ],
{
    let ocr = replies[1]->Word_0;
    let i2 = Emmc { capacity: emmc_capacity(ocr), ocr, ..op.info };
    let i3 = Emmc { cid: replies[2]->Register_0, rca: 1, ..i2 };
    let i5 = Emmc { csd: replies[4]->Register_0, ..i3 };
    let s1 = EmmcAcquire { stage: EmmcStage::ReadOcr, ..op };
    let s2 = EmmcAcquire { info: i2, stage: EmmcStage::Cid, ..op };
    let s3 = EmmcAcquire { info: i3, stage: EmmcStage::AssignAddress, ..op };
    let s4 = EmmcAcquire { info: i3, stage: EmmcStage::Csd, ..op };
    let s5 = EmmcAcquire { info: i5, stage: EmmcStage::Select, ..op };
    let s6 = EmmcAcquire { info: i5, stage: EmmcStage::Width, ..op };
    let s7 = EmmcAcquire { info: i5, stage: EmmcStage::WidthBusy, ..op };
    assert(op.after(replies[0]) == op.to(s1.info, s1.stage));
    assert(s1.after(replies[1]) == op.to(s2.info, s2.stage));
    assert(s2.after(replies[2]) == op.to(s3.info, s3.stage));
    assert(s3.after(replies[3]) == op.to(s4.info, s4.stage));
    assert(s4.after(replies[4]) == op.to(s5.info, s5.stage));
    assert(s5.after(replies[5]) == op.to(s6.info, s6.stage));
    assert(s6.after(replies[6]) == op.to(s7.info, s7.stage));
    law_run_follows(seq![op, s1, s2, s3, s4, s5, s6, s7], replies);
    assert(trace(op, replies) =~= seq![
        send(1, 0x40FF_8000, true, false),
        Action::ReadResponse,
        Action::GetCid,
        send(3, 1u32 << 16u32, true, false),
        Action::GetCsd { address: 1 },
        Action::SelectCard { address: 1 },
        write_ext_csd(183, width_code(op.width)),
    ]);
}

/// Once the bus width is set, power off notifications are enabled.
pub proof fn law_notifications_are_enabled(op: EmmcAcquire, replies: Seq<Reply>)
    requires
        op.stage is WidthBusy,
        replies.len() == 2,
        replies[0] matches Reply::Word(status) && status_ready(status),
        replies[1] is Word,
    ensures
        run(op, replies) == op.to(op.info, EmmcStage::NotificationBusy),
        trace(op, replies) == seq![
            Action::ReadStatus { address: op.info.rca },
            write_ext_csd(34, 1),
        ],
{
    let s1 = EmmcAcquire { stage: EmmcStage::Notification, ..op };
    let s2 = EmmcAcquire { stage: EmmcStage::NotificationBusy, ..op };
    assert(op.after(replies[0]) == op.to(s1.info, s1.stage));
    assert(s1.after(replies[1]) == op.to(s2.info, s2.stage));
    law_run_follows(seq![op, s1, s2], replies);
    assert(trace(op, replies) =~= seq![
        Action::ReadStatus { address: op.info.rca },
        write_ext_csd(34, 1),
    ]);
}

/// The replies to the last steps: the device is ready, takes the clock, and gives its
/// extended card specific data.
pub open spec fn emmc_completes(replies: Seq<Reply>) -> bool {
    &&& replies.len() == 6
    &&& replies[0] matches Reply::Word(status) && status_ready(status)
    &&& replies[1] is Done
    &&& replies[2] is Word
    &&& replies[3] is Done
    &&& replies[4] is Word
    &&& replies[5] is BlockData
}

/// Once notifications are enabled, the clock is set and the extended card specific data are
/// read; the device is then complete.
pub proof fn law_emmc_is_completed(op: EmmcAcquire, replies: Seq<Reply>)
    requires
        op.stage is NotificationBusy,
        emmc_completes(replies),
    ensures
        run(op, replies) == Progress::<EmmcAcquire, StorageDevice<Emmc>>::Finished(
            Ok(
                StorageDevice {
                    info: Emmc { ext_csd: (replies[5]->BlockData_0).0, ..op.info },
                    version: op.version,
                },
            ),
        ),
        trace(op, replies) == seq![
            Action::ReadStatus { address: op.info.rca },
            Action::SetClock { freq: default_clock(op.freq), width: op.width },
            send(16, 512, true, false),
            Action::PrepareRead { buffer: Buffer::Block, block_size: 512 },
            send(8, 0, true, true),
            Action::CompleteRead { buffer: Buffer::Block, single: true },
        ],
{
    let s1 = EmmcAcquire { stage: EmmcStage::Clock, ..op };
    let s2 = EmmcAcquire { stage: EmmcStage::ExtCsd(ext_csd_start()), ..op };
    let r1 = Sequence { script: ExtCsdScript, next: 1 };
    let r2 = Sequence { script: ExtCsdScript, next: 2 };
    let r3 = Sequence { script: ExtCsdScript, next: 3 };
    let s3 = EmmcAcquire { stage: EmmcStage::ExtCsd(r1), ..op };
    let s4 = EmmcAcquire { stage: EmmcStage::ExtCsd(r2), ..op };
    let s5 = EmmcAcquire { stage: EmmcStage::ExtCsd(r3), ..op };
    assert(op.after(replies[0]) == op.to(s1.info, s1.stage));
    assert(s1.after(replies[1]) == op.to(s2.info, s2.stage));
    assert(s2.after(replies[2]) == op.to(s3.info, s3.stage));
    assert(s3.after(replies[3]) == op.to(s4.info, s4.stage));
    assert(s4.after(replies[4]) == op.to(s5.info, s5.stage));
    law_run_follows(seq![op, s1, s2, s3, s4, s5], replies.take(5));
    law_run_goes_on(op, replies, 5, s5);
    assert(replies.take(6) =~= replies);
    assert(trace(op, replies) =~= seq![
        Action::ReadStatus { address: op.info.rca },
        Action::SetClock { freq: default_clock(op.freq), width: op.width },
        send(16, 512, true, false),
        Action::PrepareRead { buffer: Buffer::Block, block_size: 512 },
        send(8, 0, true, true),
        Action::CompleteRead { buffer: Buffer::Block, single: true },
    ]);
}

/// Bringing up a device: however often it is busy on the way, a device that answers
/// everything ends up as one that is described by its answers.
pub proof fn law_emmc_comes_up(
    op: EmmcAcquire,
    idle: Reply,
    rounds: Seq<Reply>,
    answers: Seq<Reply>,
    width_busy: Seq<Reply>,
    notification: Seq<Reply>,
    notification_busy: Seq<Reply>,
    last: Seq<Reply>,
)
    requires
        op.stage is InitIdle,
        idle is Done,
        emmc_busy_rounds(rounds),
        emmc_describes(answers),
        forall|i: int| 0 <= i < width_busy.len() ==> not_ready(#[trigger] width_busy[i]),
        notification.len() == 2,
        notification[0] matches Reply::Word(status) && status_ready(status),
        notification[1] is Word,
        forall|i: int|
            0 <= i < notification_busy.len() ==> not_ready(#[trigger] notification_busy[i]),
        emmc_completes(last),
    ensures
        run(
            op,
            seq![idle] + (rounds + (answers + (width_busy + (notification + (notification_busy
                + last))))),
        ) == Progress::<EmmcAcquire, StorageDevice<Emmc>>::Finished(
            Ok(
                StorageDevice {
                    info: Emmc {
                        ext_csd: (last[5]->BlockData_0).0,
                        ..emmc_described(op.info, answers)
                    },
                    version: op.version,
                },
            ),
        ),
        trace(
            op,
            seq![idle] + (rounds + (answers + (width_busy + (notification + (notification_busy
                + last))))),
        ) == seq![Action::InitIdle] + (Seq::new(
            rounds.len(),
            |i: int|
                if i % 2 == 0 {
                    send(1, 0x40FF_8000, true, false)
                } else {
                    Action::ReadResponse
                },
        ) + (seq![
            send(1, 0x40FF_8000, true, false),
            Action::ReadResponse,
            Action::GetCid,
            send(3, 0x1_0000, true, false),
            Action::GetCsd { address: 1 },
            Action::SelectCard { address: 1 },
            write_ext_csd(183, width_code(op.width)),
        ] + (asks(1, width_busy.len()) + (seq![
            Action::ReadStatus { address: 1 },
            write_ext_csd(34, 1),
        ] + (asks(1, notification_busy.len()) + seq![
            Action::ReadStatus { address: 1 },
            Action::SetClock { freq: default_clock(op.freq), width: op.width },
            send(16, 512, true, false),
            Action::PrepareRead { buffer: Buffer::Block, block_size: 512 },
            send(8, 0, true, true),
            Action::CompleteRead { buffer: Buffer::Block, single: true },
        ]))))),
{
    assert(1u32 << 16u32 == 0x1_0000) by (bit_vector);
    let op1 = EmmcAcquire { stage: EmmcStage::OpCond, ..op };
    assert(op.after(idle) == op.to(op1.info, op1.stage));
    law_run_follows(seq![op, op1], seq![idle]);
    assert(trace(op, seq![idle]) =~= seq![Action::InitIdle]);
    law_busy_emmc_is_asked_again(op1, rounds);
    law_emmc_is_described(op1, answers);
    let op2 = run(op1, answers)->Pending_0;
    law_busy_emmc_is_waited_for(op2, width_busy);
    law_notifications_are_enabled(op2, notification);
    let op3 = run(op2, notification)->Pending_0;
    law_busy_emmc_is_waited_for(op3, notification_busy);
    law_emmc_is_completed(op3, last);
    law_run_in_parts(op3, notification_busy, last);
    law_run_in_parts(op2, notification, notification_busy + last);
    law_run_in_parts(op2, width_busy, notification + (notification_busy + last));
    law_run_in_parts(op1, answers, width_busy + (notification + (notification_busy + last)));
    law_run_in_parts(
        op1,
        rounds,
        answers + (width_busy + (notification + (notification_busy + last))),
    );
    law_run_in_parts(
        op,
        seq![idle],
        rounds + (answers + (width_busy + (notification + (notification_busy + last)))),
    );
}

} // verus!
