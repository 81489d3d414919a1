//! What holds of the bring-up of an SD card, whatever the card answers.
use crate::block::{CmdBlock, DataBlock};
use crate::bus::{
    admitted, fits, law_last_reply_decides, law_run_follows, law_run_goes_on, law_run_in_parts,
    law_run_keeps, law_run_keeps_invariant, law_run_starts, run, step, trace, Action, Buffer, Error,
    Operation, Progress, Reply,
};
use crate::card::Card;
use crate::device::StorageDevice;
use crate::ext_register::{
    answers_entry, entry_at, found_in_chain, is_chain, law_argument_fields,
    law_extensions_are_found, read_at, ExtStage, ReadExtRegisters,
};
use crate::register::{ocr_busy, scr_width_four, state_of_code};
use crate::register_laws::{law_announcement, law_configuration, law_op_cond_argument};
use crate::sd::{
    chosen_width, default_clock, identified, op_cond_argument, sd_capacity, width_argument, with_ocr,
    SdAcquire, SdStage,
};
use crate::sequence::Sequence;
use crate::signalling::{
    scr_at, scr_value, sd_status_at, selected_mode, send_app, switch_argument, switch_to, GetScr,
    ReadSdStatus, ScrScript, Signalling, StatusScript, SwitchScript, SwitchSignalling,
};
use crate::transfer::send;
use vstd::prelude::*;

verus! {

/// Every clock that the bring-up asks for is at most the requested one. It is over 25 MHz
/// only at the stage for the final clock, and it goes with four data lines only if both
/// the controller is configured for them and the card supports them, else with one.
pub proof fn law_clock_and_width(op: SdAcquire)
    requires
        op.wf(),
    ensures
        op.pending() matches Action::SetClock { freq, width } ==> {
            &&& freq.0 <= op.freq.0
            &&& freq.0 > 25_000_000 ==> op.stage is FastClock
            &&& width is Four || width is One
            &&& width is Four <==> op.width is Four && scr_width_four(op.info.scr)
        },
{
    match op.stage {
        SdStage::Scr(get) => {
            let i = get.read.next;
            assert(i == 0 || i == 1 || i == 2 || i == 3 || i == 4);
        },
        SdStage::Status(read) => lemma_status_sets_no_clock(read),
        SdStage::StatusAgain(read) => lemma_status_sets_no_clock(read),
        SdStage::Switch(switch) => {
            if let SwitchSignalling::Request(request) = switch {
                let i = request.next;
                assert(i == 0 || i == 1 || i == 2);
            }
        },
        SdStage::Extensions(search) => match search.stage {
            ExtStage::Information(read) => {
                let i = read.next;
                assert(i == 0 || i == 1 || i == 2);
            },
            ExtStage::Entry { section, offset } => {},
            ExtStage::Function { section, next, at, read } => {
                let i = read.next;
                assert(i == 0 || i == 1 || i == 2);
            },
        },
        _ => {},
    }
}

proof fn lemma_status_sets_no_clock(op: ReadSdStatus)
    requires
        op.wf(),
    ensures
        !(op.pending() is SetClock),
{
    if let ReadSdStatus::Read(read) = op {
        let i = read.next;
        assert(i == 0 || i == 1 || i == 2 || i == 3 || i == 4);
    }
}

/// The final clock is set only when the card has just confirmed that it switched to
/// SDR25.
pub proof fn law_final_clock_is_earned(op: SdAcquire, reply: Reply)
    requires
        op.wf(),
        fits(op.pending(), reply),
    ensures
        op.after(reply) matches Progress::Pending(next) && next.stage is FastClock ==> (op.stage
            matches SdStage::Switch(switch) && switch.after(reply) == Progress::<
            SwitchSignalling,
            Signalling,
        >::Finished(Ok(Signalling::SDR25))),
{
    reveal(step);
}

/// Whatever the card answers, a clock over 25 MHz is asked for only right after the card has
/// reported SDR25 as its choice.
pub proof fn law_fast_clock_needs_confirmation(op: SdAcquire, replies: Seq<Reply>, last: Reply)
    requires
        op.wf(),
        admitted(op, replies.push(last)),
        run(op, replies) is Pending,
        run(op, replies.push(last)) matches Progress::Pending(next) && (
        next.pending() matches Action::SetClock { freq, width } && freq.0 > 25_000_000),
    ensures
        run(op, replies) matches Progress::Pending(now) && (now.stage matches SdStage::Switch(
            SwitchSignalling::Settle(status),
        ) && selected_mode(status) == Ok::<Signalling, Error>(Signalling::SDR25)),
{
    law_last_reply_decides(op, replies, last);
    let now = run(op, replies)->Pending_0;
    let next = run(op, replies.push(last))->Pending_0;
    now.lemma_after(last);
    law_clock_and_width(next);
    law_final_clock_is_earned(now, last);
}

/// The bring-up never forgets the generation, the width or the frequency that it was
/// started with.
#[verifier::rlimit(40)]
#[verifier::spinoff_prover]
pub proof fn law_parameters_are_kept(op: SdAcquire, replies: Seq<Reply>)
    requires
        op.wf(),
        admitted(op, replies),
    ensures
        match run(op, replies) {
            Progress::Pending(next) => next.version == op.version && next.width == op.width
                && next.freq == op.freq,
            Progress::Finished(Ok(device)) => device.version == op.version,
            Progress::Finished(Err(_)) => true,
        },
{
    law_run_keeps(
        op,
        replies,
        |now: SdAcquire|
            now.version == op.version && now.width == op.width && now.freq == op.freq,
        |r: Result<StorageDevice<Card>, Error>|
            match r {
                Ok(device) => device.version == op.version,
                Err(_) => true,
            },
    );
}

/// A card that was brought up has powered up, and is addressed as its operating
/// condition says.
pub proof fn law_acquired_card_is_identified(op: SdAcquire, replies: Seq<Reply>)
    requires
        op.wf(),
        admitted(op, replies),
    ensures
        run(op, replies) matches Progress::Finished(Ok(device)) ==> identified(device.info),
{
    law_run_keeps(
        op,
        replies,
        |now: SdAcquire| true,
        |r: Result<StorageDevice<Card>, Error>|
            match r {
                Ok(device) => identified(device.info),
                Err(_) => true,
            },
    );
}

/// Whatever the card answers, the bring-up never asks for a clock over the requested one.
pub proof fn law_requested_clock_is_the_limit(op: SdAcquire, replies: Seq<Reply>)
    requires
        op.wf(),
        admitted(op, replies),
    ensures
        run(op, replies) matches Progress::Pending(next) ==> (next.pending() matches Action::SetClock {
            freq,
            width,
        } ==> freq.0 <= op.freq.0),
{
    law_parameters_are_kept(op, replies);
    law_run_keeps_invariant(op, replies);
    if let Progress::Pending(next) = run(op, replies) {
        law_clock_and_width(next);
    }
}

/// A card is turned away, other than for a failed action, exactly if it does not echo the
/// check pattern, does not accept the voltage, reports an unknown signalling mode, or has
/// left the transfer state after the switch.
pub proof fn law_refusals(op: SdAcquire, reply: Reply)
    requires
        op.wf(),
        fits(op.pending(), reply),
        !(reply is Failed),
    ensures
        op.after(reply) is Finished && op.after(reply)->Finished_0 is Err <==> {
            ||| op.stage is ReadIfCond && reply->Word_0 % 0x100 != 0xAA
            ||| op.stage is ReadIfCond && (reply->Word_0 / 0x100) % 2 == 0
            ||| op.stage matches SdStage::Switch(
                SwitchSignalling::Settle(status),
            ) && selected_mode(status) is Err
            ||| op.stage is FastStatus && !(state_of_code((reply->Word_0 / 0x200) % 0x10)
                is Transfer)
        },
        op.after(reply) matches Progress::Finished(Err(e)) ==> match op.stage {
            SdStage::ReadIfCond => e == if reply->Word_0 % 0x100 != 0xAA {
                Error::UnsupportedCardVersion
            } else {
                Error::UnsupportedVoltage
            },
            SdStage::Switch(_) => e == Error::UnsupportedCardType,
            _ => e == Error::SignalingSwitchFailed,
        },
{
    reveal(step);
}

/// A run of operating conditions of a card that is still busy: each is announced.
pub open spec fn busy_rounds(rounds: Seq<Reply>) -> bool {
    &&& rounds.len() % 2 == 0
    &&& forall|i: int|
        0 <= i < rounds.len() ==> (#[trigger] rounds[i] matches Reply::Word(ocr) && (i % 2 == 1
            ==> ocr_busy(ocr)))
}

/// A busy card is asked again, as often as it takes, and the bring-up stays where it is.
pub proof fn law_busy_card_is_asked_again(op: SdAcquire, rounds: Seq<Reply>)
    requires
        op.stage is AnnounceOpCond,
        busy_rounds(rounds),
    ensures
        run(op, rounds) == Progress::<SdAcquire, StorageDevice<Card>>::Pending(op),
        trace(op, rounds) == Seq::new(
            rounds.len(),
            |i: int|
                if i % 2 == 0 {
                    send_app(0)
                } else {
                    send(41, op_cond_argument(), false, false)
                },
        ),
    decreases rounds.len(),
{
    let n = rounds.len() as int;
    let asks = Seq::new(
        rounds.len(),
        |i: int|
            if i % 2 == 0 {
                send_app(0)
            } else {
                send(41, op_cond_argument(), false, false)
            },
    );
    if n == 0 {
        law_run_starts(op, rounds);
        assert(rounds.take(0) =~= rounds);
        assert(trace(op, rounds) =~= asks);
    } else {
        let fewer = rounds.take(n - 2);
        assert(busy_rounds(fewer)) by {
            assert forall|i: int| 0 <= i < fewer.len() implies (#[trigger] fewer[i] matches Reply::Word(
                ocr,
            ) && (i % 2 == 1 ==> ocr_busy(ocr))) by {
                assert(fewer[i] == rounds[i]);
            }
        }
        law_busy_card_is_asked_again(op, fewer);
        assert(rounds[n - 2] is Word);
        assert(rounds[n - 1] is Word && ocr_busy(rounds[n - 1]->Word_0));
        law_run_goes_on(op, rounds, n - 2, op);
        law_run_goes_on(op, rounds, n - 1, SdAcquire { stage: SdStage::OpCond, ..op });
        assert(rounds.take(n) =~= rounds);
        assert(trace(op, rounds) =~= asks);
    }
}

/// A card that echoes the pattern and accepts the voltage is asked to power up.
pub proof fn law_voltage_is_checked(op: SdAcquire, replies: Seq<Reply>)
    requires
        op.stage is InitIdle,
        replies.len() == 3,
        replies[0] is Done,
        replies[1] is Word,
        replies[2] matches Reply::Word(cic) && cic % 0x100 == 0xAA && (cic / 0x100) % 2 == 1,
    ensures
        run(op, replies) == op.to(op.info, SdStage::AnnounceOpCond),
        trace(op, replies) == seq![
            Action::InitIdle,
            send(8, ((1u8 & 0xF) as u32) << 8u32 | 0xAAu8 as u32, true, false),
            Action::ReadResponse,
        ],
{
    law_run_starts(op, replies);
    law_run_goes_on(op, replies, 0, op);
    law_run_goes_on(op, replies, 1, SdAcquire { stage: SdStage::SendIfCond, ..op });
    law_run_goes_on(op, replies, 2, SdAcquire { stage: SdStage::ReadIfCond, ..op });
    assert(replies.take(3) =~= replies);
    assert(trace(op, replies) =~= seq![
        Action::InitIdle,
        send(8, ((1u8 & 0xF) as u32) << 8u32 | 0xAAu8 as u32, true, false),
        Action::ReadResponse,
    ]);
}

/// The replies of a card that has powered up, and that answers everything up to the SD
/// status: 2 for the operating condition, 4 for identification, address, card specific
/// data and selection, 5 for the configuration register, 3 for bus width and clock, and 6
/// for the SD status.
pub open spec fn describes(replies: Seq<Reply>) -> bool {
    &&& replies.len() == 20
    &&& replies[0] is Word
    &&& replies[1] matches Reply::Word(ocr) && !ocr_busy(ocr)
    &&& replies[2] is Register
    &&& replies[3] is Word
    &&& replies[4] is Register
    &&& replies[5] is Done
    &&& replies[6] is Word
    &&& replies[7] is Word
    &&& replies[8] is Done
    &&& replies[9] is Word
    &&& replies[10] is CmdData
    &&& replies[11] is Word
    &&& replies[12] is Word
    &&& replies[13] is Done
    &&& answers_status(replies.skip(14))
}

/// The replies to a read of the SD status.
pub open spec fn answers_status(replies: Seq<Reply>) -> bool {
    &&& replies.len() == 6
    &&& replies[0] is Word
    &&& replies[1] is Word
    &&& replies[2] is Done
    &&& replies[3] is Word
    &&& replies[4] is CmdData
    &&& replies[5] is Done
}

/// What a card says of itself with these replies.
pub open spec fn described(info: Card, replies: Seq<Reply>) -> Card {
    let ocr = replies[1]->Word_0;
    Card {
        card_type: sd_capacity(ocr),
        ocr,
        rca: (replies[3]->Word_0 / 0x1_0000) as u16,
        cid: replies[2]->Register_0,
        csd: replies[4]->Register_0,
        scr: scr_value(replies[10]->CmdData_0),
        status: (replies[18]->CmdData_0).be_words().0,
        power_ext: info.power_ext,
    }
}

/// What is asked of a card that has powered up.
pub open spec fn description_actions(op: SdAcquire, info: Card) -> Seq<Action> {
    let width = chosen_width(op.width, info.scr);
    seq![
        send_app(0),
        send(41, op_cond_argument(), false, false),
        Action::GetCid,
        send(3, 0, true, false),
        Action::GetCsd { address: info.rca },
        Action::SelectCard { address: info.rca },
        send(16, 8, true, false),
        send_app(info.rca),
        Action::PrepareRead { buffer: Buffer::Command, block_size: 8 },
        send(51, 0, true, true),
        Action::CompleteRead { buffer: Buffer::Command, single: true },
        send_app(info.rca),
        send(6, width_argument(width), true, false),
        Action::SetClock { freq: default_clock(op.freq), width },
        send(16, 64, true, false),
        send_app(info.rca),
        Action::PrepareRead { buffer: Buffer::Command, block_size: 64 },
        send(13, 0, true, true),
        Action::CompleteRead { buffer: Buffer::Command, single: true },
        Action::StoreCmdBlock(CmdBlock(info.status)),
    ]
}

/// The first six answers give operating condition, identification, address and card
/// specific data.
proof fn lemma_card_is_identified(op: SdAcquire, replies: Seq<Reply>)
    requires
        op.stage is AnnounceOpCond,
        replies.len() == 6,
        replies[0] is Word,
        replies[1] matches Reply::Word(ocr) && !ocr_busy(ocr),
        replies[2] is Register,
        replies[3] is Word,
        replies[4] is Register,
        replies[5] is Done,
    ensures
        ({
            let ocr = replies[1]->Word_0;
            let rca = (replies[3]->Word_0 / 0x1_0000) as u16;
            let info = Card {
                card_type: sd_capacity(ocr),
                ocr,
                rca,
                cid: replies[2]->Register_0,
                csd: replies[4]->Register_0,
                ..op.info
            };
            &&& run(op, replies) == op.to(info, SdStage::Scr(scr_at(rca)))
            &&& trace(op, replies) == seq![
                send_app(0),
                send(41, op_cond_argument(), false, false),
                Action::GetCid,
                send(3, 0, true, false),
                Action::GetCsd { address: rca },
                Action::SelectCard { address: rca },
            ]
        }),
{
    let rca = (replies[3]->Word_0 / 0x1_0000) as u16;
    let ocr = replies[1]->Word_0;
    let i2 = with_ocr(op.info, ocr);
    let i3 = Card { cid: replies[2]->Register_0, ..i2 };
    let i4 = Card { rca, ..i3 };
    let i5 = Card { csd: replies[4]->Register_0, ..i4 };
    let s1 = SdAcquire { stage: SdStage::OpCond, ..op };
    let s2 = SdAcquire { info: i2, stage: SdStage::Cid, ..op };
    let s3 = SdAcquire { info: i3, stage: SdStage::RelativeAddress, ..op };
    let s4 = SdAcquire { info: i4, stage: SdStage::Csd, ..op };
    let s5 = SdAcquire { info: i5, stage: SdStage::Select, ..op };
    let s6 = SdAcquire { info: i5, stage: SdStage::Scr(scr_at(rca)), ..op };
    assert(op.after(replies[0]) == op.to(s1.info, s1.stage));
    assert(s1.after(replies[1]) == op.to(s2.info, s2.stage));
    assert(s2.after(replies[2]) == op.to(s3.info, s3.stage));
    assert(s3.after(replies[3]) == op.to(s4.info, s4.stage));
    assert(s4.after(replies[4]) == op.to(s5.info, s5.stage));
    assert(s5.after(replies[5]) == op.to(s6.info, s6.stage));
    law_run_follows(seq![op, s1, s2, s3, s4, s5, s6], replies);
    assert(trace(op, replies) =~= seq![
        send_app(0),
        send(41, op_cond_argument(), false, false),
        Action::GetCid,
        send(3, 0, true, false),
        Action::GetCsd { address: rca },
        Action::SelectCard { address: rca },
    ]);
}

/// A read of the configuration register that has come to action `next`.
spec fn scr_step(rca: u16, next: usize) -> GetScr {
    GetScr { read: Sequence { script: ScrScript { rca }, next } }
}

/// A read of the SD status that has come to action `next`.
spec fn status_step(rca: u16, next: usize) -> ReadSdStatus {
    ReadSdStatus::Read(Sequence { script: StatusScript { rca }, next })
}

/// What is asked for the configuration register.
pub open spec fn scr_actions(rca: u16) -> Seq<Action> {
    seq![
        send(16, 8, true, false),
        send_app(rca),
        Action::PrepareRead { buffer: Buffer::Command, block_size: 8 },
        send(51, 0, true, true),
        Action::CompleteRead { buffer: Buffer::Command, single: true },
    ]
}

/// The replies to a read of the configuration register take it from each of its actions to
/// the next.
proof fn lemma_scr_steps(rca: u16, replies: Seq<Reply>)
    requires
        replies.len() == 5,
        replies[0] is Word,
        replies[1] is Word,
        replies[2] is Done,
        replies[3] is Word,
        replies[4] is CmdData,
    ensures
        forall|k: usize|
            k < 4 ==> step(#[trigger] scr_step(rca, k), replies[k as int]) == Progress::<
                GetScr,
                u64,
            >::Pending(scr_step(rca, (k + 1) as usize)),
        step(scr_step(rca, 4), replies[4]) == Progress::<GetScr, u64>::Finished(
            Ok(scr_value(replies[4]->CmdData_0)),
        ),
        forall|k: usize|
            k < 5 ==> (#[trigger] scr_step(rca, k)).pending() == scr_actions(rca)[k as int],
{
    reveal(step);
    assert forall|k: usize| k < 5 implies (#[trigger] scr_step(rca, k)).pending() == scr_actions(
        rca,
    )[k as int] by {
        assert(k == 0 || k == 1 || k == 2 || k == 3 || k == 4);
    }
    assert forall|k: usize| k < 4 implies step(#[trigger] scr_step(rca, k), replies[k as int])
        == Progress::<GetScr, u64>::Pending(scr_step(rca, (k + 1) as usize)) by {
        assert(k == 0 || k == 1 || k == 2 || k == 3);
    }
}

/// The next five answers give the configuration register.
proof fn lemma_card_is_configured(op: SdAcquire, replies: Seq<Reply>)
    requires
        op.stage == SdStage::Scr(scr_at(op.info.rca)),
        replies.len() == 5,
        replies[0] is Word,
        replies[1] is Word,
        replies[2] is Done,
        replies[3] is Word,
        replies[4] is CmdData,
    ensures
        run(op, replies) == op.to(
            Card { scr: scr_value(replies[4]->CmdData_0), ..op.info },
            SdStage::AnnounceWidth,
        ),
        trace(op, replies) == scr_actions(op.info.rca),
{
    let rca = op.info.rca;
    lemma_scr_steps(rca, replies);
    assert(op.stage == SdStage::Scr(scr_step(rca, 0)));
    let info = Card { scr: scr_value(replies[4]->CmdData_0), ..op.info };
    let s1 = SdAcquire { stage: SdStage::Scr(scr_step(rca, 1)), ..op };
    let s2 = SdAcquire { stage: SdStage::Scr(scr_step(rca, 2)), ..op };
    let s3 = SdAcquire { stage: SdStage::Scr(scr_step(rca, 3)), ..op };
    let s4 = SdAcquire { stage: SdStage::Scr(scr_step(rca, 4)), ..op };
    let s5 = SdAcquire { info, stage: SdStage::AnnounceWidth, ..op };
    assert(op.after(replies[0]) == op.to(s1.info, s1.stage));
    assert(s1.after(replies[1]) == op.to(s2.info, s2.stage));
    assert(s2.after(replies[2]) == op.to(s3.info, s3.stage));
    assert(s3.after(replies[3]) == op.to(s4.info, s4.stage));
    assert(s4.after(replies[4]) == op.to(s5.info, s5.stage));
    law_run_follows(seq![op, s1, s2, s3, s4, s5], replies);
    assert(trace(op, replies) =~= scr_actions(rca));
}

/// The next three answers settle bus width and clock.
proof fn lemma_bus_is_set(op: SdAcquire, replies: Seq<Reply>)
    requires
        op.stage is AnnounceWidth,
        replies.len() == 3,
        replies[0] is Word,
        replies[1] is Word,
        replies[2] is Done,
    ensures
        run(op, replies) == op.to(op.info, SdStage::Status(sd_status_at(op.info.rca))),
        trace(op, replies) == seq![
            send_app(op.info.rca),
            send(6, width_argument(chosen_width(op.width, op.info.scr)), true, false),
            Action::SetClock {
                freq: default_clock(op.freq),
                width: chosen_width(op.width, op.info.scr),
            },
        ],
{
    let s1 = SdAcquire { stage: SdStage::Width, ..op };
    let s2 = SdAcquire { stage: SdStage::Clock, ..op };
    let s3 = SdAcquire { stage: SdStage::Status(sd_status_at(op.info.rca)), ..op };
    assert(op.after(replies[0]) == op.to(s1.info, s1.stage));
    assert(s1.after(replies[1]) == op.to(s2.info, s2.stage));
    assert(s2.after(replies[2]) == op.to(s3.info, s3.stage));
    law_run_follows(seq![op, s1, s2, s3], replies);
    assert(trace(op, replies) =~= seq![
        send_app(op.info.rca),
        send(6, width_argument(chosen_width(op.width, op.info.scr)), true, false),
        Action::SetClock {
            freq: default_clock(op.freq),
            width: chosen_width(op.width, op.info.scr),
        },
    ]);
}

/// What is asked for the SD status.
pub open spec fn status_actions(rca: u16, status: CmdBlock) -> Seq<Action> {
    seq![
        send(16, 64, true, false),
        send_app(rca),
        Action::PrepareRead { buffer: Buffer::Command, block_size: 64 },
        send(13, 0, true, true),
        Action::CompleteRead { buffer: Buffer::Command, single: true },
        Action::StoreCmdBlock(status.be_words()),
    ]
}

/// The replies to a read of the SD status take it from each of its actions to the next.
proof fn lemma_status_steps(rca: u16, replies: Seq<Reply>)
    requires
        answers_status(replies),
    ensures
        ({
            let words = (replies[4]->CmdData_0).be_words();
            &&& forall|k: usize|
                k < 4 ==> step(#[trigger] status_step(rca, k), replies[k as int]) == Progress::<
                    ReadSdStatus,
                    [u32; 16],
                >::Pending(status_step(rca, (k + 1) as usize))
            &&& step(status_step(rca, 4), replies[4]) == Progress::<
                ReadSdStatus,
                [u32; 16],
            >::Pending(ReadSdStatus::Store(words))
            &&& step(ReadSdStatus::Store(words), replies[5]) == Progress::<
                ReadSdStatus,
                [u32; 16],
            >::Finished(Ok(words.0))
            &&& forall|k: usize|
                k < 5 ==> (#[trigger] status_step(rca, k)).pending() == status_actions(
                    rca,
                    replies[4]->CmdData_0,
                )[k as int]
        }),
{
    lemma_status_is_asked_for(rca, replies[4]->CmdData_0);
    lemma_status_is_stored((replies[4]->CmdData_0).be_words(), replies[5]);
    lemma_status_is_turned(rca, replies[4]);
    assert forall|k: usize| k < 4 implies step(#[trigger] status_step(rca, k), replies[k as int])
        == Progress::<ReadSdStatus, [u32; 16]>::Pending(status_step(rca, (k + 1) as usize)) by {
        assert(k == 0 || k == 1 || k == 2 || k == 3);
        lemma_status_goes_on(rca, k, replies[k as int]);
    }
}

proof fn lemma_status_is_asked_for(rca: u16, status: CmdBlock)
    ensures
        forall|k: usize|
            k < 5 ==> (#[trigger] status_step(rca, k)).pending() == status_actions(
                rca,
                status,
            )[k as int],
{
    assert forall|k: usize| k < 5 implies (#[trigger] status_step(rca, k)).pending()
        == status_actions(rca, status)[k as int] by {
        assert(k == 0 || k == 1 || k == 2 || k == 3 || k == 4);
    }
}

proof fn lemma_status_goes_on(rca: u16, k: usize, reply: Reply)
    requires
        k < 4,
        !(reply is Failed),
    ensures
        step(status_step(rca, k), reply) == Progress::<ReadSdStatus, [u32; 16]>::Pending(
            status_step(rca, (k + 1) as usize),
        ),
{
    reveal(step);
}

proof fn lemma_status_is_turned(rca: u16, reply: Reply)
    requires
        reply is CmdData,
    ensures
        step(status_step(rca, 4), reply) == Progress::<ReadSdStatus, [u32; 16]>::Pending(
            ReadSdStatus::Store((reply->CmdData_0).be_words()),
        ),
{
    reveal(step);
}

proof fn lemma_status_is_stored(words: CmdBlock, reply: Reply)
    ensures
        step(ReadSdStatus::Store(words), reply) == Progress::<ReadSdStatus, [u32; 16]>::Finished(
            Ok(words.0),
        ),
{
    reveal(step);
}

/// What follows the first read of the SD status.
pub open spec fn after_status(op: SdAcquire, info: Card) -> Progress<
    SdAcquire,
    StorageDevice<Card>,
> {
    if op.freq.0 > 25_000_000 {
        op.to(info, SdStage::Switch(switch_to(Signalling::SDR25)))
    } else {
        SdAcquire::finish(op.version, op.width, op.freq, info)
    }
}

/// The first or the second read of the SD status, as a stage of the bring-up.
spec fn status_stage(again: bool, read: ReadSdStatus) -> SdStage {
    if again {
        SdStage::StatusAgain(read)
    } else {
        SdStage::Status(read)
    }
}

/// Six answers take the bring-up through either read of the SD status.
#[verifier::rlimit(40)]
#[verifier::spinoff_prover]
proof fn lemma_status_is_read(op: SdAcquire, again: bool, replies: Seq<Reply>)
    requires
        op.stage == status_stage(again, sd_status_at(op.info.rca)),
        answers_status(replies),
    ensures
        run(op, replies) == if again {
            SdAcquire::finish(op.version, op.width, op.freq, op.info)
        } else {
            after_status(op, Card { status: (replies[4]->CmdData_0).be_words().0, ..op.info })
        },
        trace(op, replies) == status_actions(op.info.rca, replies[4]->CmdData_0),
{
    let rca = op.info.rca;
    lemma_status_steps(rca, replies);
    let words = (replies[4]->CmdData_0).be_words();
    assert(op.stage == status_stage(again, status_step(rca, 0)));
    let s1 = SdAcquire { stage: status_stage(again, status_step(rca, 1)), ..op };
    let s2 = SdAcquire { stage: status_stage(again, status_step(rca, 2)), ..op };
    let s3 = SdAcquire { stage: status_stage(again, status_step(rca, 3)), ..op };
    let s4 = SdAcquire { stage: status_stage(again, status_step(rca, 4)), ..op };
    let s5 = SdAcquire { stage: status_stage(again, ReadSdStatus::Store(words)), ..op };
    assert(op.after(replies[0]) == op.to(s1.info, s1.stage));
    assert(s1.after(replies[1]) == op.to(s2.info, s2.stage));
    assert(s2.after(replies[2]) == op.to(s3.info, s3.stage));
    assert(s3.after(replies[3]) == op.to(s4.info, s4.stage));
    assert(s4.after(replies[4]) == op.to(s5.info, s5.stage));
    law_run_follows(seq![op, s1, s2, s3, s4, s5], replies.take(5));
    law_run_goes_on(op, replies, 5, s5);
    assert(replies.take(6) =~= replies);
    assert(trace(op, replies) =~= status_actions(op.info.rca, replies[4]->CmdData_0));
}

/// Six answers give the SD status. What follows is the end, or the extension registers,
/// or for a fast clock the switch to SDR25.
pub proof fn law_status_is_read(op: SdAcquire, replies: Seq<Reply>)
    requires
        op.stage == SdStage::Status(sd_status_at(op.info.rca)),
        answers_status(replies),
    ensures
        run(op, replies) == after_status(
            op,
            Card { status: (replies[4]->CmdData_0).be_words().0, ..op.info },
        ),
        trace(op, replies) == status_actions(op.info.rca, replies[4]->CmdData_0),
{
    lemma_status_is_read(op, false, replies);
}

/// A card that answers everything is described by its answers, and is asked exactly this.
pub proof fn law_card_is_described(op: SdAcquire, replies: Seq<Reply>)
    requires
        op.stage is AnnounceOpCond,
        describes(replies),
    ensures
        run(op, replies) == after_status(op, described(op.info, replies)),
        trace(op, replies) == description_actions(op, described(op.info, replies)),
{
    let info = described(op.info, replies);
    let first = replies.take(6);
    let second = replies.subrange(6, 11);
    let third = replies.subrange(11, 14);
    let fourth = replies.skip(14);
    lemma_card_is_identified(op, first);
    let op2 = run(op, first)->Pending_0;
    lemma_card_is_configured(op2, second);
    let op3 = run(op2, second)->Pending_0;
    lemma_bus_is_set(op3, third);
    let op4 = run(op3, third)->Pending_0;
    law_status_is_read(op4, fourth);
    law_run_in_parts(op3, third, fourth);
    law_run_in_parts(op2, second, third + fourth);
    law_run_in_parts(op, first, second + (third + fourth));
    assert(replies =~= first + (second + (third + fourth)));
    assert(fourth[4] == replies[18]);
    assert(op4.info == (Card { status: op.info.status, ..info }));
    assert(trace(op, replies) =~= description_actions(op, info));
}

/// The switch to SDR25 is requested with CMD6, the card gets time to change over, and its
/// choice decides: SDR25 leads to the final clock, another known mode leaves the clock as
/// it is.
pub proof fn law_switch_is_requested(op: SdAcquire, replies: Seq<Reply>)
    requires
        op.stage == SdStage::Switch(switch_to(Signalling::SDR25)),
        replies.len() == 4,
        replies[0] is Done,
        replies[1] is Word,
        replies[2] is CmdData,
        replies[3] is Done,
    ensures
        run(op, replies) == (match selected_mode(replies[2]->CmdData_0) {
            Ok(Signalling::SDR25) => op.to(op.info, SdStage::FastClock),
            Ok(_) => op.to(op.info, SdStage::StatusAgain(sd_status_at(op.info.rca))),
            Err(e) => Progress::Finished(Err(e)),
        }),
        trace(op, replies) == seq![
            Action::PrepareRead { buffer: Buffer::Command, block_size: 64 },
            send(6, switch_argument(Signalling::SDR25), true, true),
            Action::CompleteRead { buffer: Buffer::Command, single: true },
            Action::Delay { nops: 300 },
        ],
{
    reveal(step);
    law_run_starts(op, replies);
    let request = SwitchScript { signalling: Signalling::SDR25 };
    let s1 = SwitchSignalling::Request(Sequence { script: request, next: 1 });
    let s2 = SwitchSignalling::Request(Sequence { script: request, next: 2 });
    let s3 = SwitchSignalling::Settle(replies[2]->CmdData_0);
    law_run_goes_on(op, replies, 0, op);
    law_run_goes_on(op, replies, 1, SdAcquire { stage: SdStage::Switch(s1), ..op });
    law_run_goes_on(op, replies, 2, SdAcquire { stage: SdStage::Switch(s2), ..op });
    law_run_goes_on(op, replies, 3, SdAcquire { stage: SdStage::Switch(s3), ..op });
    assert(replies.take(4) =~= replies);
    assert(trace(op, replies) =~= seq![
        Action::PrepareRead { buffer: Buffer::Command, block_size: 64 },
        send(6, switch_argument(Signalling::SDR25), true, true),
        Action::CompleteRead { buffer: Buffer::Command, single: true },
        Action::Delay { nops: 300 },
    ]);
}

/// The second read of the SD status changes nothing in what is known of the card.
pub proof fn law_status_is_read_again(op: SdAcquire, replies: Seq<Reply>)
    requires
        op.stage == SdStage::StatusAgain(sd_status_at(op.info.rca)),
        answers_status(replies),
    ensures
        run(op, replies) == SdAcquire::finish(op.version, op.width, op.freq, op.info),
        trace(op, replies) == status_actions(op.info.rca, replies[4]->CmdData_0),
{
    lemma_status_is_read(op, true, replies);
}

/// A card that has switched to SDR25 is clocked at the requested frequency, and is done
/// once it is in the transfer state and has given its SD status again.
pub proof fn law_card_runs_fast(op: SdAcquire, replies: Seq<Reply>)
    requires
        op.stage is FastClock,
        replies.len() == 8,
        replies[0] is Done,
        replies[1] matches Reply::Word(status) && state_of_code((status / 0x200) % 0x10) is Transfer,
        answers_status(replies.skip(2)),
    ensures
        run(op, replies) == SdAcquire::finish(op.version, op.width, op.freq, op.info),
        trace(op, replies) == seq![
            Action::SetClock { freq: op.freq, width: chosen_width(op.width, op.info.scr) },
            Action::ReadStatus { address: op.info.rca },
        ] + status_actions(op.info.rca, replies[6]->CmdData_0),
{
    let first = replies.take(2);
    let second = replies.skip(2);
    law_run_starts(op, first);
    law_run_goes_on(op, first, 0, op);
    law_run_goes_on(op, first, 1, SdAcquire { stage: SdStage::FastStatus, ..op });
    assert(first.take(2) =~= first);
    let op2 = run(op, first)->Pending_0;
    law_status_is_read_again(op2, second);
    law_run_in_parts(op, first, second);
    assert(replies =~= first + second);
    assert(trace(op, first) =~= seq![
        Action::SetClock { freq: op.freq, width: chosen_width(op.width, op.info.scr) },
        Action::ReadStatus { address: op.info.rca },
    ]);
    assert(trace(op, replies) =~= trace(op, first) + trace(op2, second));
}

/// A card that accepts the voltage.
pub open spec fn accepts_voltage(replies: Seq<Reply>) -> bool {
    &&& replies.len() == 3
    &&& replies[0] is Done
    &&& replies[1] is Word
    &&& replies[2] matches Reply::Word(cic) && cic % 0x100 == 0xAA && (cic / 0x100) % 2 == 1
}

/// What is asked for the switch to SDR25.
pub open spec fn switch_actions() -> Seq<Action> {
    seq![
        Action::PrepareRead { buffer: Buffer::Command, block_size: 64 },
        send(6, 0x80FF_FF01, true, true),
        Action::CompleteRead { buffer: Buffer::Command, single: true },
        Action::Delay { nops: 300 },
    ]
}

/// What is asked of a card that is not known yet: the supply range with a pattern, then the
/// operating condition for as many rounds as the card is busy.
pub open spec fn opening_actions(rounds: nat) -> Seq<Action> {
    seq![Action::InitIdle, send(8, 0x1AA, true, false), Action::ReadResponse] + Seq::new(
        rounds,
        |i: int|
            if i % 2 == 0 {
                send(55, 0, true, false)
            } else {
                send(41, 0x4110_0000, false, false)
            },
    )
}

/// The replies to a read of the General Information section.
pub open spec fn section_replies(status: u32, section: DataBlock) -> Seq<Reply> {
    seq![Reply::Done, Reply::Word(status), Reply::BlockData(section)]
}

/// How a bring-up goes on after the replies that told it of `info`. If bit 34 of the
/// configuration register is clear, it has ended with the card. If the bit is set, it goes on to
/// read the General Information section with CMD48: function 0, page 0, offset 0.
pub open spec fn ends_as_told(op: SdAcquire, replies: Seq<Reply>, info: Card) -> bool {
    if (info.scr / 0x4_0000_0000) % 2 == 0 {
        run(op, replies) == Progress::<SdAcquire, StorageDevice<Card>>::Finished(
            Ok(StorageDevice { info, version: op.version }),
        )
    } else {
        &&& run(op, replies) is Pending
        &&& forall|status: u32, section: DataBlock|
            trace(op, replies + #[trigger] section_replies(status, section)) == trace(op, replies) + seq![
                Action::PrepareRead { buffer: Buffer::Block, block_size: 512 },
                send(48, 511, true, true),
                Action::CompleteRead { buffer: Buffer::Block, single: true },
            ]
    }
}

/// A bring-up that has read its last SD status goes on as its configuration register tells.
proof fn lemma_ends_as_told(op: SdAcquire, replies: Seq<Reply>, info: Card)
    requires
        run(op, replies) == SdAcquire::finish(op.version, op.width, op.freq, info),
    ensures
        ends_as_told(op, replies, info),
{
    law_configuration(info.scr);
    if (info.scr / 0x4_0000_0000) % 2 == 1 {
        let next = run(op, replies)->Pending_0;
        assert forall|status: u32, section: DataBlock|
            trace(op, replies + #[trigger] section_replies(status, section)) == trace(op, replies) + seq![
                Action::PrepareRead { buffer: Buffer::Block, block_size: 512 },
                send(48, 511, true, true),
                Action::CompleteRead { buffer: Buffer::Block, single: true },
            ] by {
            let more = section_replies(status, section);
            lemma_section_is_asked_for(next, more);
            law_run_in_parts(op, replies, more);
        }
    }
}

proof fn lemma_section_is_asked_for(op: SdAcquire, replies: Seq<Reply>)
    requires
        op.stage matches SdStage::Extensions(search) && search.stage == ExtStage::Information(
            read_at(0, 0, 0),
        ),
        replies.len() == 3,
        replies[0] is Done,
        replies[1] is Word,
        replies[2] is BlockData,
    ensures
        trace(op, replies) == seq![
            Action::PrepareRead { buffer: Buffer::Block, block_size: 512 },
            send(48, 511, true, true),
            Action::CompleteRead { buffer: Buffer::Block, single: true },
        ],
{
    reveal(step);
    let search = op.stage->Extensions_0;
    let read = read_at(0, 0, 0);
    let s1 = ReadExtRegisters {
        stage: ExtStage::Information(Sequence { next: 1, ..read }),
        ..search
    };
    let s2 = ReadExtRegisters {
        stage: ExtStage::Information(Sequence { next: 2, ..read }),
        ..search
    };
    law_argument_fields(0, 0, 0);
    law_run_starts(op, replies);
    law_run_goes_on(op, replies, 0, op);
    law_run_goes_on(op, replies, 1, SdAcquire { stage: SdStage::Extensions(s1), ..op });
    law_run_goes_on(op, replies, 2, SdAcquire { stage: SdStage::Extensions(s2), ..op });
    assert(replies.take(3) =~= replies);
    assert(trace(op, replies) =~= seq![
        Action::PrepareRead { buffer: Buffer::Block, block_size: 512 },
        send(48, 511, true, true),
        Action::CompleteRead { buffer: Buffer::Block, single: true },
    ]);
}

/// The first actions of every bring-up.
proof fn lemma_opening(op: SdAcquire, voltage: Seq<Reply>, rounds: Seq<Reply>)
    requires
        op.stage is InitIdle,
        accepts_voltage(voltage),
        busy_rounds(rounds),
    ensures
        run(op, voltage + rounds) == op.to(op.info, SdStage::AnnounceOpCond),
        trace(op, voltage + rounds) == opening_actions(rounds.len()),
{
    law_voltage_is_checked(op, voltage);
    let op2 = run(op, voltage)->Pending_0;
    law_busy_card_is_asked_again(op2, rounds);
    law_run_in_parts(op, voltage, rounds);
    law_op_cond_argument();
    law_announcement(0);
    assert(((1u8 & 0xF) as u32) << 8u32 | 0xAAu8 as u32 == 0x1AA) by (bit_vector);
    assert(trace(op, voltage + rounds) =~= opening_actions(rounds.len()));
}

/// Bringing up a card at a clock of up to 25 MHz: whatever the number of times that it is
/// busy, a card that accepts the voltage and answers everything ends up as a device that
/// is described by its answers, once its extension registers have been read if bit 34 of its
/// configuration register is set.
pub proof fn law_card_comes_up(
    op: SdAcquire,
    voltage: Seq<Reply>,
    rounds: Seq<Reply>,
    answers: Seq<Reply>,
)
    requires
        op.stage is InitIdle,
        op.freq.0 <= 25_000_000,
        accepts_voltage(voltage),
        busy_rounds(rounds),
        describes(answers),
    ensures
        run(op, voltage + (rounds + answers)) == SdAcquire::finish(
            op.version,
            op.width,
            op.freq,
            described(op.info, answers),
        ),
        trace(op, voltage + (rounds + answers)) == opening_actions(rounds.len())
            + description_actions(op, described(op.info, answers)),
        ends_as_told(op, voltage + (rounds + answers), described(op.info, answers)),
{
    lemma_opening(op, voltage, rounds);
    let op2 = run(op, voltage + rounds)->Pending_0;
    law_card_is_described(op2, answers);
    law_run_in_parts(op, voltage + rounds, answers);
    assert((voltage + rounds) + answers =~= voltage + (rounds + answers));
    lemma_ends_as_told(op, voltage + (rounds + answers), described(op.info, answers));
}

/// Bringing up a card at a clock of over 25 MHz: a card that also switches to SDR25 and
/// stays in the transfer state ends up in the same way, with its extension registers read if
/// bit 34 of its configuration register is set.
pub proof fn law_fast_card_comes_up(
    op: SdAcquire,
    voltage: Seq<Reply>,
    rounds: Seq<Reply>,
    answers: Seq<Reply>,
    switch: Seq<Reply>,
    fast: Seq<Reply>,
)
    requires
        op.stage is InitIdle,
        op.freq.0 > 25_000_000,
        accepts_voltage(voltage),
        busy_rounds(rounds),
        describes(answers),
        switch.len() == 4,
        switch[0] is Done,
        switch[1] is Word,
        switch[2] matches Reply::CmdData(status) && selected_mode(status)
            == Ok::<Signalling, Error>(Signalling::SDR25),
        switch[3] is Done,
        fast.len() == 8,
        fast[0] is Done,
        fast[1] matches Reply::Word(status) && state_of_code((status / 0x200) % 0x10) is Transfer,
        answers_status(fast.skip(2)),
    ensures
        run(op, voltage + (rounds + (answers + (switch + fast)))) == SdAcquire::finish(
            op.version,
            op.width,
            op.freq,
            described(op.info, answers),
        ),
        ({
            let info = described(op.info, answers);
            trace(op, voltage + (rounds + (answers + (switch + fast)))) == opening_actions(
                rounds.len(),
            ) + (description_actions(op, info) + (switch_actions() + (seq![
                Action::SetClock { freq: op.freq, width: chosen_width(op.width, info.scr) },
                Action::ReadStatus { address: info.rca },
            ] + status_actions(info.rca, fast[6]->CmdData_0))))
        }),
        ends_as_told(
            op,
            voltage + (rounds + (answers + (switch + fast))),
            described(op.info, answers),
        ),
{
    let info = described(op.info, answers);
    let all = voltage + (rounds + (answers + (switch + fast)));
    lemma_opening(op, voltage, rounds);
    let op2 = run(op, voltage + rounds)->Pending_0;
    law_card_is_described(op2, answers);
    let op3 = run(op2, answers)->Pending_0;
    law_switch_is_requested(op3, switch);
    let op4 = run(op3, switch)->Pending_0;
    law_card_runs_fast(op4, fast);
    law_run_in_parts(op3, switch, fast);
    law_run_in_parts(op2, answers, switch + fast);
    law_run_in_parts(op, voltage + rounds, answers + (switch + fast));
    assert((voltage + rounds) + (answers + (switch + fast)) =~= all);
    lemma_ends_as_told(op, all, info);
}

/// Bringing up a card at a clock of over 25 MHz: a card that reports another known mode as its
/// choice keeps the clock that it has, and ends up in the same way once it has given its SD
/// status again.
pub proof fn law_unswitched_card_comes_up(
    op: SdAcquire,
    voltage: Seq<Reply>,
    rounds: Seq<Reply>,
    answers: Seq<Reply>,
    switch: Seq<Reply>,
    again: Seq<Reply>,
)
    requires
        op.stage is InitIdle,
        op.freq.0 > 25_000_000,
        accepts_voltage(voltage),
        busy_rounds(rounds),
        describes(answers),
        switch.len() == 4,
        switch[0] is Done,
        switch[1] is Word,
        switch[2] matches Reply::CmdData(status) && (selected_mode(status) matches Ok(mode)
            && !(mode is SDR25)),
        switch[3] is Done,
        answers_status(again),
    ensures
        run(op, voltage + (rounds + (answers + (switch + again)))) == SdAcquire::finish(
            op.version,
            op.width,
            op.freq,
            described(op.info, answers),
        ),
        ({
            let info = described(op.info, answers);
            let begun = run(op, voltage + (rounds + answers));
            begun matches Progress::Pending(now) && trace(now, switch + again) == seq![
                Action::PrepareRead { buffer: Buffer::Command, block_size: 64 },
                send(6, switch_argument(Signalling::SDR25), true, true),
                Action::CompleteRead { buffer: Buffer::Command, single: true },
                Action::Delay { nops: 300 },
            ] + status_actions(info.rca, again[4]->CmdData_0)
        }),
        ({
            let info = described(op.info, answers);
            trace(op, voltage + (rounds + (answers + (switch + again)))) == opening_actions(
                rounds.len(),
            ) + (description_actions(op, info) + (switch_actions() + status_actions(
                info.rca,
                again[4]->CmdData_0,
            )))
        }),
        ends_as_told(
            op,
            voltage + (rounds + (answers + (switch + again))),
            described(op.info, answers),
        ),
{
    let all = voltage + (rounds + (answers + (switch + again)));
    lemma_opening(op, voltage, rounds);
    let op2 = run(op, voltage + rounds)->Pending_0;
    law_card_is_described(op2, answers);
    let op3 = run(op2, answers)->Pending_0;
    law_switch_is_requested(op3, switch);
    let op4 = run(op3, switch)->Pending_0;
    law_status_is_read_again(op4, again);
    law_run_in_parts(op3, switch, again);
    law_run_in_parts(op2, answers, switch + again);
    law_run_in_parts(op, voltage + rounds, answers + (switch + again));
    law_run_in_parts(op, voltage + rounds, answers);
    assert((voltage + rounds) + answers =~= voltage + (rounds + answers));
    assert((voltage + rounds) + (answers + (switch + again)) =~= all);
    lemma_ends_as_told(op, all, described(op.info, answers));
}

/// The search for extension registers is the last thing that the bring-up does, and runs as
/// it does by itself; what it finds becomes part of what is known of the card.
pub proof fn law_extensions_run(op: SdAcquire, replies: Seq<Reply>)
    requires
        op.wf(),
        op.stage is Extensions,
        admitted(op, replies),
    ensures
        run(op, replies) == (match run(op.stage->Extensions_0, replies) {
            Progress::Pending(next) => op.to(op.info, SdStage::Extensions(next)),
            Progress::Finished(Ok(power_ext)) => Progress::Finished(
                Ok(
                    StorageDevice { info: Card { power_ext, ..op.info }, version: op.version },
                ),
            ),
            Progress::Finished(Err(e)) => Progress::Finished(Err(e)),
        }),
        trace(op, replies) == trace(op.stage->Extensions_0, replies),
    decreases replies.len(),
{
    reveal(run);
    reveal(trace);
    reveal(admitted);
    reveal(step);
    if replies.len() > 0 {
        op.lemma_after(replies[0]);
        op.stage->Extensions_0.lemma_after(replies[0]);
        match op.after(replies[0]) {
            Progress::Pending(next) => law_extensions_run(next, replies.drop_first()),
            Progress::Finished(_) => {},
        }
    }
}

/// The search for extension registers runs in the bring-up as it does by itself, as long as
/// no action fails.
proof fn lemma_extensions_succeed(op: SdAcquire, replies: Seq<Reply>)
    requires
        op.stage is Extensions,
        forall|i: int| 0 <= i < replies.len() ==> !(#[trigger] replies[i] is Failed),
        run(op.stage->Extensions_0, replies) matches Progress::Finished(Ok(_)),
    ensures
        run(op, replies) == Progress::<SdAcquire, StorageDevice<Card>>::Finished(
            Ok(
                StorageDevice {
                    info: Card {
                        power_ext: run(op.stage->Extensions_0, replies)->Finished_0->Ok_0,
                        ..op.info
                    },
                    version: op.version,
                },
            ),
        ),
    decreases replies.len(),
{
    reveal(run);
    reveal(step);
    if replies.len() > 0 {
        let search = op.stage->Extensions_0;
        let rest = replies.drop_first();
        assert(!(replies[0] is Failed));
        assert forall|i: int| 0 <= i < rest.len() implies !(#[trigger] rest[i] is Failed) by {
            assert(rest[i] == replies[i + 1]);
        }
        match search.after(replies[0]) {
            Progress::Pending(next) => lemma_extensions_succeed(
                SdAcquire { stage: SdStage::Extensions(next), ..op },
                rest,
            ),
            Progress::Finished(_) => {},
        }
    }
}

proof fn lemma_answers_succeed(section: DataBlock, path: Seq<int>, answers: Seq<Seq<Reply>>)
    requires
        path.len() == answers.len() + 1,
        forall|i: int|
            0 <= i < answers.len() ==> answers_entry(
                entry_at(section, path[i]),
                #[trigger] answers[i],
            ),
    ensures
        forall|i: int|
            0 <= i < answers.flatten().len() ==> !(#[trigger] answers.flatten()[i] is Failed),
    decreases answers.len(),
{
    if answers.len() > 0 {
        let rest = answers.drop_first();
        let rest_path = path.drop_first();
        assert(answers_entry(entry_at(section, path[0]), answers[0]));
        assert forall|i: int| 0 <= i < rest.len() implies answers_entry(
            entry_at(section, rest_path[i]),
            #[trigger] rest[i],
        ) by {
            assert(rest[i] == answers[i + 1]);
            assert(rest_path[i] == path[i + 1]);
        }
        lemma_answers_succeed(section, rest_path, rest);
        assert(answers.flatten() =~= answers[0] + rest.flatten());
        assert forall|i: int| 0 <= i < answers.flatten().len() implies !(
        #[trigger] answers.flatten()[i] is Failed) by {
            if i < answers[0].len() {
                assert(answers.flatten()[i] == answers[0][i]);
            } else {
                assert(answers.flatten()[i] == rest.flatten()[i - answers[0].len()]);
            }
        }
    }
}

/// A card with bit 34 of its configuration register set, whatever the requested clock, is
/// complete once its extension registers have been read: what its chain of entries says of
/// power management is added to what it told before, and nothing else changes.
pub proof fn law_extensions_complete_the_card(
    op: SdAcquire,
    replies: Seq<Reply>,
    info: Card,
    status: u32,
    section: DataBlock,
    path: Seq<int>,
    answers: Seq<Seq<Reply>>,
)
    requires
        run(op, replies) == SdAcquire::finish(op.version, op.width, op.freq, info),
        (info.scr / 0x4_0000_0000) % 2 == 1,
        is_chain(section, path, answers),
        path[0] == 16,
    ensures
        run(
            op,
            replies + (seq![Reply::Done, Reply::Word(status), Reply::BlockData(section)]
                + answers.flatten()),
        ) == Progress::<SdAcquire, StorageDevice<Card>>::Finished(
            Ok(
                StorageDevice {
                    info: Card {
                        power_ext: found_in_chain(
                            section,
                            path,
                            answers,
                            info.power_ext,
                            answers.len(),
                        ),
                        ..info
                    },
                    version: op.version,
                },
            ),
        ),
{
    let first = seq![Reply::Done, Reply::Word(status), Reply::BlockData(section)];
    let more = first + answers.flatten();
    law_configuration(info.scr);
    let next = run(op, replies)->Pending_0;
    law_extensions_are_found(next.stage->Extensions_0, section, status, path, answers);
    assert forall|i: int| 0 <= i < answers.len() implies answers_entry(
        entry_at(section, path[i]),
        #[trigger] answers[i],
    ) by {
        assert(0 <= path[i] <= 464);
    }
    lemma_answers_succeed(section, path, answers);
    assert forall|i: int| 0 <= i < more.len() implies !(#[trigger] more[i] is Failed) by {
        if i >= 3 {
            assert(more[i] == answers.flatten()[i - 3]);
        }
    }
    lemma_extensions_succeed(next, more);
    law_run_in_parts(op, replies, more);
}

} // verus!
