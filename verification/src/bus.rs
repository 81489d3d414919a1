//! The boundary between the card logic and the SDMMC controller.
//!
//! Everything that touches hardware is an [`Action`] that the driver performs,
//! and what came of it is a [`Reply`]. Card logic is written as an
//! [`Operation`]: a value that names the action it waits for, and that the reply
//! turns into the next value or into a result.
use crate::block::{CmdBlock, DataBlock};
use crate::command::Command;
use crate::time::Hertz;
use vstd::prelude::*;

verus! {

/// The errors that a card operation can end with.
#[derive(Debug, Clone, Copy, PartialEq, Eq)]
pub enum Error {
    /// The card did not answer in time
    Timeout,
    /// The host gave up waiting for the card
    SoftwareTimeout,
    /// The card does not implement the interface condition command
    UnsupportedCardVersion,
    /// The card reports a mode that is not known
    UnsupportedCardType,
    /// The card does not accept the supply voltage
    UnsupportedVoltage,
    /// The card cannot do what was asked
    UnsupportedOperation,
    /// A checksum did not match
    Crc,
    /// No card is present
    NoCard,
    /// The bus width cannot be used with this card
    BusWidth,
    /// The clock cannot be set to the requested frequency
    BadClock,
    /// The card left the transfer state while it changed its signalling mode
    SignalingSwitchFailed,
    /// No start bit was seen on every data line
    StBitErr,
}

/// The number of data lines in use on the SDMMC bus
#[derive(Debug, Clone, Copy, PartialEq, Eq)]
pub enum BusWidth {
    /// Not known
    Unknown,
    /// One data line
    One,
    /// Four data lines
    Four,
    /// Eight data lines
    Eight,
}

/// The generation of the SDMMC controller.
#[derive(Debug, Clone, Copy, PartialEq, Eq)]
pub enum ControllerVersion {
    /// A write command goes out before the data path is armed
    V1,
    /// The data path is armed before the write command goes out
    V2,
}

/// The memory that a transfer from the card fills.
#[derive(Debug, Clone, Copy, PartialEq, Eq)]
pub enum Buffer {
    /// The blocks that the caller of the operation owns
    Caller,
    /// The command block
    Command,
    /// A data block that belongs to the operation
    Block,
}

/// What an operation asks the controller to do.
#[derive(Debug, PartialEq, Eq)]
pub enum Action {
    /// Power the card and clock it at no more than 400 kHz, then put it in the idle state
    InitIdle,
    /// Send a command; `data` says that a data transfer goes with it
    Command { command: Command, check_crc: bool, data: bool },
    /// Read the response register that the last command filled
    ReadResponse,
    /// Ask the card for its identification register
    GetCid,
    /// Ask the card at `address` for its card specific data
    GetCsd { address: u16 },
    /// Select the card at `address`
    SelectCard { address: u16 },
    /// Ask the card at `address` for its status
    ReadStatus { address: u16 },
    /// Set clock frequency and bus width
    SetClock { freq: Hertz, width: BusWidth },
    /// Arm the data path to fill `buffer` by blocks of `block_size` bytes. A
    /// buffer other than the caller's takes one block.
    PrepareRead { buffer: Buffer, block_size: u32 },
    /// Arm the data path to send the caller's blocks of `block_size` bytes
    PrepareWrite { block_size: u32 },
    /// Arm the data path to send a block of the operation's own
    PrepareWriteBlock(DataBlock),
    /// Wait until the armed transfer into `buffer` has ended. `single` says that it
    /// is one block.
    CompleteRead { buffer: Buffer, single: bool },
    /// Wait until the armed transfer to the card has ended. `single` says that it is
    /// one block.
    CompleteWrite { single: bool },
    /// Clear the controller's interrupt flags
    ClearInterruptFlags,
    /// Let `nops` empty instructions go by
    Delay { nops: u32 },
    /// Replace the contents of the command block
    StoreCmdBlock(CmdBlock),
    /// Remember the current time as the start of a wait
    StartTimer,
    /// Measure the time since the start of the wait
    ReadTimer,
    /// Nothing; the operation has more to compute
    Proceed,
}

/// What came of an action.
#[derive(Debug, PartialEq, Eq)]
pub enum Reply {
    /// The action was performed
    Done,
    /// A response register or card status
    Word(u32),
    /// A card register of 128 bits
    Register(u128),
    /// The command block, after a transfer into it
    CmdData(CmdBlock),
    /// The operation's data block, after a transfer into it
    BlockData(DataBlock),
    /// A time span in ticks
    Elapsed(u64),
    /// The action failed
    Failed(Error),
}

/// Whether `reply` is a reply that `action` can have.
pub open spec fn fits(action: Action, reply: Reply) -> bool {
    match action {
        Action::InitIdle => reply is Done || reply is Failed,
        Action::Command { .. } => reply is Word || reply is Failed,
        Action::ReadResponse => reply is Word,
        Action::GetCid => reply is Register || reply is Failed,
        Action::GetCsd { .. } => reply is Register || reply is Failed,
        Action::SelectCard { .. } => reply is Done || reply is Failed,
        Action::ReadStatus { .. } => reply is Word || reply is Failed,
        Action::SetClock { .. } => reply is Done || reply is Failed,
        Action::PrepareRead { .. } => reply is Done,
        Action::PrepareWrite { .. } => reply is Done,
        Action::PrepareWriteBlock(_) => reply is Done,
        Action::CompleteRead { buffer, .. } => match buffer {
            Buffer::Caller => reply is Done || reply is Failed,
            Buffer::Command => reply is CmdData || reply is Failed,
            Buffer::Block => reply is BlockData || reply is Failed,
        },
        Action::CompleteWrite { .. } => reply is Done || reply is Failed,
        Action::ClearInterruptFlags => reply is Done,
        Action::Delay { .. } => reply is Done,
        Action::StoreCmdBlock(_) => reply is Done,
        Action::StartTimer => reply is Done,
        Action::ReadTimer => reply is Elapsed,
        Action::Proceed => reply is Done,
    }
}

/// Tests whether `reply` is a reply that `action` can have.
pub fn reply_fits(action: &Action, reply: &Reply) -> (r: bool)
    ensures
        r == fits(*action, *reply),
{
    let done: bool = matches!(reply, Reply::Done);
    let word: bool = matches!(reply, Reply::Word(_));
    let failed: bool = matches!(reply, Reply::Failed(_));
    match action {
        Action::InitIdle => done || failed,
        Action::Command { .. } => word || failed,
        Action::ReadResponse => word,
        Action::GetCid => matches!(reply, Reply::Register(_)) || failed,
        Action::GetCsd { .. } => matches!(reply, Reply::Register(_)) || failed,
        Action::SelectCard { .. } => done || failed,
        Action::ReadStatus { .. } => word || failed,
        Action::SetClock { .. } => done || failed,
        Action::PrepareRead { .. } => done,
        Action::PrepareWrite { .. } => done,
        Action::PrepareWriteBlock(_) => done,
        Action::CompleteRead { buffer, .. } => match buffer {
            Buffer::Caller => done || failed,
            Buffer::Command => matches!(reply, Reply::CmdData(_)) || failed,
            Buffer::Block => matches!(reply, Reply::BlockData(_)) || failed,
        },
        Action::CompleteWrite { .. } => done || failed,
        Action::ClearInterruptFlags => done,
        Action::Delay { .. } => done,
        Action::StoreCmdBlock(_) => done,
        Action::StartTimer => done,
        Action::ReadTimer => matches!(reply, Reply::Elapsed(_)),
        Action::Proceed => done,
    }
}

/// The word in a reply.
pub(crate) fn take_word(reply: Reply) -> (r: u32)
    requires
        reply is Word,
    ensures
        r == reply->Word_0,
{
    match reply {
        Reply::Word(word) => word,
        _ => vstd::pervasive::unreached(),
    }
}

/// The register in a reply.
pub(crate) fn take_register(reply: Reply) -> (r: u128)
    requires
        reply is Register,
    ensures
        r == reply->Register_0,
{
    match reply {
        Reply::Register(register) => register,
        _ => vstd::pervasive::unreached(),
    }
}

/// The time span in a reply.
pub(crate) fn take_elapsed(reply: Reply) -> (r: u64)
    requires
        reply is Elapsed,
    ensures
        r == reply->Elapsed_0,
{
    match reply {
        Reply::Elapsed(ticks) => ticks,
        _ => vstd::pervasive::unreached(),
    }
}

/// The data block in a reply.
pub(crate) fn take_block(reply: Reply) -> (r: DataBlock)
    requires
        reply is BlockData,
    ensures
        r == reply->BlockData_0,
{
    match reply {
        Reply::BlockData(block) => block,
        _ => vstd::pervasive::unreached(),
    }
}

/// The command block in a reply.
pub(crate) fn take_cmd_block(reply: Reply) -> (r: CmdBlock)
    requires
        reply is CmdData,
    ensures
        r == reply->CmdData_0,
{
    match reply {
        Reply::CmdData(block) => block,
        _ => vstd::pervasive::unreached(),
    }
}

/// Where a reply leaves an operation.
#[derive(Debug, PartialEq, Eq)]
pub enum Progress<S, T> {
    /// The operation goes on
    Pending(S),
    /// The operation has ended
    Finished(Result<T, Error>),
}

/// A card operation that waits for the reply to one action at a time.
pub trait Operation: Sized {
    /// What the operation gives when it succeeds
    type Output;

    /// The states that an operation can be in.
    spec fn wf(self) -> bool;

    /// The action that the operation waits for.
    spec fn pending(self) -> Action;

    /// Whether a failure of the pending action with `error` is passed over.
    spec fn tolerates(self, error: Error) -> bool;

    /// Whether a failure of the pending action is a fault of the caller, which no
    /// operation can go on from.
    spec fn demands_success(self) -> bool;

    /// Where `reply` takes the operation.
    spec fn after(self, reply: Reply) -> Progress<Self, Self::Output>;

    /// An operation that is handed a failure ends with that error, and keeps the
    /// invariant if it goes on.
    proof fn lemma_after(self, reply: Reply)
        requires
            self.wf(),
            fits(self.pending(), reply),
            self.demands_success() ==> !(reply is Failed),
        ensures
            self.after(reply) matches Progress::Pending(next) ==> next.wf(),
            reply matches Reply::Failed(e) ==> !self.tolerates(e) ==> self.after(reply)
                == Progress::<Self, Self::Output>::Finished(Err(e)),
    ;

    /// The action to perform next.
    fn action(&self) -> (r: Action)
        requires
            self.wf(),
        ensures
            r == self.pending(),
    ;

    /// Whether a failure of the pending action must not be handed on.
    fn needs_success(&self) -> (r: bool)
        requires
            self.wf(),
        ensures
            r == self.demands_success(),
    ;

    /// Takes the reply to the pending action.
    fn advance(self, reply: Reply) -> (r: Progress<Self, Self::Output>)
        requires
            self.wf(),
            fits(self.pending(), reply),
            self.demands_success() ==> !(reply is Failed),
        ensures
            r == self.after(reply),
            r matches Progress::Pending(next) ==> next.wf(),
            reply matches Reply::Failed(e) ==> !self.tolerates(e) ==> r == Progress::<
                Self,
                Self::Output,
            >::Finished(Err(e)),
    ;
}

/// Where `reply` takes an operation that is part of another one: `op.after(reply)`.
#[verifier::opaque]
pub open spec fn step<O: Operation>(op: O, reply: Reply) -> Progress<O, O::Output> {
    op.after(reply)
}

/// Whether an operation can be handed `reply` now.
pub open spec fn admits<O: Operation>(op: O, reply: Reply) -> bool {
    fits(op.pending(), reply) && (op.demands_success() ==> !(reply is Failed))
}

/// Where an operation is after a run of replies. Replies that come after its end
/// change nothing.
#[verifier::opaque]
pub open spec fn run<O: Operation>(op: O, replies: Seq<Reply>) -> Progress<O, O::Output>
    decreases replies.len(),
{
    if replies.len() == 0 {
        Progress::Pending(op)
    } else {
        match op.after(replies[0]) {
            Progress::Pending(next) => run(next, replies.drop_first()),
            Progress::Finished(result) => Progress::Finished(result),
        }
    }
}

/// The actions that a run of replies answers, up to the end of the operation.
#[verifier::opaque]
pub open spec fn trace<O: Operation>(op: O, replies: Seq<Reply>) -> Seq<Action>
    decreases replies.len(),
{
    if replies.len() == 0 {
        Seq::empty()
    } else {
        match op.after(replies[0]) {
            Progress::Pending(next) => seq![op.pending()] + trace(next, replies.drop_first()),
            Progress::Finished(_) => seq![op.pending()],
        }
    }
}

/// Whether every reply of a run can be handed to the operation when its turn comes.
#[verifier::opaque]
pub open spec fn admitted<O: Operation>(op: O, replies: Seq<Reply>) -> bool
    decreases replies.len(),
{
    replies.len() > 0 ==> admits(op, replies[0]) && (match op.after(replies[0]) {
        Progress::Pending(next) => admitted(next, replies.drop_first()),
        Progress::Finished(_) => true,
    })
}

/// A run of replies is the same as its two parts handed over one after the other.
pub proof fn law_run_in_parts<O: Operation>(op: O, first: Seq<Reply>, second: Seq<Reply>)
    ensures
        run(op, first + second) == (match run(op, first) {
            Progress::Pending(next) => run(next, second),
            Progress::Finished(result) => Progress::Finished(result),
        }),
        admitted(op, first + second) == (admitted(op, first) && (match run(op, first) {
            Progress::Pending(next) => admitted(next, second),
            Progress::Finished(_) => true,
        })),
        trace(op, first + second) == (match run(op, first) {
            Progress::Pending(next) => trace(op, first) + trace(next, second),
            Progress::Finished(_) => trace(op, first),
        }),
    decreases first.len(),
{
    reveal(run);
    reveal(trace);
    reveal(admitted);
    if first.len() == 0 {
        assert(first + second =~= second);
        assert(trace(op, first) + trace(op, second) =~= trace(op, second));
    } else {
        assert((first + second)[0] == first[0]);
        assert((first + second).drop_first() =~= first.drop_first() + second);
        match op.after(first[0]) {
            Progress::Pending(next) => {
                law_run_in_parts(next, first.drop_first(), second);
                match run(next, first.drop_first()) {
                    Progress::Pending(last) => {
                        assert(trace(op, first + second) =~= trace(op, first) + trace(
                            last,
                            second,
                        ));
                    },
                    Progress::Finished(_) => {},
                }
            },
            Progress::Finished(_) => {},
        }
    }
}

/// Before the first reply an operation is where it was started.
pub proof fn law_run_starts<O: Operation>(op: O, replies: Seq<Reply>)
    ensures
        run(op, replies.take(0)) == Progress::<O, O::Output>::Pending(op),
        trace(op, replies.take(0)) == Seq::<Action>::empty(),
{
    reveal(run);
    reveal(trace);
}

/// One more reply is handed to the operation that has come to `now`, and answers the
/// action that this waits for.
pub proof fn law_run_goes_on<O: Operation>(op: O, replies: Seq<Reply>, n: int, now: O)
    requires
        0 <= n < replies.len(),
        run(op, replies.take(n)) == Progress::<O, O::Output>::Pending(now),
    ensures
        run(op, replies.take(n + 1)) == now.after(replies[n]),
        trace(op, replies.take(n + 1)) == trace(op, replies.take(n)).push(now.pending()),
{
    let first = replies.take(n);
    let one = seq![replies[n]];
    assert(replies.take(n + 1) =~= first + one);
    law_run_in_parts(op, first, one);
    assert(one.drop_first() =~= Seq::<Reply>::empty());
    reveal_with_fuel(run, 2);
    reveal_with_fuel(trace, 2);
    assert(trace(now, one) =~= seq![now.pending()]);
    assert(trace(op, first) + seq![now.pending()] =~= trace(op, first).push(now.pending()));
}

/// Replies that take an operation from each of `states` to the next one take it from the
/// first to the last, and answer the action of each.
pub proof fn law_run_follows<O: Operation>(states: Seq<O>, replies: Seq<Reply>)
    requires
        states.len() == replies.len() + 1,
        forall|k: int|
            0 <= k < replies.len() ==> (#[trigger] states[k]).after(replies[k]) == Progress::<
                O,
                O::Output,
            >::Pending(states[k + 1]),
    ensures
        run(states[0], replies) == Progress::<O, O::Output>::Pending(states.last()),
        trace(states[0], replies) == Seq::new(replies.len(), |k: int| states[k].pending()),
    decreases replies.len(),
{
    reveal(run);
    reveal(trace);
    let actions = Seq::new(replies.len(), |k: int| states[k].pending());
    if replies.len() > 0 {
        let rest = states.drop_first();
        let more = replies.drop_first();
        assert(states[0].after(replies[0]) == Progress::<O, O::Output>::Pending(states[1]));
        assert forall|k: int| 0 <= k < more.len() implies (#[trigger] rest[k]).after(more[k])
            == Progress::<O, O::Output>::Pending(rest[k + 1]) by {
            assert(rest[k] == states[k + 1]);
            assert(states[k + 1].after(replies[k + 1]) == Progress::<O, O::Output>::Pending(
                states[k + 2],
            ));
        }
        law_run_follows(rest, more);
        assert(rest.last() == states.last());
    }
    assert(trace(states[0], replies) =~= actions);
}

/// Whatever replies an operation is handed, it stays in a state that it can go on
/// from.
pub proof fn law_run_keeps_invariant<O: Operation>(op: O, replies: Seq<Reply>)
    requires
        op.wf(),
        admitted(op, replies),
    ensures
        run(op, replies) matches Progress::Pending(next) ==> next.wf(),
    decreases replies.len(),
{
    reveal(run);
    reveal(admitted);
    if replies.len() > 0 {
        op.lemma_after(replies[0]);
        match op.after(replies[0]) {
            Progress::Pending(next) => law_run_keeps_invariant(next, replies.drop_first()),
            Progress::Finished(_) => {},
        }
    }
}

/// The last reply of a run is handed to the operation in a state that it can go on from, and
/// decides where the run leaves it.
pub proof fn law_last_reply_decides<O: Operation>(op: O, replies: Seq<Reply>, last: Reply)
    requires
        op.wf(),
        admitted(op, replies.push(last)),
        run(op, replies) is Pending,
    ensures
        admitted(op, replies),
        run(op, replies) matches Progress::Pending(now) && now.wf() && admits(now, last) && run(
            op,
            replies.push(last),
        ) == now.after(last),
{
    let all = replies.push(last);
    let one = seq![last];
    assert(all =~= replies + one);
    assert(all.take(replies.len() as int) =~= replies);
    assert(all.take(all.len() as int) =~= all);
    law_run_in_parts(op, replies, one);
    law_run_keeps_invariant(op, replies);
    law_run_goes_on(op, all, replies.len() as int, run(op, replies)->Pending_0);
    reveal(admitted);
}

/// What every reply keeps true of an operation is true after every run of replies, and what
/// holds of every result that comes then holds of the result of a run.
pub proof fn law_run_keeps<O: Operation>(
    op: O,
    replies: Seq<Reply>,
    kept: spec_fn(O) -> bool,
    result: spec_fn(Result<O::Output, Error>) -> bool,
)
    requires
        op.wf(),
        admitted(op, replies),
        kept(op),
        forall|now: O, reply: Reply|
            now.wf() && admits(now, reply) && kept(now) ==> match #[trigger] now.after(reply) {
                Progress::Pending(next) => kept(next),
                Progress::Finished(r) => result(r),
            },
    ensures
        match run(op, replies) {
            Progress::Pending(next) => kept(next),
            Progress::Finished(r) => result(r),
        },
    decreases replies.len(),
{
    reveal(run);
    reveal(admitted);
    if replies.len() > 0 {
        op.lemma_after(replies[0]);
        match op.after(replies[0]) {
            Progress::Pending(next) => law_run_keeps(next, replies.drop_first(), kept, result),
            Progress::Finished(_) => {},
        }
    }
}

/// A failed action ends the operation with the error that the controller reported,
/// and nothing more is asked of the controller, unless the operation passes over
/// that error.
pub proof fn law_failure_ends_run<O: Operation>(
    op: O,
    replies: Seq<Reply>,
    error: Error,
    more: Seq<Reply>,
)
    requires
        op.wf(),
        admitted(op, replies.push(Reply::Failed(error))),
        run(op, replies) matches Progress::Pending(last) && !last.tolerates(error),
    ensures
        run(op, replies.push(Reply::Failed(error)) + more) == Progress::<
            O,
            O::Output,
        >::Finished(Err(error)),
        run(op, replies) matches Progress::Pending(last) && trace(
            op,
            replies.push(Reply::Failed(error)) + more,
        ) == trace(op, replies).push(last.pending()),
{
    let all = replies.push(Reply::Failed(error));
    let failure = seq![Reply::Failed(error)];
    let last = run(op, replies)->Pending_0;
    assert(all =~= replies + failure);
    assert(all.take(replies.len() as int) =~= replies);
    assert(all.take(all.len() as int) =~= all);
    law_run_in_parts(op, replies, failure);
    law_run_keeps_invariant(op, replies);
    law_run_goes_on(op, all, replies.len() as int, last);
    reveal(admitted);
    last.lemma_after(failure[0]);
    law_run_in_parts(op, all, more);
}

} // verus!
