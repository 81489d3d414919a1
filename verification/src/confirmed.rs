//! Scripts that leave the card busy.
use crate::bus::{law_run_in_parts, run, trace, Action, Error, Operation, Progress, Reply};
use crate::poll::{
    law_poll_gives_up, law_poll_succeeds, not_ready, poll_ready_for_data, poll_start, PollReady,
};
use crate::register::status_ready;
use crate::sequence::{Script, Sequence};
use vstd::prelude::*;

verus! {

/// How far a confirmed script has come.
#[derive(Debug, PartialEq, Eq)]
pub enum Stage<S> {
    /// The script is being performed
    Script(Sequence<S>),
    /// The card is being waited for
    Busy(PollReady),
}

/// A script, and then a wait until the card is ready for data.
#[derive(Debug, PartialEq, Eq)]
pub struct Confirmed<S> {
    /// The address of the card
    pub address: u16,
    /// How often the card is asked whether it is ready
    pub timeout: Option<u32>,
    /// How far the operation has come
    pub stage: Stage<S>,
}

impl<S: Script> Confirmed<S> {
    /// Starts a script that the card confirms.
    pub fn new(script: S, address: u16, timeout: Option<u32>) -> (r: Self)
        ensures
            r.wf(),
            r == (Confirmed { address, timeout, stage: Stage::Script(Sequence { script, next: 0 }) }),
    {
        Confirmed { address, timeout, stage: Stage::Script(Sequence::new(script)) }
    }

    /// The wait, as a stage of this operation.
    pub open spec fn waiting(self, wait: Progress<PollReady, ()>) -> Progress<Self, ()> {
        match wait {
            Progress::Pending(op) => Progress::Pending(
                Confirmed { address: self.address, timeout: self.timeout, stage: Stage::Busy(op) },
            ),
            Progress::Finished(result) => Progress::Finished(result),
        }
    }
}

impl<S: Script> Operation for Confirmed<S> {
    type Output = ();

    open spec fn wf(self) -> bool {
        match self.stage {
            Stage::Script(op) => op.wf(),
            Stage::Busy(op) => op.wf(),
        }
    }

    open spec fn pending(self) -> Action {
        match self.stage {
            Stage::Script(op) => op.pending(),
            Stage::Busy(op) => op.pending(),
        }
    }

    open spec fn tolerates(self, error: Error) -> bool {
        false
    }

    open spec fn demands_success(self) -> bool {
        match self.stage {
            Stage::Script(op) => op.demands_success(),
            Stage::Busy(op) => op.demands_success(),
        }
    }

    open spec fn after(self, reply: Reply) -> Progress<Self, ()> {
        match self.stage {
            Stage::Script(op) => match op.after(reply) {
                Progress::Pending(next) => Progress::Pending(
                    Confirmed {
                        address: self.address,
                        timeout: self.timeout,
                        stage: Stage::Script(next),
                    },
                ),
                Progress::Finished(Err(e)) => Progress::Finished(Err(e)),
                Progress::Finished(Ok(_)) => self.waiting(poll_start(self.address, self.timeout)),
            },
            Stage::Busy(op) => self.waiting(op.after(reply)),
        }
    }

    proof fn lemma_after(self, reply: Reply) {
        match self.stage {
            Stage::Script(op) => op.lemma_after(reply),
            Stage::Busy(op) => op.lemma_after(reply),
        }
    }

    fn action(&self) -> Action {
        match &self.stage {
            Stage::Script(op) => op.action(),
            Stage::Busy(op) => op.action(),
        }
    }

    fn needs_success(&self) -> bool {
        match &self.stage {
            Stage::Script(op) => op.needs_success(),
            Stage::Busy(op) => op.needs_success(),
        }
    }

    fn advance(self, reply: Reply) -> Progress<Self, ()> {
        let address: u16 = self.address;
        let timeout: Option<u32> = self.timeout;
        let wait = match self.stage {
            Stage::Script(op) => match op.advance(reply) {
                Progress::Pending(next) => {
                    return Progress::Pending(
                        Confirmed { address, timeout, stage: Stage::Script(next) },
                    );
                },
                Progress::Finished(Err(e)) => {
                    return Progress::Finished(Err(e));
                },
                Progress::Finished(Ok(_)) => poll_ready_for_data(address, timeout),
            },
            Stage::Busy(op) => op.advance(reply),
        };
        match wait {
            Progress::Pending(op) => Progress::Pending(
                Confirmed { address, timeout, stage: Stage::Busy(op) },
            ),
            Progress::Finished(result) => Progress::Finished(result),
        }
    }
}

/// The wait of a confirmed script runs as the wait does by itself.
proof fn lemma_wait_runs<S: Script>(op: Confirmed<S>, replies: Seq<Reply>)
    requires
        op.stage is Busy,
    ensures
        run(op, replies) == op.waiting(run(op.stage->Busy_0, replies)),
        trace(op, replies) == trace(op.stage->Busy_0, replies),
    decreases replies.len(),
{
    reveal(run);
    reveal(trace);
    if replies.len() > 0 {
        match op.after(replies[0]) {
            Progress::Pending(next) => lemma_wait_runs(next, replies.drop_first()),
            Progress::Finished(_) => {},
        }
    }
}

/// A confirmed script whose actions all succeed performs its list, and then starts to wait
/// for the card.
pub proof fn law_confirmed_script_is_performed<S: Script>(op: Confirmed<S>, replies: Seq<Reply>)
    requires
        op.wf(),
        op.stage matches Stage::Script(script) && replies.len() == script.script.actions().len()
            - script.next,
        forall|i: int| 0 <= i < replies.len() ==> !(#[trigger] replies[i] is Failed),
    ensures
        run(op, replies) == op.waiting(poll_start(op.address, op.timeout)),
        trace(op, replies) == (op.stage->Script_0).script.actions().skip(
            (op.stage->Script_0).next as int,
        ),
    decreases replies.len(),
{
    reveal_with_fuel(run, 2);
    reveal_with_fuel(trace, 2);
    let script = op.stage->Script_0;
    let actions = script.script.actions();
    script.script.lemma_not_empty();
    assert(!(replies[0] is Failed));
    if script.next + 1 < actions.len() {
        let next = op.after(replies[0])->Pending_0;
        let rest = replies.drop_first();
        assert forall|i: int| 0 <= i < rest.len() implies !(#[trigger] rest[i] is Failed) by {
            assert(rest[i] == replies[i + 1]);
        }
        law_confirmed_script_is_performed(next, rest);
        assert(actions.skip(script.next as int) =~= seq![op.pending()] + actions.skip(
            script.next + 1,
        ));
    } else {
        assert(replies.drop_first() =~= Seq::empty());
        assert(actions.skip(script.next as int) =~= seq![op.pending()]);
        assert(trace(op, replies) =~= seq![op.pending()]);
    }
}

/// A confirmed script whose actions all succeed performs its list, asks the card for its
/// status until that reports ready, and succeeds.
pub proof fn law_confirmed_succeeds<S: Script>(
    op: Confirmed<S>,
    replies: Seq<Reply>,
    busy: Seq<Reply>,
    status: u32,
)
    requires
        op.wf(),
        op.stage matches Stage::Script(script) && replies.len() == script.script.actions().len()
            - script.next,
        forall|i: int| 0 <= i < replies.len() ==> !(#[trigger] replies[i] is Failed),
        forall|i: int| 0 <= i < busy.len() ==> not_ready(#[trigger] busy[i]),
        op.timeout matches Some(n) ==> busy.len() < n,
        status_ready(status),
    ensures
        run(op, replies + busy.push(Reply::Word(status))) == Progress::<
            Confirmed<S>,
            (),
        >::Finished(Ok(())),
        trace(op, replies + busy.push(Reply::Word(status))) == (
        op.stage->Script_0).script.actions().skip((op.stage->Script_0).next as int) + Seq::new(
            busy.len() + 1,
            |i: int| Action::ReadStatus { address: op.address },
        ),
{
    let polls = busy.push(Reply::Word(status));
    law_confirmed_script_is_performed(op, replies);
    let waiting = run(op, replies)->Pending_0;
    lemma_wait_runs(waiting, polls);
    law_poll_succeeds(waiting.stage->Busy_0, busy, status);
    law_run_in_parts(op, replies, polls);
}

/// A confirmed script after which the card is not ready within the times that it may be
/// asked is given up: it performs its list, and asks the card exactly as often as it may.
pub proof fn law_confirmed_gives_up<S: Script>(
    op: Confirmed<S>,
    replies: Seq<Reply>,
    busy: Seq<Reply>,
)
    requires
        op.wf(),
        op.stage matches Stage::Script(script) && replies.len() == script.script.actions().len()
            - script.next,
        forall|i: int| 0 <= i < replies.len() ==> !(#[trigger] replies[i] is Failed),
        forall|i: int| 0 <= i < busy.len() ==> not_ready(#[trigger] busy[i]),
        op.timeout matches Some(n) && busy.len() == n,
    ensures
        run(op, replies + busy) == Progress::<Confirmed<S>, ()>::Finished(
            Err(Error::SoftwareTimeout),
        ),
        trace(op, replies + busy) == (op.stage->Script_0).script.actions().skip(
            (op.stage->Script_0).next as int,
        ) + Seq::new(busy.len(), |i: int| Action::ReadStatus { address: op.address }),
{
    law_confirmed_script_is_performed(op, replies);
    law_run_in_parts(op, replies, busy);
    if busy.len() > 0 {
        let waiting = run(op, replies)->Pending_0;
        lemma_wait_runs(waiting, busy);
        law_poll_gives_up(waiting.stage->Busy_0, busy);
    } else {
        let actions = (op.stage->Script_0).script.actions().skip(
            (op.stage->Script_0).next as int,
        );
        let asks = Seq::new(busy.len(), |i: int| Action::ReadStatus { address: op.address });
        assert(actions + asks =~= actions);
    }
}

} // verus!
