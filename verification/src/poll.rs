//! Waiting until a card can take data.
use crate::bus::{admitted, run, trace, Action, Error, Operation, Progress, Reply};
use crate::register::{status_ready, status_ready_for_data};
use vstd::prelude::*;

verus! {

/// Asks a card for its status until it is ready for data.
#[derive(Debug, PartialEq, Eq)]
pub struct PollReady {
    /// The address of the card
    pub address: u16,
    /// How many more times the card is asked, if that is limited
    pub remaining: Option<u32>,
}

/// Where a wait starts: it is over at once if the card may not be asked at all.
pub open spec fn poll_start(address: u16, timeout: Option<u32>) -> Progress<PollReady, ()> {
    if timeout == Some(0u32) {
        Progress::Finished(Err(Error::SoftwareTimeout))
    } else {
        Progress::Pending(PollReady { address, remaining: timeout })
    }
}

/// Starts to wait for the card at `address`, which is asked at most `timeout` times.
pub fn poll_ready_for_data(address: u16, timeout: Option<u32>) -> (r: Progress<PollReady, ()>)
    ensures
        r == poll_start(address, timeout),
        r matches Progress::Pending(op) ==> op.wf(),
{
    match timeout {
        Some(0) => Progress::Finished(Err(Error::SoftwareTimeout)),
        _ => Progress::Pending(PollReady { address, remaining: timeout }),
    }
}

impl Operation for PollReady {
    type Output = ();

    open spec fn wf(self) -> bool {
        self.remaining != Some(0u32)
    }

    open spec fn pending(self) -> Action {
        Action::ReadStatus { address: self.address }
    }

    open spec fn tolerates(self, error: Error) -> bool {
        false
    }

    open spec fn demands_success(self) -> bool {
        false
    }

    open spec fn after(self, reply: Reply) -> Progress<Self, ()> {
        match reply {
            Reply::Failed(e) => Progress::Finished(Err(e)),
            Reply::Word(status) => if status_ready(status) {
                Progress::Finished(Ok(()))
            } else {
                poll_start(
                    self.address,
                    match self.remaining {
                        Some(n) => Some((n - 1) as u32),
                        None => None,
                    },
                )
            },
            _ => Progress::Pending(self),
        }
    }

    proof fn lemma_after(self, reply: Reply) {
    }

    fn action(&self) -> Action {
        Action::ReadStatus { address: self.address }
    }

    fn needs_success(&self) -> bool {
        false
    }

    fn advance(self, reply: Reply) -> Progress<Self, ()> {
        match reply {
            Reply::Failed(e) => Progress::Finished(Err(e)),
            Reply::Word(status) => if status_ready_for_data(status) {
                Progress::Finished(Ok(()))
            } else {
                let timeout: Option<u32> = match self.remaining {
                    Some(n) => Some(n - 1),
                    None => None,
                };
                poll_ready_for_data(self.address, timeout)
            },
            _ => Progress::Pending(self),
        }
    }
}

/// Whether a reply is the status of a card that is not ready.
pub open spec fn not_ready(reply: Reply) -> bool {
    reply matches Reply::Word(status) && !status_ready(status)
}

/// A card that becomes ready while it may still be asked is waited for to the end:
/// it is asked once for every status up to the ready one, and the wait succeeds.
pub proof fn law_poll_succeeds(op: PollReady, busy: Seq<Reply>, status: u32)
    requires
        op.wf(),
        forall|i: int| 0 <= i < busy.len() ==> not_ready(#[trigger] busy[i]),
        op.remaining matches Some(n) ==> busy.len() < n,
        status_ready(status),
    ensures
        run(op, busy.push(Reply::Word(status))) == Progress::<PollReady, ()>::Finished(Ok(())),
        trace(op, busy.push(Reply::Word(status))) == Seq::new(
            busy.len() + 1,
            |i: int| Action::ReadStatus { address: op.address },
        ),
    decreases busy.len(),
{
    reveal(run);
    reveal(trace);
    let replies = busy.push(Reply::Word(status));
    let ask = Action::ReadStatus { address: op.address };
    if busy.len() == 0 {
        assert(trace(op, replies) =~= Seq::new(1, |i: int| ask));
    } else {
        assert(not_ready(busy[0]));
        let next = op.after(replies[0])->Pending_0;
        let rest = busy.drop_first();
        assert forall|i: int| 0 <= i < rest.len() implies not_ready(#[trigger] rest[i]) by {
            assert(rest[i] == busy[i + 1]);
        }
        assert(replies.drop_first() =~= rest.push(Reply::Word(status)));
        law_poll_succeeds(next, rest, status);
        assert(trace(op, replies) =~= Seq::new(busy.len() + 1, |i: int| ask));
    }
}

/// A card that is not ready after the last time that it may be asked is given up: it is asked
/// exactly as often as it may be.
pub proof fn law_poll_gives_up(op: PollReady, busy: Seq<Reply>)
    requires
        op.wf(),
        forall|i: int| 0 <= i < busy.len() ==> not_ready(#[trigger] busy[i]),
        op.remaining matches Some(n) && busy.len() == n,
    ensures
        run(op, busy) == Progress::<PollReady, ()>::Finished(Err(Error::SoftwareTimeout)),
        trace(op, busy) == Seq::new(
            busy.len(),
            |i: int| Action::ReadStatus { address: op.address },
        ),
    decreases busy.len(),
{
    reveal(run);
    reveal(trace);
    assert(not_ready(busy[0]));
    match op.after(busy[0]) {
        Progress::Pending(next) => {
            let rest = busy.drop_first();
            assert forall|i: int| 0 <= i < rest.len() implies not_ready(#[trigger] rest[i]) by {
                assert(rest[i] == busy[i + 1]);
            }
            law_poll_gives_up(next, rest);
        },
        Progress::Finished(_) => {},
    }
    assert(trace(op, busy) =~= Seq::new(
        busy.len(),
        |i: int| Action::ReadStatus { address: op.address },
    ));
}

/// A wait without a limit never gives the card up of its own accord.
pub proof fn law_unlimited_poll_waits(op: PollReady, replies: Seq<Reply>)
    requires
        op.remaining is None,
        admitted(op, replies),
        forall|i: int| 0 <= i < replies.len() ==> !(#[trigger] replies[i] is Failed),
    ensures
        run(op, replies) == Progress::<PollReady, ()>::Pending(op) || run(op, replies)
            == Progress::<PollReady, ()>::Finished(Ok(())),
    decreases replies.len(),
{
    reveal(run);
    reveal(admitted);
    if replies.len() > 0 {
        assert(!(replies[0] is Failed));
        let rest = replies.drop_first();
        assert forall|i: int| 0 <= i < rest.len() implies !(#[trigger] rest[i] is Failed) by {
            assert(rest[i] == replies[i + 1]);
        }
        match op.after(replies[0]) {
            Progress::Pending(next) => law_unlimited_poll_waits(next, rest),
            Progress::Finished(_) => {},
        }
    }
}

} // verus!
