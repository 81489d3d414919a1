//! Operations that perform a fixed list of actions.
use crate::bus::{run, trace, Action, Error, Operation, Progress, Reply};
use vstd::prelude::*;

verus! {

/// A fixed list of actions, each of which has to succeed.
pub trait Script: Sized {
    /// The actions, in order.
    spec fn actions(self) -> Seq<Action>;

    /// Whether a failure of action `i` is a fault of the caller.
    spec fn unwraps(self, i: int) -> bool;

    /// A script has at least one action.
    proof fn lemma_not_empty(self)
        ensures
            0 < self.actions().len() <= 0xFF,
    ;

    /// The number of actions.
    fn count(&self) -> (r: usize)
        ensures
            r == self.actions().len(),
    ;

    /// Action number `i`.
    fn nth(&self, i: usize) -> (r: Action)
        requires
            i < self.actions().len(),
        ensures
            r == self.actions()[i as int],
    ;

    /// Whether a failure of action `i` must not be handed on.
    fn nth_unwraps(&self, i: usize) -> (r: bool)
        requires
            i < self.actions().len(),
        ensures
            r == self.unwraps(i as int),
    ;
}

/// A script under way. It ends with the first failure, or with the reply to the
/// last action.
#[derive(Debug, PartialEq, Eq)]
pub struct Sequence<S> {
    /// The script
    pub script: S,
    /// The number of the pending action
    pub next: usize,
}

impl<S: Script> Sequence<S> {
    /// Starts a script.
    pub fn new(script: S) -> (r: Self)
        ensures
            r.wf(),
            r == (Sequence { script, next: 0 }),
    {
        proof {
            script.lemma_not_empty();
        }
        Sequence { script, next: 0 }
    }
}

impl<S: Script> Operation for Sequence<S> {
    type Output = Reply;

    open spec fn wf(self) -> bool {
        self.next < self.script.actions().len()
    }

    open spec fn pending(self) -> Action {
        self.script.actions()[self.next as int]
    }

    open spec fn tolerates(self, error: Error) -> bool {
        false
    }

    open spec fn demands_success(self) -> bool {
        self.script.unwraps(self.next as int)
    }

    open spec fn after(self, reply: Reply) -> Progress<Self, Reply> {
        match reply {
            Reply::Failed(e) => Progress::Finished(Err(e)),
            _ => if self.next + 1 < self.script.actions().len() {
                Progress::Pending(Sequence { script: self.script, next: (self.next + 1) as usize })
            } else {
                Progress::Finished(Ok(reply))
            },
        }
    }

    proof fn lemma_after(self, reply: Reply) {
        self.script.lemma_not_empty();
    }

    fn action(&self) -> Action {
        self.script.nth(self.next)
    }

    fn needs_success(&self) -> bool {
        self.script.nth_unwraps(self.next)
    }

    fn advance(self, reply: Reply) -> Progress<Self, Reply> {
        proof {
            self.script.lemma_not_empty();
        }
        match reply {
            Reply::Failed(e) => Progress::Finished(Err(e)),
            _ => if self.next + 1 < self.script.count() {
                Progress::Pending(Sequence { script: self.script, next: self.next + 1 })
            } else {
                Progress::Finished(Ok(reply))
            },
        }
    }
}

/// A script whose actions all succeed performs exactly its list, in order, and ends
/// with the reply to the last action.
pub proof fn law_script_is_performed<S: Script>(op: Sequence<S>, replies: Seq<Reply>)
    requires
        op.wf(),
        replies.len() == op.script.actions().len() - op.next,
        forall|i: int| 0 <= i < replies.len() ==> !(#[trigger] replies[i] is Failed),
    ensures
        run(op, replies) == Progress::<Sequence<S>, Reply>::Finished(Ok(replies.last())),
        trace(op, replies) == op.script.actions().skip(op.next as int),
    decreases replies.len(),
{
    reveal(run);
    reveal(trace);
    op.script.lemma_not_empty();
    assert(!(replies[0] is Failed));
    match op.after(replies[0]) {
        Progress::Pending(next) => {
            let rest = replies.drop_first();
            assert forall|i: int| 0 <= i < rest.len() implies !(#[trigger] rest[i] is Failed) by {
                assert(rest[i] == replies[i + 1]);
            }
            law_script_is_performed(next, rest);
            assert(op.script.actions().skip(op.next as int) =~= seq![op.pending()]
                + op.script.actions().skip(next.next as int));
        },
        Progress::Finished(_) => {
            assert(op.script.actions().skip(op.next as int) =~= seq![op.pending()]);
        },
    }
}

} // verus!
