//! Operations that take several crypt32 calls.
//!
//! An operation is a machine.  While it is waiting for a call, it says which;
//! it is resumed with what the call answered.

use crate::abi::crypt32::{
    answers, call_view, effect, permitted, Call, CallView, Ledger, Reply, ReplyView,
};
use vstd::prelude::*;

verus! {

/// The behaviour of an operation, state by state.
pub trait Operation: Sized {
    /// The call that the operation is waiting for; `None` when it is over.
    spec fn pending(self) -> Option<CallView>;

    /// The state after the pending call answered `reply`.
    spec fn after(self, reply: ReplyView) -> Self;

    /// What the operation owns in this state.
    spec fn holds(self) -> Ledger;

    /// Whether the state can be reached.
    spec fn well_formed(self) -> bool;

    /// The pending call hands over only what the operation owns.
    proof fn pending_is_permitted(self)
        requires
            self.well_formed(),
        ensures
            self.pending() matches Some(call) ==> permitted(self.holds(), call),
    ;

    /// What the operation owns after a call is what the call left it.
    proof fn resuming_is_accounted_for(self, reply: ReplyView)
        requires
            self.well_formed(),
            self.pending() matches Some(call) && answers(call, reply),
        ensures
            self.after(reply).well_formed(),
            self.after(reply).holds() == effect(self.holds(), self.pending()->0, reply),
    ;
}

/// A running operation.
pub trait Machine: Sized {
    /// Its behaviour.
    type Model: Operation;

    /// The state that it is in.
    spec fn model(&self) -> Self::Model;

    /// The call that it is waiting for; `None` when it is over.
    fn pending(&self) -> (call: Option<Call>)
        ensures
            call_view(call) == self.model().pending(),
    ;

    /// Go on with what the pending call answered.
    fn resume(&mut self, reply: Reply)
        requires
            old(self).model().pending() matches Some(call) && answers(call, reply@),
        ensures
            final(self).model() == old(self).model().after(reply@),
    ;
}

/// Whether `replies` answer, one by one, the calls that `operation` makes.
pub open spec fn converses<O: Operation>(operation: O, replies: Seq<ReplyView>) -> bool
    decreases replies.len(),
{
    replies.len() == 0 || {
        &&& operation.pending() matches Some(call) && answers(call, replies[0])
        &&& converses(operation.after(replies[0]), replies.skip(1))
    }
}

/// The state of `operation` after `replies`.
pub open spec fn run<O: Operation>(operation: O, replies: Seq<ReplyView>) -> O
    decreases replies.len(),
{
    if replies.len() == 0 {
        operation
    } else {
        run(operation.after(replies[0]), replies.skip(1))
    }
}

/// What the caller owns after the calls of `operation` answered `replies`,
/// having owned `ledger` before the first.
pub open spec fn settle<O: Operation>(
    operation: O,
    ledger: Ledger,
    replies: Seq<ReplyView>,
) -> Ledger
    decreases replies.len(),
{
    if replies.len() == 0 {
        ledger
    } else {
        settle(
            operation.after(replies[0]),
            effect(ledger, operation.pending()->0, replies[0]),
            replies.skip(1),
        )
    }
}

/// Whether each of the calls that `operation` makes until it has had
/// `replies`, and the one after them, is permitted to a caller that owned
/// `ledger` before the first.
pub open spec fn behaves<O: Operation>(
    operation: O,
    ledger: Ledger,
    replies: Seq<ReplyView>,
) -> bool
    decreases replies.len(),
{
    &&& operation.pending() matches Some(call) ==> permitted(ledger, call)
    &&& replies.len() > 0 ==> behaves(
        operation.after(replies[0]),
        effect(ledger, operation.pending()->0, replies[0]),
        replies.skip(1),
    )
}

/// Whatever its calls answer, an operation owns at each point exactly what
/// they left it, and makes no call with a store or context that it does not
/// own.
pub proof fn every_run_is_accounted_for<O: Operation>(operation: O, replies: Seq<ReplyView>)
    requires
        operation.well_formed(),
        converses(operation, replies),
    ensures
        run(operation, replies).well_formed(),
        run(operation, replies).holds() == settle(operation, operation.holds(), replies),
        behaves(operation, operation.holds(), replies),
    decreases replies.len(),
{
    operation.pending_is_permitted();
    if replies.len() > 0 {
        operation.resuming_is_accounted_for(replies[0]);
        every_run_is_accounted_for(operation.after(replies[0]), replies.skip(1));
    }
}

} // verus!
