//! Whole runs of a transfer: a flow fed one reply after another, and what
//! holds of every such run.

use vstd::prelude::*;
use crate::errors::Error;
use crate::flow::{Action, Failure, PollPolicy, Reply, Stage, TransferFlow};
use crate::transfer::TransferOrder;

verus! {

/// Where the flow stands after the replies, taken in order.
pub open spec fn run(flow: TransferFlow, replies: Seq<Reply>) -> TransferFlow
    decreases replies.len(),
{
    if replies.len() == 0 {
        flow
    } else {
        run(flow.next(replies[0]).0, replies.drop_first())
    }
}

/// The actions that the replies draw, one for each reply.
pub open spec fn actions(flow: TransferFlow, replies: Seq<Reply>) -> Seq<Action>
    decreases replies.len(),
{
    if replies.len() == 0 {
        Seq::empty()
    } else {
        seq![flow.next(replies[0]).1] + actions(flow.next(replies[0]).0, replies.drop_first())
    }
}

/// How many of the actions ask the node about finality.
pub open spec fn count_polls(actions: Seq<Action>) -> nat
    decreases actions.len(),
{
    if actions.len() == 0 {
        0
    } else {
        count_polls(actions.drop_last()) + if actions.last() is Poll {
            1nat
        } else {
            0nat
        }
    }
}

/// How many questions about finality a flow may still ask.
pub open spec fn polls_left(flow: TransferFlow) -> nat {
    match flow.stage {
        Stage::AwaitingBlockhash => flow.policy.max_polls as nat,
        Stage::AwaitingSignature => flow.policy.max_polls as nat,
        Stage::AwaitingFinality { polls, .. } => if polls < flow.policy.max_polls {
            (flow.policy.max_polls - polls) as nat
        } else {
            0
        },
        Stage::Settled(_) => 0,
    }
}

/// Every reply draws exactly one action.
pub proof fn lemma_one_action_per_reply(flow: TransferFlow, replies: Seq<Reply>)
    ensures
        actions(flow, replies).len() == replies.len(),
    decreases replies.len(),
{
    if replies.len() > 0 {
        lemma_one_action_per_reply(flow.next(replies[0]).0, replies.drop_first());
    }
}

/// A settled flow stays settled as it is, and asks for nothing more.
pub proof fn lemma_settled_is_final(flow: TransferFlow, replies: Seq<Reply>)
    requires
        flow.stage is Settled,
    ensures
        run(flow, replies) == flow,
        actions(flow, replies).len() == replies.len(),
        forall|i: int| 0 <= i < replies.len() ==> #[trigger] actions(flow, replies)[i] is Finish,
    decreases replies.len(),
{
    if replies.len() > 0 {
        lemma_settled_is_final(flow, replies.drop_first());
        let rest = actions(flow, replies.drop_first());
        assert forall|i: int| 0 <= i < replies.len() implies #[trigger] actions(
            flow,
            replies,
        )[i] is Finish by {
            if i > 0 {
                assert(actions(flow, replies)[i] == rest[i - 1]);
            }
        }
    }
}

/// Counting the polls of a first action and the rest.
proof fn lemma_count_polls_first(first: Action, rest: Seq<Action>)
    ensures
        count_polls(seq![first] + rest) == count_polls(rest) + if first is Poll {
            1nat
        } else {
            0nat
        },
    decreases rest.len(),
{
    let all = seq![first] + rest;
    if rest.len() == 0 {
        assert(all.drop_last() =~= Seq::<Action>::empty());
        assert(count_polls(all.drop_last()) == 0);
    } else {
        assert(all.drop_last() =~= seq![first] + rest.drop_last());
        assert(all.last() == rest.last());
        lemma_count_polls_first(first, rest.drop_last());
    }
}

/// The node is asked about finality no more often than the flow has
/// questions left, whatever it replies.
pub proof fn lemma_polls_within_budget(flow: TransferFlow, replies: Seq<Reply>)
    ensures
        count_polls(actions(flow, replies)) <= polls_left(flow),
    decreases replies.len(),
{
    if replies.len() > 0 {
        let step = flow.next(replies[0]);
        lemma_polls_within_budget(step.0, replies.drop_first());
        lemma_count_polls_first(step.1, actions(step.0, replies.drop_first()));
    }
}

/// A transfer asks about finality no more often than its policy allows,
/// whatever the node replies and however long the replies go on.
pub proof fn lemma_polls_bounded(order: TransferOrder, policy: PollPolicy, replies: Seq<Reply>)
    ensures
        count_polls(actions(TransferFlow::started(order, policy), replies)) <= policy.max_polls,
{
    lemma_polls_within_budget(TransferFlow::started(order, policy), replies);
}

/// Without a blockhash nothing is submitted: where the first reply is no
/// blockhash, the transfer ends with `FetchBlockhashError`, and no action of
/// the run, however long, is a submission or a question about finality.
pub proof fn lemma_no_blockhash_no_submission(
    order: TransferOrder,
    policy: PollPolicy,
    replies: Seq<Reply>,
)
    requires
        replies.len() > 0,
        !(replies[0] is Blockhash),
    ensures
        run(TransferFlow::started(order, policy), replies).stage == Stage::Settled(
            Err(Failure::NoBlockhash),
        ),
        run(TransferFlow::started(order, policy), replies).outcome() == Some(
            Err::<String, Error>(Error::FetchBlockhashError),
        ),
        forall|i: int|
            0 <= i < replies.len() ==> #[trigger] actions(
                TransferFlow::started(order, policy),
                replies,
            )[i] is Finish,
{
    let start = TransferFlow::started(order, policy);
    let ended = start.next(replies[0]).0;
    lemma_settled_is_final(ended, replies.drop_first());
    let rest = actions(ended, replies.drop_first());
    assert forall|i: int| 0 <= i < replies.len() implies #[trigger] actions(
        start,
        replies,
    )[i] is Finish by {
        if i > 0 {
            assert(actions(start, replies)[i] == rest[i - 1]);
        }
    }
}

/// A flow that waits for finality and hears "not yet" as often as it may
/// still ask ends with `TimedOut`.
proof fn lemma_not_yet_runs_out(flow: TransferFlow, replies: Seq<Reply>)
    requires
        flow.stage is AwaitingFinality,
        replies.len() > polls_left(flow),
        forall|i: int| 0 <= i < replies.len() ==> #[trigger] replies[i] == Reply::Confirmation(false),
    ensures
        run(flow, replies).stage == Stage::Settled(Err(Failure::TimedOut)),
    decreases replies.len(),
{
    let step = flow.next(replies[0]);
    let rest = replies.drop_first();
    assert(replies[0] == Reply::Confirmation(false));
    if polls_left(flow) == 0 {
        lemma_settled_is_final(step.0, rest);
    } else {
        assert forall|i: int| 0 <= i < rest.len() implies #[trigger] rest[i] == Reply::Confirmation(
            false,
        ) by {
            assert(rest[i] == replies[i + 1]);
        }
        lemma_not_yet_runs_out(step.0, rest);
    }
}

/// Waiting for finality ends: where the transaction was submitted and the
/// node then says "not yet" as often as the policy allows, the transfer ends
/// with `TimedOut`, which is reported as `TransactionError`. Replies that
/// come after that change nothing.
pub proof fn lemma_unconfirmed_times_out(
    order: TransferOrder,
    policy: PollPolicy,
    blockhash: [u8; 32],
    signature: String,
    replies: Seq<Reply>,
)
    requires
        replies.len() >= 2 + policy.max_polls,
        replies[0] == Reply::Blockhash(blockhash),
        replies[1] == Reply::Signature(signature),
        forall|i: int| 2 <= i < replies.len() ==> #[trigger] replies[i] == Reply::Confirmation(false),
    ensures
        run(TransferFlow::started(order, policy), replies).stage == Stage::Settled(
            Err(Failure::TimedOut),
        ),
        run(TransferFlow::started(order, policy), replies).outcome() == Some(
            Err::<String, Error>(Error::TransactionError),
        ),
{
    let start = TransferFlow::started(order, policy);
    let submitted = start.next(replies[0]).0;
    let after_blockhash = replies.drop_first();
    assert(after_blockhash[0] == replies[1]);
    let polling = submitted.next(after_blockhash[0]).0;
    let not_yet = after_blockhash.drop_first();
    assert(run(start, replies) == run(submitted, after_blockhash));
    assert(run(submitted, after_blockhash) == run(polling, not_yet));
    assert forall|i: int| 0 <= i < not_yet.len() implies #[trigger] not_yet[i]
        == Reply::Confirmation(false) by {
        assert(not_yet[i] == replies[i + 2]);
    }
    if policy.max_polls == 0 {
        lemma_settled_is_final(polling, not_yet);
    } else {
        lemma_not_yet_runs_out(polling, not_yet);
    }
}

/// A flow that waits for finality, hears "not yet" while it may still ask
/// and then "final", ends with the signature it waited for.
proof fn lemma_final_after_not_yet(flow: TransferFlow, replies: Seq<Reply>)
    requires
        flow.stage is AwaitingFinality,
        replies.len() >= 1,
        replies.len() <= polls_left(flow) + 1,
        forall|i: int|
            0 <= i < replies.len() - 1 ==> #[trigger] replies[i] == Reply::Confirmation(false),
        replies.last() == Reply::Confirmation(true),
    ensures
        run(flow, replies).stage == Stage::Settled(Ok(flow.stage->AwaitingFinality_signature)),
    decreases replies.len(),
{
    let step = flow.next(replies[0]);
    let rest = replies.drop_first();
    if replies.len() == 1 {
        assert(run(step.0, rest) == step.0);
    } else {
        assert(replies[0] == Reply::Confirmation(false));
        assert(rest.last() == replies.last());
        assert forall|i: int| 0 <= i < rest.len() - 1 implies #[trigger] rest[i]
            == Reply::Confirmation(false) by {
            assert(rest[i] == replies[i + 1]);
        }
        lemma_final_after_not_yet(step.0, rest);
    }
}

/// Waiting for finality pays: where the node hands out a blockhash, takes
/// the transaction, says "not yet" fewer times than the policy allows
/// questions and then says "final", the transfer ends with the signature
/// under which the transaction was taken.
pub proof fn lemma_confirmed_in_time(
    order: TransferOrder,
    policy: PollPolicy,
    blockhash: [u8; 32],
    signature: String,
    replies: Seq<Reply>,
)
    requires
        3 <= replies.len() <= 2 + policy.max_polls,
        replies[0] == Reply::Blockhash(blockhash),
        replies[1] == Reply::Signature(signature),
        forall|i: int|
            2 <= i < replies.len() - 1 ==> #[trigger] replies[i] == Reply::Confirmation(false),
        replies.last() == Reply::Confirmation(true),
    ensures
        run(TransferFlow::started(order, policy), replies).outcome() == Some(
            Ok::<String, Error>(signature),
        ),
{
    let start = TransferFlow::started(order, policy);
    let submitted = start.next(replies[0]).0;
    let after_blockhash = replies.drop_first();
    assert(after_blockhash[0] == replies[1]);
    let polling = submitted.next(after_blockhash[0]).0;
    let answers = after_blockhash.drop_first();
    assert(run(start, replies) == run(submitted, after_blockhash));
    assert(run(submitted, after_blockhash) == run(polling, answers));
    assert(answers.last() == replies.last());
    assert forall|i: int| 0 <= i < answers.len() - 1 implies #[trigger] answers[i]
        == Reply::Confirmation(false) by {
        assert(answers[i] == replies[i + 2]);
    }
    lemma_final_after_not_yet(polling, answers);
}

/// A flow that waits for finality and ends well has heard "final", and ends
/// with the signature it waited for.
proof fn lemma_success_while_waiting(flow: TransferFlow, replies: Seq<Reply>, signature: String)
    requires
        flow.stage is AwaitingFinality,
        run(flow, replies).stage == Stage::Settled(Ok(signature)),
    ensures
        signature == flow.stage->AwaitingFinality_signature,
        exists|i: int| 0 <= i < replies.len() && #[trigger] replies[i] == Reply::Confirmation(true),
    decreases replies.len(),
{
    if replies.len() > 0 {
        let step = flow.next(replies[0]);
        let rest = replies.drop_first();
        if step.0.stage is Settled {
            lemma_settled_is_final(step.0, rest);
            assert(replies[0] == Reply::Confirmation(true));
        } else {
            lemma_success_while_waiting(step.0, rest, signature);
            let i = choose|i: int|
                0 <= i < rest.len() && #[trigger] rest[i] == Reply::Confirmation(true);
            assert(replies[i + 1] == rest[i]);
        }
    }
}

/// Success is never made up: a transfer that ends well was given a
/// blockhash, was taken by the node under the very signature it ends with,
/// and was then said to be final.
pub proof fn lemma_success_was_confirmed(
    order: TransferOrder,
    policy: PollPolicy,
    replies: Seq<Reply>,
    signature: String,
)
    requires
        run(TransferFlow::started(order, policy), replies).stage == Stage::Settled(Ok(signature)),
    ensures
        replies.len() >= 3,
        replies[0] is Blockhash,
        replies[1] == Reply::Signature(signature),
        exists|i: int| 2 <= i < replies.len() && #[trigger] replies[i] == Reply::Confirmation(true),
{
    let start = TransferFlow::started(order, policy);
    assert(replies.len() >= 1);
    let submitted = start.next(replies[0]).0;
    let after_blockhash = replies.drop_first();
    if submitted.stage is Settled {
        lemma_settled_is_final(submitted, after_blockhash);
    }
    assert(run(start, replies) == run(submitted, after_blockhash));
    assert(after_blockhash.len() >= 1);
    assert(after_blockhash[0] == replies[1]);
    let polling = submitted.next(after_blockhash[0]).0;
    let answers = after_blockhash.drop_first();
    if polling.stage is Settled {
        lemma_settled_is_final(polling, answers);
    }
    assert(run(submitted, after_blockhash) == run(polling, answers));
    lemma_success_while_waiting(polling, answers, signature);
    let i = choose|i: int|
        0 <= i < answers.len() && #[trigger] answers[i] == Reply::Confirmation(true);
    assert(replies[i + 2] == answers[i]);
}

} // verus!
