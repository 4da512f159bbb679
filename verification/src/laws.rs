//! System-wide guarantees of the command engine and of the accounting
//! subsystem, stated over their models and proved once for every sequence
//! of calls.

use vstd::prelude::*;
use vstd::arithmetic::div_mod::{lemma_add_mod_noop, lemma_mod_self_0, lemma_small_mod};
use bytes::Bytes;
use core::time::Duration;
use crate::command::{group_send, single_send, timeout_command, CommandModel};
use crate::messages::{DirectMessage, MessageContent, Request, Response};
use crate::stats::{StatsView, MSG_LOG_COUNT};

verus! {

/// One queueing call on a `Context`, at the model level: a direct push or
/// one of the convenience methods.
pub enum QueueCall<A> {
    Push(CommandModel<A>),
    SingleSend(A, Bytes),
    GroupSend(Seq<A>, usize, Bytes),
    Timeout(Duration, u64),
}

/// The command one queueing call appends.
pub open spec fn call_command<A>(call: QueueCall<A>) -> CommandModel<A> {
    match call {
        QueueCall::Push(command) => command,
        QueueCall::SingleSend(recipient, message) => single_send(recipient, message),
        QueueCall::GroupSend(recipients, delivery_group_size, message) => group_send(
            recipients,
            delivery_group_size,
            message,
        ),
        QueueCall::Timeout(duration, token) => timeout_command(duration, token),
    }
}

/// The queue after a sequence of queueing calls, applied in order.
pub open spec fn apply_queue_calls<A>(
    queue: Seq<CommandModel<A>>,
    calls: Seq<QueueCall<A>>,
) -> Seq<CommandModel<A>>
    decreases calls.len(),
{
    if calls.len() == 0 {
        queue
    } else {
        apply_queue_calls(queue, calls.drop_last()).push(call_command(calls.last()))
    }
}

/// Queue fidelity: any sequence of queueing calls on a fresh context
/// yields exactly one command per call, in call order — each call's own
/// command, nothing dropped, nothing reordered.
pub proof fn lemma_queue_fidelity<A>(calls: Seq<QueueCall<A>>)
    ensures
        apply_queue_calls(Seq::<CommandModel<A>>::empty(), calls) == calls.map_values(
            |c: QueueCall<A>| call_command(c),
        ),
    decreases calls.len(),
{
    if calls.len() == 0 {
        assert(apply_queue_calls(Seq::<CommandModel<A>>::empty(), calls) =~= calls.map_values(
            |c: QueueCall<A>| call_command(c),
        ));
    } else {
        lemma_queue_fidelity::<A>(calls.drop_last());
        assert(apply_queue_calls(Seq::<CommandModel<A>>::empty(), calls) =~= calls.map_values(
            |c: QueueCall<A>| call_command(c),
        ));
    }
}

/// One call into the accounting subsystem, at the model level.
pub enum CountingCall {
    Unacked,
    Route(nat),
    RequestMsg(Request),
    ResponseMsg(Response),
    RoutingMsg(MessageContent),
    DirectMsg(DirectMessage),
    TotalBytes(nat),
}

/// The counters after one counting call.
pub open spec fn apply_call(v: StatsView, call: CountingCall) -> StatsView {
    match call {
        CountingCall::Unacked => v.record_unacked(),
        CountingCall::Route(route) => v.record_route(route),
        CountingCall::RequestMsg(request) => v.record_request(request),
        CountingCall::ResponseMsg(response) => v.record_response(response),
        CountingCall::RoutingMsg(content) => v.record_routing(content),
        CountingCall::DirectMsg(msg) => v.record_direct(msg),
        CountingCall::TotalBytes(len) => v.record_bytes(len),
    }
}

/// The counters after a sequence of counting calls, applied in order.
pub open spec fn apply_calls(v: StatsView, calls: Seq<CountingCall>) -> StatsView
    decreases calls.len(),
{
    if calls.len() == 0 {
        v
    } else {
        apply_call(apply_calls(v, calls.drop_last()), calls.last())
    }
}

/// Whether a call is one of the four classification entry points.
pub open spec fn is_classification(call: CountingCall) -> bool {
    match call {
        CountingCall::RequestMsg(_) => true,
        CountingCall::ResponseMsg(_) => true,
        CountingCall::RoutingMsg(_) => true,
        CountingCall::DirectMsg(_) => true,
        _ => false,
    }
}

/// Whether a call is the one explicitly-skipped sub-case: a routing
/// classification carrying a fragment of a user message.
pub open spec fn is_fragment_skip(call: CountingCall) -> bool {
    call matches CountingCall::RoutingMsg(MessageContent::UserMessagePart)
}

/// How many of `calls` are classification calls.
pub open spec fn classification_calls(calls: Seq<CountingCall>) -> nat
    decreases calls.len(),
{
    if calls.len() == 0 {
        0
    } else {
        classification_calls(calls.drop_last()) + if is_classification(calls.last()) {
            1nat
        } else {
            0nat
        }
    }
}

/// How many of `calls` are fragment-skip cases.
pub open spec fn fragment_skips(calls: Seq<CountingCall>) -> nat
    decreases calls.len(),
{
    if calls.len() == 0 {
        0
    } else {
        fragment_skips(calls.drop_last()) + if is_fragment_skip(calls.last()) {
            1nat
        } else {
            0nat
        }
    }
}

/// Every counter of `a` is at most the matching counter of `b`.
pub open spec fn counters_le(a: StatsView, b: StatsView) -> bool {
    &&& a.routes.len() == b.routes.len()
    &&& forall|i: int| 0 <= i < a.routes.len() ==> a.routes[i] <= b.routes[i]
    &&& a.unacked_msgs <= b.unacked_msgs
    &&& a.msg_direct_node_identify <= b.msg_direct_node_identify
    &&& a.msg_direct_new_node <= b.msg_direct_new_node
    &&& a.msg_direct_connection_unneeded <= b.msg_direct_connection_unneeded
    &&& a.msg_get <= b.msg_get
    &&& a.msg_put <= b.msg_put
    &&& a.msg_post <= b.msg_post
    &&& a.msg_delete <= b.msg_delete
    &&& a.msg_get_account_info <= b.msg_get_account_info
    &&& a.msg_get_close_group <= b.msg_get_close_group
    &&& a.msg_get_node_name <= b.msg_get_node_name
    &&& a.msg_expect_close_node <= b.msg_expect_close_node
    &&& a.msg_refresh <= b.msg_refresh
    &&& a.msg_connection_info <= b.msg_connection_info
    &&& a.msg_get_success <= b.msg_get_success
    &&& a.msg_get_failure <= b.msg_get_failure
    &&& a.msg_put_success <= b.msg_put_success
    &&& a.msg_put_failure <= b.msg_put_failure
    &&& a.msg_post_success <= b.msg_post_success
    &&& a.msg_post_failure <= b.msg_post_failure
    &&& a.msg_delete_success <= b.msg_delete_success
    &&& a.msg_delete_failure <= b.msg_delete_failure
    &&& a.msg_get_account_info_success <= b.msg_get_account_info_success
    &&& a.msg_get_account_info_failure <= b.msg_get_account_info_failure
    &&& a.msg_get_close_group_rsp <= b.msg_get_close_group_rsp
    &&& a.msg_get_node_name_rsp <= b.msg_get_node_name_rsp
    &&& a.msg_ack <= b.msg_ack
    &&& a.msg_hash <= b.msg_hash
    &&& a.msg_other <= b.msg_other
    &&& a.msg_total <= b.msg_total
    &&& a.msg_total_bytes <= b.msg_total_bytes
}

/// One counting call leaves every counter no smaller, and moves the
/// aggregate total by one exactly for a classification call that is not
/// the fragment-skip case.
pub proof fn lemma_call_monotone(v: StatsView, call: CountingCall)
    ensures
        counters_le(v, apply_call(v, call)),
        apply_call(v, call).msg_total == v.msg_total + if is_classification(call)
            && !is_fragment_skip(call) {
            1nat
        } else {
            0nat
        },
{
    match call {
        CountingCall::Route(route) => {
            if route < v.routes.len() {
                let after = v.record_route(route);
                assert forall|i: int| 0 <= i < v.routes.len() implies v.routes[i]
                    <= after.routes[i] by {
                    if i != route as int {
                        assert(after.routes[i] == v.routes[i]);
                    }
                }
            }
        },
        _ => {},
    }
}

/// `counters_le` is transitive.
pub proof fn lemma_counters_le_trans(a: StatsView, b: StatsView, c: StatsView)
    requires
        counters_le(a, b),
        counters_le(b, c),
    ensures
        counters_le(a, c),
{
    assert forall|i: int| 0 <= i < a.routes.len() implies a.routes[i] <= c.routes[i] by {
        assert(a.routes[i] <= b.routes[i]);
        assert(b.routes[i] <= c.routes[i]);
    }
}

/// Stats monotonicity: any sequence of counting calls leaves every counter
/// non-decreasing, and moves the aggregate total by exactly the number of
/// classification calls minus the number of fragment-skip cases among
/// them.
pub proof fn lemma_stats_monotonicity(v: StatsView, calls: Seq<CountingCall>)
    ensures
        counters_le(v, apply_calls(v, calls)),
        fragment_skips(calls) <= classification_calls(calls),
        apply_calls(v, calls).msg_total == v.msg_total + classification_calls(calls)
            - fragment_skips(calls),
    decreases calls.len(),
{
    if calls.len() == 0 {
    } else {
        let prefix = calls.drop_last();
        let last = calls.last();
        lemma_stats_monotonicity(v, prefix);
        let w = apply_calls(v, prefix);
        lemma_call_monotone(w, last);
        lemma_counters_le_trans(v, w, apply_call(w, last));
    }
}

/// Periodic reporting: starting from a total at which a report was just
/// due, none of the next `MSG_LOG_COUNT - 1` classified messages makes a
/// report due again, and the one after those does.
pub proof fn lemma_report_period(total: nat, advance: nat)
    requires
        total % (MSG_LOG_COUNT as nat) == 0,
    ensures
        0 < advance < MSG_LOG_COUNT ==> (total + advance) % (MSG_LOG_COUNT as nat) != 0,
        advance == MSG_LOG_COUNT ==> (total + advance) % (MSG_LOG_COUNT as nat) == 0,
{
    let m = MSG_LOG_COUNT as int;
    lemma_add_mod_noop(total as int, advance as int, m);
    if advance < MSG_LOG_COUNT {
        lemma_small_mod(advance, MSG_LOG_COUNT as nat);
    }
    if advance == MSG_LOG_COUNT {
        lemma_mod_self_0(m);
        lemma_small_mod(0, MSG_LOG_COUNT as nat);
    }
}

} // verus!
