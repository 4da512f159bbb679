//! The per-invocation effect accumulator.

use vstd::prelude::*;
use bytes::Bytes;
use core::time::Duration;
use tokio::sync::mpsc::UnboundedSender;
use crate::command::{group_send, models, single_send, timeout_command, Command, CommandModel};
use crate::timer::TimerTokenAllocator;

verus! {

/// `tokio::sync::mpsc::UnboundedSender` is the sending half of the node's
/// outgoing event channel; declared so a `Context` can hold one.
#[verifier::external_type_specification]
#[verifier::external_body]
#[verifier::reject_recursive_types(T)]
pub struct ExUnboundedSender<T>(UnboundedSender<T>);

/// Relies on `tokio::sync::mpsc::UnboundedSender::send`: the event is
/// delivered unless the receiving half has been dropped, and the call
/// never blocks or panics. Whether a consumer remains depends on the
/// environment, so nothing is promised of the result.
#[verifier::external_body]
fn sink_send<E>(sink: &UnboundedSender<E>, event: E) -> (delivered: bool) {
    sink.send(event).is_ok()
}

/// Scoped accumulator passed to every command-handler invocation: the
/// handler records the effects it wants to produce — outbound sends, timer
/// requests, user events — without performing them. An external executor
/// later drains the queue with [`Context::into_commands`] and applies the
/// effects in queue order.
///
/// A `Context` is single-use: created fresh per invocation, consumed
/// exactly once. `A` is the network address type, `E` the user-event type;
/// the accumulator inspects neither.
#[verifier::reject_recursive_types(E)]
pub struct Context<A, E> {
    command_queue: Vec<Command<A>>,
    event_tx: UnboundedSender<E>,
}

impl<A, E> Context<A, E> {
    /// The commands queued so far, in push order.
    pub closed spec fn commands(&self) -> Seq<CommandModel<A>> {
        models(self.command_queue@)
    }

    /// An empty queue bound to the given event sink (the node's single
    /// outgoing event channel, shared across all invocations).
    pub fn new(event_tx: UnboundedSender<E>) -> (r: Self)
        ensures
            r.commands() == Seq::<CommandModel<A>>::empty(),
    {
        let r = Self { command_queue: Vec::new(), event_tx };
        proof {
            assert(r.commands() =~= Seq::<CommandModel<A>>::empty());
        }
        r
    }

    /// Append `command` to the tail of the queue: no deduplication, no
    /// validation. Queue order is the order the executor will apply
    /// effects, and callers may rely on it.
    pub fn push_command(&mut self, command: Command<A>)
        ensures
            final(self).commands() == old(self).commands().push(command@),
    {
        self.command_queue.push(command);
        proof {
            assert(self.commands() =~= old(self).commands().push(command@));
        }
    }

    /// Draw the next token from `tokens`, push a `ScheduleTimeout` command
    /// carrying it and `duration`, and return it so the caller can match
    /// the eventual fired-timeout event against this request.
    pub fn schedule_timeout(
        &mut self,
        duration: Duration,
        tokens: &mut TimerTokenAllocator,
    ) -> (token: u64)
        requires
            old(tokens).wf(),
            old(tokens).upcoming() < u64::MAX,
        ensures
            token == old(tokens).upcoming(),
            final(tokens).wf(),
            final(tokens).upcoming() == token + 1,
            final(tokens).issued() == old(tokens).issued().push(token),
            final(self).commands() == old(self).commands().push(
                timeout_command::<A>(duration, token),
            ),
    {
        let token = tokens.next();
        self.push_command(Command::ScheduleTimeout { duration, token });
        token
    }

    /// Attempt to deliver `event` on the shared sink, best-effort: if no
    /// consumer remains the event is dropped and the caller's edge may log
    /// it, never an error — a handler must not be blocked or crashed by a
    /// disinterested downstream consumer. The queue is untouched either
    /// way.
    pub fn send_event(&mut self, event: E) -> (delivered: bool)
        ensures
            *final(self) == *old(self),
    {
        sink_send(&self.event_tx, event)
    }

    /// Consume the context, yielding its accumulated queue in insertion
    /// order.
    pub fn into_commands(self) -> (commands: Vec<Command<A>>)
        ensures
            models(commands@) == self.commands(),
    {
        self.command_queue
    }
}

impl<A: Copy, E> Context<A, E> {
    /// Convenience: push a `SendMessage` with a single recipient — a
    /// direct, non-redundant send to exactly one address.
    pub fn send_message_to_target(&mut self, recipient: &A, message: Bytes)
        ensures
            final(self).commands() == old(self).commands().push(single_send(*recipient, message)),
    {
        let mut recipients: Vec<A> = Vec::new();
        recipients.push(*recipient);
        proof {
            assert(recipients@ =~= seq![*recipient]);
        }
        self.push_command(
            Command::SendMessage { recipients, delivery_group_size: 1, message },
        );
    }

    /// Convenience: push a `SendMessage` with multiple recipients.
    /// `recipients` is the candidate set from which the executor should
    /// achieve `delivery_group_size` confirmed deliveries; a
    /// `delivery_group_size` greater than `recipients.len()` is not
    /// rejected here — that is the executor's concern.
    pub fn send_message_to_targets(
        &mut self,
        recipients: &[A],
        delivery_group_size: usize,
        message: Bytes,
    )
        ensures
            final(self).commands() == old(self).commands().push(
                group_send(recipients@, delivery_group_size, message),
            ),
    {
        let mut recipient_list: Vec<A> = Vec::new();
        let mut i: usize = 0;
        while i < recipients.len()
            invariant
                i <= recipients.len(),
                recipient_list@ == recipients@.subrange(0, i as int),
            decreases recipients.len() - i,
        {
            recipient_list.push(recipients[i]);
            i = i + 1;
            proof {
                assert(recipient_list@ =~= recipients@.subrange(0, i as int));
            }
        }
        proof {
            assert(recipient_list@ =~= recipients@);
        }
        self.push_command(
            Command::SendMessage { recipients: recipient_list, delivery_group_size, message },
        );
    }
}

} // verus!
