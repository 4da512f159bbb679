//! Deferred-effect commands.

use vstd::prelude::*;
use bytes::Bytes;
use core::time::Duration;

verus! {

/// `bytes::Bytes` is the opaque payload a `SendMessage` command carries;
/// the engine never inspects its contents. Declared so commands can hold
/// one; no operation on it is relied on.
#[verifier::external_type_specification]
#[verifier::external_body]
pub struct ExBytes(Bytes);

/// One action the executor must perform after a handling pass completes.
///
/// The set of deferred actions is open: the surrounding node runtime owns
/// further variants (disconnects, relays, ...), so consumers should not
/// assume these two cases are exhaustive.
#[non_exhaustive]
pub enum Command<A> {
    /// Send `message` to enough of `recipients` that `delivery_group_size`
    /// of them receive it: redundant multi-path delivery for reliability
    /// against single-path failure.
    SendMessage { recipients: Vec<A>, delivery_group_size: usize, message: Bytes },
    /// Fire a timeout after `duration`, identified by `token`, so the
    /// originating handler can correlate the eventual fire-event.
    ScheduleTimeout { duration: Duration, token: u64 },
}

/// Mathematical model of a `Command`: the recipient list as a sequence.
pub enum CommandModel<A> {
    SendMessage { recipients: Seq<A>, delivery_group_size: usize, message: Bytes },
    ScheduleTimeout { duration: Duration, token: u64 },
}

impl<A> View for Command<A> {
    type V = CommandModel<A>;

    open spec fn view(&self) -> CommandModel<A> {
        match self {
            Command::SendMessage { recipients, delivery_group_size, message } => {
                CommandModel::SendMessage {
                    recipients: recipients@,
                    delivery_group_size: *delivery_group_size,
                    message: *message,
                }
            },
            Command::ScheduleTimeout { duration, token } => {
                CommandModel::ScheduleTimeout { duration: *duration, token: *token }
            },
        }
    }
}

/// The models of a command sequence, in order.
pub open spec fn models<A>(commands: Seq<Command<A>>) -> Seq<CommandModel<A>> {
    commands.map_values(|c: Command<A>| c@)
}

/// The command a single-recipient send appends: a direct, non-redundant
/// send to exactly one address.
pub open spec fn single_send<A>(recipient: A, message: Bytes) -> CommandModel<A> {
    CommandModel::SendMessage { recipients: seq![recipient], delivery_group_size: 1, message }
}

/// The command a multi-recipient send appends.
pub open spec fn group_send<A>(
    recipients: Seq<A>,
    delivery_group_size: usize,
    message: Bytes,
) -> CommandModel<A> {
    CommandModel::SendMessage { recipients, delivery_group_size, message }
}

/// The command a timeout request appends.
pub open spec fn timeout_command<A>(duration: Duration, token: u64) -> CommandModel<A> {
    CommandModel::ScheduleTimeout { duration, token }
}

/// Shorthand equivalence: a send to a single target appends exactly the
/// command that a group send to the one-element recipient list with
/// delivery group size 1 appends, whatever the queue held before.
pub proof fn lemma_shorthand_equivalence<A>(
    queue: Seq<CommandModel<A>>,
    recipient: A,
    message: Bytes,
)
    ensures
        queue.push(single_send(recipient, message)) == queue.push(
            group_send(seq![recipient], 1, message),
        ),
{
}

} // verus!
