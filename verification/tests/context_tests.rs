use bytes::Bytes;
use core::time::Duration;
use routing_core::command::Command;
use routing_core::context::Context;
use routing_core::timer::TimerTokenAllocator;
use tokio::sync::mpsc::unbounded_channel;

fn fresh_context() -> Context<u16, u32> {
    let (tx, rx) = unbounded_channel();
    // The tests that do not observe events may drop the receiver: event
    // delivery is best-effort by design.
    drop(rx);
    Context::new(tx)
}

#[test]
fn fresh_context_yields_no_commands() {
    let ctx = fresh_context();
    assert_eq!(ctx.into_commands().len(), 0);
}

#[test]
fn push_command_preserves_order_and_content() {
    let mut ctx = fresh_context();
    ctx.push_command(Command::ScheduleTimeout { duration: Duration::from_millis(5), token: 9 });
    ctx.push_command(Command::SendMessage {
        recipients: vec![1u16, 2u16],
        delivery_group_size: 2,
        message: Bytes::from(vec![0xAB]),
    });
    let commands = ctx.into_commands();
    assert_eq!(commands.len(), 2);
    match &commands[0] {
        Command::ScheduleTimeout { duration, token } => {
            assert_eq!(*duration, Duration::from_millis(5));
            assert_eq!(*token, 9);
        }
        _ => panic!("first command should be the timeout"),
    }
    match &commands[1] {
        Command::SendMessage { recipients, delivery_group_size, message } => {
            assert_eq!(recipients, &vec![1u16, 2u16]);
            assert_eq!(*delivery_group_size, 2);
            assert_eq!(message, &Bytes::from(vec![0xAB]));
        }
        _ => panic!("second command should be the send"),
    }
}

#[test]
fn queue_fidelity_across_call_kinds() {
    let mut tokens = TimerTokenAllocator::new();
    let mut ctx = fresh_context();
    ctx.push_command(Command::SendMessage {
        recipients: vec![3u16],
        delivery_group_size: 1,
        message: Bytes::from(vec![1]),
    });
    ctx.send_message_to_target(&4u16, Bytes::from(vec![2]));
    ctx.send_message_to_targets(&[5u16, 6u16, 7u16], 2, Bytes::from(vec![3]));
    ctx.schedule_timeout(Duration::from_secs(1), &mut tokens);
    let commands = ctx.into_commands();
    assert_eq!(commands.len(), 4);
    match &commands[1] {
        Command::SendMessage { recipients, delivery_group_size, message } => {
            assert_eq!(recipients, &vec![4u16]);
            assert_eq!(*delivery_group_size, 1);
            assert_eq!(message, &Bytes::from(vec![2]));
        }
        _ => panic!("second command should be the single-target send"),
    }
    match &commands[2] {
        Command::SendMessage { recipients, delivery_group_size, message } => {
            assert_eq!(recipients, &vec![5u16, 6u16, 7u16]);
            assert_eq!(*delivery_group_size, 2);
            assert_eq!(message, &Bytes::from(vec![3]));
        }
        _ => panic!("third command should be the group send"),
    }
    match &commands[3] {
        Command::ScheduleTimeout { duration, token } => {
            assert_eq!(*duration, Duration::from_secs(1));
            assert_eq!(*token, 0);
        }
        _ => panic!("fourth command should be the timeout"),
    }
}

#[test]
fn shorthand_matches_group_send() {
    let mut single = fresh_context();
    single.send_message_to_target(&8u16, Bytes::from(vec![42]));
    let mut group = fresh_context();
    group.send_message_to_targets(&[8u16], 1, Bytes::from(vec![42]));
    let single_commands = single.into_commands();
    let group_commands = group.into_commands();
    assert_eq!(single_commands.len(), 1);
    assert_eq!(group_commands.len(), 1);
    match (&single_commands[0], &group_commands[0]) {
        (
            Command::SendMessage { recipients: r1, delivery_group_size: d1, message: m1 },
            Command::SendMessage { recipients: r2, delivery_group_size: d2, message: m2 },
        ) => {
            assert_eq!(r1, r2);
            assert_eq!(d1, d2);
            assert_eq!(m1, m2);
            assert_eq!(r1, &vec![8u16]);
            assert_eq!(*d1, 1);
        }
        _ => panic!("both commands should be sends"),
    }
}

#[test]
fn scheduled_timeouts_keep_order_and_tokens_increase() {
    let mut tokens = TimerTokenAllocator::new();
    let mut ctx = fresh_context();
    let t0 = ctx.schedule_timeout(Duration::from_millis(100), &mut tokens);
    let t1 = ctx.schedule_timeout(Duration::from_millis(200), &mut tokens);
    let t2 = ctx.schedule_timeout(Duration::from_millis(50), &mut tokens);
    assert!(t0 < t1 && t1 < t2);
    assert_eq!(t1, t0 + 1);
    assert_eq!(t2, t1 + 1);
    let commands = ctx.into_commands();
    assert_eq!(commands.len(), 3);
    let expected = [(100u64, t0), (200u64, t1), (50u64, t2)];
    for (command, (millis, expected_token)) in commands.iter().zip(expected.iter()) {
        match command {
            Command::ScheduleTimeout { duration, token } => {
                assert_eq!(*duration, Duration::from_millis(*millis));
                assert_eq!(token, expected_token);
            }
            _ => panic!("every command should be a timeout"),
        }
    }
}

#[test]
fn allocator_tokens_distinct_and_sequential() {
    let mut tokens = TimerTokenAllocator::new();
    let a = tokens.next();
    let b = tokens.next();
    let c = tokens.next();
    assert_eq!(a, 0);
    assert_eq!(b, 1);
    assert_eq!(c, 2);
    assert!(a != b && b != c && a != c);
}

#[test]
fn allocator_seed_hook_sets_first_token() {
    let mut tokens = TimerTokenAllocator::starting_at(10);
    assert_eq!(tokens.next(), 10);
    assert_eq!(tokens.next(), 11);
}

#[test]
fn send_event_delivers_to_open_channel() {
    let (tx, mut rx) = unbounded_channel();
    let mut ctx: Context<u16, u32> = Context::new(tx);
    assert!(ctx.send_event(7));
    assert_eq!(rx.try_recv().unwrap(), 7);
}

#[test]
fn send_event_to_closed_channel_is_best_effort() {
    let (tx, rx) = unbounded_channel();
    let mut ctx: Context<u16, u32> = Context::new(tx);
    drop(rx);
    assert!(!ctx.send_event(7));
    // The failed delivery neither crashes nor perturbs the queue.
    ctx.send_message_to_target(&1u16, Bytes::from(vec![1]));
    assert_eq!(ctx.into_commands().len(), 1);
}
