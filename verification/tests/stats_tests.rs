use routing_core::messages::{DirectMessage, MessageContent, Request, Response, RoutingMessage};
use routing_core::stats::{Stats, GROUP_SIZE, MSG_LOG_COUNT};

#[test]
fn fresh_stats_all_zero() {
    let stats = Stats::new();
    let snap = stats.snapshot();
    assert_eq!(snap.routes, vec![0; GROUP_SIZE]);
    assert_eq!(snap.unacked_msgs, 0);
    assert_eq!(snap.msg_total, 0);
    assert_eq!(snap.msg_total_bytes, 0);
    assert_eq!(snap.msg_other, 0);
}

#[test]
fn default_matches_new() {
    assert_eq!(Stats::default().snapshot(), Stats::new().snapshot());
}

#[test]
fn request_response_bytes_scenario() {
    let mut stats = Stats::new();
    stats.count_request(&Request::Get);
    stats.count_response(&Response::GetSuccess);
    stats.count_bytes(42);
    let snap = stats.snapshot();
    assert_eq!(snap.msg_get, 1);
    assert_eq!(snap.msg_get_success, 1);
    assert_eq!(snap.msg_total_bytes, 42);
    assert_eq!(snap.msg_total, 2);
}

#[test]
fn every_request_kind_lands_in_its_bucket() {
    let mut stats = Stats::new();
    for request in [
        Request::Refresh,
        Request::Get,
        Request::Put,
        Request::Post,
        Request::Delete,
        Request::GetAccountInfo,
    ] {
        stats.count_request(&request);
    }
    let snap = stats.snapshot();
    assert_eq!(snap.msg_refresh, 1);
    assert_eq!(snap.msg_get, 1);
    assert_eq!(snap.msg_put, 1);
    assert_eq!(snap.msg_post, 1);
    assert_eq!(snap.msg_delete, 1);
    assert_eq!(snap.msg_get_account_info, 1);
    assert_eq!(snap.msg_total, 6);
}

#[test]
fn every_response_kind_lands_in_its_bucket() {
    let mut stats = Stats::new();
    for response in [
        Response::GetSuccess,
        Response::GetFailure,
        Response::PutSuccess,
        Response::PutFailure,
        Response::PostSuccess,
        Response::PostFailure,
        Response::DeleteSuccess,
        Response::DeleteFailure,
        Response::GetAccountInfoSuccess,
        Response::GetAccountInfoFailure,
    ] {
        stats.count_response(&response);
    }
    let snap = stats.snapshot();
    assert_eq!(snap.msg_get_success, 1);
    assert_eq!(snap.msg_get_failure, 1);
    assert_eq!(snap.msg_put_success, 1);
    assert_eq!(snap.msg_put_failure, 1);
    assert_eq!(snap.msg_post_success, 1);
    assert_eq!(snap.msg_post_failure, 1);
    assert_eq!(snap.msg_delete_success, 1);
    assert_eq!(snap.msg_delete_failure, 1);
    assert_eq!(snap.msg_get_account_info_success, 1);
    assert_eq!(snap.msg_get_account_info_failure, 1);
    assert_eq!(snap.msg_total, 10);
}

#[test]
fn every_routing_kind_lands_in_its_bucket() {
    let mut stats = Stats::new();
    for content in [
        MessageContent::GetNodeName,
        MessageContent::ExpectCloseNode,
        MessageContent::GetCloseGroup,
        MessageContent::ConnectionInfo,
        MessageContent::GetCloseGroupResponse,
        MessageContent::GetNodeNameResponse,
        MessageContent::Ack,
        MessageContent::GroupMessageHash,
    ] {
        stats.count_routing_message(&RoutingMessage { content });
    }
    let snap = stats.snapshot();
    assert_eq!(snap.msg_get_node_name, 1);
    assert_eq!(snap.msg_expect_close_node, 1);
    assert_eq!(snap.msg_get_close_group, 1);
    assert_eq!(snap.msg_connection_info, 1);
    assert_eq!(snap.msg_get_close_group_rsp, 1);
    assert_eq!(snap.msg_get_node_name_rsp, 1);
    assert_eq!(snap.msg_ack, 1);
    assert_eq!(snap.msg_hash, 1);
    assert_eq!(snap.msg_total, 8);
}

#[test]
fn fragment_skip_leaves_every_counter_unchanged() {
    let mut stats = Stats::new();
    stats.count_request(&Request::Put);
    stats.count_route(1);
    let before = stats.snapshot();
    let report =
        stats.count_routing_message(&RoutingMessage { content: MessageContent::UserMessagePart });
    assert!(!report);
    assert_eq!(stats.snapshot(), before);
}

#[test]
fn direct_kinds_and_catch_all_advance_total() {
    let mut stats = Stats::new();
    stats.count_direct_message(&DirectMessage::NodeIdentify);
    stats.count_direct_message(&DirectMessage::NewNode);
    stats.count_direct_message(&DirectMessage::ConnectionUnneeded);
    stats.count_direct_message(&DirectMessage::Other);
    let snap = stats.snapshot();
    assert_eq!(snap.msg_direct_node_identify, 1);
    assert_eq!(snap.msg_direct_new_node, 1);
    assert_eq!(snap.msg_direct_connection_unneeded, 1);
    assert_eq!(snap.msg_other, 1);
    assert_eq!(snap.msg_total, 4);
}

#[test]
fn route_counters_track_each_route() {
    let mut stats = Stats::new();
    stats.count_route(0);
    stats.count_route(0);
    stats.count_route(7);
    let snap = stats.snapshot();
    assert_eq!(snap.routes, vec![2, 0, 0, 0, 0, 0, 0, 1]);
    // Routes are not classifications: the aggregate total is untouched.
    assert_eq!(snap.msg_total, 0);
}

#[test]
fn out_of_range_route_changes_nothing() {
    let mut stats = Stats::new();
    stats.count_route(3);
    let before = stats.snapshot();
    stats.count_route(GROUP_SIZE as u8);
    stats.count_route(255);
    assert_eq!(stats.snapshot(), before);
}

#[test]
fn unacked_counter_accumulates() {
    let mut stats = Stats::new();
    stats.count_unacked();
    stats.count_unacked();
    let snap = stats.snapshot();
    assert_eq!(snap.unacked_msgs, 2);
    assert_eq!(snap.msg_total, 0);
}

#[test]
fn bytes_accumulate_independently() {
    let mut stats = Stats::new();
    stats.count_bytes(40);
    stats.count_bytes(2);
    let snap = stats.snapshot();
    assert_eq!(snap.msg_total_bytes, 42);
    assert_eq!(snap.msg_total, 0);
}

#[test]
fn report_due_exactly_every_log_count_messages() {
    let mut stats = Stats::new();
    for i in 1..MSG_LOG_COUNT {
        assert!(!stats.count_direct_message(&DirectMessage::Other), "no report at {}", i);
    }
    assert!(stats.count_direct_message(&DirectMessage::Other));
    // The next period is cumulative: counters are never reset.
    for i in 1..MSG_LOG_COUNT {
        assert!(!stats.count_request(&Request::Get), "no report at {}", i);
    }
    assert!(stats.count_request(&Request::Get));
    assert_eq!(stats.snapshot().msg_total, 2 * MSG_LOG_COUNT);
}

#[test]
fn fragments_do_not_advance_the_report_period() {
    let mut stats = Stats::new();
    for _ in 1..MSG_LOG_COUNT {
        stats.count_response(&Response::PutSuccess);
    }
    let report =
        stats.count_routing_message(&RoutingMessage { content: MessageContent::UserMessagePart });
    assert!(!report);
    assert!(stats.count_response(&Response::PutFailure));
}
