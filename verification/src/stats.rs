//! Protocol-traffic accounting.

use vstd::prelude::*;
use crate::messages::{DirectMessage, MessageContent, Request, Response, RoutingMessage};

verus! {

/// The number of parallel routes tracked per message: the configured group
/// size.
pub const GROUP_SIZE: usize = 8;

/// The number of classified messages between two periodic report
/// snapshots.
pub const MSG_LOG_COUNT: usize = 500;

/// Mathematical model of the counters: one field per counter, plus one
/// route slot per replication route.
#[verifier::ext_equal]
pub struct StatsView {
    pub routes: Seq<nat>,
    pub unacked_msgs: nat,
    pub msg_direct_node_identify: nat,
    pub msg_direct_new_node: nat,
    pub msg_direct_connection_unneeded: nat,
    pub msg_get: nat,
    pub msg_put: nat,
    pub msg_post: nat,
    pub msg_delete: nat,
    pub msg_get_account_info: nat,
    pub msg_get_close_group: nat,
    pub msg_get_node_name: nat,
    pub msg_expect_close_node: nat,
    pub msg_refresh: nat,
    pub msg_connection_info: nat,
    pub msg_get_success: nat,
    pub msg_get_failure: nat,
    pub msg_put_success: nat,
    pub msg_put_failure: nat,
    pub msg_post_success: nat,
    pub msg_post_failure: nat,
    pub msg_delete_success: nat,
    pub msg_delete_failure: nat,
    pub msg_get_account_info_success: nat,
    pub msg_get_account_info_failure: nat,
    pub msg_get_close_group_rsp: nat,
    pub msg_get_node_name_rsp: nat,
    pub msg_ack: nat,
    pub msg_hash: nat,
    pub msg_other: nat,
    pub msg_total: nat,
    pub msg_total_bytes: nat,
}

impl StatsView {
    /// Every counter zero, one route slot per route.
    pub open spec fn initial() -> StatsView {
        StatsView {
            routes: Seq::new(GROUP_SIZE as nat, |i: int| 0),
            unacked_msgs: 0,
            msg_direct_node_identify: 0,
            msg_direct_new_node: 0,
            msg_direct_connection_unneeded: 0,
            msg_get: 0,
            msg_put: 0,
            msg_post: 0,
            msg_delete: 0,
            msg_get_account_info: 0,
            msg_get_close_group: 0,
            msg_get_node_name: 0,
            msg_expect_close_node: 0,
            msg_refresh: 0,
            msg_connection_info: 0,
            msg_get_success: 0,
            msg_get_failure: 0,
            msg_put_success: 0,
            msg_put_failure: 0,
            msg_post_success: 0,
            msg_post_failure: 0,
            msg_delete_success: 0,
            msg_delete_failure: 0,
            msg_get_account_info_success: 0,
            msg_get_account_info_failure: 0,
            msg_get_close_group_rsp: 0,
            msg_get_node_name_rsp: 0,
            msg_ack: 0,
            msg_hash: 0,
            msg_other: 0,
            msg_total: 0,
            msg_total_bytes: 0,
        }
    }

    /// One route slot per route.
    pub open spec fn wf(self) -> bool {
        self.routes.len() == GROUP_SIZE
    }

    /// The aggregate total advanced by one.
    pub open spec fn bump_total(self) -> StatsView {
        StatsView { msg_total: self.msg_total + 1, ..self }
    }

    /// A periodic report is due exactly when the aggregate total is a
    /// multiple of `MSG_LOG_COUNT`.
    pub open spec fn report_due(self) -> bool {
        self.msg_total % (MSG_LOG_COUNT as nat) == 0
    }

    /// The unacknowledged-message counter advanced by one.
    pub open spec fn record_unacked(self) -> StatsView {
        StatsView { unacked_msgs: self.unacked_msgs + 1, ..self }
    }

    /// The counter for `route` advanced by one; an out-of-range route
    /// leaves every counter unchanged.
    pub open spec fn record_route(self, route: nat) -> StatsView {
        if route < self.routes.len() {
            StatsView {
                routes: self.routes.update(route as int, self.routes[route as int] + 1),
                ..self
            }
        } else {
            self
        }
    }

    /// The byte counter advanced by `len`.
    pub open spec fn record_bytes(self, len: nat) -> StatsView {
        StatsView { msg_total_bytes: self.msg_total_bytes + len, ..self }
    }

    /// The bucket for `request`, before the total advances.
    pub open spec fn request_bucketed(self, request: Request) -> StatsView {
        match request {
            Request::Refresh => StatsView { msg_refresh: self.msg_refresh + 1, ..self },
            Request::Get => StatsView { msg_get: self.msg_get + 1, ..self },
            Request::Put => StatsView { msg_put: self.msg_put + 1, ..self },
            Request::Post => StatsView { msg_post: self.msg_post + 1, ..self },
            Request::Delete => StatsView { msg_delete: self.msg_delete + 1, ..self },
            Request::GetAccountInfo => StatsView {
                msg_get_account_info: self.msg_get_account_info + 1,
                ..self
            },
        }
    }

    /// The counters after one classified request.
    pub open spec fn record_request(self, request: Request) -> StatsView {
        self.request_bucketed(request).bump_total()
    }

    /// The bucket for `response`, before the total advances.
    pub open spec fn response_bucketed(self, response: Response) -> StatsView {
        match response {
            Response::GetSuccess => StatsView { msg_get_success: self.msg_get_success + 1, ..self },
            Response::GetFailure => StatsView { msg_get_failure: self.msg_get_failure + 1, ..self },
            Response::PutSuccess => StatsView { msg_put_success: self.msg_put_success + 1, ..self },
            Response::PutFailure => StatsView { msg_put_failure: self.msg_put_failure + 1, ..self },
            Response::PostSuccess => StatsView {
                msg_post_success: self.msg_post_success + 1,
                ..self
            },
            Response::PostFailure => StatsView {
                msg_post_failure: self.msg_post_failure + 1,
                ..self
            },
            Response::DeleteSuccess => StatsView {
                msg_delete_success: self.msg_delete_success + 1,
                ..self
            },
            Response::DeleteFailure => StatsView {
                msg_delete_failure: self.msg_delete_failure + 1,
                ..self
            },
            Response::GetAccountInfoSuccess => StatsView {
                msg_get_account_info_success: self.msg_get_account_info_success + 1,
                ..self
            },
            Response::GetAccountInfoFailure => StatsView {
                msg_get_account_info_failure: self.msg_get_account_info_failure + 1,
                ..self
            },
        }
    }

    /// The counters after one classified response.
    pub open spec fn record_response(self, response: Response) -> StatsView {
        self.response_bucketed(response).bump_total()
    }

    /// The bucket for a routing-message content kind, before the total
    /// advances. Never applied to a `UserMessagePart`.
    pub open spec fn routing_bucketed(self, content: MessageContent) -> StatsView {
        match content {
            MessageContent::GetNodeName => StatsView {
                msg_get_node_name: self.msg_get_node_name + 1,
                ..self
            },
            MessageContent::ExpectCloseNode => StatsView {
                msg_expect_close_node: self.msg_expect_close_node + 1,
                ..self
            },
            MessageContent::GetCloseGroup => StatsView {
                msg_get_close_group: self.msg_get_close_group + 1,
                ..self
            },
            MessageContent::ConnectionInfo => StatsView {
                msg_connection_info: self.msg_connection_info + 1,
                ..self
            },
            MessageContent::GetCloseGroupResponse => StatsView {
                msg_get_close_group_rsp: self.msg_get_close_group_rsp + 1,
                ..self
            },
            MessageContent::GetNodeNameResponse => StatsView {
                msg_get_node_name_rsp: self.msg_get_node_name_rsp + 1,
                ..self
            },
            MessageContent::Ack => StatsView { msg_ack: self.msg_ack + 1, ..self },
            MessageContent::GroupMessageHash => StatsView { msg_hash: self.msg_hash + 1, ..self },
            MessageContent::UserMessagePart => self,
        }
    }

    /// The counters after one routing message: a fragment of a user
    /// message changes nothing (it is counted once reassembled, as a
    /// request or response); every other kind lands in its bucket and
    /// advances the total.
    pub open spec fn record_routing(self, content: MessageContent) -> StatsView {
        if content is UserMessagePart {
            self
        } else {
            self.routing_bucketed(content).bump_total()
        }
    }

    /// The bucket for `msg`, before the total advances.
    pub open spec fn direct_bucketed(self, msg: DirectMessage) -> StatsView {
        match msg {
            DirectMessage::NodeIdentify => StatsView {
                msg_direct_node_identify: self.msg_direct_node_identify + 1,
                ..self
            },
            DirectMessage::NewNode => StatsView {
                msg_direct_new_node: self.msg_direct_new_node + 1,
                ..self
            },
            DirectMessage::ConnectionUnneeded => StatsView {
                msg_direct_connection_unneeded: self.msg_direct_connection_unneeded + 1,
                ..self
            },
            DirectMessage::Other => StatsView { msg_other: self.msg_other + 1, ..self },
        }
    }

    /// The counters after one classified direct message: every kind,
    /// the catch-all included, advances the total.
    pub open spec fn record_direct(self, msg: DirectMessage) -> StatsView {
        self.direct_bucketed(msg).bump_total()
    }

    /// The request bucket a request would land in.
    pub open spec fn request_count(self, request: Request) -> nat {
        match request {
            Request::Refresh => self.msg_refresh,
            Request::Get => self.msg_get,
            Request::Put => self.msg_put,
            Request::Post => self.msg_post,
            Request::Delete => self.msg_delete,
            Request::GetAccountInfo => self.msg_get_account_info,
        }
    }

    /// The response bucket a response would land in.
    pub open spec fn response_count(self, response: Response) -> nat {
        match response {
            Response::GetSuccess => self.msg_get_success,
            Response::GetFailure => self.msg_get_failure,
            Response::PutSuccess => self.msg_put_success,
            Response::PutFailure => self.msg_put_failure,
            Response::PostSuccess => self.msg_post_success,
            Response::PostFailure => self.msg_post_failure,
            Response::DeleteSuccess => self.msg_delete_success,
            Response::DeleteFailure => self.msg_delete_failure,
            Response::GetAccountInfoSuccess => self.msg_get_account_info_success,
            Response::GetAccountInfoFailure => self.msg_get_account_info_failure,
        }
    }

    /// The bucket a routing-message content kind would land in; a fragment
    /// lands in none.
    pub open spec fn routing_count(self, content: MessageContent) -> nat {
        match content {
            MessageContent::GetNodeName => self.msg_get_node_name,
            MessageContent::ExpectCloseNode => self.msg_expect_close_node,
            MessageContent::GetCloseGroup => self.msg_get_close_group,
            MessageContent::ConnectionInfo => self.msg_connection_info,
            MessageContent::GetCloseGroupResponse => self.msg_get_close_group_rsp,
            MessageContent::GetNodeNameResponse => self.msg_get_node_name_rsp,
            MessageContent::Ack => self.msg_ack,
            MessageContent::GroupMessageHash => self.msg_hash,
            MessageContent::UserMessagePart => 0,
        }
    }

    /// The bucket a direct message would land in.
    pub open spec fn direct_count(self, msg: DirectMessage) -> nat {
        match msg {
            DirectMessage::NodeIdentify => self.msg_direct_node_identify,
            DirectMessage::NewNode => self.msg_direct_new_node,
            DirectMessage::ConnectionUnneeded => self.msg_direct_connection_unneeded,
            DirectMessage::Other => self.msg_other,
        }
    }
}

/// A collection of counters gathering routing statistics: a cumulative,
/// in-memory picture of protocol traffic for operational observability.
/// Purely an observer — it never influences routing decisions, and every
/// counter is monotonically non-decreasing (never reset, never
/// decremented).
pub struct Stats {
    /// Messages sent by us on each route.
    routes: Vec<usize>,
    /// Messages sent unsuccessfully: unacknowledged on all routes.
    unacked_msgs: usize,
    msg_direct_node_identify: usize,
    msg_direct_new_node: usize,
    msg_direct_connection_unneeded: usize,
    msg_get: usize,
    msg_put: usize,
    msg_post: usize,
    msg_delete: usize,
    msg_get_account_info: usize,
    msg_get_close_group: usize,
    msg_get_node_name: usize,
    msg_expect_close_node: usize,
    msg_refresh: usize,
    msg_connection_info: usize,
    msg_get_success: usize,
    msg_get_failure: usize,
    msg_put_success: usize,
    msg_put_failure: usize,
    msg_post_success: usize,
    msg_post_failure: usize,
    msg_delete_success: usize,
    msg_delete_failure: usize,
    msg_get_account_info_success: usize,
    msg_get_account_info_failure: usize,
    msg_get_close_group_rsp: usize,
    msg_get_node_name_rsp: usize,
    msg_ack: usize,
    msg_hash: usize,
    msg_other: usize,
    msg_total: usize,
    msg_total_bytes: u64,
}

impl View for Stats {
    type V = StatsView;

    closed spec fn view(&self) -> StatsView {
        StatsView {
            routes: self.routes@.map_values(|c: usize| c as nat),
            unacked_msgs: self.unacked_msgs as nat,
            msg_direct_node_identify: self.msg_direct_node_identify as nat,
            msg_direct_new_node: self.msg_direct_new_node as nat,
            msg_direct_connection_unneeded: self.msg_direct_connection_unneeded as nat,
            msg_get: self.msg_get as nat,
            msg_put: self.msg_put as nat,
            msg_post: self.msg_post as nat,
            msg_delete: self.msg_delete as nat,
            msg_get_account_info: self.msg_get_account_info as nat,
            msg_get_close_group: self.msg_get_close_group as nat,
            msg_get_node_name: self.msg_get_node_name as nat,
            msg_expect_close_node: self.msg_expect_close_node as nat,
            msg_refresh: self.msg_refresh as nat,
            msg_connection_info: self.msg_connection_info as nat,
            msg_get_success: self.msg_get_success as nat,
            msg_get_failure: self.msg_get_failure as nat,
            msg_put_success: self.msg_put_success as nat,
            msg_put_failure: self.msg_put_failure as nat,
            msg_post_success: self.msg_post_success as nat,
            msg_post_failure: self.msg_post_failure as nat,
            msg_delete_success: self.msg_delete_success as nat,
            msg_delete_failure: self.msg_delete_failure as nat,
            msg_get_account_info_success: self.msg_get_account_info_success as nat,
            msg_get_account_info_failure: self.msg_get_account_info_failure as nat,
            msg_get_close_group_rsp: self.msg_get_close_group_rsp as nat,
            msg_get_node_name_rsp: self.msg_get_node_name_rsp as nat,
            msg_ack: self.msg_ack as nat,
            msg_hash: self.msg_hash as nat,
            msg_other: self.msg_other as nat,
            msg_total: self.msg_total as nat,
            msg_total_bytes: self.msg_total_bytes as nat,
        }
    }
}

impl Stats {
    /// A fresh object with every counter zero.
    pub fn new() -> (r: Stats)
        ensures
            r@ == StatsView::initial(),
            r@.wf(),
    {
        let mut routes: Vec<usize> = Vec::new();
        let mut i: usize = 0;
        while i < GROUP_SIZE
            invariant
                i <= GROUP_SIZE,
                routes@.len() == i,
                forall|j: int| 0 <= j < i ==> routes@[j] == 0usize,
            decreases GROUP_SIZE - i,
        {
            routes.push(0);
            i = i + 1;
        }
        let r = Stats {
            routes,
            unacked_msgs: 0,
            msg_direct_node_identify: 0,
            msg_direct_new_node: 0,
            msg_direct_connection_unneeded: 0,
            msg_get: 0,
            msg_put: 0,
            msg_post: 0,
            msg_delete: 0,
            msg_get_account_info: 0,
            msg_get_close_group: 0,
            msg_get_node_name: 0,
            msg_expect_close_node: 0,
            msg_refresh: 0,
            msg_connection_info: 0,
            msg_get_success: 0,
            msg_get_failure: 0,
            msg_put_success: 0,
            msg_put_failure: 0,
            msg_post_success: 0,
            msg_post_failure: 0,
            msg_delete_success: 0,
            msg_delete_failure: 0,
            msg_get_account_info_success: 0,
            msg_get_account_info_failure: 0,
            msg_get_close_group_rsp: 0,
            msg_get_node_name_rsp: 0,
            msg_ack: 0,
            msg_hash: 0,
            msg_other: 0,
            msg_total: 0,
            msg_total_bytes: 0,
        };
        proof {
            assert(r@ =~= StatsView::initial());
        }
        r
    }

    /// Increment the unacknowledged-message counter: called by the retry
    /// logic when a send received no acknowledgment on any route within
    /// its retry window.
    pub fn count_unacked(&mut self)
        requires
            old(self)@.unacked_msgs < usize::MAX,
        ensures
            final(self)@ == old(self)@.record_unacked(),
    {
        self.unacked_msgs = self.unacked_msgs + 1;
        proof {
            assert(self@ =~= old(self)@.record_unacked());
        }
    }

    /// Increment the counter for `route`. An out-of-range route number is
    /// a reportable anomaly, never a crash: every counter is left
    /// unchanged and the caller's edge may log the anomaly.
    pub fn count_route(&mut self, route: u8)
        requires
            old(self)@.wf(),
            (route as int) < old(self)@.routes.len() ==> old(self)@.routes[route as int]
                < usize::MAX,
        ensures
            final(self)@ == old(self)@.record_route(route as nat),
            GROUP_SIZE <= route ==> final(self)@ == old(self)@,
    {
        if (route as usize) < self.routes.len() {
            let bumped = self.routes[route as usize] + 1;
            self.routes[route as usize] = bumped;
            proof {
                assert(self@.routes =~= old(self)@.record_route(route as nat).routes);
                assert(self@ =~= old(self)@.record_route(route as nat));
            }
        }
    }

    /// Classify a user-data request into its bucket, then advance the
    /// aggregate total; returns whether a periodic report is now due.
    pub fn count_request(&mut self, request: &Request) -> (report: bool)
        requires
            old(self)@.request_count(*request) < usize::MAX,
            old(self)@.msg_total < usize::MAX,
        ensures
            final(self)@ == old(self)@.record_request(*request),
            report == final(self)@.report_due(),
    {
        match *request {
            Request::Refresh => self.msg_refresh = self.msg_refresh + 1,
            Request::Get => self.msg_get = self.msg_get + 1,
            Request::Put => self.msg_put = self.msg_put + 1,
            Request::Post => self.msg_post = self.msg_post + 1,
            Request::Delete => self.msg_delete = self.msg_delete + 1,
            Request::GetAccountInfo => self.msg_get_account_info = self.msg_get_account_info + 1,
        }
        proof {
            assert(self@ =~= old(self)@.request_bucketed(*request));
        }
        self.increment_msg_total()
    }

    /// Classify a user-data response into its bucket, then advance the
    /// aggregate total; returns whether a periodic report is now due.
    pub fn count_response(&mut self, response: &Response) -> (report: bool)
        requires
            old(self)@.response_count(*response) < usize::MAX,
            old(self)@.msg_total < usize::MAX,
        ensures
            final(self)@ == old(self)@.record_response(*response),
            report == final(self)@.report_due(),
    {
        match *response {
            Response::GetSuccess => self.msg_get_success = self.msg_get_success + 1,
            Response::GetFailure => self.msg_get_failure = self.msg_get_failure + 1,
            Response::PutSuccess => self.msg_put_success = self.msg_put_success + 1,
            Response::PutFailure => self.msg_put_failure = self.msg_put_failure + 1,
            Response::PostSuccess => self.msg_post_success = self.msg_post_success + 1,
            Response::PostFailure => self.msg_post_failure = self.msg_post_failure + 1,
            Response::DeleteSuccess => self.msg_delete_success = self.msg_delete_success + 1,
            Response::DeleteFailure => self.msg_delete_failure = self.msg_delete_failure + 1,
            Response::GetAccountInfoSuccess => self.msg_get_account_info_success = self
                .msg_get_account_info_success + 1,
            Response::GetAccountInfoFailure => self.msg_get_account_info_failure = self
                .msg_get_account_info_failure + 1,
        }
        proof {
            assert(self@ =~= old(self)@.response_bucketed(*response));
        }
        self.increment_msg_total()
    }

    /// Classify an internal routing message by its content kind, then
    /// advance the aggregate total; returns whether a periodic report is
    /// now due. One sub-case is explicitly excluded from both its own
    /// bucket and the total: a `UserMessagePart` is one fragment of a
    /// larger user message, already accounted for once the fragments are
    /// reassembled and classified as a request or response — counting it
    /// here would double-count.
    pub fn count_routing_message(&mut self, msg: &RoutingMessage) -> (report: bool)
        requires
            !(msg.content is UserMessagePart) ==> old(self)@.routing_count(msg.content)
                < usize::MAX && old(self)@.msg_total < usize::MAX,
        ensures
            final(self)@ == old(self)@.record_routing(msg.content),
            msg.content is UserMessagePart ==> final(self)@ == old(self)@ && report == false,
            report == (!(msg.content is UserMessagePart) && final(self)@.report_due()),
    {
        match msg.content {
            MessageContent::GetNodeName => self.msg_get_node_name = self.msg_get_node_name + 1,
            MessageContent::ExpectCloseNode => self.msg_expect_close_node = self
                .msg_expect_close_node + 1,
            MessageContent::GetCloseGroup => self.msg_get_close_group = self.msg_get_close_group
                + 1,
            MessageContent::ConnectionInfo => self.msg_connection_info = self.msg_connection_info
                + 1,
            MessageContent::GetCloseGroupResponse => self.msg_get_close_group_rsp = self
                .msg_get_close_group_rsp + 1,
            MessageContent::GetNodeNameResponse => self.msg_get_node_name_rsp = self
                .msg_get_node_name_rsp + 1,
            MessageContent::Ack => self.msg_ack = self.msg_ack + 1,
            MessageContent::GroupMessageHash => self.msg_hash = self.msg_hash + 1,
            MessageContent::UserMessagePart => {
                // Counted once reassembled, as a request or response.
                return false;
            },
        }
        proof {
            assert(self@ =~= old(self)@.routing_bucketed(msg.content));
        }
        self.increment_msg_total()
    }

    /// Classify a direct peer control message, then advance the aggregate
    /// total; returns whether a periodic report is now due. An
    /// unrecognized kind falls into the catch-all bucket — that is not an
    /// error, and it still advances the total.
    pub fn count_direct_message(&mut self, msg: &DirectMessage) -> (report: bool)
        requires
            old(self)@.direct_count(*msg) < usize::MAX,
            old(self)@.msg_total < usize::MAX,
        ensures
            final(self)@ == old(self)@.record_direct(*msg),
            report == final(self)@.report_due(),
    {
        match *msg {
            DirectMessage::NodeIdentify => self.msg_direct_node_identify = self
                .msg_direct_node_identify + 1,
            DirectMessage::NewNode => self.msg_direct_new_node = self.msg_direct_new_node + 1,
            DirectMessage::ConnectionUnneeded => self.msg_direct_connection_unneeded = self
                .msg_direct_connection_unneeded + 1,
            DirectMessage::Other => self.msg_other = self.msg_other + 1,
        }
        proof {
            assert(self@ =~= old(self)@.direct_bucketed(*msg));
        }
        self.increment_msg_total()
    }

    /// Add `len` to the cumulative byte counter, independent of and
    /// orthogonal to message classification.
    pub fn count_bytes(&mut self, len: usize)
        requires
            old(self)@.msg_total_bytes + len <= u64::MAX,
        ensures
            final(self)@ == old(self)@.record_bytes(len as nat),
    {
        self.msg_total_bytes = self.msg_total_bytes + (len as u64);
        proof {
            assert(self@ =~= old(self)@.record_bytes(len as nat));
        }
    }

    /// Advance the aggregate total and say whether a periodic report
    /// snapshot is now due: due exactly when the total is a multiple of
    /// `MSG_LOG_COUNT`. The caller's edge emits the snapshot; no counter
    /// is ever reset, so the reported numbers are always cumulative.
    fn increment_msg_total(&mut self) -> (report: bool)
        requires
            old(self)@.msg_total < usize::MAX,
        ensures
            final(self)@ == old(self)@.bump_total(),
            report == final(self)@.report_due(),
    {
        self.msg_total = self.msg_total + 1;
        proof {
            assert(self@ =~= old(self)@.bump_total());
        }
        self.msg_total % MSG_LOG_COUNT == 0
    }

    /// A copy of every counter at this instant, for the periodic report
    /// and for observers; taking it never perturbs the live counters.
    pub fn snapshot(&self) -> (r: StatsSnapshot)
        ensures
            r@ == self@,
    {
        let mut routes: Vec<usize> = Vec::new();
        let mut i: usize = 0;
        while i < self.routes.len()
            invariant
                i <= self.routes.len(),
                routes@ == self.routes@.subrange(0, i as int),
            decreases self.routes.len() - i,
        {
            routes.push(self.routes[i]);
            i = i + 1;
            proof {
                assert(routes@ =~= self.routes@.subrange(0, i as int));
            }
        }
        proof {
            assert(routes@ =~= self.routes@);
        }
        let r = StatsSnapshot {
            routes,
            unacked_msgs: self.unacked_msgs,
            msg_direct_node_identify: self.msg_direct_node_identify,
            msg_direct_new_node: self.msg_direct_new_node,
            msg_direct_connection_unneeded: self.msg_direct_connection_unneeded,
            msg_get: self.msg_get,
            msg_put: self.msg_put,
            msg_post: self.msg_post,
            msg_delete: self.msg_delete,
            msg_get_account_info: self.msg_get_account_info,
            msg_get_close_group: self.msg_get_close_group,
            msg_get_node_name: self.msg_get_node_name,
            msg_expect_close_node: self.msg_expect_close_node,
            msg_refresh: self.msg_refresh,
            msg_connection_info: self.msg_connection_info,
            msg_get_success: self.msg_get_success,
            msg_get_failure: self.msg_get_failure,
            msg_put_success: self.msg_put_success,
            msg_put_failure: self.msg_put_failure,
            msg_post_success: self.msg_post_success,
            msg_post_failure: self.msg_post_failure,
            msg_delete_success: self.msg_delete_success,
            msg_delete_failure: self.msg_delete_failure,
            msg_get_account_info_success: self.msg_get_account_info_success,
            msg_get_account_info_failure: self.msg_get_account_info_failure,
            msg_get_close_group_rsp: self.msg_get_close_group_rsp,
            msg_get_node_name_rsp: self.msg_get_node_name_rsp,
            msg_ack: self.msg_ack,
            msg_hash: self.msg_hash,
            msg_other: self.msg_other,
            msg_total: self.msg_total,
            msg_total_bytes: self.msg_total_bytes,
        };
        proof {
            assert(r@ =~= self@);
        }
        r
    }
}

impl Default for Stats {
    /// Same as [`Stats::new`]: every counter zero.
    fn default() -> (r: Stats)
        ensures
            r@ == StatsView::initial(),
    {
        Stats::new()
    }
}

/// What the periodic report and other observers read: a plain copy of
/// every counter, with the same model as the live object.
#[derive(Clone, Debug, PartialEq, Eq)]
pub struct StatsSnapshot {
    pub routes: Vec<usize>,
    pub unacked_msgs: usize,
    pub msg_direct_node_identify: usize,
    pub msg_direct_new_node: usize,
    pub msg_direct_connection_unneeded: usize,
    pub msg_get: usize,
    pub msg_put: usize,
    pub msg_post: usize,
    pub msg_delete: usize,
    pub msg_get_account_info: usize,
    pub msg_get_close_group: usize,
    pub msg_get_node_name: usize,
    pub msg_expect_close_node: usize,
    pub msg_refresh: usize,
    pub msg_connection_info: usize,
    pub msg_get_success: usize,
    pub msg_get_failure: usize,
    pub msg_put_success: usize,
    pub msg_put_failure: usize,
    pub msg_post_success: usize,
    pub msg_post_failure: usize,
    pub msg_delete_success: usize,
    pub msg_delete_failure: usize,
    pub msg_get_account_info_success: usize,
    pub msg_get_account_info_failure: usize,
    pub msg_get_close_group_rsp: usize,
    pub msg_get_node_name_rsp: usize,
    pub msg_ack: usize,
    pub msg_hash: usize,
    pub msg_other: usize,
    pub msg_total: usize,
    pub msg_total_bytes: u64,
}

impl View for StatsSnapshot {
    type V = StatsView;

    closed spec fn view(&self) -> StatsView {
        StatsView {
            routes: self.routes@.map_values(|c: usize| c as nat),
            unacked_msgs: self.unacked_msgs as nat,
            msg_direct_node_identify: self.msg_direct_node_identify as nat,
            msg_direct_new_node: self.msg_direct_new_node as nat,
            msg_direct_connection_unneeded: self.msg_direct_connection_unneeded as nat,
            msg_get: self.msg_get as nat,
            msg_put: self.msg_put as nat,
            msg_post: self.msg_post as nat,
            msg_delete: self.msg_delete as nat,
            msg_get_account_info: self.msg_get_account_info as nat,
            msg_get_close_group: self.msg_get_close_group as nat,
            msg_get_node_name: self.msg_get_node_name as nat,
            msg_expect_close_node: self.msg_expect_close_node as nat,
            msg_refresh: self.msg_refresh as nat,
            msg_connection_info: self.msg_connection_info as nat,
            msg_get_success: self.msg_get_success as nat,
            msg_get_failure: self.msg_get_failure as nat,
            msg_put_success: self.msg_put_success as nat,
            msg_put_failure: self.msg_put_failure as nat,
            msg_post_success: self.msg_post_success as nat,
            msg_post_failure: self.msg_post_failure as nat,
            msg_delete_success: self.msg_delete_success as nat,
            msg_delete_failure: self.msg_delete_failure as nat,
            msg_get_account_info_success: self.msg_get_account_info_success as nat,
            msg_get_account_info_failure: self.msg_get_account_info_failure as nat,
            msg_get_close_group_rsp: self.msg_get_close_group_rsp as nat,
            msg_get_node_name_rsp: self.msg_get_node_name_rsp as nat,
            msg_ack: self.msg_ack as nat,
            msg_hash: self.msg_hash as nat,
            msg_other: self.msg_other as nat,
            msg_total: self.msg_total as nat,
            msg_total_bytes: self.msg_total_bytes as nat,
        }
    }
}

} // verus!
