use can_controller::can::{CanConfig, CanFrame, CanInterface, CanStats};
use can_controller::controller::{Controller, ControllerConfig, ControllerResponse};
use can_controller::query::{
    deadline_for, query_frame, query_value, PendingQuery, QueryPoll, DEFAULT_QUERY_TIMEOUT_MS,
    QUERY_FILL,
};

fn controller() -> Controller {
    Controller::new(CanInterface::new(CanConfig::default()), ControllerConfig::default())
}

#[test]
fn a_request_is_addressed_and_filled() {
    assert_eq!(QUERY_FILL, 0xFF);
    assert_eq!(query_frame(0x999), CanFrame { id: 0x999, data: [0xFF; 8] });
    assert_eq!(query_frame(0), CanFrame { id: 0, data: [0xFF; 8] });
}

#[test]
fn the_value_of_a_reply_is_its_first_byte() {
    let reply = CanFrame { id: 1, data: [0x2A, 9, 9, 9, 9, 9, 9, 9] };
    assert_eq!(query_value(&reply), 42);
    let reply = CanFrame { id: 1, data: [0xFF, 0, 0, 0, 0, 0, 0, 0] };
    assert_eq!(query_value(&reply), 255);
}

#[test]
fn the_deadline_is_the_beginning_plus_the_timeout() {
    assert_eq!(deadline_for(Some(50), 1_000), 1_050);
    assert_eq!(deadline_for(Some(0), 1_000), 1_000);
    assert_eq!(deadline_for(Some(u32::MAX), 0), 4_294_967_295);
    assert_eq!(deadline_for(Some(10), -100), -90);
}

#[test]
fn a_query_without_a_timeout_gets_the_default_one() {
    assert_eq!(DEFAULT_QUERY_TIMEOUT_MS, 1_000);
    assert_eq!(deadline_for(None, 5_000), 6_000);
}

#[test]
fn the_deadline_stops_at_the_end_of_time() {
    assert_eq!(deadline_for(Some(50), i64::MAX), i64::MAX);
    assert_eq!(deadline_for(Some(50), i64::MAX - 49), i64::MAX);
    assert_eq!(deadline_for(Some(50), i64::MAX - 50), i64::MAX);
    assert_eq!(deadline_for(Some(50), i64::MAX - 51), i64::MAX - 1);
}

#[test]
fn an_unanswered_query_times_out_at_its_deadline() {
    let mut c = controller();
    let pending = c.begin_query_at(0x999, Some(50), 1_000);
    assert_eq!(pending, PendingQuery { address: 0x999, deadline: 1_050 });
    assert_eq!(c.bus_stats(), CanStats { rx: 0, tx: 1 });
    assert_eq!(c.poll_query_at(&pending, 1_000), QueryPoll::Waiting);
    assert_eq!(c.poll_query_at(&pending, 1_049), QueryPoll::Waiting);
    assert_eq!(c.poll_query_at(&pending, 1_050), QueryPoll::TimedOut);
    assert_eq!(c.poll_query_at(&pending, 1_051), QueryPoll::TimedOut);
    assert_eq!(
        ControllerResponse::for_query(QueryPoll::TimedOut),
        Some(ControllerResponse::Query(0))
    );
    // The timeout took nothing from the bus.
    assert_eq!(c.bus_stats(), CanStats { rx: 0, tx: 1 });
}

#[test]
fn a_query_with_no_time_to_wait_resolves_at_once() {
    let mut c = controller();
    let pending = c.begin_query_at(0x10, Some(0), 7_000);
    assert_eq!(c.poll_query_at(&pending, 7_000), QueryPoll::TimedOut);
}

#[test]
fn a_reply_within_the_deadline_resolves_the_query() {
    let mut c = controller();
    let pending = c.begin_query_at(0x10, None, 1_000);
    assert_eq!(pending.deadline, 2_000);
    assert_eq!(c.poll_query_at(&pending, 1_750), QueryPoll::Waiting);
    // The echo of the request: 0xFF shifted by the carry 0xFF.
    assert_eq!(c.poll_query_at(&pending, 1_751), QueryPoll::Reply(0xFE));
    assert_eq!(c.bus_stats(), CanStats { rx: 1, tx: 1 });
    assert_eq!(
        ControllerResponse::for_query(QueryPoll::Reply(0xFE)),
        Some(ControllerResponse::Query(0xFE))
    );
}

#[test]
fn a_reply_at_the_deadline_still_counts() {
    let mut c = controller();
    // The echo is due from 1751 on; the deadline is 1751.
    let pending = c.begin_query_at(0x10, Some(751), 1_000);
    assert_eq!(pending.deadline, 1_751);
    assert_eq!(c.poll_query_at(&pending, 1_750), QueryPoll::Waiting);
    assert_eq!(c.poll_query_at(&pending, 1_751), QueryPoll::Reply(0xFE));
    assert_eq!(c.bus_stats(), CanStats { rx: 1, tx: 1 });
}

#[test]
fn a_reply_that_falls_due_after_the_deadline_is_a_timeout() {
    let mut c = controller();
    let pending = c.begin_query_at(0x10, Some(50), 1_000);
    // Polled long after the deadline, with the echo waiting in the
    // transport: the query has timed out, and the echo stays where it is.
    assert_eq!(c.poll_query_at(&pending, 9_000), QueryPoll::TimedOut);
    assert_eq!(c.bus_stats(), CanStats { rx: 0, tx: 1 });
    assert_eq!(c.recv_at(true, 9_000).map(|frame| frame.id), Some(0x10));
}

#[test]
fn a_reply_that_was_due_in_time_but_is_looked_for_too_late_is_a_timeout() {
    let mut c = controller();
    let pending = c.begin_query_at(0x10, Some(800), 1_000);
    assert_eq!(pending.deadline, 1_800);
    // Due from 1751 on, deadline 1800, first poll at 1801.
    assert_eq!(c.poll_query_at(&pending, 1_801), QueryPoll::TimedOut);
    assert_eq!(c.bus_stats(), CanStats { rx: 0, tx: 1 });
}

#[test]
fn a_waiting_query_has_no_answer_yet() {
    assert_eq!(ControllerResponse::for_query(QueryPoll::Waiting), None);
}

#[test]
fn a_transaction_at_the_time_the_clock_shows() {
    let mut c = controller();
    let pending = c.begin_query(0x999, Some(60_000));
    assert!(c.can_poll(&pending));
    assert_eq!(pending.address, 0x999);
    // 2020-01-01T00:00:00Z in milliseconds: the deadline lies after it.
    assert!(pending.deadline > 1_577_836_800_000);
    assert_eq!(c.poll_query(&pending), QueryPoll::Waiting);
    let expired = PendingQuery { address: 0x999, deadline: 0 };
    assert_eq!(c.poll_query(&expired), QueryPoll::TimedOut);
}

#[test]
fn a_query_can_be_awaited_by_polling_until_it_resolves() {
    let mut c = controller();
    let pending = c.begin_query_at(0x123, Some(1_000), 0);
    let mut now = 0;
    let resolved = loop {
        assert!(c.can_poll(&pending));
        match c.poll_query_at(&pending, now) {
            QueryPoll::Waiting => now += 10,
            done => break done,
        }
    };
    // The echo falls due after 750 ms, well within the second.
    assert_eq!(resolved, QueryPoll::Reply(0xFE));
    assert_eq!(now, 760);
}
