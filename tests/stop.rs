use control_panel::lifecycle::Lifecycle;
use control_panel::lifecycle::Phase;
use control_panel::lifecycle::StopReport;
use control_panel::signal::completion_pair;
use control_panel::signal::SignalPoll;
use control_panel::stop::StopRequest;
use control_panel::stop::StopStep;

fn running(handle: u32) -> Lifecycle<u32> {
    let mut lc = Lifecycle::new();
    lc.start().unwrap();
    lc.publish(handle).unwrap();
    lc
}

#[test]
fn signal_is_pending_until_fired() {
    let (tx, mut rx) = completion_pair();
    assert_eq!(rx.poll(), SignalPoll::Pending);
    assert!(tx.fire(StopReport::Stopped).delivered());
    assert_eq!(rx.poll(), SignalPoll::Ready(StopReport::Stopped));
    assert_eq!(rx.poll(), SignalPoll::Disconnected);
}

#[test]
fn dropped_producer_is_disconnected() {
    let (tx, mut rx) = completion_pair();
    drop(tx);
    assert_eq!(rx.poll(), SignalPoll::Disconnected);
    assert!(rx.into_receiver().is_none());
}

#[test]
fn firing_after_consumer_dropped_is_harmless() {
    let (tx, rx) = completion_pair();
    drop(rx);
    assert!(!tx.fire(StopReport::NoListener).delivered());
}

#[test]
fn stop_on_running_listener_reports_stopped_once() {
    let mut lc = running(9);
    let (req, mut rx) = StopRequest::open(3);
    let in_flight = match req.step(&mut lc) {
        StopStep::Invoke(h, f) => {
            assert_eq!(h, 9);
            f
        }
        _ => panic!("expected an invoke"),
    };
    assert_eq!(lc.phase(), Phase::Stopping);
    assert_eq!(rx.poll(), SignalPoll::Pending);
    assert!(in_flight.complete(&mut lc).delivered());
    assert_eq!(lc.phase(), Phase::Stopped);
    assert_eq!(rx.poll(), SignalPoll::Ready(StopReport::Stopped));
    assert_eq!(rx.poll(), SignalPoll::Disconnected);
}

#[test]
fn second_stop_request_resolves_at_once() {
    let mut lc = running(9);
    let (first, _rx1) = StopRequest::open(0);
    assert!(matches!(first.step(&mut lc), StopStep::Invoke(9, _)));
    let (second, mut rx2) = StopRequest::open(5);
    assert!(matches!(second.step(&mut lc), StopStep::Resolved(StopReport::AlreadyStopped, _)));
    assert_eq!(rx2.poll(), SignalPoll::Ready(StopReport::AlreadyStopped));
}

#[test]
fn stop_right_after_start_resolves_within_budget() {
    let mut lc: Lifecycle<u32> = Lifecycle::new();
    lc.start().unwrap();
    let (mut req, mut rx) = StopRequest::open(2);
    let mut waits: u32 = 0;
    let outcome = loop {
        match req.step(&mut lc) {
            StopStep::Wait(next) => {
                waits += 1;
                assert_eq!(next.attempts(), 2 - waits);
                assert_eq!(rx.poll(), SignalPoll::Pending);
                req = next;
            }
            StopStep::Resolved(r, fired) => {
                assert!(fired.delivered());
                break r;
            }
            StopStep::Invoke(_, _) => panic!("nothing was published"),
        }
    };
    assert_eq!(waits, 2);
    assert_eq!(outcome, StopReport::NoListener);
    assert_eq!(rx.poll(), SignalPoll::Ready(StopReport::NoListener));
}

#[test]
fn stop_waiting_for_start_picks_up_the_published_handle() {
    let mut lc: Lifecycle<u32> = Lifecycle::new();
    lc.start().unwrap();
    let (req, _rx) = StopRequest::open(4);
    let req = match req.step(&mut lc) {
        StopStep::Wait(next) => next,
        _ => panic!("expected a wait"),
    };
    lc.publish(5).unwrap();
    assert!(matches!(req.step(&mut lc), StopStep::Invoke(5, _)));
}

#[test]
fn stop_after_failed_bind_reports_no_listener() {
    let mut lc: Lifecycle<u32> = Lifecycle::new();
    lc.start().unwrap();
    lc.fail_bind();
    let (req, mut rx) = StopRequest::open(3);
    assert!(matches!(req.step(&mut lc), StopStep::Resolved(StopReport::NoListener, _)));
    assert_eq!(rx.poll(), SignalPoll::Ready(StopReport::NoListener));
}

#[test]
fn concurrent_stops_invoke_once_and_report_each() {
    let mut lc = running(4);
    let (a, mut rx_a) = StopRequest::open(1);
    let (b, mut rx_b) = StopRequest::open(1);
    let (c, mut rx_c) = StopRequest::open(1);
    let in_flight = match a.step(&mut lc) {
        StopStep::Invoke(4, f) => f,
        _ => panic!("expected an invoke"),
    };
    assert!(matches!(b.step(&mut lc), StopStep::Resolved(StopReport::AlreadyStopped, _)));
    in_flight.complete(&mut lc);
    assert!(matches!(c.step(&mut lc), StopStep::Resolved(StopReport::AlreadyStopped, _)));
    assert_eq!(rx_a.poll(), SignalPoll::Ready(StopReport::Stopped));
    assert_eq!(rx_b.poll(), SignalPoll::Ready(StopReport::AlreadyStopped));
    assert_eq!(rx_c.poll(), SignalPoll::Ready(StopReport::AlreadyStopped));
}

#[test]
fn dropped_request_leaves_consumer_disconnected() {
    let (req, mut rx) = StopRequest::open(1);
    drop(req);
    assert_eq!(rx.poll(), SignalPoll::Disconnected);
}
