use std::sync::atomic::{AtomicUsize, Ordering};
use std::sync::Arc;
use std::task::{Wake, Waker};

use data_logger::control::{ControlShared, State};
use embassy_usb::control::{OutResponse, Recipient, Request, RequestType};
use embassy_usb::driver::Direction;

struct CountingWaker {
    wakes: AtomicUsize,
}

impl Wake for CountingWaker {
    fn wake(self: Arc<Self>) {
        self.wakes.fetch_add(1, Ordering::SeqCst);
    }
}

fn counting_waker() -> (Arc<CountingWaker>, Waker) {
    let counter = Arc::new(CountingWaker { wakes: AtomicUsize::new(0) });
    let waker = Waker::from(counter.clone());
    (counter, waker)
}

fn wakes(c: &Arc<CountingWaker>) -> usize {
    c.wakes.load(Ordering::SeqCst)
}

fn vendor_request(request: u8, value: u16) -> Request {
    Request {
        direction: Direction::Out,
        request_type: RequestType::Vendor,
        recipient: Recipient::Interface,
        request,
        value,
        index: 0,
        length: 0,
    }
}

fn start() -> Request {
    vendor_request(0, 1)
}

fn stop() -> Request {
    vendor_request(0, 0)
}

#[test]
fn state_starts_stopped_with_nothing_pending() {
    let mut state = State::new();
    assert!(!state.shared.is_streaming());
    let (counter, waker) = counting_waker();
    assert!(!state.shared.poll_changed(&waker));
    assert_eq!(wakes(&counter), 0);
}

#[test]
fn start_request_accepted_and_streams() {
    let mut shared = ControlShared::new();
    assert_eq!(shared.control_out(&start()), Some(OutResponse::Accepted));
    assert!(shared.is_streaming());
}

#[test]
fn start_twice_stays_streaming() {
    let mut shared = ControlShared::new();
    assert_eq!(shared.control_out(&start()), Some(OutResponse::Accepted));
    assert_eq!(shared.control_out(&start()), Some(OutResponse::Accepted));
    assert!(shared.is_streaming());
}

#[test]
fn last_accepted_request_wins() {
    let mut shared = ControlShared::new();
    let seq = [start(), stop(), start(), vendor_request(0, 7), vendor_request(3, 0)];
    for req in seq.iter() {
        shared.control_out(req);
    }
    assert!(shared.is_streaming());
    let seq = [start(), stop(), vendor_request(0, 2)];
    for req in seq.iter() {
        shared.control_out(req);
    }
    assert!(!shared.is_streaming());
}

#[test]
fn out_of_range_value_rejected_without_change() {
    let mut shared = ControlShared::new();
    shared.control_out(&start());
    assert_eq!(shared.control_out(&vendor_request(0, 2)), Some(OutResponse::Rejected));
    assert!(shared.is_streaming());
    assert_eq!(shared.control_out(&vendor_request(0, 0xffff)), Some(OutResponse::Rejected));
    assert!(shared.is_streaming());
}

#[test]
fn unknown_request_code_rejected_without_change() {
    let mut shared = ControlShared::new();
    assert_eq!(shared.control_out(&vendor_request(1, 1)), Some(OutResponse::Rejected));
    assert!(!shared.is_streaming());
}

#[test]
fn wrong_recipient_ignored() {
    let mut shared = ControlShared::new();
    let mut req = start();
    req.recipient = Recipient::Device;
    assert_eq!(shared.control_out(&req), None);
    assert!(!shared.is_streaming());
    req.recipient = Recipient::Endpoint;
    assert_eq!(shared.control_out(&req), None);
    assert!(!shared.is_streaming());
}

#[test]
fn wrong_request_type_ignored() {
    let mut shared = ControlShared::new();
    shared.control_out(&start());
    let mut req = stop();
    req.request_type = RequestType::Class;
    assert_eq!(shared.control_out(&req), None);
    assert!(shared.is_streaming());
    req.request_type = RequestType::Standard;
    assert_eq!(shared.control_out(&req), None);
    assert!(shared.is_streaming());
}

#[test]
fn wrong_interface_index_ignored() {
    let mut shared = ControlShared::new();
    let mut req = start();
    req.index = 1;
    assert_eq!(shared.control_out(&req), None);
    assert!(!shared.is_streaming());
}

#[test]
fn ignored_request_does_not_signal() {
    let mut shared = ControlShared::new();
    let (counter, waker) = counting_waker();
    assert!(!shared.poll_changed(&waker));
    let mut req = start();
    req.recipient = Recipient::Other;
    shared.control_out(&req);
    shared.control_out(&vendor_request(0, 5));
    assert_eq!(wakes(&counter), 0);
    assert!(!shared.poll_changed(&waker));
}

#[test]
fn bus_reset_stops_and_wakes_waiter_once() {
    let mut shared = ControlShared::new();
    shared.control_out(&start());
    let (counter, waker) = counting_waker();
    assert!(shared.poll_changed(&waker));
    assert!(!shared.poll_changed(&waker));
    shared.bus_reset();
    assert!(!shared.is_streaming());
    assert_eq!(wakes(&counter), 1);
    assert!(shared.poll_changed(&waker));
    assert!(!shared.poll_changed(&waker));
    assert_eq!(wakes(&counter), 1);
}

#[test]
fn bus_reset_when_stopped_still_signals() {
    let mut shared = ControlShared::new();
    shared.bus_reset();
    assert!(!shared.is_streaming());
    let (_counter, waker) = counting_waker();
    assert!(shared.poll_changed(&waker));
}

#[test]
fn set_streaming_wakes_registered_waiter() {
    let mut shared = ControlShared::new();
    let (counter, waker) = counting_waker();
    assert!(!shared.poll_changed(&waker));
    shared.set_streaming(true);
    assert_eq!(wakes(&counter), 1);
    assert!(shared.is_streaming());
    assert!(shared.poll_changed(&waker));
}

#[test]
fn rapid_changes_coalesce_into_one_wakeup() {
    let mut shared = ControlShared::new();
    let (counter, waker) = counting_waker();
    assert!(!shared.poll_changed(&waker));
    shared.control_out(&start());
    shared.control_out(&stop());
    shared.control_out(&start());
    assert_eq!(wakes(&counter), 1);
    assert!(shared.poll_changed(&waker));
    assert!(!shared.poll_changed(&waker));
    assert!(shared.is_streaming());
}
