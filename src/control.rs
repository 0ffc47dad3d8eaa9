//! The shared streaming flag, its change gate, and the vendor control
//! request handler that starts and stops streaming.
use vstd::prelude::*;

use core::task::Waker;
use embassy_usb::control::{OutResponse, Recipient, Request, RequestType};

use crate::gate::{notified, polled, ChangeGate, GateView};

verus! {

/// The request code of the stream-control request.
pub const STREAM_CONTROL: u8 = 0;

/// The interface index that stream-control requests must target.
pub const STREAM_INTERFACE: u16 = 0;

/// The observable state shared by the control handler and the pump.
pub struct SharedView {
    pub streaming: bool,
    pub gate: GateView,
}

/// The state after `streaming` is stored and the change signalled.
pub open spec fn with_streaming(s: SharedView, on: bool) -> SharedView {
    SharedView { streaming: on, gate: notified(s.gate) }
}

/// A vendor request to interface `STREAM_INTERFACE`: the only control
/// transfers this handler claims.
pub open spec fn is_for_us(req: Request) -> bool {
    req.request_type == RequestType::Vendor && req.recipient == Recipient::Interface
        && req.index == STREAM_INTERFACE
}

/// The streaming value an accepted request sets, or `None` where the request
/// changes nothing.
pub open spec fn command_of(req: Request) -> Option<bool> {
    if is_for_us(req) && req.request == STREAM_CONTROL && req.value == 0 {
        Some(false)
    } else if is_for_us(req) && req.request == STREAM_CONTROL && req.value == 1 {
        Some(true)
    } else {
        None
    }
}

/// The handler's answer: `None` for a transfer it does not claim, accepted
/// for a start or stop, rejected for any other request addressed to it.
pub open spec fn response_of(req: Request) -> Option<OutResponse> {
    if !is_for_us(req) {
        None
    } else if command_of(req) is Some {
        Some(OutResponse::Accepted)
    } else {
        Some(OutResponse::Rejected)
    }
}

/// The shared state after the handler has seen `req`.
pub open spec fn after_request(s: SharedView, req: Request) -> SharedView {
    match command_of(req) {
        Some(on) => with_streaming(s, on),
        None => s,
    }
}

/// The shared state after the handler has seen each of `reqs` in order.
pub open spec fn after_requests(s: SharedView, reqs: Seq<Request>) -> SharedView
    decreases reqs.len(),
{
    if reqs.len() == 0 {
        s
    } else {
        after_request(after_requests(s, reqs.drop_last()), reqs.last())
    }
}

/// The streaming value set by the last accepted request of `reqs`, if any.
pub open spec fn last_command(reqs: Seq<Request>) -> Option<bool>
    decreases reqs.len(),
{
    if reqs.len() == 0 {
        None
    } else {
        match command_of(reqs.last()) {
            Some(on) => Some(on),
            None => last_command(reqs.drop_last()),
        }
    }
}

/// After any sequence of control requests, streaming is the value set by the
/// last accepted start or stop request, or the value before the sequence when
/// none was accepted.
pub proof fn lemma_last_accepted_request_wins(s: SharedView, reqs: Seq<Request>)
    ensures
        after_requests(s, reqs).streaming == match last_command(reqs) {
            Some(on) => on,
            None => s.streaming,
        },
    decreases reqs.len(),
{
    if reqs.len() > 0 {
        lemma_last_accepted_request_wins(s, reqs.drop_last());
    }
}

/// A bus reset always turns streaming off, leaves no task registered (the
/// waiter, if any, was woken), and lets the waiting side through exactly once.
pub proof fn lemma_bus_reset_wakes_once(s: SharedView)
    ensures
        !with_streaming(s, false).streaming,
        !with_streaming(s, false).gate.waiting,
        polled(with_streaming(s, false).gate).0,
        !polled(polled(with_streaming(s, false).gate).1).0,
{
}

/// A stream-control request addressed to this interface whose value is
/// neither 0 nor 1 is rejected and changes nothing.
pub proof fn lemma_out_of_range_value_rejected(s: SharedView, req: Request)
    requires
        is_for_us(req),
        req.request == STREAM_CONTROL,
        req.value != 0,
        req.value != 1,
    ensures
        response_of(req) == Some(OutResponse::Rejected),
        after_request(s, req) == s,
{
}

/// A request that is not a vendor request to an interface is left unclaimed
/// and changes nothing, whatever its request code and value.
pub proof fn lemma_foreign_request_ignored(s: SharedView, req: Request)
    requires
        req.request_type != RequestType::Vendor || req.recipient != Recipient::Interface,
    ensures
        response_of(req) is None,
        after_request(s, req) == s,
{
}

/// The streaming flag and the change gate that reports its changes.
pub struct ControlShared {
    streaming: bool,
    gate: ChangeGate,
}

impl View for ControlShared {
    type V = SharedView;

    closed spec fn view(&self) -> SharedView {
        SharedView { streaming: self.streaming, gate: self.gate@ }
    }
}

impl ControlShared {
    /// Not streaming, no pending change, no waiter.
    pub fn new() -> (r: ControlShared)
        ensures
            r@ == (SharedView {
                streaming: false,
                gate: GateView { pending: false, waiting: false },
            }),
    {
        ControlShared { streaming: false, gate: ChangeGate::new() }
    }

    /// Whether streaming is enabled.
    pub fn is_streaming(&self) -> (r: bool)
        ensures
            r == self@.streaming,
    {
        self.streaming
    }

    /// Stores `on` and signals the change.
    pub fn set_streaming(&mut self, on: bool)
        ensures
            final(self)@ == with_streaming(old(self)@, on),
    {
        self.streaming = on;
        self.gate.notify();
    }

    /// One poll of the wait for a change of the streaming flag.
    pub fn poll_changed(&mut self, waker: &Waker) -> (ready: bool)
        ensures
            final(self)@.streaming == old(self)@.streaming,
            (ready, final(self)@.gate) == polled(old(self)@.gate),
    {
        self.gate.poll_change(waker)
    }

    /// A USB bus reset: streaming is forced off and the change signalled.
    pub fn bus_reset(&mut self)
        ensures
            final(self)@ == with_streaming(old(self)@, false),
    {
        self.set_streaming(false);
    }

    /// Handles a control OUT transfer: starts or stops streaming on a
    /// stream-control request with value 1 or 0, rejects any other request
    /// addressed to this interface, and leaves all others unclaimed.
    pub fn control_out(&mut self, req: &Request) -> (r: Option<OutResponse>)
        ensures
            r == response_of(*req),
            final(self)@ == after_request(old(self)@, *req),
    {
        match req.request_type {
            RequestType::Vendor => {},
            _ => return None,
        }
        match req.recipient {
            Recipient::Interface => {},
            _ => return None,
        }
        if req.index != STREAM_INTERFACE {
            return None;
        }
        if req.request != STREAM_CONTROL {
            return Some(OutResponse::Rejected);
        }
        if req.value == 0 {
            self.set_streaming(false);
            Some(OutResponse::Accepted)
        } else if req.value == 1 {
            self.set_streaming(true);
            Some(OutResponse::Accepted)
        } else {
            Some(OutResponse::Rejected)
        }
    }
}

/// The state shared between the USB control handler and the pump, created
/// once at startup.
pub struct State {
    pub shared: ControlShared,
}

impl State {
    /// Not streaming, no pending change, no waiter.
    pub fn new() -> (r: State)
        ensures
            r.shared@ == (SharedView {
                streaming: false,
                gate: GateView { pending: false, waiting: false },
            }),
    {
        State { shared: ControlShared::new() }
    }
}

} // verus!
