//! The USB types of `embassy-usb` that the control logic reads and returns.
use vstd::prelude::*;

use embassy_usb::control::{OutResponse, Recipient, Request, RequestType};
use embassy_usb::driver::{Direction, EndpointError};

verus! {

/// `embassy_usb::driver::Direction`: direction of a control transfer.
#[verifier::external_type_specification]
pub struct ExDirection(Direction);

/// `embassy_usb::control::RequestType`: standard, class or vendor request.
#[verifier::external_type_specification]
pub struct ExRequestType(RequestType);

/// `embassy_usb::control::Recipient`: what a control request is addressed to.
#[verifier::external_type_specification]
pub struct ExRecipient(Recipient);

/// `embassy_usb::control::Request`: a SETUP packet, all fields public.
#[verifier::external_type_specification]
pub struct ExRequest(Request);

/// `embassy_usb::control::OutResponse`: accepted or rejected.
#[verifier::external_type_specification]
pub struct ExOutResponse(OutResponse);

/// `embassy_usb::driver::EndpointError`: why an endpoint transfer failed.
#[verifier::external_type_specification]
pub struct ExEndpointError(EndpointError);

} // verus!
