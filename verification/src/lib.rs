//! Typed request and response contract for the order-management surface of an
//! exchange's REST API.
//!
//! Every operation is a descriptor: a small immutable value that knows its
//! HTTP method, its URL path, whether it needs authentication, the shape of
//! the response, and the body to transmit. A response is decoded from the
//! wire form into an order record. The library performs no I/O: a transport
//! sends what a descriptor describes and hands back what arrived.
//!
//! The field-level rules are stated as contracts and proved: which keys a
//! body holds, that an absent option leaves no key, that the price of a
//! placed order is always transmitted, and that decoding passes over what it
//! does not know.

pub mod common;
pub mod decimal;
pub mod text;
pub mod timestamp;
pub mod wire;

pub mod contract;
pub mod orders;

pub mod order_info;
pub mod response;

pub mod addressing;
pub mod presence;
pub mod tolerance;
