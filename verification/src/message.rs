//! The outbound-message abstraction denial responses are written into.
//!
//! The handler around this core owns the real CoAP message type; what the
//! policies need of it is captured by [`MutableWritableMessage`]: a settable
//! response code and a settable payload, each of which the message may
//! refuse (an unrepresentable code, a payload over the message's size
//! budget).  [`SimpleMessage`] is a buffer-backed implementation.

use vstd::prelude::*;

use crate::cbor::clone_bytes;

verus! {

/// The CoAP response code 4.01 Unauthorized.
pub const CODE_UNAUTHORIZED: u8 = 129;

/// A mutable outbound message with a settable response code and payload.
pub trait MutableWritableMessage: Sized {
    /// The response code the message currently carries.
    spec fn spec_code(&self) -> Option<u8>;

    /// The payload the message currently carries.
    spec fn spec_payload(&self) -> Seq<u8>;

    /// Whether the message representation can encode the given code.
    spec fn spec_code_representable(code: u8) -> bool;

    /// Whether a payload of `n` bytes fits the message's size budget.
    spec fn spec_payload_fits(&self, n: nat) -> bool;

    /// Sets the response code.
    fn set_code(&mut self, code: u8) -> (r: Result<(), ()>)
        ensures
            r is Ok <==> Self::spec_code_representable(code),
            r is Ok ==> final(self).spec_code() == Some(code) && final(self).spec_payload()
                == old(self).spec_payload(),
            forall|n: nat|
                final(self).spec_payload_fits(n) == old(self).spec_payload_fits(n),
    ;

    /// Sets the payload.
    fn set_payload(&mut self, payload: &[u8]) -> (r: Result<(), ()>)
        ensures
            r is Ok <==> old(self).spec_payload_fits(payload@.len()),
            r is Ok ==> final(self).spec_payload() == payload@ && final(self).spec_code() == old(
                self,
            ).spec_code(),
            forall|n: nat|
                final(self).spec_payload_fits(n) == old(self).spec_payload_fits(n),
    ;
}

/// A plain buffer-backed message: any code is representable, and payloads up
/// to a fixed capacity fit.
pub struct SimpleMessage {
    /// The response code, once one was set.
    pub code: Option<u8>,
    /// The payload.
    pub payload: Vec<u8>,
    /// The size budget for payloads.
    pub payload_capacity: usize,
}

impl SimpleMessage {
    /// An empty message accepting payloads up to `payload_capacity` bytes.
    pub fn new(payload_capacity: usize) -> (r: SimpleMessage)
        ensures
            r.code is None,
            r.payload@.len() == 0,
            r.payload_capacity == payload_capacity,
    {
        SimpleMessage { code: None, payload: Vec::new(), payload_capacity }
    }
}

impl MutableWritableMessage for SimpleMessage {
    open spec fn spec_code(&self) -> Option<u8> {
        self.code
    }

    open spec fn spec_payload(&self) -> Seq<u8> {
        self.payload@
    }

    open spec fn spec_code_representable(code: u8) -> bool {
        true
    }

    open spec fn spec_payload_fits(&self, n: nat) -> bool {
        n <= self.payload_capacity
    }

    fn set_code(&mut self, code: u8) -> (r: Result<(), ()>) {
        self.code = Some(code);
        Ok(())
    }

    fn set_payload(&mut self, payload: &[u8]) -> (r: Result<(), ()>) {
        if payload.len() <= self.payload_capacity {
            self.payload = clone_bytes(payload);
            Ok(())
        } else {
            Err(())
        }
    }
}

} // verus!
