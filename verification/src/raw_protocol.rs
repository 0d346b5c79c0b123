//! Zero-logic passthrough variant for manual and advanced control: every
//! command is forwarded to the transport exactly as given — no handshake, no
//! diffing, no validation, and therefore no suppression: it always writes.

use crate::hardware::{Endpoint, HardwareWrite};
use vstd::prelude::*;

verus! {

/// The passthrough protocol instance. It keeps no state of its own.
#[derive(Default, Debug)]
pub struct RawProtocol {}

impl RawProtocol {
    pub fn new() -> (p: RawProtocol) {
        RawProtocol {  }
    }

    /// Forwards one raw write command: endpoint, payload and acknowledgment
    /// flag reach the hardware unmodified, on every call.
    pub fn handle_raw_write_cmd(
        &self,
        endpoint: Endpoint,
        payload: Vec<u8>,
        require_ack: bool,
    ) -> (writes: Vec<HardwareWrite>)
        ensures
            writes@.len() == 1,
            writes@[0].is_write(endpoint, payload@, require_ack),
    {
        let mut writes: Vec<HardwareWrite> = Vec::new();
        writes.push(HardwareWrite::new(endpoint, payload, require_ack));
        writes
    }

    pub fn protocol_identifier(&self) -> (s: &'static str)
        ensures
            s@ == "raw"@,
    {
        "raw"
    }
}

} // verus!
