//! Hardware-facing value types: endpoints, write commands, and the error
//! taxonomy of the protocol layer.

use vstd::prelude::*;

verus! {

/// An addressable communication channel on a device to which bytes are
/// written.
#[derive(Clone, Copy, PartialEq, Eq, Structural, Debug)]
pub enum Endpoint {
    /// The primary transmit characteristic.
    Tx,
    /// The mode-select transmit characteristic.
    TxMode,
}

/// One pending hardware write: a payload bound for one endpoint, with the
/// acknowledgment requirement the vendor protocol demands.
#[derive(Debug)]
pub struct HardwareWrite {
    pub endpoint: Endpoint,
    pub payload: Vec<u8>,
    pub require_ack: bool,
}

impl HardwareWrite {
    /// Whether this write carries exactly the given endpoint, payload bytes
    /// and acknowledgment flag.
    pub open spec fn is_write(self, endpoint: Endpoint, payload: Seq<u8>, require_ack: bool) -> bool {
        self.endpoint == endpoint && self.payload@ == payload && self.require_ack == require_ack
    }

    pub fn new(endpoint: Endpoint, payload: Vec<u8>, require_ack: bool) -> (w: HardwareWrite)
        ensures
            w.is_write(endpoint, payload@, require_ack),
    {
        HardwareWrite { endpoint, payload, require_ack }
    }
}

/// A command was rejected by the protocol layer; the device stays bound and
/// later commands may still succeed.
#[derive(Clone, Copy, PartialEq, Eq, Structural, Debug)]
pub enum CommandError {
    /// The command addressed an actuator index the device's profile does not
    /// declare.
    ActuatorIndexOutOfRange,
}

/// Binding a newly seen device failed; fatal to that one device only.
#[derive(Clone, Copy, PartialEq, Eq, Structural, Debug)]
pub enum IdentificationError {
    /// No attribute profile matches the advertised name.
    NoMatchingProfile,
    /// A handshake write failed, so identification was aborted.
    HandshakeWriteFailed,
}

} // verus!
