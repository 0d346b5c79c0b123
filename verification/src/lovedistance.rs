//! Single-actuator fixed-prefix protocol and its exact-name factory.
//!
//! One actuator, one endpoint: a command emits a three-byte payload — the
//! opcode prefix followed by the raw value — only when the diff engine
//! reports a change, and no write otherwise. Binding a device requires a
//! fixed two-write initialization handshake.

use crate::diff::{
    lemma_zero_intensity_raw, pad_request, pad_request_exec, slot_emits, slot_next, stored_raw,
    valid_request, DiffEngine,
};
use crate::hardware::{CommandError, Endpoint, HardwareWrite};
use crate::intensity::Intensity;
use vstd::prelude::*;

verus! {

/// The single write a changed intensity produces: the opcode prefix followed
/// by the raw value, on the primary endpoint, without acknowledgment.
pub open spec fn lovedistance_payload(raw: u16) -> Seq<u8> {
    seq![0xf3u8, 0u8, raw as u8]
}

/// What one accepted vibrate command does: the stored slot advances, and
/// either the actuator was unchanged (no write) or exactly one fixed-prefix
/// write carries the new raw value.
pub open spec fn lovedistance_outcome(
    req: Seq<Option<Intensity>>,
    prev: Seq<Option<u16>>,
    steps: Seq<u16>,
    bypass: bool,
    next: Seq<Option<u16>>,
    writes: Seq<HardwareWrite>,
) -> bool {
    &&& next.len() == 1
    &&& next[0] == slot_next(req[0], prev[0], steps[0], bypass)
    &&& if slot_emits(req[0], prev[0], steps[0], bypass) {
        &&& writes.len() == 1
        &&& writes[0].is_write(Endpoint::Tx, lovedistance_payload(stored_raw(next[0])), false)
    } else {
        &&& writes.len() == 0
        &&& next =~= prev
    }
}

/// Law: submitting an identical vibrate command twice yields zero hardware
/// writes on the second call. Whatever the first accepted command did, the
/// same request resubmitted against the state it recorded is fully
/// suppressed: no write goes out and the stored state is unchanged.
pub proof fn lemma_second_identical_command_writes_nothing(
    req: Seq<Option<Intensity>>,
    prev: Seq<Option<u16>>,
    steps: Seq<u16>,
    next1: Seq<Option<u16>>,
    writes1: Seq<HardwareWrite>,
    next2: Seq<Option<u16>>,
    writes2: Seq<HardwareWrite>,
)
    requires
        req.len() == 1,
        prev.len() == 1,
        steps.len() == 1,
        lovedistance_outcome(req, prev, steps, false, next1, writes1),
        lovedistance_outcome(req, next1, steps, false, next2, writes2),
    ensures
        writes2.len() == 0,
        next2 =~= next1,
{
    crate::diff::lemma_repeated_command_suppressed(req, prev, steps, false);
}

/// One bound single-actuator device: the vendor encoder together with its
/// own diff engine.
pub struct LoveDistance {
    engine: DiffEngine,
}

impl LoveDistance {
    pub closed spec fn engine(self) -> DiffEngine {
        self.engine
    }

    /// The actuator's step resolution.
    pub open spec fn steps(self) -> Seq<u16> {
        self.engine().steps()
    }

    /// The last-sent raw value of the one actuator.
    pub open spec fn last_sent(self) -> Seq<Option<u16>> {
        self.engine().last_sent()
    }

    pub open spec fn actuator_count(self) -> nat {
        self.engine().actuator_count()
    }

    /// The profile declares exactly one actuator, and its raw values fit in
    /// the protocol's single payload byte.
    pub open spec fn wf(self) -> bool {
        &&& self.engine().wf()
        &&& self.actuator_count() == 1
        &&& self.steps()[0] <= 255
    }

    /// Binds the encoder to a device profile; nothing has been sent yet.
    pub fn new(step_max: u16) -> (p: LoveDistance)
        requires
            0 < step_max <= 255,
        ensures
            p.wf(),
            p.steps() =~= seq![step_max],
            p.last_sent() =~= seq![Option::<u16>::None],
    {
        let mut steps: Vec<u16> = Vec::new();
        steps.push(step_max);
        LoveDistance { engine: DiffEngine::new(steps) }
    }

    /// Diffs one padded request against the stored state and encodes the
    /// fixed-prefix write where the actuator changed.
    fn vibrate_inner(&mut self, req: &Vec<Option<Intensity>>, bypass: bool) -> (writes: Vec<
        HardwareWrite,
    >)
        requires
            old(self).wf(),
            valid_request(req@, old(self).actuator_count()),
        ensures
            final(self).wf(),
            final(self).steps() == old(self).steps(),
            lovedistance_outcome(
                req@,
                old(self).last_sent(),
                old(self).steps(),
                bypass,
                final(self).last_sent(),
                writes@,
            ),
    {
        let diff = self.engine.update(req, bypass);
        proof {
            assert(old(self).steps()[0] <= 255);
        }
        let mut writes: Vec<HardwareWrite> = Vec::new();
        match diff {
            None => {
                assert(self.last_sent() =~= old(self).last_sent());
                writes
            },
            Some(_) => {
                let raw = self.engine.current_raw(0);
                proof {
                    assert(raw <= 255);
                }
                let mut payload: Vec<u8> = Vec::new();
                payload.push(0xf3);
                payload.push(0x00);
                payload.push(raw as u8);
                writes.push(HardwareWrite::new(Endpoint::Tx, payload, false));
                proof {
                    assert(writes@[0].payload@ =~= lovedistance_payload(
                        stored_raw(self.last_sent()[0]),
                    ));
                }
                writes
            },
        }
    }

    /// Handles one vibrate command: at most one per-actuator intensity slot.
    ///
    /// A request addressing a second actuator is rejected with
    /// `CommandError::ActuatorIndexOutOfRange`, produces no write and leaves
    /// the stored state untouched. An accepted request behaves as
    /// `lovedistance_outcome` states, without any suppression exemption.
    pub fn handle_vibrate_cmd(&mut self, requested: &Vec<Option<Intensity>>) -> (r: Result<
        Vec<HardwareWrite>,
        CommandError,
    >)
        requires
            old(self).wf(),
            forall|i: int|
                0 <= i < requested@.len() && requested@[i] is Some ==> (#[trigger] requested@[i])->0.valid(),
        ensures
            final(self).wf(),
            final(self).steps() == old(self).steps(),
            match r {
                Result::Err(e) => {
                    &&& requested@.len() > 1
                    &&& e == CommandError::ActuatorIndexOutOfRange
                    &&& final(self).last_sent() == old(self).last_sent()
                },
                Result::Ok(writes) => {
                    &&& requested@.len() <= 1
                    &&& lovedistance_outcome(
                        pad_request(requested@, 1),
                        old(self).last_sent(),
                        old(self).steps(),
                        false,
                        final(self).last_sent(),
                        writes@,
                    )
                },
            },
    {
        if requested.len() > 1 {
            return Err(CommandError::ActuatorIndexOutOfRange);
        }
        let req = pad_request_exec(requested, 1);
        Ok(self.vibrate_inner(&req, false))
    }

    /// Handles a stop command: the actuator is driven to intensity zero with
    /// the suppression exemption set, so the zero payload reaches the device
    /// even if it is already believed to be stopped. Exactly one write goes
    /// to the managed endpoint, carrying raw value zero.
    pub fn stop(&mut self) -> (writes: Vec<HardwareWrite>)
        requires
            old(self).wf(),
        ensures
            final(self).wf(),
            final(self).steps() == old(self).steps(),
            final(self).last_sent() =~= seq![Option::Some(0u16)],
            writes@.len() == 1,
            writes@[0].is_write(Endpoint::Tx, seq![0xf3u8, 0u8, 0u8], false),
    {
        let mut req: Vec<Option<Intensity>> = Vec::new();
        req.push(Some(Intensity::zero()));
        let writes = self.vibrate_inner(&req, true);
        proof {
            lemma_zero_intensity_raw(old(self).steps()[0]);
            assert(self.last_sent() =~= seq![Option::Some(0u16)]);
            assert(writes@[0].payload@ =~= seq![0xf3u8, 0u8, 0u8]);
        }
        writes
    }
}

/// The exact-name factory for this protocol: no pattern matching, but a
/// fixed, ordered initialization handshake that must complete before the
/// device is bound; any single failed handshake write aborts identification.
#[derive(Default, Debug)]
pub struct LoveDistanceFactory {}

impl LoveDistanceFactory {
    /// The fixed initialization handshake, in issue order. Each write must be
    /// awaited to completion before the next begins; if any fails, the device
    /// is not bound.
    pub fn handshake_writes(&self) -> (writes: Vec<HardwareWrite>)
        ensures
            writes@.len() == 2,
            writes@[0].is_write(Endpoint::Tx, seq![0xf3u8, 0u8, 0u8], false),
            writes@[1].is_write(Endpoint::Tx, seq![0xf4u8, 1u8], false),
    {
        let mut first: Vec<u8> = Vec::new();
        first.push(0xf3);
        first.push(0x00);
        first.push(0x00);
        let mut second: Vec<u8> = Vec::new();
        second.push(0xf4);
        second.push(0x01);
        let mut writes: Vec<HardwareWrite> = Vec::new();
        writes.push(HardwareWrite::new(Endpoint::Tx, first, false));
        writes.push(HardwareWrite::new(Endpoint::Tx, second, false));
        proof {
            assert(writes@[0].payload@ =~= seq![0xf3u8, 0u8, 0u8]);
            assert(writes@[1].payload@ =~= seq![0xf4u8, 1u8]);
        }
        writes
    }

    pub fn protocol_identifier(&self) -> (s: &'static str)
        ensures
            s@ == "lovedistance"@,
    {
        "lovedistance"
    }

    /// Binds an encoder to the device's actuator profile, once the handshake
    /// has completed.
    pub fn create(&self, step_max: u16) -> (p: LoveDistance)
        requires
            0 < step_max <= 255,
        ensures
            p.wf(),
            p.steps() =~= seq![step_max],
            p.last_sent() =~= seq![Option::<u16>::None],
    {
        LoveDistance::new(step_max)
    }
}

} // verus!
