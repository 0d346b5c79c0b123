//! The command diff engine: per bound device it remembers the last-sent raw
//! value of every actuator and reports which actuators a new command actually
//! changes, so that redundant hardware writes are suppressed.

use crate::intensity::{raw_of, raw_value, Intensity};
use vstd::prelude::*;

verus! {

/// The raw value one present request computes for its actuator at the given
/// step resolution.
pub open spec fn slot_raw(x: Intensity, step: u16) -> u16 {
    raw_of(x, step as int) as u16
}

/// Whether one actuator slot must reach the hardware. An absent request never
/// does; a present one does unless suppression applies: the computed raw
/// value equals the last-sent one and the command is not exempted via
/// `bypass`.
pub open spec fn slot_emits(
    req: Option<Intensity>,
    prev: Option<u16>,
    step: u16,
    bypass: bool,
) -> bool {
    match req {
        Option::None => false,
        Option::Some(x) => bypass || prev != Option::Some(slot_raw(x, step)),
    }
}

/// The diff entry for one actuator slot: the new raw value where the slot is
/// emitted, absent where it is suppressed or was not requested.
pub open spec fn slot_out(
    req: Option<Intensity>,
    prev: Option<u16>,
    step: u16,
    bypass: bool,
) -> Option<u16> {
    match req {
        Option::None => Option::None,
        Option::Some(x) => if slot_emits(req, prev, step, bypass) {
            Option::Some(slot_raw(x, step))
        } else {
            Option::None
        },
    }
}

/// The stored last-sent value of one actuator slot after an update: a
/// requested slot records its computed raw value, an absent request leaves
/// the stored state untouched.
pub open spec fn slot_next(
    req: Option<Intensity>,
    prev: Option<u16>,
    step: u16,
    bypass: bool,
) -> Option<u16> {
    match req {
        Option::None => prev,
        Option::Some(x) => Option::Some(slot_raw(x, step)),
    }
}

/// A request vector is valid for an engine when it has one slot per actuator
/// and every present intensity lies in [0, 1].
pub open spec fn valid_request(req: Seq<Option<Intensity>>, count: nat) -> bool {
    &&& req.len() == count
    &&& forall|i: int| 0 <= i < req.len() && req[i] is Some ==> (#[trigger] req[i])->0.valid()
}

/// Per bound device: the per-actuator step resolutions (fixed at creation)
/// and the last-sent raw value of each actuator (absent = never sent).
pub struct DiffEngine {
    steps: Vec<u16>,
    last: Vec<Option<u16>>,
}

impl DiffEngine {
    /// The per-actuator step resolutions.
    pub closed spec fn steps(self) -> Seq<u16> {
        self.steps@
    }

    /// The last-sent raw value per actuator.
    pub closed spec fn last_sent(self) -> Seq<Option<u16>> {
        self.last@
    }

    /// One stored slot per actuator, every step resolution is positive, and
    /// no stored raw value exceeds its actuator's step resolution.
    pub open spec fn wf(self) -> bool {
        &&& self.last_sent().len() == self.steps().len()
        &&& forall|i: int| 0 <= i < self.steps().len() ==> 0 < #[trigger] self.steps()[i]
        &&& forall|i: int|
            0 <= i < self.last_sent().len() ==> stored_raw(#[trigger] self.last_sent()[i])
                <= self.steps()[i]
    }

    pub open spec fn actuator_count(self) -> nat {
        self.steps().len()
    }

    /// Creates an engine that has sent nothing yet.
    pub fn new(steps: Vec<u16>) -> (e: DiffEngine)
        requires
            forall|i: int| 0 <= i < steps@.len() ==> 0 < #[trigger] steps@[i],
        ensures
            e.wf(),
            e.steps() == steps@,
            e.last_sent() =~= Seq::new(steps@.len(), |i: int| Option::<u16>::None),
    {
        let n = steps.len();
        let mut last: Vec<Option<u16>> = Vec::new();
        let mut i: usize = 0;
        while i < n
            invariant
                i <= n,
                last@.len() == i,
                forall|j: int| 0 <= j < i ==> last@[j] is None,
            decreases n - i,
        {
            last.push(None);
            i += 1;
        }
        DiffEngine { steps, last }
    }

    /// The number of actuators this engine tracks.
    pub fn count(&self) -> (n: usize)
        ensures
            n == self.actuator_count(),
    {
        self.steps.len()
    }

    /// The raw value last sent for one actuator, zero where nothing was ever
    /// sent. This is what a hardware payload carries for an actuator the
    /// current command leaves unchanged.
    pub fn current_raw(&self, index: usize) -> (r: u16)
        requires
            self.wf(),
            index < self.actuator_count(),
        ensures
            r == stored_raw(self.last_sent()[index as int]),
    {
        match self.last[index] {
            Some(v) => v,
            None => 0,
        }
    }

    /// Computes the diff of one command against the stored state and records
    /// the new raw values, as a single atomic step.
    ///
    /// A present slot with intensity x computes raw = round-half-up(x * step)
    /// clamped to [0, step], and is suppressed when that equals the stored
    /// value, unless `bypass` exempts the command. The result is absent when
    /// every slot was suppressed: the caller skips the hardware write path
    /// entirely.
    pub fn update(&mut self, requested: &Vec<Option<Intensity>>, bypass: bool) -> (r: Option<
        Vec<Option<u16>>,
    >)
        requires
            old(self).wf(),
            valid_request(requested@, old(self).actuator_count()),
        ensures
            final(self).wf(),
            final(self).steps() == old(self).steps(),
            final(self).last_sent().len() == old(self).last_sent().len(),
            forall|i: int|
                0 <= i < requested@.len() ==> final(self).last_sent()[i] == slot_next(
                    requested@[i],
                    old(self).last_sent()[i],
                    old(self).steps()[i],
                    bypass,
                ),
            match r {
                Option::None => forall|i: int|
                    0 <= i < requested@.len() ==> !slot_emits(
                        requested@[i],
                        old(self).last_sent()[i],
                        old(self).steps()[i],
                        bypass,
                    ),
                Option::Some(d) => {
                    &&& d@.len() == requested@.len()
                    &&& exists|i: int|
                        0 <= i < requested@.len() && slot_emits(
                            requested@[i],
                            old(self).last_sent()[i],
                            old(self).steps()[i],
                            bypass,
                        )
                    &&& forall|i: int|
                        0 <= i < requested@.len() ==> d@[i] == slot_out(
                            requested@[i],
                            old(self).last_sent()[i],
                            old(self).steps()[i],
                            bypass,
                        )
                },
            },
    {
        let ghost prev_last = self.last@;
        let n = requested.len();
        let mut out: Vec<Option<u16>> = Vec::new();
        let mut any: bool = false;
        let mut i: usize = 0;
        while i < n
            invariant
                i <= n,
                n == requested@.len(),
                valid_request(requested@, n as nat),
                self.steps@ == old(self).steps@,
                self.last@.len() == n,
                prev_last == old(self).last@,
                prev_last.len() == n,
                forall|j: int| 0 <= j < self.steps@.len() ==> 0 < #[trigger] self.steps@[j],
                n == self.steps@.len(),
                out@.len() == i,
                forall|j: int|
                    0 <= j < i ==> out@[j] == slot_out(
                        requested@[j],
                        prev_last[j],
                        self.steps@[j],
                        bypass,
                    ),
                forall|j: int|
                    0 <= j < i ==> self.last@[j] == slot_next(
                        requested@[j],
                        prev_last[j],
                        self.steps@[j],
                        bypass,
                    ),
                forall|j: int| i <= j < n ==> self.last@[j] == prev_last[j],
                any == exists|j: int|
                    0 <= j < i && slot_emits(requested@[j], prev_last[j], self.steps@[j], bypass),
            decreases n - i,
        {
            match requested[i] {
                Some(x) => {
                    let step = self.steps[i];
                    let raw = raw_value(&x, step);
                    let same = match self.last[i] {
                        Some(p) => p == raw,
                        None => false,
                    };
                    if bypass || !same {
                        out.push(Some(raw));
                        self.last[i] = Some(raw);
                        any = true;
                    } else {
                        out.push(None);
                    }
                },
                None => {
                    out.push(None);
                },
            }
            i += 1;
        }
        if any {
            Some(out)
        } else {
            None
        }
    }
}

/// The raw value a stored slot stands for: zero where nothing was ever sent.
pub open spec fn stored_raw(slot: Option<u16>) -> u16 {
    match slot {
        Option::None => 0u16,
        Option::Some(v) => v,
    }
}

/// A request extended to the device's actuator count: slots the caller did
/// not address are unspecified.
pub open spec fn pad_request(req: Seq<Option<Intensity>>, count: nat) -> Seq<Option<Intensity>> {
    req + Seq::new((count - req.len()) as nat, |i: int| Option::<Intensity>::None)
}

/// Builds the padded request vector.
pub(crate) fn pad_request_exec(requested: &Vec<Option<Intensity>>, count: usize) -> (req: Vec<
    Option<Intensity>,
>)
    requires
        requested@.len() <= count,
    ensures
        req@ =~= pad_request(requested@, count as nat),
{
    let mut req: Vec<Option<Intensity>> = Vec::new();
    let mut i: usize = 0;
    while i < requested.len()
        invariant
            i <= requested@.len(),
            req@ =~= requested@.subrange(0, i as int),
        decreases requested@.len() - i,
    {
        req.push(requested[i]);
        i += 1;
    }
    while req.len() < count
        invariant
            requested@.len() <= req@.len() <= count,
            req@.subrange(0, requested@.len() as int) =~= requested@,
            forall|j: int| requested@.len() <= j < req@.len() ==> #[trigger] req@[j] is None,
        decreases count - req@.len(),
    {
        req.push(None);
    }
    req
}

/// Intensity zero scales to raw value zero at every step resolution.
pub proof fn lemma_zero_intensity_raw(step: u16)
    ensures
        slot_raw(Intensity { num: 0u16, den: 1u16 }, step) == 0u16,
{
    let s = step as int;
    assert(2 * 0 * s == 0) by (nonlinear_arith);
    assert(crate::intensity::round_half_up(0, 1, s) == 1int / 2int);
}

/// Law: a command never emits against the state its own acceptance recorded.
/// After an update has stored `slot_next` for every actuator, re-submitting
/// the same request without a suppression exemption emits nothing — the
/// second of two identical vibrate commands yields zero hardware writes on
/// any suppression-capable protocol.
pub proof fn lemma_repeated_command_suppressed(
    req: Seq<Option<Intensity>>,
    prev: Seq<Option<u16>>,
    steps: Seq<u16>,
    bypass: bool,
)
    ensures
        forall|i: int|
            0 <= i < req.len() && i < prev.len() && i < steps.len() ==> !slot_emits(
                #[trigger] req[i],
                slot_next(req[i], prev[i], steps[i], bypass),
                steps[i],
                false,
            ),
{
}

} // verus!
