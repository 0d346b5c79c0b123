//! Dual-actuator mode-byte protocol and its pattern factory.
//!
//! Devices of this family advertise names of the shape `([A-Z]+)\d*`; the
//! leading non-digit prefix is the canonical model identifier. A command
//! issues a pair of writes: an intensity byte on the primary endpoint and a
//! mode byte on the mode endpoint, always together, and only when the diff
//! engine reports that some actuator actually changed.

use crate::diff::{
    lemma_zero_intensity_raw, pad_request, pad_request_exec, slot_emits, slot_next, stored_raw,
    valid_request, DiffEngine,
};
use crate::hardware::{CommandError, Endpoint, HardwareWrite, IdentificationError};
use crate::intensity::Intensity;
use vstd::prelude::*;

verus! {

/// An ASCII decimal digit.
pub open spec fn is_digit_char(c: char) -> bool {
    '0' <= c && c <= '9'
}

/// The length of the leading non-digit run of a name: where its canonical
/// model identifier ends.
pub open spec fn prefix_end(s: Seq<char>) -> nat
    decreases s.len(),
{
    if s.len() == 0 || is_digit_char(s[0]) {
        0
    } else {
        1 + prefix_end(s.skip(1))
    }
}

/// The canonical model identifier of an advertised name: the name with its
/// trailing numeric suffix stripped.
pub open spec fn canonical_id(s: Seq<char>) -> Seq<char> {
    s.subrange(0, prefix_end(s) as int)
}

/// `prefix_end` is exactly the first index holding a digit (or the whole
/// length where no digit occurs).
pub proof fn lemma_prefix_end_characterization(s: Seq<char>, k: int)
    requires
        0 <= k <= s.len(),
        forall|j: int| 0 <= j < k ==> !is_digit_char(#[trigger] s[j]),
        k == s.len() || is_digit_char(s[k]),
    ensures
        prefix_end(s) == k,
    decreases s.len(),
{
    if k == 0 {
    } else {
        assert(!is_digit_char(s[0]));
        let t = s.skip(1);
        assert forall|j: int| 0 <= j < k - 1 implies !is_digit_char(#[trigger] t[j]) by {
            assert(t[j] == s[j + 1]);
        }
        if k < s.len() {
            assert(t[k - 1] == s[k]);
        }
        lemma_prefix_end_characterization(t, k - 1);
    }
}

/// Law: names that differ only in a trailing numeric suffix resolve to the
/// same canonical model identifier — appending any digit-led suffix to a
/// digit-free name leaves its canonical identifier unchanged.
pub proof fn lemma_canonical_id_strips_digits(p: Seq<char>, t: Seq<char>)
    requires
        forall|j: int| 0 <= j < p.len() ==> !is_digit_char(#[trigger] p[j]),
        t.len() == 0 || is_digit_char(t[0]),
    ensures
        canonical_id(p + t) == p,
{
    let s = p + t;
    assert forall|j: int| 0 <= j < p.len() implies !is_digit_char(#[trigger] s[j]) by {
        assert(s[j] == p[j]);
    }
    if t.len() > 0 {
        assert(s[p.len() as int] == t[0]);
    }
    lemma_prefix_end_characterization(s, p.len() as int);
    assert(canonical_id(s) =~= p);
}

/// The byte carried on the intensity endpoint: actuator 0's raw value where
/// it runs; otherwise the second actuator's raw value where one exists.
pub open spec fn patoo_speed_byte(raw0: u16, raw1: u16, two: bool) -> u8 {
    if raw0 > 0 {
        raw0 as u8
    } else if two {
        raw1 as u8
    } else {
        0u8
    }
}

/// The byte carried on the mode endpoint: 0x04 when actuator 0 runs, plus
/// 0x80 when a second actuator exists and runs (independent of actuator 0).
pub open spec fn patoo_mode_byte(raw0: u16, raw1: u16, two: bool) -> u8 {
    ((if raw0 > 0 {
        4int
    } else {
        0int
    }) + (if two && raw1 > 0 {
        0x80int
    } else {
        0int
    })) as u8
}

/// What one accepted vibrate command does: the stored state advances slot by
/// slot, and either nothing changed (no writes, state untouched) or exactly
/// the intensity/mode write pair goes out, encoding the now-current raw
/// values of both actuators.
pub open spec fn patoo_outcome(
    req: Seq<Option<Intensity>>,
    prev: Seq<Option<u16>>,
    steps: Seq<u16>,
    bypass: bool,
    next: Seq<Option<u16>>,
    writes: Seq<HardwareWrite>,
) -> bool {
    let count = steps.len();
    let two = count > 1;
    let raw0 = stored_raw(next[0]);
    let raw1 = if two {
        stored_raw(next[1])
    } else {
        0u16
    };
    &&& next.len() == count
    &&& forall|i: int|
        0 <= i < count ==> next[i] == slot_next(#[trigger] req[i], prev[i], steps[i], bypass)
    &&& if exists|i: int|
        0 <= i < count && slot_emits(#[trigger] req[i], prev[i], steps[i], bypass) {
        &&& writes.len() == 2
        &&& writes[0].is_write(Endpoint::Tx, seq![patoo_speed_byte(raw0, raw1, two)], true)
        &&& writes[1].is_write(Endpoint::TxMode, seq![patoo_mode_byte(raw0, raw1, two)], true)
    } else {
        &&& writes.len() == 0
        &&& next =~= prev
    }
}

/// Law: submitting an identical vibrate command twice yields zero hardware
/// writes on the second call. Whatever the first accepted command did, the
/// same request resubmitted against the state it recorded is fully
/// suppressed: no write goes out and the stored state is unchanged.
pub proof fn lemma_second_identical_command_writes_nothing(
    req: Seq<Option<Intensity>>,
    prev: Seq<Option<u16>>,
    steps: Seq<u16>,
    next1: Seq<Option<u16>>,
    writes1: Seq<HardwareWrite>,
    next2: Seq<Option<u16>>,
    writes2: Seq<HardwareWrite>,
)
    requires
        req.len() == steps.len(),
        prev.len() == steps.len(),
        patoo_outcome(req, prev, steps, false, next1, writes1),
        patoo_outcome(req, next1, steps, false, next2, writes2),
    ensures
        writes2.len() == 0,
        next2 =~= next1,
{
    crate::diff::lemma_repeated_command_suppressed(req, prev, steps, false);
}

/// One bound dual-actuator device: the vendor encoder together with its own
/// diff engine.
pub struct Patoo {
    engine: DiffEngine,
}

impl Patoo {
    pub closed spec fn engine(self) -> DiffEngine {
        self.engine
    }

    /// The per-actuator step resolutions of the bound device's profile.
    pub open spec fn steps(self) -> Seq<u16> {
        self.engine().steps()
    }

    /// The last-sent raw value per actuator.
    pub open spec fn last_sent(self) -> Seq<Option<u16>> {
        self.engine().last_sent()
    }

    pub open spec fn actuator_count(self) -> nat {
        self.engine().actuator_count()
    }

    /// The profile declares one or two actuators, and every raw value fits in
    /// the protocol's single payload byte.
    pub open spec fn wf(self) -> bool {
        &&& self.engine().wf()
        &&& 1 <= self.actuator_count() <= 2
        &&& forall|i: int| 0 <= i < self.steps().len() ==> #[trigger] self.steps()[i] <= 255
    }

    /// Binds the encoder to a device profile; nothing has been sent yet.
    pub fn new(steps: Vec<u16>) -> (p: Patoo)
        requires
            1 <= steps@.len() <= 2,
            forall|i: int| 0 <= i < steps@.len() ==> 0 < #[trigger] steps@[i] <= 255,
        ensures
            p.wf(),
            p.steps() == steps@,
            p.last_sent() =~= Seq::new(steps@.len(), |i: int| Option::<u16>::None),
    {
        Patoo { engine: DiffEngine::new(steps) }
    }

    /// Diffs one padded request against the stored state and encodes the
    /// intensity/mode write pair where anything changed.
    fn vibrate_inner(&mut self, req: &Vec<Option<Intensity>>, bypass: bool) -> (writes: Vec<
        HardwareWrite,
    >)
        requires
            old(self).wf(),
            valid_request(req@, old(self).actuator_count()),
        ensures
            final(self).wf(),
            final(self).steps() == old(self).steps(),
            patoo_outcome(
                req@,
                old(self).last_sent(),
                old(self).steps(),
                bypass,
                final(self).last_sent(),
                writes@,
            ),
    {
        let count = self.engine.count();
        let diff = self.engine.update(req, bypass);
        proof {
            assert forall|i: int| 0 <= i < self.steps().len() implies #[trigger] self.steps()[i]
                <= 255 by {
                assert(old(self).steps()[i] <= 255);
            }
        }
        let mut writes: Vec<HardwareWrite> = Vec::new();
        match diff {
            None => {
                assert(self.last_sent() =~= old(self).last_sent());
                writes
            },
            Some(_) => {
                let raw0 = self.engine.current_raw(0);
                let two = count > 1;
                let raw1 = if two {
                    self.engine.current_raw(1)
                } else {
                    0
                };
                proof {
                    assert(raw0 <= 255);
                    assert(raw1 <= 255);
                }
                let speed: u8 = if raw0 > 0 {
                    raw0 as u8
                } else if two {
                    raw1 as u8
                } else {
                    0
                };
                let mode: u8 = (if raw0 > 0 {
                    4u8
                } else {
                    0u8
                }) + (if two && raw1 > 0 {
                    0x80u8
                } else {
                    0u8
                });
                let mut intensity_payload: Vec<u8> = Vec::new();
                intensity_payload.push(speed);
                let mut mode_payload: Vec<u8> = Vec::new();
                mode_payload.push(mode);
                writes.push(HardwareWrite::new(Endpoint::Tx, intensity_payload, true));
                writes.push(HardwareWrite::new(Endpoint::TxMode, mode_payload, true));
                writes
            },
        }
    }

    /// Handles one vibrate command: a sparse sequence of per-actuator
    /// intensities, one slot per actuator the caller addresses.
    ///
    /// A request for more actuators than the profile declares is rejected
    /// with `CommandError::ActuatorIndexOutOfRange`, produces no write and
    /// leaves the stored state untouched. An accepted request behaves as
    /// `patoo_outcome` states, with slots beyond the request treated as
    /// unspecified and without any suppression exemption.
    pub fn handle_vibrate_cmd(&mut self, requested: &Vec<Option<Intensity>>) -> (r: Result<
        Vec<HardwareWrite>,
        CommandError,
    >)
        requires
            old(self).wf(),
            forall|i: int|
                0 <= i < requested@.len() && requested@[i] is Some ==> (#[trigger] requested@[i])->0.valid(),
        ensures
            final(self).wf(),
            final(self).steps() == old(self).steps(),
            match r {
                Result::Err(e) => {
                    &&& requested@.len() > old(self).actuator_count()
                    &&& e == CommandError::ActuatorIndexOutOfRange
                    &&& final(self).last_sent() == old(self).last_sent()
                },
                Result::Ok(writes) => {
                    &&& requested@.len() <= old(self).actuator_count()
                    &&& patoo_outcome(
                        pad_request(requested@, old(self).actuator_count()),
                        old(self).last_sent(),
                        old(self).steps(),
                        false,
                        final(self).last_sent(),
                        writes@,
                    )
                },
            },
    {
        let count = self.engine.count();
        if requested.len() > count {
            return Err(CommandError::ActuatorIndexOutOfRange);
        }
        let req = pad_request_exec(requested, count);
        Ok(self.vibrate_inner(&req, false))
    }

    /// Handles a stop command: every actuator is driven to intensity zero
    /// with the suppression exemption set, so the all-zero state reaches the
    /// device even if it is already believed to be stopped. Exactly one write
    /// goes to each of the two managed endpoints, both carrying zero.
    pub fn stop(&mut self) -> (writes: Vec<HardwareWrite>)
        requires
            old(self).wf(),
        ensures
            final(self).wf(),
            final(self).steps() == old(self).steps(),
            final(self).last_sent() =~= Seq::new(
                old(self).actuator_count(),
                |i: int| Option::Some(0u16),
            ),
            writes@.len() == 2,
            writes@[0].is_write(Endpoint::Tx, seq![0u8], true),
            writes@[1].is_write(Endpoint::TxMode, seq![0u8], true),
    {
        let count = self.engine.count();
        let mut req: Vec<Option<Intensity>> = Vec::new();
        let mut i: usize = 0;
        while i < count
            invariant
                i <= count,
                req@.len() == i,
                forall|j: int|
                    0 <= j < i ==> #[trigger] req@[j] == Option::Some(
                        Intensity { num: 0u16, den: 1u16 },
                    ),
            decreases count - i,
        {
            req.push(Some(Intensity::zero()));
            i += 1;
        }
        let writes = self.vibrate_inner(&req, true);
        proof {
            assert(slot_emits(req@[0], old(self).last_sent()[0], old(self).steps()[0], true));
            assert forall|j: int| 0 <= j < old(self).actuator_count() implies self.last_sent()[j]
                == Option::Some(0u16) by {
                assert(req@[j] == Option::Some(Intensity { num: 0u16, den: 1u16 }));
                assert(self.last_sent()[j] == slot_next(
                    req@[j],
                    old(self).last_sent()[j],
                    old(self).steps()[j],
                    true,
                ));
                lemma_zero_intensity_raw(old(self).steps()[j]);
            }
            assert(self.last_sent() =~= Seq::new(
                old(self).actuator_count(),
                |i: int| Option::Some(0u16),
            ));
        }
        writes
    }
}

/// The pattern factory for this device family: derives the canonical model
/// identifier from the advertised name and binds an encoder to the resolved
/// profile. No initialization handshake is required.
#[derive(Default, Debug)]
pub struct PatooFactory {}

impl PatooFactory {
    /// Derives the canonical model identifier: the advertised name with its
    /// trailing numeric suffix stripped. A name with no leading non-digit
    /// characters matches no profile and fails identification.
    pub fn identify(&self, name: &str) -> (r: Result<String, IdentificationError>)
        ensures
            match r {
                Result::Ok(id) => {
                    &&& prefix_end(name@) > 0
                    &&& id@ == canonical_id(name@)
                },
                Result::Err(e) => {
                    &&& e == IdentificationError::NoMatchingProfile
                    &&& prefix_end(name@) == 0
                },
            },
    {
        let n = name.unicode_len();
        let mut i: usize = 0;
        loop
            invariant
                i <= n,
                n == name@.len(),
                forall|j: int| 0 <= j < i ==> !is_digit_char(#[trigger] name@[j]),
            ensures
                i <= n,
                forall|j: int| 0 <= j < i ==> !is_digit_char(#[trigger] name@[j]),
                i == n || is_digit_char(name@[i as int]),
            decreases n - i,
        {
            if i == n {
                break ;
            }
            let c = name.get_char(i);
            if '0' <= c && c <= '9' {
                break ;
            }
            i += 1;
        }
        proof {
            lemma_prefix_end_characterization(name@, i as int);
        }
        if i == 0 {
            Err(IdentificationError::NoMatchingProfile)
        } else {
            let id = name.substring_char(0, i).to_owned();
            Ok(id)
        }
    }

    pub fn protocol_identifier(&self) -> (s: &'static str)
        ensures
            s@ == "patoo"@,
    {
        "patoo"
    }

    /// Binds an encoder to the actuator profile the canonical identifier
    /// resolved to.
    pub fn create(&self, steps: Vec<u16>) -> (p: Patoo)
        requires
            1 <= steps@.len() <= 2,
            forall|i: int| 0 <= i < steps@.len() ==> 0 < #[trigger] steps@[i] <= 255,
        ensures
            p.wf(),
            p.steps() == steps@,
            p.last_sent() =~= Seq::new(steps@.len(), |i: int| Option::<u16>::None),
    {
        Patoo::new(steps)
    }
}

} // verus!
