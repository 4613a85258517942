use vstd::prelude::*;
use crate::mailbox::Mailbox;

verus! {

/// Tilt, in degrees, past which the filtered angle fires the igniter.
pub const TRIGGER_ANGLE_DEG: u32 = 45;

/// Samples per second of the tilt loop.
pub const SAMPLE_RATE_HZ: u64 = 10;

/// Cutoff, in hertz, of the low-pass filter on the angle.
pub const FILTER_CUTOFF_HZ: u64 = 2;

/// How long the actuator output is held high for one pulse, in milliseconds.
pub const PULSE_MS: u64 = 200;

/// One-shot latch on the filtered tilt angle: the first sample past the
/// trigger angle signals once; nothing re-arms it.
pub struct TiltLatch {
    fired: bool,
}

/// Whether a latch that starts in state `fired` has fired after `above`, the
/// per-sample answers to "is the filtered angle past the trigger?".
pub open spec fn fired_after(fired: bool, above: Seq<bool>) -> bool
    decreases above.len(),
{
    if above.len() == 0 {
        fired
    } else {
        fired_after(fired, above.drop_last()) || above.last()
    }
}

/// How many signals the latch sends over the samples `above`.
pub open spec fn signal_count(fired: bool, above: Seq<bool>) -> nat
    decreases above.len(),
{
    if above.len() == 0 {
        0
    } else {
        signal_count(fired, above.drop_last()) + if above.last() && !fired_after(
            fired,
            above.drop_last(),
        ) {
            1nat
        } else {
            0nat
        }
    }
}

impl TiltLatch {
    pub closed spec fn fired(&self) -> bool {
        self.fired
    }

    /// An armed latch.
    pub fn new() -> (r: Self)
        ensures
            !r.fired(),
    {
        TiltLatch { fired: false }
    }

    /// Whether the latch has fired.
    pub fn has_fired(&self) -> (r: bool)
        ensures
            r == self.fired(),
    {
        self.fired
    }

    /// Takes one sample's answer to "is the filtered angle past the
    /// trigger?"; signals `fire` and returns true exactly on the first such
    /// sample.
    pub fn observe(&mut self, above_trigger: bool, fire: &mut Mailbox<()>) -> (signalled: bool)
        ensures
            signalled == (above_trigger && !old(self).fired()),
            final(self).fired() == (old(self).fired() || above_trigger),
            signalled ==> final(fire)@ == Some(()),
            !signalled ==> final(fire)@ == old(fire)@,
    {
        if above_trigger && !self.fired {
            fire.put(());
            self.fired = true;
            true
        } else {
            false
        }
    }

    /// Takes the answers of a run of samples in order, as `observe` does one
    /// by one; returns how many signals were sent. An armed latch signals
    /// exactly once over a run with a sample past the trigger, and never
    /// otherwise; a fired latch never signals.
    pub fn observe_all(&mut self, above: &[bool], fire: &mut Mailbox<()>) -> (count: usize)
        ensures
            count == signal_count(old(self).fired(), above@),
            count == (if !old(self).fired() && exists|i: int| 0 <= i < above@.len() && above@[i] {
                1nat
            } else {
                0nat
            }),
            final(self).fired() == fired_after(old(self).fired(), above@),
            count > 0 ==> final(fire)@ == Some(()),
            count == 0 ==> final(fire)@ == old(fire)@,
    {
        let ghost start = self.fired();
        let ghost fire0 = fire@;
        let mut count: usize = 0;
        let mut i: usize = 0;
        proof {
            latch_signals_at_most_once(start, above@);
        }
        while i < above.len()
            invariant
                i <= above@.len(),
                count == signal_count(start, above@.subrange(0, i as int)),
                self.fired() == fired_after(start, above@.subrange(0, i as int)),
                count <= 1,
                count > 0 ==> fire@ == Some(()),
                count == 0 ==> fire@ == fire0,
            decreases above@.len() - i,
        {
            let ghost prefix = above@.subrange(0, i as int);
            proof {
                assert(above@.subrange(0, i + 1).drop_last() =~= prefix);
                latch_signals_at_most_once(start, above@.subrange(0, i + 1));
                latch_signals_at_most_once(start, prefix);
            }
            if self.observe(above[i], fire) {
                count = count + 1;
            }
            i = i + 1;
        }
        proof {
            assert(above@.subrange(0, above@.len() as int) =~= above@);
        }
        count
    }
}

/// Single shot: over any run of samples, an armed latch signals exactly once
/// if some sample is past the trigger and never otherwise, and a latch that
/// has fired never signals again.
pub proof fn latch_signals_at_most_once(fired: bool, above: Seq<bool>)
    ensures
        fired ==> signal_count(fired, above) == 0,
        !fired ==> signal_count(fired, above) == if exists|i: int|
            0 <= i < above.len() && above[i] {
            1nat
        } else {
            0nat
        },
        fired_after(fired, above) == (fired || exists|i: int| 0 <= i < above.len() && above[i]),
    decreases above.len(),
{
    if above.len() > 0 {
        let init = above.drop_last();
        latch_signals_at_most_once(fired, init);
        if exists|i: int| 0 <= i < init.len() && init[i] {
            let i = choose|i: int| 0 <= i < init.len() && init[i];
            assert(above[i]);
        }
        if exists|i: int| 0 <= i < above.len() && above[i] {
            let i = choose|i: int| 0 <= i < above.len() && above[i];
            if i < init.len() {
                assert(init[i]);
            }
        }
    }
}

} // verus!
