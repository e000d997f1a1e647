//! The buzzer bundle and its PWM binder.

use vstd::prelude::*;

use crate::clock::{achieved_rate, select_divisor, ClockContext};
use crate::hardware::{ControllerId, Hardware};
use crate::pins::{loc_code, Pin, PinRole};

verus! {

/// The buzzer's target PWM frequency.
pub const BUZZER_PWM_HZ: u32 = 1000;

/// The buzzer control pin (driven by timer/counter 0).
pub struct Buzzer {
    /// Control pin.
    pub ctr: Pin,
}

/// An exclusively owned PWM output.
pub struct PwmHandle {
    ctr: Pin,
    freq_hz: u32,
}

impl PwmHandle {
    /// The output pin, switched into its timer function.
    pub closed spec fn ctr(self) -> Pin {
        self.ctr
    }

    /// The achieved PWM frequency.
    pub closed spec fn freq(self) -> u32 {
        self.freq_hz
    }

    /// The achieved PWM frequency.
    pub fn freq_hz(&self) -> (f: u32)
        ensures
            f == self.freq(),
    {
        self.freq_hz
    }
}

impl Buzzer {
    /// The bundle holds the buzzer pin, unconfigured.
    pub open spec fn wf(self) -> bool {
        self.ctr.is_floating_at(3, 11)
    }

    /// The locations the bundle occupies.
    pub open spec fn locs(self) -> Set<int> {
        set![self.ctr.loc()]
    }

    /// Bind the buzzer pin as a PWM output on timer/counter 0, at the
    /// closest rate at or below the buzzer's target frequency.  The
    /// binding is infallible: the caller must still hold the timer,
    /// which mirrors how the hardware hands the timer out only once.
    pub fn init(self, hw: &mut Hardware, clocks: &ClockContext) -> (h: PwmHandle)
        requires
            self.wf(),
            clocks.wf(),
            !old(hw).taken(ControllerId::Tcc0),
        ensures
            final(hw).pins_taken() == old(hw).pins_taken(),
            final(hw).taken(ControllerId::Tcc0),
            forall|id: ControllerId|
                id != ControllerId::Tcc0 ==> final(hw).taken(id) == old(hw).taken(id),
            h.freq() as int == achieved_rate(clocks.root(), BUZZER_PWM_HZ),
            h.ctr().loc() == loc_code(3, 11),
            h.ctr().role() == PinRole::AlternateF,
    {
        let claim = hw.claim_controller(ControllerId::Tcc0);
        proof {
            assert(claim is Ok);
        }
        let root = clocks.core_clock();
        let divisor = select_divisor(root, BUZZER_PWM_HZ);
        let freq_hz = root / divisor;
        PwmHandle { ctr: self.ctr.into_alternate(PinRole::AlternateF), freq_hz }
    }
}

} // verus!
