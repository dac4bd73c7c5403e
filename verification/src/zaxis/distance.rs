//! Distances along the Z axis, counted in the smallest microstep.

use vstd::prelude::*;
use vstd::std_specs::ops::AddSpecImpl;
use vstd::std_specs::ops::NegSpecImpl;
use vstd::std_specs::ops::SubSpecImpl;

verus! {

/// Microsteps of the driver per full step of the motor.
pub const DRIVER_MICROSTEPS: u32 = 256;

/// Full steps per revolution of the motor.
pub const FULL_STEPS_PER_REVOLUTION: u32 = 200;

/// Travel of the carriage per revolution of the screw, in micrometres.
pub const SCREW_THREAD_PITCH_UM: u32 = 2000;

/// Microsteps per millimetre of travel.
pub const STEPS_PER_MM: i32 = 25600;

/// `x` kept within the range of `i32`.
pub open spec fn clamp_i32(x: int) -> int {
    if x < i32::MIN {
        i32::MIN as int
    } else if x > i32::MAX {
        i32::MAX as int
    } else {
        x
    }
}

/// The quotient of `a` by a positive `b`, rounded towards zero.
pub open spec fn truncated_quot(a: int, b: int) -> int {
    if a >= 0 {
        a / b
    } else {
        -((-a) / b)
    }
}

/// Computes `clamp_i32`.
pub fn clamp_to_i32(x: i64) -> (out: i32)
    ensures
        out == clamp_i32(x as int),
{
    if x < i32::MIN as i64 {
        i32::MIN
    } else if x > i32::MAX as i64 {
        i32::MAX
    } else {
        x as i32
    }
}

/// A signed displacement or position, in microsteps.
#[derive(Clone, Copy, Debug, PartialEq, Eq, Structural)]
pub struct Steps(pub i32);

impl View for Steps {
    type V = int;

    open spec fn view(&self) -> int {
        self.0 as int
    }
}

impl Steps {
    /// Lowest position that callers hand out: half the integer range, so that
    /// the difference of two extreme positions still fits.
    pub const MIN: i32 = -1073741824;

    /// Highest position that callers hand out.
    pub const MAX: i32 = 1073741823;

    /// Whether the value lies within `MIN..=MAX`.
    pub open spec fn in_range(self) -> bool {
        Self::MIN <= self.0 <= Self::MAX
    }

    /// "As far down as possible".
    pub fn lowest() -> (s: Steps)
        ensures
            s.0 == Self::MIN,
            s.in_range(),
    {
        Steps(Self::MIN)
    }

    /// "As far up as possible".
    pub fn highest() -> (s: Steps)
        ensures
            s.0 == Self::MAX,
            s.in_range(),
    {
        Steps(Self::MAX)
    }

    /// The steps of `mm` whole millimetres, kept within the integer range.
    pub open spec fn spec_from_mm(mm: int) -> int {
        clamp_i32(mm * STEPS_PER_MM)
    }

    /// The steps of `um` micrometres, rounded towards zero and kept within
    /// the integer range.
    pub open spec fn spec_from_um(um: int) -> int {
        clamp_i32(truncated_quot(um * STEPS_PER_MM, 1000))
    }

    /// The distance of `mm` whole millimetres.
    pub fn from_mm(mm: i32) -> (s: Steps)
        ensures
            s@ == Self::spec_from_mm(mm as int),
    {
        let wide: i64 = (mm as i64) * 25600;
        Steps(clamp_to_i32(wide))
    }

    /// The distance of `um` micrometres; a fraction of a step is dropped.
    pub fn from_um(um: i32) -> (s: Steps)
        ensures
            s@ == Self::spec_from_um(um as int),
    {
        let wide: i64 = (um as i64) * 25600;
        Steps(clamp_to_i32(wide / 1000))
    }

    /// The distance in whole micrometres; a fraction is dropped.
    pub fn as_um(self) -> (um: i64)
        ensures
            um == truncated_quot(self@ * 1000, STEPS_PER_MM as int),
    {
        (self.0 as i64) * 1000 / 25600
    }
}

impl core::ops::Add for Steps {
    type Output = Steps;

    fn add(self, rhs: Steps) -> (sum: Steps) {
        Steps(self.0 + rhs.0)
    }
}

impl AddSpecImpl for Steps {
    open spec fn obeys_add_spec() -> bool {
        true
    }

    open spec fn add_req(self, rhs: Steps) -> bool {
        i32::MIN <= self.0 + rhs.0 <= i32::MAX
    }

    open spec fn add_spec(self, rhs: Steps) -> Steps {
        Steps((self.0 + rhs.0) as i32)
    }
}

impl core::ops::Sub for Steps {
    type Output = Steps;

    fn sub(self, rhs: Steps) -> (difference: Steps) {
        Steps(self.0 - rhs.0)
    }
}

impl SubSpecImpl for Steps {
    open spec fn obeys_sub_spec() -> bool {
        true
    }

    open spec fn sub_req(self, rhs: Steps) -> bool {
        i32::MIN <= self.0 - rhs.0 <= i32::MAX
    }

    open spec fn sub_spec(self, rhs: Steps) -> Steps {
        Steps((self.0 - rhs.0) as i32)
    }
}

impl core::ops::Neg for Steps {
    type Output = Steps;

    fn neg(self) -> (negated: Steps) {
        Steps(-self.0)
    }
}

impl NegSpecImpl for Steps {
    open spec fn obeys_neg_spec() -> bool {
        true
    }

    open spec fn neg_req(self) -> bool {
        self.0 != i32::MIN
    }

    open spec fn neg_spec(self) -> Steps {
        Steps((-self.0) as i32)
    }
}

/// Sums and differences of positions within `MIN..=MAX` fit, and so does
/// the negation of any of them.
pub proof fn law_half_range_fits(a: Steps, b: Steps)
    requires
        a.in_range(),
        b.in_range(),
    ensures
        i32::MIN <= a@ + b@ <= i32::MAX,
        i32::MIN <= a@ - b@ <= i32::MAX,
        i32::MIN <= -a@ <= i32::MAX,
{
}

} // verus!
