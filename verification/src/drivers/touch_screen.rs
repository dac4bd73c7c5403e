//! The resistive touch screen: from the raw readings of the ADS7846 to a
//! stable touch position.

use vstd::prelude::*;
use vstd::slice::*;

verus! {

/// Scale of the pressure value; it keeps small values out of fractions.
pub const PRESSURE_SCALE: u16 = 32;

/// A touch counts while the pressure value is at most this: 2.5 at the
/// scale of 32. Full pressure reads 2, a light touch 6.
pub const PRESSURE_THRESHOLD_VALUE: u16 = 80;

/// How far a sample may lie from the average, in pixels.
pub const STABLE_X_Y_VALUE_TOLERANCE: u16 = 8;

/// Consecutive samples that make a stable one.
pub const NUM_STABLE_SAMPLES: u8 = 8;

/// Milliseconds between two samples.
pub const SAMPLE_DELAY_MS: u64 = 1;

/// Milliseconds between two looks at an untouched screen.
pub const SLEEP_DELAY_MS: u64 = 20;

/// Clock of the SPI bus to the converter.
pub const SPI_FREQ_HZ: u32 = 2_000_000;

/// Full scale of the 12-bit converter.
pub const ADC_MAX: u16 = 4096;

/// Raw data coming out of the device.
#[derive(Clone, Copy, Debug, PartialEq, Eq, Structural)]
pub struct Packet {
    pub x: u16,
    pub y: u16,
    pub z1: u8,
    pub z2: u8,
}

/// A touch: where, and how lightly.
#[derive(Clone, Copy, Debug, PartialEq, Eq, Structural)]
pub struct TouchEvent {
    pub x: u16,
    pub y: u16,
    pub z: u16,
}

/// The 12-bit reading in the two bytes that answer a conversion command:
/// the bytes put together, highest first, and moved down by four bits.
pub open spec fn reading_of(high_bits: u8, low_bits: u8) -> u16 {
    ((high_bits as int * 256 + low_bits as int) / 16) as u16
}

/// Puts a 12-bit reading together.
pub fn cmd_u12(high_bits: u8, low_bits: u8) -> (reading: u16)
    ensures
        reading == reading_of(high_bits, low_bits),
        reading < ADC_MAX,
{
    ((high_bits as u16) * 256 + (low_bits as u16)) / 16
}

/// The pressure value of a reading: `z2 * x / (z1 * 128)`, the smaller the
/// firmer the touch.
pub open spec fn pressure_of(p: Packet) -> int {
    (p.z2 as int * p.x as int) / (p.z1 as int * (ADC_MAX as int / PRESSURE_SCALE as int))
}

/// `v - amount`, and not below zero.
pub open spec fn less(v: int, amount: int) -> int {
    if v > amount {
        v - amount
    } else {
        0
    }
}

impl TouchEvent {
    /// The touch that a reading stands for on the 4K panel's screen; there
    /// is none while `z1` reads 1 or less.
    pub open spec fn spec_try_from(p: Packet) -> Option<TouchEvent> {
        if p.z1 > 1 {
            Some(
                TouchEvent {
                    x: less((ADC_MAX - p.y) / 11, 36) as u16,
                    y: less(p.x as int / 15, 15) as u16,
                    z: pressure_of(p) as u16,
                },
            )
        } else {
            None
        }
    }

    /// Turns a reading into a touch. The axes of the panel are swapped
    /// against those of the screen, and one of them is mirrored.
    pub fn try_from(p: Packet) -> (r: Result<TouchEvent, ()>)
        requires
            p.y <= ADC_MAX,
        ensures
            r is Ok <==> p.z1 > 1,
            r matches Ok(event) ==> Some(event) == Self::spec_try_from(p),
    {
        let x: u16 = ((ADC_MAX - p.y) / 11).saturating_sub(36);
        let y: u16 = (p.x / 15).saturating_sub(15);
        if p.z1 > 1 {
            let divisor: u32 = (p.z1 as u32) * 128;
            assert(p.z2 * p.x <= 255 * 65535) by (nonlinear_arith)
                requires
                    p.z2 <= 255,
                    p.x <= 65535,
            ;
            let product: u32 = (p.z2 as u32) * (p.x as u32);
            let z: u32 = product / divisor;
            assert(z <= 65535) by (nonlinear_arith)
                requires
                    z == product / divisor,
                    product <= 255 * 65535,
                    divisor >= 256,
            ;
            Ok(TouchEvent { x, y, z: z as u16 })
        } else {
            Err(())
        }
    }
}

/// The sum of the `x` of the first `n` samples.
pub open spec fn sum_x(samples: Seq<TouchEvent>, n: int) -> int
    decreases n,
{
    if n <= 0 {
        0
    } else {
        sum_x(samples, n - 1) + samples[n - 1].x
    }
}

/// The sum of the `y` of the first `n` samples.
pub open spec fn sum_y(samples: Seq<TouchEvent>, n: int) -> int
    decreases n,
{
    if n <= 0 {
        0
    } else {
        sum_y(samples, n - 1) + samples[n - 1].y
    }
}

/// The sum of the `z` of the first `n` samples.
pub open spec fn sum_z(samples: Seq<TouchEvent>, n: int) -> int
    decreases n,
{
    if n <= 0 {
        0
    } else {
        sum_z(samples, n - 1) + samples[n - 1].z
    }
}

/// The average of the samples.
pub open spec fn average(samples: Seq<TouchEvent>) -> TouchEvent {
    TouchEvent {
        x: (sum_x(samples, samples.len() as int) / samples.len() as int) as u16,
        y: (sum_y(samples, samples.len() as int) / samples.len() as int) as u16,
        z: (sum_z(samples, samples.len() as int) / samples.len() as int) as u16,
    }
}

/// The distance between two coordinates.
pub open spec fn abs_diff(a: int, b: int) -> int {
    if a >= b {
        a - b
    } else {
        b - a
    }
}

/// Whether the samples make a stable one: every one of them was pressed
/// firmly enough, and none lies further than the tolerance from their
/// average, in `x` or in `y`.
pub open spec fn samples_stable(samples: Seq<TouchEvent>) -> bool {
    &&& forall|i: int|
        0 <= i < samples.len() ==> (#[trigger] samples[i]).z <= PRESSURE_THRESHOLD_VALUE
    &&& forall|i: int|
        0 <= i < samples.len() ==> abs_diff(average(samples).x as int, (#[trigger] samples[i]).x as int)
            <= STABLE_X_Y_VALUE_TOLERANCE && abs_diff(
            average(samples).y as int,
            samples[i].y as int,
        ) <= STABLE_X_Y_VALUE_TOLERANCE
}

/// The sums of `n` samples are at most `n` times the largest reading.
proof fn lemma_sums_bounded(samples: Seq<TouchEvent>, n: int)
    requires
        0 <= n <= samples.len(),
    ensures
        0 <= sum_x(samples, n) <= n * 65535,
        0 <= sum_y(samples, n) <= n * 65535,
        0 <= sum_z(samples, n) <= n * 65535,
    decreases n,
{
    if n > 0 {
        lemma_sums_bounded(samples, n - 1);
    }
}

/// Returns the average of the samples where they are consistent.
pub fn compile_stable_sample(last_samples: &[TouchEvent]) -> (r: Option<TouchEvent>)
    requires
        0 < last_samples@.len() <= 65535,
    ensures
        r is Some <==> samples_stable(last_samples@),
        r matches Some(sample) ==> sample == average(last_samples@),
{
    let len: usize = last_samples.len();
    let mut x: u64 = 0;
    let mut y: u64 = 0;
    let mut z: u64 = 0;
    let mut i: usize = 0;
    while i < len
        invariant
            i <= len,
            len == last_samples@.len(),
            len <= 65535,
            x == sum_x(last_samples@, i as int),
            y == sum_y(last_samples@, i as int),
            z == sum_z(last_samples@, i as int),
            forall|j: int|
                0 <= j < i ==> (#[trigger] last_samples@[j]).z <= PRESSURE_THRESHOLD_VALUE,
        decreases len - i,
    {
        proof {
            lemma_sums_bounded(last_samples@, i as int);
        }
        // If the touch pressure is seen to be bad just once, the whole
        // thing is discarded.
        if last_samples[i].z > PRESSURE_THRESHOLD_VALUE {
            return None;
        }
        x = x + last_samples[i].x as u64;
        y = y + last_samples[i].y as u64;
        z = z + last_samples[i].z as u64;
        i = i + 1;
    }
    proof {
        lemma_sums_bounded(last_samples@, len as int);
        assert(x / (len as u64) <= 65535) by (nonlinear_arith)
            requires
                x <= len * 65535,
                len > 0,
        ;
        assert(y / (len as u64) <= 65535) by (nonlinear_arith)
            requires
                y <= len * 65535,
                len > 0,
        ;
        assert(z / (len as u64) <= 65535) by (nonlinear_arith)
            requires
                z <= len * 65535,
                len > 0,
        ;
    }
    let avg_sample = TouchEvent {
        x: (x / (len as u64)) as u16,
        y: (y / (len as u64)) as u16,
        z: (z / (len as u64)) as u16,
    };
    assert(avg_sample == average(last_samples@));
    let mut k: usize = 0;
    while k < len
        invariant
            k <= len,
            len == last_samples@.len(),
            avg_sample == average(last_samples@),
            forall|j: int|
                0 <= j < len ==> (#[trigger] last_samples@[j]).z <= PRESSURE_THRESHOLD_VALUE,
            forall|j: int|
                0 <= j < k ==> abs_diff(avg_sample.x as int, (#[trigger] last_samples@[j]).x as int)
                    <= STABLE_X_Y_VALUE_TOLERANCE && abs_diff(
                    avg_sample.y as int,
                    last_samples@[j].y as int,
                ) <= STABLE_X_Y_VALUE_TOLERANCE,
        decreases len - k,
    {
        let sample = last_samples[k];
        let dx: u16 = if avg_sample.x >= sample.x {
            avg_sample.x - sample.x
        } else {
            sample.x - avg_sample.x
        };
        let dy: u16 = if avg_sample.y >= sample.y {
            avg_sample.y - sample.y
        } else {
            sample.y - avg_sample.y
        };
        if dx > STABLE_X_Y_VALUE_TOLERANCE || dy > STABLE_X_Y_VALUE_TOLERANCE {
            return None;
        }
        k = k + 1;
    }
    Some(avg_sample)
}

/// `v`, which lies within `old_min..old_max`, moved to the scale from
/// `new_min` to `new_max`.
pub open spec fn scaled(v: int, old_min: int, old_max: int, new_min: int, new_max: int) -> int {
    (v - old_min) * (new_max - new_min) / (old_max - old_min) + new_min
}

/// Moves a reading from the scale of the converter to that of the screen;
/// fails for a reading off the scale.
pub fn scale(v: u16, old_min: u16, old_max: u16, new_min: u16, new_max: u16) -> (r: Result<
    u16,
    (),
>)
    requires
        new_min <= new_max,
    ensures
        r is Ok <==> old_min <= v < old_max,
        r matches Ok(out) ==> out == scaled(
            v as int,
            old_min as int,
            old_max as int,
            new_min as int,
            new_max as int,
        ) && new_min <= out <= new_max,
{
    if old_min <= v && v < old_max {
        let offset: u64 = (v - old_min) as u64;
        let span: u64 = (new_max - new_min) as u64;
        let range: u64 = (old_max - old_min) as u64;
        assert(offset * span <= 65535 * 65535) by (nonlinear_arith)
            requires
                offset <= 65535,
                span <= 65535,
        ;
        let moved: u64 = offset * span / range;
        assert(moved <= span) by (nonlinear_arith)
            requires
                moved == offset * span / (range as int),
                offset < range,
                span >= 0,
        ;
        Ok((moved + new_min as u64) as u16)
    } else {
        Err(())
    }
}

/// The last samples, as many as make a stable one.
pub struct StableSampler {
    /// Samples taken in so far, up to wrapping around at 256.
    pub num_samples: u8,
    /// The samples that are kept.
    pub last_samples: Vec<TouchEvent>,
}

impl StableSampler {
    /// The sampler keeps `NUM_STABLE_SAMPLES` samples.
    pub open spec fn wf(self) -> bool {
        self.last_samples@.len() == NUM_STABLE_SAMPLES
    }

    /// A sampler at the start of a touch.
    pub fn new() -> (sampler: StableSampler)
        ensures
            sampler.num_samples == 0,
            sampler.wf(),
    {
        let zero = TouchEvent { x: 0, y: 0, z: 0 };
        StableSampler {
            num_samples: 0,
            last_samples: vec![zero, zero, zero, zero, zero, zero, zero, zero],
        }
    }

    /// Takes in a sample, in the place of the oldest one. Once enough have
    /// come in, returns their average if they are consistent.
    pub fn get_stable_sample(&mut self, sample: TouchEvent) -> (r: Option<TouchEvent>)
        requires
            old(self).wf(),
        ensures
            final(self).wf(),
            final(self).last_samples@ == old(self).last_samples@.update(
                old(self).num_samples as int % (NUM_STABLE_SAMPLES as int),
                sample,
            ),
            final(self).num_samples == (old(self).num_samples + 1) % 256,
            r is Some <==> final(self).num_samples >= NUM_STABLE_SAMPLES && samples_stable(
                final(self).last_samples@,
            ),
            r matches Some(stable) ==> stable == average(final(self).last_samples@),
    {
        let at: usize = (self.num_samples % NUM_STABLE_SAMPLES) as usize;
        self.last_samples.set(at, sample);
        // On wrapping around the sampler is where it was after the first
        // sample of a touch. That is unusual and harmless.
        self.num_samples = self.num_samples.wrapping_add(1);
        if self.num_samples >= NUM_STABLE_SAMPLES {
            compile_stable_sample(self.last_samples.as_slice())
        } else {
            None
        }
    }
}

/// What to do after a sample was looked at.
#[derive(Clone, Copy, Debug, PartialEq, Eq, Structural)]
pub enum TouchStep {
    /// Report this touch, or with `None` that the touch has ended.
    Report(Option<TouchEvent>),
    /// Nothing to report: look again after `SLEEP_DELAY_MS`.
    Sleep,
}

/// Tells touches from the lack of them.
#[derive(Clone, Copy, Debug, PartialEq, Eq, Structural)]
pub struct TouchScreen {
    /// Whether the last report was a touch.
    pub had_touch_event: bool,
}

impl TouchScreen {
    /// A screen that was not touched yet.
    pub fn new() -> (screen: TouchScreen)
        ensures
            !screen.had_touch_event,
    {
        TouchScreen { had_touch_event: false }
    }

    /// Takes in the stable sample of one look at the screen, if there was
    /// one. A touch is reported. The first look without one after a touch
    /// reports the end of the touch; further ones report nothing.
    pub fn get_next_touch_event(&mut self, touch_event: Option<TouchEvent>) -> (step: TouchStep)
        ensures
            touch_event is Some ==> step == TouchStep::Report(touch_event),
            touch_event is None && old(self).had_touch_event ==> step == TouchStep::Report(None),
            touch_event is None && !old(self).had_touch_event ==> step == TouchStep::Sleep,
            final(self).had_touch_event == touch_event is Some,
    {
        if touch_event.is_some() {
            self.had_touch_event = true;
            return TouchStep::Report(touch_event);
        }
        if self.had_touch_event {
            self.had_touch_event = false;
            return TouchStep::Report(None);
        }
        TouchStep::Sleep
    }
}

} // verus!
