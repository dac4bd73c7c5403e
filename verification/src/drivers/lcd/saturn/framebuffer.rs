//! Pixels for the FPGA, as bytes. A byte with the top bit set draws one
//! pixel of the grey in its other seven bits. Any other byte repeats the
//! pixel drawn last that many times. A repetition never crosses a boundary
//! of 1920 pixels, and no byte repeats more than 125 times.

use vstd::prelude::*;

verus! {

/// Pixels between two boundaries that no repetition may cross.
pub const REPEAT_WINDOW_SIZE: u32 = 1920;

/// The most repetitions that one byte asks for. The values above are
/// commands, or are not used by the panel's own firmware.
pub const MAX_REPEAT: u32 = 0x7d;

/// The byte that draws one pixel of a 7-bit grey: the grey scaled by
/// 0x7C/0x7F, so that the three highest values stay free for commands,
/// with the top bit set.
pub open spec fn encoded_color(color: u8) -> u8 {
    (color as int * 0x7C / 0x7F + 0x80) as u8
}

/// The bytes that repeat the last pixel `repeat` times.
pub open spec fn repeat_bytes(repeat: nat) -> Seq<u8>
    decreases repeat,
{
    if repeat == 0 {
        Seq::<u8>::empty()
    } else if repeat <= MAX_REPEAT {
        seq![repeat as u8]
    } else {
        seq![MAX_REPEAT as u8] + repeat_bytes((repeat - MAX_REPEAT) as nat)
    }
}

/// The bytes that draw `color_repeat` pixels with the byte `encoded`,
/// after `total` pixels have been drawn: one pixel, then its repetitions
/// up to the next boundary, and so on.
pub open spec fn flush_bytes(encoded: u8, color_repeat: nat, total: nat) -> Seq<u8>
    decreases color_repeat,
{
    if color_repeat == 0 {
        Seq::<u8>::empty()
    } else {
        let repeat = window_repeat((color_repeat - 1) as nat, total + 1);
        seq![encoded] + repeat_bytes(repeat) + flush_bytes(
            encoded,
            (color_repeat - 1 - repeat) as nat,
            total + 1 + repeat,
        )
    }
}

/// How many of `left` pixels can be repeated once `total` pixels have
/// been drawn: none at a boundary, else up to the next boundary.
pub open spec fn window_repeat(left: nat, total: nat) -> nat {
    let position = total % (REPEAT_WINDOW_SIZE as nat);
    if position == 0 {
        0
    } else if left <= REPEAT_WINDOW_SIZE - position {
        left
    } else {
        (REPEAT_WINDOW_SIZE - position) as nat
    }
}

/// The pixels that a stream of bytes draws.
pub open spec fn pixels_drawn(bytes: Seq<u8>) -> nat
    decreases bytes.len(),
{
    if bytes.len() == 0 {
        0
    } else if bytes.last() >= 0x80 {
        pixels_drawn(bytes.drop_last()) + 1
    } else {
        pixels_drawn(bytes.drop_last()) + bytes.last() as nat
    }
}

/// Collects runs of pixels of one grey.
#[derive(Clone, Copy, Debug, PartialEq, Eq, Structural)]
pub struct Framebuffer {
    /// The grey of the run under way, in seven bits.
    pub color: u8,
    /// Pixels of the run that are not drawn yet.
    pub color_repeat: u32,
    /// Pixels drawn so far.
    pub total_pixel_count: u32,
}

impl Framebuffer {
    /// The grey has seven bits, and the pixels that are not drawn yet can
    /// still be counted.
    pub open spec fn wf(self) -> bool {
        &&& self.color < 128
        &&& self.total_pixel_count + self.color_repeat <= u32::MAX
    }

    /// A framebuffer at the start of a drawing.
    pub fn new() -> (fb: Framebuffer)
        ensures
            fb == (Framebuffer { color: 0, color_repeat: 0, total_pixel_count: 0 }),
            fb.wf(),
    {
        Framebuffer { color: 0, color_repeat: 0, total_pixel_count: 0 }
    }

    /// The bytes that draw the run under way.
    pub fn flush_pixels(&mut self) -> (bytes: Vec<u8>)
        requires
            old(self).wf(),
        ensures
            bytes@ == flush_bytes(
                encoded_color(old(self).color),
                old(self).color_repeat as nat,
                old(self).total_pixel_count as nat,
            ),
            *final(self) == (Framebuffer {
                color_repeat: 0,
                total_pixel_count: (old(self).total_pixel_count + old(self).color_repeat) as u32,
                ..*old(self)
            }),
            final(self).wf(),
    {
        let scaled: u8 = ((self.color as u16 * 0x7C) / 0x7F) as u8;
        assert(scaled | 0x80 == scaled + 0x80) by (bit_vector)
            requires
                scaled < 0x80,
        ;
        let encoded: u8 = scaled | 0x80;
        let mut bytes: Vec<u8> = Vec::new();
        let ghost all = flush_bytes(
            encoded,
            self.color_repeat as nat,
            self.total_pixel_count as nat,
        );
        assert(bytes@ + all =~= all);
        while self.color_repeat > 0
            invariant
                self.wf(),
                self.color == old(self).color,
                self.total_pixel_count + self.color_repeat == old(self).total_pixel_count + old(
                    self,
                ).color_repeat,
                bytes@ + flush_bytes(
                    encoded,
                    self.color_repeat as nat,
                    self.total_pixel_count as nat,
                ) == all,
            decreases self.color_repeat,
        {
            let ghost head = bytes@;
            let ghost rest = flush_bytes(
                encoded,
                self.color_repeat as nat,
                self.total_pixel_count as nat,
            );
            bytes.push(encoded);
            self.total_pixel_count = self.total_pixel_count + 1;
            self.color_repeat = self.color_repeat - 1;
            let window_position: u32 = self.total_pixel_count % REPEAT_WINDOW_SIZE;
            let ghost run = window_repeat(
                self.color_repeat as nat,
                self.total_pixel_count as nat,
            );
            let ghost tail = flush_bytes(
                encoded,
                (self.color_repeat - run) as nat,
                (self.total_pixel_count + run) as nat,
            );
            assert(rest == seq![encoded] + repeat_bytes(run) + tail);
            if window_position > 0 {
                let room: u32 = REPEAT_WINDOW_SIZE - window_position;
                let mut repeat: u32 = if self.color_repeat <= room {
                    self.color_repeat
                } else {
                    room
                };
                assert(repeat == run);
                self.color_repeat = self.color_repeat - repeat;
                self.total_pixel_count = self.total_pixel_count + repeat;
                let ghost drawn = bytes@;
                assert(drawn + repeat_bytes(repeat as nat) + tail =~= head + rest);
                while repeat > 0
                    invariant
                        bytes@ + repeat_bytes(repeat as nat) + tail == all,
                    decreases repeat,
                {
                    let n: u32 = if repeat <= MAX_REPEAT {
                        repeat
                    } else {
                        MAX_REPEAT
                    };
                    let ghost sofar = bytes@;
                    let ghost pending = repeat_bytes(repeat as nat);
                    bytes.push(n as u8);
                    repeat = repeat - n;
                    assert(pending =~= seq![n as u8] + repeat_bytes(repeat as nat));
                    assert(bytes@ + repeat_bytes(repeat as nat) + tail =~= sofar + pending
                        + tail);
                }
                assert(repeat_bytes(0) =~= Seq::<u8>::empty());
                assert(bytes@ + tail =~= bytes@ + repeat_bytes(0) + tail);
            } else {
                assert(run == 0);
                assert(repeat_bytes(0) =~= Seq::<u8>::empty());
                assert(bytes@ + tail =~= head + rest);
            }
        }
        assert(flush_bytes(encoded, 0, self.total_pixel_count as nat) =~= Seq::<u8>::empty());
        assert(bytes@ =~= all);
        bytes
    }

    /// Takes `repeat` more pixels of an 8-bit grey, of which the top seven
    /// bits count. Pixels of the grey under way are only counted. Another
    /// grey ends the run: the bytes that draw it are returned.
    pub fn push_pixels(&mut self, color: u8, repeat: u32) -> (bytes: Vec<u8>)
        requires
            old(self).wf(),
            old(self).total_pixel_count + old(self).color_repeat + repeat <= u32::MAX,
        ensures
            color / 2 == old(self).color ==> bytes@ == Seq::<u8>::empty() && *final(self) == (
            Framebuffer {
                color_repeat: (old(self).color_repeat + repeat) as u32,
                ..*old(self)
            }),
            color / 2 != old(self).color ==> bytes@ == flush_bytes(
                encoded_color(old(self).color),
                old(self).color_repeat as nat,
                old(self).total_pixel_count as nat,
            ) && *final(self) == (Framebuffer {
                color: color / 2,
                color_repeat: repeat,
                total_pixel_count: (old(self).total_pixel_count + old(self).color_repeat) as u32,
            }),
            final(self).wf(),
    {
        let color: u8 = color / 2;
        if color == self.color {
            self.color_repeat = self.color_repeat + repeat;
            return Vec::new();
        }
        let bytes = self.flush_pixels();
        self.color = color;
        self.color_repeat = repeat;
        bytes
    }
}

/// The bytes of a repetition draw as many pixels as were asked for, and
/// none of them asks for more than `MAX_REPEAT`.
pub proof fn lemma_repeat_bytes(repeat: nat)
    ensures
        pixels_drawn(repeat_bytes(repeat)) == repeat,
        forall|i: int|
            0 <= i < repeat_bytes(repeat).len() ==> 0 < #[trigger] repeat_bytes(repeat)[i]
                <= MAX_REPEAT,
    decreases repeat,
{
    reveal_with_fuel(pixels_drawn, 2);
    if repeat == 0 {
    } else if repeat <= MAX_REPEAT {
        assert(seq![repeat as u8].drop_last() =~= Seq::<u8>::empty());
    } else {
        lemma_repeat_bytes((repeat - MAX_REPEAT) as nat);
        lemma_pixels_drawn_concat(
            seq![MAX_REPEAT as u8],
            repeat_bytes((repeat - MAX_REPEAT) as nat),
        );
        assert(seq![MAX_REPEAT as u8].drop_last() =~= Seq::<u8>::empty());
    }
}

/// The pixels of two streams, one after the other, add up.
pub proof fn lemma_pixels_drawn_concat(a: Seq<u8>, b: Seq<u8>)
    ensures
        pixels_drawn(a + b) == pixels_drawn(a) + pixels_drawn(b),
    decreases b.len(),
{
    if b.len() == 0 {
        assert(a + b =~= a);
    } else {
        lemma_pixels_drawn_concat(a, b.drop_last());
        assert((a + b).drop_last() =~= a + b.drop_last());
        assert((a + b).last() == b.last());
    }
}

/// The bytes of a run draw exactly the pixels of the run.
pub proof fn law_flush_draws_every_pixel(color: u8, color_repeat: nat, total: nat)
    requires
        color < 128,
    ensures
        pixels_drawn(flush_bytes(encoded_color(color), color_repeat, total)) == color_repeat,
    decreases color_repeat,
{
    let encoded = encoded_color(color);
    if color_repeat > 0 {
        let repeat = window_repeat((color_repeat - 1) as nat, total + 1);
        let tail = flush_bytes(encoded, (color_repeat - 1 - repeat) as nat, total + 1 + repeat);
        law_flush_draws_every_pixel(color, (color_repeat - 1 - repeat) as nat, total + 1 + repeat);
        lemma_repeat_bytes(repeat);
        lemma_pixels_drawn_concat(seq![encoded] + repeat_bytes(repeat), tail);
        lemma_pixels_drawn_concat(seq![encoded], repeat_bytes(repeat));
        reveal_with_fuel(pixels_drawn, 2);
        assert(seq![encoded].drop_last() =~= Seq::<u8>::empty());
        assert(encoded >= 0x80);
    }
}

} // verus!
