//! Pixels for the 4K panel: four 4-bit greys in every 16-bit word, the
//! earliest on top.

use vstd::prelude::*;

verus! {

/// The 4-bit grey that shows as white.
pub const WHITE: u8 = 0x0F;

/// The 4-bit grey that shows as black.
pub const BLACK: u8 = 0x00;

/// The word of four pixels of one 4-bit grey.
pub open spec fn packed(color: int) -> int {
    color * 0x1111
}

/// The pixels that are waiting for a word to fill up, as a number: the
/// earliest on top.
pub struct Pending {
    /// The pixels, four bits each.
    pub pixels: int,
    /// How many they are: fewer than four.
    pub count: int,
}

/// What it takes to send a run of pixels.
#[derive(Clone, Copy, Debug, PartialEq, Eq, Structural)]
pub struct PushPlan {
    /// The word that the pending pixels fill up together with the first
    /// pixels of the run, if they do.
    pub head: Option<u16>,
    /// The word of four pixels of the run.
    pub fill: u16,
    /// How often `fill` goes out after `head`.
    pub fill_count: u32,
}

/// The state of the pending pixels after one more pixel, and the word
/// that goes out if the pixel fills one up.
pub open spec fn push_one(pending: Pending, color: int) -> (Pending, Option<int>) {
    let pixels = pending.pixels * 16 + color;
    if pending.count + 1 == 4 {
        (Pending { pixels: 0, count: 0 }, Some(pixels))
    } else {
        (Pending { pixels, count: pending.count + 1 }, None)
    }
}

/// The pending pixels after `repeat` more pixels of one grey.
pub open spec fn push_many(pending: Pending, color: int, repeat: nat) -> Pending
    decreases repeat,
{
    if repeat == 0 {
        pending
    } else {
        push_many(push_one(pending, color).0, color, (repeat - 1) as nat)
    }
}

/// The words that go out while `repeat` more pixels of one grey come in.
pub open spec fn words_of(pending: Pending, color: int, repeat: nat) -> Seq<int>
    decreases repeat,
{
    if repeat == 0 {
        Seq::<int>::empty()
    } else {
        let (next, word) = push_one(pending, color);
        let rest = words_of(next, color, (repeat - 1) as nat);
        match word {
            Some(w) => seq![w] + rest,
            None => rest,
        }
    }
}

impl PushPlan {
    /// The words of the plan, in the order in which they go out.
    pub open spec fn words(self) -> Seq<int> {
        let fill = Seq::new(self.fill_count as nat, |i: int| self.fill as int);
        match self.head {
            Some(w) => seq![w as int] + fill,
            None => fill,
        }
    }
}

/// Packs pixels into words.
#[derive(Clone, Copy, Debug, PartialEq, Eq, Structural)]
pub struct Framebuffer {
    /// The pixels that are waiting for a word to fill up, the earliest on
    /// top.
    pub pending_pixels: u16,
    /// How many pixels are waiting: fewer than four.
    pub pending_pixels_cnt: u8,
}

impl Framebuffer {
    /// What the framebuffer holds.
    pub open spec fn pending(self) -> Pending {
        Pending { pixels: self.pending_pixels as int, count: self.pending_pixels_cnt as int }
    }

    /// Fewer than four pixels are waiting, and they take four bits each.
    pub open spec fn wf(self) -> bool {
        &&& self.pending_pixels_cnt < 4
        &&& self.pending_pixels_cnt == 0 ==> self.pending_pixels == 0
        &&& self.pending_pixels_cnt == 1 ==> self.pending_pixels < 0x10
        &&& self.pending_pixels_cnt == 2 ==> self.pending_pixels < 0x100
        &&& self.pending_pixels_cnt == 3 ==> self.pending_pixels < 0x1000
    }

    /// A framebuffer at the start of a drawing.
    pub fn new() -> (fb: Framebuffer)
        ensures
            fb == (Framebuffer { pending_pixels: 0, pending_pixels_cnt: 0 }),
            fb.wf(),
    {
        Framebuffer { pending_pixels: 0, pending_pixels_cnt: 0 }
    }

    /// Takes `repeat` more pixels of an 8-bit grey, of which the top four
    /// bits count, and says which words go out: the same words, and the
    /// same pixels left waiting, as if the pixels had come one by one.
    pub fn push_pixels(&mut self, color: u8, repeat: u32) -> (plan: PushPlan)
        requires
            old(self).wf(),
        ensures
            final(self).wf(),
            final(self).pending() == push_many(old(self).pending(), color as int / 16, repeat as nat),
            plan.words() == words_of(old(self).pending(), color as int / 16, repeat as nat),
    {
        let color: u16 = (color / 16) as u16;
        let packed_pixels: u16 = color * 0x1111;
        let mut plan = PushPlan { head: None, fill: packed_pixels, fill_count: 0 };
        let ghost start = self.pending();
        let ghost c = color as int;
        let ghost asked = repeat as nat;
        let mut repeat: u32 = repeat;
        proof {
            assert(plan.words() =~= Seq::<int>::empty());
            assert(Seq::<int>::empty() + words_of(start, c, repeat as nat) =~= words_of(
                start,
                c,
                repeat as nat,
            ));
        }
        // First the pixels that fill up the word under way.
        while self.pending_pixels_cnt != 0 && repeat > 0
            invariant
                self.wf(),
                color < 16,
                c == color,
                plan.fill == packed_pixels,
                plan.fill_count == 0,
                plan.head is Some ==> self.pending_pixels_cnt == 0,
                push_many(self.pending(), c, repeat as nat) == push_many(
                    start,
                    c,
                    asked,
                ),
                plan.words() + words_of(self.pending(), c, repeat as nat) == words_of(
                    start,
                    c,
                    asked,
                ),
            decreases repeat,
        {
            let ghost before = self.pending();
            let ghost sent = plan.words();
            let pixels: u16 = self.pending_pixels * 16 + color;
            repeat = repeat - 1;
            if self.pending_pixels_cnt == 3 {
                plan.head = Some(pixels);
                self.pending_pixels = 0;
                self.pending_pixels_cnt = 0;
                proof {
                    assert(sent =~= Seq::<int>::empty());
                    assert(plan.words() =~= seq![pixels as int]);
                    assert(plan.words() + words_of(self.pending(), c, repeat as nat) =~= sent + (
                    seq![pixels as int] + words_of(self.pending(), c, repeat as nat)));
                }
            } else {
                self.pending_pixels = pixels;
                self.pending_pixels_cnt = self.pending_pixels_cnt + 1;
            }
        }
        if repeat == 0 {
            proof {
                assert(plan.words() + Seq::<int>::empty() =~= plan.words());
            }
            return plan;
        }
        // Then whole words, and what is left over waits.
        assert(self.pending_pixels_cnt == 0 && self.pending_pixels == 0);
        plan.fill_count = repeat / 4;
        let left: u32 = repeat % 4;
        proof {
            lemma_whole_words(c, repeat as nat);
            let head = match plan.head {
                Some(w) => seq![w as int],
                None => Seq::<int>::empty(),
            };
            let fill = Seq::new((repeat / 4) as nat, |i: int| packed(c));
            assert(plan.words() =~= head + fill);
            assert(words_of(self.pending(), c, repeat as nat) == fill);
            let earlier = PushPlan { fill_count: 0, ..plan };
            assert(earlier.words() =~= head);
        }
        self.pending_pixels = if left == 0 {
            0
        } else if left == 1 {
            color
        } else if left == 2 {
            color * 0x11
        } else {
            color * 0x111
        };
        self.pending_pixels_cnt = left as u8;
        plan
    }
}

/// From an empty word, `repeat` pixels of one grey send a packed word for
/// every four of them and leave the remainder waiting.
pub proof fn lemma_whole_words(color: int, repeat: nat)
    requires
        0 <= color < 16,
    ensures
        words_of(Pending { pixels: 0, count: 0 }, color, repeat) == Seq::new(
            repeat / 4,
            |i: int| packed(color),
        ),
        push_many(Pending { pixels: 0, count: 0 }, color, repeat) == (Pending {
            pixels: if repeat % 4 == 0 {
                0
            } else if repeat % 4 == 1 {
                color
            } else if repeat % 4 == 2 {
                color * 0x11
            } else {
                color * 0x111
            },
            count: (repeat % 4) as int,
        }),
    decreases repeat,
{
    let empty = Pending { pixels: 0, count: 0 };
    reveal_with_fuel(words_of, 5);
    reveal_with_fuel(push_many, 5);
    if repeat >= 4 {
        lemma_whole_words(color, (repeat - 4) as nat);
        let rest = words_of(empty, color, (repeat - 4) as nat);
        assert(words_of(empty, color, repeat) == seq![packed(color)] + rest);
        assert(seq![packed(color)] + Seq::new(((repeat - 4) / 4) as nat, |i: int| packed(color))
            =~= Seq::new(repeat / 4, |i: int| packed(color)));
        assert(push_many(empty, color, repeat) == push_many(empty, color, (repeat - 4) as nat));
    } else {
        assert(words_of(empty, color, repeat) =~= Seq::new(repeat / 4, |i: int| packed(color)));
    }
}

} // verus!
