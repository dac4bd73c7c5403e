//! SPI by hand: which level goes out on each clock, and what the levels
//! that come in add up to. The most significant bit goes first.

use vstd::prelude::*;

verus! {

/// Processor cycles that pass between two clock edges without any delay.
pub const NUM_INSTRUCTIONS_BETWEEN_CLOCK_EDGES: u32 = 5;

/// Nanoseconds between two edges of a clock of `spi_freq_hz`: the clock
/// rises and falls once for every bit.
pub fn clock_edge_to_edge_duration_ns(spi_freq_hz: u32) -> (ns: u32)
    requires
        0 < spi_freq_hz <= 0x7FFF_FFFF,
    ensures
        ns == 1_000_000_000int / (spi_freq_hz * 2),
{
    1_000_000_000 / (spi_freq_hz * 2)
}

/// The number that the first `n` of the levels stand for, read most
/// significant bit first.
pub open spec fn bits_value(levels: Seq<bool>, n: int) -> int
    decreases n,
{
    if n <= 0 {
        0
    } else {
        2 * bits_value(levels, n - 1) + if levels[n - 1] {
            1int
        } else {
            0int
        }
    }
}

/// The bit of a `width`-bit word `tx` that goes out on clock `k`.
pub open spec fn out_bit(tx: int, width: int, k: int) -> bool {
    (tx / pow2(width - 1 - k)) % 2 == 1
}

/// Two to the power of `e`.
pub open spec fn pow2(e: int) -> int
    decreases e,
{
    if e <= 0 {
        1
    } else {
        2 * pow2(e - 1)
    }
}

/// The number of `n` levels is below two to the power of `n`.
pub proof fn lemma_bits_value_range(levels: Seq<bool>, n: int)
    requires
        0 <= n,
    ensures
        0 <= bits_value(levels, n) < pow2(n),
    decreases n,
{
    if n > 0 {
        lemma_bits_value_range(levels, n - 1);
    }
}

/// One transfer of a byte: the levels to put on the data line, clock by
/// clock, and the byte that the levels read on the other line make.
pub fn xfer(tx: u8, miso: &[bool; 8]) -> (r: ([bool; 8], u8))
    ensures
        forall|k: int| 0 <= k < 8 ==> #[trigger] r.0@[k] == out_bit(tx as int, 8, k),
        r.1 == bits_value(miso@, 8),
{
    let mut mosi: [bool; 8] = [false; 8];
    let mut rx: u8 = 0;
    let mut divisor: u8 = 128;
    let mut k: usize = 0;
    proof {
        reveal_with_fuel(pow2, 9);
    }
    while k < 8
        invariant
            k <= 8,
            divisor as int == (if k < 8 {
                pow2(7 - k)
            } else {
                0
            }),
            forall|j: int| 0 <= j < k ==> #[trigger] mosi@[j] == out_bit(tx as int, 8, j),
            rx == bits_value(miso@, k as int),
            rx < pow2(k as int),
            pow2(k as int) <= 256,
        decreases 8 - k,
    {
        proof {
            reveal_with_fuel(pow2, 9);
        }
        let bit: bool = (tx / divisor) % 2 == 1;
        mosi[k] = bit;
        let ghost before = rx;
        assert(2 * rx + 1 < 2 * pow2(k as int));
        assert(k < 7 ==> 2 * pow2(k as int) <= 128 * 2);
        if k == 7 {
            assert(pow2(7) == 128);
            assert(rx < 128);
        } else {
            assert(pow2((k + 1) as int) == 2 * pow2(k as int));
            assert(pow2((k + 1) as int) <= 256);
            assert(rx < 128) by {
                assert(pow2(k as int) <= 128);
            }
        }
        rx = rx * 2;
        if miso[k] {
            rx = rx + 1;
        }
        divisor = divisor / 2;
        k = k + 1;
    }
    (mosi, rx)
}

/// One transfer of a 16-bit word: the levels to put on the data line,
/// clock by clock, and the word that the levels read on the other line
/// make.
pub fn xfer_u16(tx: u16, miso: &[bool; 16]) -> (r: ([bool; 16], u16))
    ensures
        forall|k: int| 0 <= k < 16 ==> #[trigger] r.0@[k] == out_bit(tx as int, 16, k),
        r.1 == bits_value(miso@, 16),
{
    let mut mosi: [bool; 16] = [false; 16];
    let mut rx: u16 = 0;
    let mut divisor: u16 = 32768;
    let mut k: usize = 0;
    proof {
        reveal_with_fuel(pow2, 17);
    }
    while k < 16
        invariant
            k <= 16,
            divisor as int == (if k < 16 {
                pow2(15 - k)
            } else {
                0
            }),
            forall|j: int| 0 <= j < k ==> #[trigger] mosi@[j] == out_bit(tx as int, 16, j),
            rx == bits_value(miso@, k as int),
            rx < pow2(k as int),
            pow2(k as int) <= 65536,
        decreases 16 - k,
    {
        proof {
            reveal_with_fuel(pow2, 17);
        }
        let bit: bool = (tx / divisor) % 2 == 1;
        mosi[k] = bit;
        if k == 15 {
            assert(pow2(15) == 32768);
            assert(rx < 32768);
        } else {
            assert(pow2((k + 1) as int) == 2 * pow2(k as int));
            assert(pow2((k + 1) as int) <= 65536);
            assert(rx < 32768) by {
                assert(pow2(k as int) <= 32768);
            }
        }
        rx = rx * 2;
        if miso[k] {
            rx = rx + 1;
        }
        divisor = divisor / 2;
        k = k + 1;
    }
    (mosi, rx)
}

} // verus!
