//! What goes out to WS2812 LEDs driven by the PWM sequence feature of the nRF52840.
//!
//! One WS2812 bit period of 1.25us is mapped to one PWM period, and logical 0 / 1 are expressed
//! by the width of the High pulse at the start of the period. This module turns the colors it is
//! given into the sequence words of one frame; it does not decide what to show.
use vstd::prelude::*;

verus! {

/// Number of bits per LED. 8 bits each for G, R and B.
pub const BITS_PER_LED: usize = 24;

/// `COUNTERTOP` of the PWM: 20 counts of 62.5ns make the 1.25us WS2812 bit period.
pub const COUNTERTOP: u16 = 20;

/// Bit 15 of a sequence word. 1 means `POLARITY` = `FallingEdge`, so the period starts High.
pub const FALLING_EDGE: u16 = 0x8000;

/// High width of a logical 0: 6 counts (375ns).
pub const T0H: u16 = 0x8006;

/// High width of a logical 1: 13 counts (812.5ns).
pub const T1H: u16 = 0x800d;

/// Word whose whole period is Low because COMPARE = 0. Ends the buffer to form the reset period.
pub const RESET_WORD: u16 = 0x8000;

/// Number of PWM periods of the reset period: 50 periods of 1.25us make 62.5us.
pub const RESET_PERIODS: u32 = 50;

/// Margin (us) added while waiting for the transfer to finish.
pub const SEND_MARGIN_US: u64 = 250;

/// Color of a single LED sent to a WS2812.
#[derive(Clone, Copy, PartialEq, Eq, Debug, Structural)]
pub struct Rgb {
    /// Red component.
    pub r: u8,
    /// Green component.
    pub g: u8,
    /// Blue component.
    pub b: u8,
}

impl Rgb {
    /// Builds a color from the individual components.
    pub fn new(r: u8, g: u8, b: u8) -> (c: Self)
        ensures
            c == (Rgb { r, g, b }),
    {
        Rgb { r, g, b }
    }

    /// Off.
    pub fn off() -> (c: Self)
        ensures
            c == (Rgb { r: 0, g: 0, b: 0 }),
    {
        Rgb { r: 0, g: 0, b: 0 }
    }

    /// Whether every component is zero.
    pub open spec fn is_off(self) -> bool {
        self.r == 0 && self.g == 0 && self.b == 0
    }
}

/// The byte of a color sent `index`th: green, then red, then blue.
pub open spec fn grb_byte(color: Rgb, index: int) -> u8 {
    if index == 0 {
        color.g
    } else if index == 1 {
        color.r
    } else {
        color.b
    }
}

/// The sequence word that carries bit `bit` (0 for the most significant) of `byte`.
pub open spec fn bit_word(byte: u8, bit: int) -> u16 {
    if byte & (0x80u8 >> (bit as u8)) == 0 {
        T0H
    } else {
        T1H
    }
}

/// The word at position `i` of the frame that carries `colors`, for `i` below
/// `colors.len() * BITS_PER_LED`: each LED in turn, its bytes in GRB order, most significant
/// bit first.
pub open spec fn frame_word(colors: Seq<Rgb>, i: int) -> u16 {
    bit_word(grb_byte(colors[i / 24], (i % 24) / 8), i % 8)
}

/// Whether a transfer buffer of `words` words is the right length for `leds` LEDs: one word per
/// bit and one more that ends the frame.
pub fn buffer_fits(leds: usize, words: usize) -> (r: bool)
    ensures
        r == (words == leds * BITS_PER_LED + 1),
{
    match leds.checked_mul(BITS_PER_LED) {
        Some(bits) => bits < words && words - bits == 1,
        None => false,
    }
}

/// A transfer buffer for `leds` LEDs, every word of it the reset word.
pub fn reset_buffer(words: usize) -> (r: Vec<u16>)
    ensures
        r@.len() == words,
        forall|i: int| 0 <= i < words ==> r@[i] == RESET_WORD,
{
    let mut r: Vec<u16> = Vec::new();
    let mut n: usize = 0;
    while n < words
        invariant
            n <= words,
            r@.len() == n,
            forall|i: int| 0 <= i < n ==> r@[i] == RESET_WORD,
        decreases words - n,
    {
        r.push(RESET_WORD);
        n = n + 1;
    }
    r
}

/// Expands `colors` into `words`, in GRB order and most significant bit first, one word per
/// bit. Words past the bits of the colors, which end the frame, are left as they are, and so are
/// bits that fall past the end of `words`.
pub fn encode(colors: &[Rgb], words: &mut Vec<u16>)
    requires
        colors@.len() * BITS_PER_LED <= usize::MAX,
    ensures
        final(words)@.len() == old(words)@.len(),
        forall|i: int|
            0 <= i < final(words)@.len() ==> #[trigger] final(words)@[i] == (if i < colors@.len()
                * BITS_PER_LED {
                frame_word(colors@, i)
            } else {
                old(words)@[i]
            }),
{
    let mut led: usize = 0;
    while led < colors.len()
        invariant
            led <= colors@.len(),
            colors@.len() * BITS_PER_LED <= usize::MAX,
            words@.len() == old(words)@.len(),
            forall|i: int|
                0 <= i < words@.len() ==> #[trigger] words@[i] == (if i < led * BITS_PER_LED {
                    frame_word(colors@, i)
                } else {
                    old(words)@[i]
                }),
        decreases colors@.len() - led,
    {
        let color = colors[led];
        let bytes: [u8; 3] = [color.g, color.r, color.b];
        let mut byte_index: usize = 0;
        while byte_index < 3
            invariant
                led < colors@.len(),
                colors@.len() * BITS_PER_LED <= usize::MAX,
                color == colors@[led as int],
                bytes@ == seq![color.g, color.r, color.b],
                byte_index <= 3,
                words@.len() == old(words)@.len(),
                forall|i: int|
                    0 <= i < words@.len() ==> #[trigger] words@[i] == (if i < led * BITS_PER_LED
                        + byte_index * 8 {
                        frame_word(colors@, i)
                    } else {
                        old(words)@[i]
                    }),
            decreases 3 - byte_index,
        {
            let byte = bytes[byte_index];
            let mut bit: usize = 0;
            while bit < 8
                invariant
                    led < colors@.len(),
                    colors@.len() * BITS_PER_LED <= usize::MAX,
                    color == colors@[led as int],
                    bytes@ == seq![color.g, color.r, color.b],
                    byte_index < 3,
                    byte == grb_byte(color, byte_index as int),
                    bit <= 8,
                    words@.len() == old(words)@.len(),
                    forall|i: int|
                        0 <= i < words@.len() ==> #[trigger] words@[i] == (if i < led
                            * BITS_PER_LED + byte_index * 8 + bit {
                            frame_word(colors@, i)
                        } else {
                            old(words)@[i]
                        }),
                decreases 8 - bit,
            {
                let word = if byte & (0x80u8 >> (bit as u8)) == 0 {
                    T0H
                } else {
                    T1H
                };
                let index = led * BITS_PER_LED + byte_index * 8 + bit;
                proof {
                    let ii = index as int;
                    assert(ii / 24 == led as int && (ii % 24) / 8 == byte_index as int && ii % 8
                        == bit as int) by (nonlinear_arith)
                        requires
                            ii == led * 24 + byte_index * 8 + bit,
                            byte_index < 3,
                            bit < 8,
                            led >= 0,
                    ;
                }
                if index < words.len() {
                    words.set(index, word);
                }
                bit = bit + 1;
            }
            byte_index = byte_index + 1;
        }
        led = led + 1;
    }
}

/// Time (us) it takes to send one frame of `words` words: every word and the reset period take
/// 1.25us each, plus a margin for the resolution of the timer.
pub fn frame_duration_micros(words: usize) -> (us: u64)
    requires
        words <= 0x1_0000_0000,
    ensures
        us == (words + RESET_PERIODS) * 5 / 4 + SEND_MARGIN_US,
{
    let periods: u64 = words as u64 + RESET_PERIODS as u64;
    periods * 5 / 4 + SEND_MARGIN_US
}

} // verus!
