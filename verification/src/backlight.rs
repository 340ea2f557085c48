//! Backlight of the dongle LCD: the steps it is driven at, and how the brightness keys move it.
//!
//! The backlight has sixteen steps, from off to the brightest, and starts at the brightest on
//! every power cycle. The step the screen shows goes to the LCD through one packed word, which
//! [`brightness`] unpacks: the percentage in the low byte and a revision above it that counts
//! every accepted press, so that a reader notices presses that leave the step where it is.
use vstd::prelude::*;

verus! {

/// `COUNTERTOP` of the backlight PWM, which is also the brightest duty.
pub const BACKLIGHT_MAX: u16 = 1000;

/// Number of backlight steps.
pub const BACKLIGHT_LEVEL_COUNT: usize = 16;

/// Step the backlight starts at, and returns to on every power cycle: the brightest.
pub const BACKLIGHT_DEFAULT_LEVEL: usize = 15;

/// `Action::User` id that steps the backlight up.
pub const BRIGHTNESS_UP_ID: u8 = 10;

/// `Action::User` id that steps the backlight down.
pub const BRIGHTNESS_DOWN_ID: u8 = 11;

/// Number of bits the packed brightness keeps the percentage in.
pub const BRIGHTNESS_PERCENT_BITS: u32 = 8;

/// Mask of the percentage in the packed brightness.
pub const BRIGHTNESS_PERCENT_MASK: u32 = 0xff;

/// Duty of every backlight step, from off to the brightest: step 0 is off, steps 1 to 15 are a
/// geometric progression from 10 to [`BACKLIGHT_MAX`], one decade every seven steps.
pub open spec fn spec_level_duty(level: int) -> u16 {
    if level == 0 {
        0
    } else if level == 1 {
        10
    } else if level == 2 {
        14
    } else if level == 3 {
        19
    } else if level == 4 {
        27
    } else if level == 5 {
        37
    } else if level == 6 {
        52
    } else if level == 7 {
        72
    } else if level == 8 {
        100
    } else if level == 9 {
        139
    } else if level == 10 {
        193
    } else if level == 11 {
        268
    } else if level == 12 {
        373
    } else if level == 13 {
        518
    } else if level == 14 {
        720
    } else {
        BACKLIGHT_MAX
    }
}

/// Duty of backlight step `level`.
pub fn level_duty(level: usize) -> (duty: u16)
    requires
        level < BACKLIGHT_LEVEL_COUNT,
    ensures
        duty == spec_level_duty(level as int),
{
    match level {
        0 => 0,
        1 => 10,
        2 => 14,
        3 => 19,
        4 => 27,
        5 => 37,
        6 => 52,
        7 => 72,
        8 => 100,
        9 => 139,
        10 => 193,
        11 => 268,
        12 => 373,
        13 => 518,
        14 => 720,
        _ => BACKLIGHT_MAX,
    }
}

/// The duty the PWM is set to for a brightness: from 0 for dark up to [`BACKLIGHT_MAX`], larger
/// values being clamped.
pub fn backlight_duty(brightness: u16) -> (duty: u16)
    ensures
        duty == (if brightness <= BACKLIGHT_MAX {
            brightness
        } else {
            BACKLIGHT_MAX
        }),
{
    if brightness <= BACKLIGHT_MAX {
        brightness
    } else {
        BACKLIGHT_MAX
    }
}

/// The percentage shown for step `level`, rounded so that only the two ends come out as 0 and
/// as 100.
pub open spec fn spec_level_percent(level: int) -> u8 {
    ((level * 100 + 7) / 15) as u8
}

/// The brightness the LCD shows.
#[derive(Clone, Copy, PartialEq, Eq, Debug, Structural)]
pub struct Brightness {
    /// How far up the steps the backlight is, from 0 for off to 100 for the brightest.
    pub percent: u8,
    /// Counts how often a brightness key has set the backlight, wrapping around.
    pub revision: u8,
}

/// The packed word of a percentage and a revision.
pub open spec fn spec_pack(percent: u8, revision: u8) -> u32 {
    ((revision as u32) << 8u32) | (percent as u32)
}

/// Unpacks the brightness from the word it is published as: the percentage in the low byte and
/// the revision in the byte above it.
pub fn brightness(packed: u32) -> (r: Brightness)
    ensures
        r.percent == (packed & BRIGHTNESS_PERCENT_MASK) as u8,
        r.revision == ((packed >> BRIGHTNESS_PERCENT_BITS) & BRIGHTNESS_PERCENT_MASK) as u8,
{
    Brightness {
        percent: (packed & BRIGHTNESS_PERCENT_MASK) as u8,
        revision: ((packed >> BRIGHTNESS_PERCENT_BITS) & BRIGHTNESS_PERCENT_MASK) as u8,
    }
}

/// Packs a percentage and a revision into the word the brightness is published as.
pub fn pack_brightness(percent: u8, revision: u8) -> (packed: u32)
    ensures
        packed == spec_pack(percent, revision),
{
    ((revision as u32) << BRIGHTNESS_PERCENT_BITS) | (percent as u32)
}

/// What the brightness reads back of a packed word is what was packed into it.
pub proof fn lemma_unpack_pack(percent: u8, revision: u8)
    ensures
        (spec_pack(percent, revision) & BRIGHTNESS_PERCENT_MASK) as u8 == percent,
        ((spec_pack(percent, revision) >> BRIGHTNESS_PERCENT_BITS) & BRIGHTNESS_PERCENT_MASK) as u8
            == revision,
{
    let p = percent as u32;
    let r = revision as u32;
    assert(((r << 8u32) | p) & 0xff == p && (((r << 8u32) | p) >> 8u32) & 0xff == r) by (bit_vector)
        requires
            p < 256,
            r < 256,
    ;
}

/// What the firmware has to carry out after the backlight state changed.
#[derive(Clone, Copy, PartialEq, Eq, Debug)]
pub struct BacklightUpdate {
    /// Duty to drive the PWM at.
    pub duty: u16,
    /// Word to publish as the brightness the LCD shows.
    pub published: u32,
}

/// State of the processor that owns the backlight and steps it from the two brightness keys.
pub struct BacklightProcessor {
    /// The step the backlight is at, or will be set to once it is lit.
    level: usize,
    /// How often a brightness key has set the level.
    revision: u8,
    /// Whether the backlight has been lit, that is, whether the level is what the PWM outputs.
    lit: bool,
}

impl BacklightProcessor {
    /// The step the backlight is at.
    pub closed spec fn spec_level(&self) -> int {
        self.level as int
    }

    /// How often a brightness key has set the level.
    pub closed spec fn spec_revision(&self) -> u8 {
        self.revision
    }

    /// Whether the backlight has been lit.
    pub closed spec fn spec_lit(&self) -> bool {
        self.lit
    }

    /// Whether the step is one of the sixteen.
    pub closed spec fn wf(&self) -> bool {
        self.level < BACKLIGHT_LEVEL_COUNT
    }

    /// What a well-formed state holds: the step is one of the sixteen.
    pub proof fn lemma_wf(&self)
        requires
            self.wf(),
        ensures
            0 <= self.spec_level() < BACKLIGHT_LEVEL_COUNT,
    {
    }

    /// The word the state is published as.
    pub open spec fn spec_published(&self) -> u32 {
        spec_pack(spec_level_percent(self.spec_level()), self.spec_revision())
    }

    /// The state at power-on: dark, at the brightest step, with no press counted. The backlight
    /// pin itself is driven dark by the firmware.
    pub fn new() -> (r: Self)
        ensures
            r.wf(),
            r.spec_level() == BACKLIGHT_DEFAULT_LEVEL,
            r.spec_revision() == 0,
            !r.spec_lit(),
    {
        BacklightProcessor { level: BACKLIGHT_DEFAULT_LEVEL, revision: 0, lit: false }
    }

    /// The percentage shown for the current step.
    fn percent(&self) -> (p: u8)
        requires
            self.wf(),
        ensures
            p == spec_level_percent(self.level as int),
            p <= 100,
    {
        let top = BACKLIGHT_LEVEL_COUNT - 1;
        let p = (self.level * 100 + top / 2) / top;
        p as u8
    }

    /// The word the current step and revision are published as.
    pub fn published(&self) -> (packed: u32)
        requires
            self.wf(),
        ensures
            packed == self.spec_published(),
    {
        pack_brightness(self.percent(), self.revision)
    }

    /// Steps the backlight when a brightness key is pressed, and ignores every other action.
    ///
    /// `user_id` is the id of an `Action::User`, and `None` for every other action. Only a
    /// press is taken, and only once the backlight is lit. Both ends saturate instead of wrapping
    /// around, and a press against either end still counts as a revision.
    pub fn on_action_event(&mut self, pressed: bool, user_id: Option<u8>) -> (r: Option<
        BacklightUpdate,
    >)
        requires
            old(self).wf(),
        ensures
            final(self).wf(),
            final(self).spec_lit() == old(self).spec_lit(),
            ({
                let accepted = pressed && old(self).spec_lit() && (user_id == Some(BRIGHTNESS_UP_ID)
                    || user_id == Some(BRIGHTNESS_DOWN_ID));
                let level = if user_id == Some(BRIGHTNESS_UP_ID) {
                    if old(self).spec_level() < BACKLIGHT_DEFAULT_LEVEL {
                        old(self).spec_level() + 1
                    } else {
                        BACKLIGHT_DEFAULT_LEVEL as int
                    }
                } else if old(self).spec_level() > 0 {
                    old(self).spec_level() - 1
                } else {
                    0
                };
                &&& accepted ==> {
                    &&& final(self).spec_level() == level
                    &&& final(self).spec_revision() == (old(self).spec_revision() + 1) % 256
                    &&& r == Some(
                        BacklightUpdate {
                            duty: spec_level_duty(level),
                            published: final(self).spec_published(),
                        },
                    )
                }
                &&& !accepted ==> {
                    &&& r.is_none()
                    &&& final(self).spec_level() == old(self).spec_level()
                    &&& final(self).spec_revision() == old(self).spec_revision()
                }
            }),
    {
        if !pressed || !self.lit {
            return None;
        }
        let level = match user_id {
            Some(BRIGHTNESS_UP_ID) => if self.level + 1 < BACKLIGHT_LEVEL_COUNT {
                self.level + 1
            } else {
                BACKLIGHT_LEVEL_COUNT - 1
            },
            Some(BRIGHTNESS_DOWN_ID) => if self.level > 0 {
                self.level - 1
            } else {
                0
            },
            _ => return None,
        };
        self.level = level;
        let duty = self.apply();
        self.revision = self.revision.wrapping_add(1);
        Some(BacklightUpdate { duty, published: self.published() })
    }

    /// Drives the PWM to the current step and records that the backlight is lit.
    fn apply(&mut self) -> (duty: u16)
        requires
            old(self).wf(),
        ensures
            final(self).wf(),
            final(self).lit,
            final(self).level == old(self).level,
            final(self).revision == old(self).revision,
            duty == spec_level_duty(old(self).level as int),
    {
        self.lit = true;
        backlight_duty(level_duty(self.level))
    }

    /// Lights the backlight once the panel has shown its first frame, and has nothing to do
    /// before that or afterwards. Returns the duty to drive the PWM at when it lights it.
    pub fn poll(&mut self, panel_ready: bool) -> (duty: Option<u16>)
        requires
            old(self).wf(),
        ensures
            final(self).wf(),
            final(self).spec_level() == old(self).spec_level(),
            final(self).spec_revision() == old(self).spec_revision(),
            final(self).spec_lit() == (old(self).spec_lit() || panel_ready),
            duty == (if !old(self).spec_lit() && panel_ready {
                Some(spec_level_duty(old(self).spec_level()))
            } else {
                None
            }),
    {
        if self.lit || !panel_ready {
            return None;
        }
        Some(self.apply())
    }
}

/// Only the two ends of the steps show as 0 and as 100 percent, and the percentage grows with
/// the step.
pub proof fn lemma_percent_ends(level: int, other: int)
    requires
        0 <= level < BACKLIGHT_LEVEL_COUNT,
        0 <= other < BACKLIGHT_LEVEL_COUNT,
    ensures
        spec_level_percent(level) == 0 <==> level == 0,
        spec_level_percent(level) == 100 <==> level == BACKLIGHT_DEFAULT_LEVEL,
        spec_level_percent(level) <= 100,
        level < other ==> spec_level_percent(level) < spec_level_percent(other),
{
    assert(0 <= (level * 100 + 7) / 15 <= 100) by (nonlinear_arith)
        requires
            0 <= level <= 15,
    ;
    assert(0 <= (other * 100 + 7) / 15 <= 100) by (nonlinear_arith)
        requires
            0 <= other <= 15,
    ;
    assert(level < other ==> (level * 100 + 7) / 15 < (other * 100 + 7) / 15) by (nonlinear_arith);
    assert((level * 100 + 7) / 15 == 0 <==> level == 0) by (nonlinear_arith)
        requires
            0 <= level <= 15,
    ;
    assert((level * 100 + 7) / 15 == 100 <==> level == 15) by (nonlinear_arith)
        requires
            0 <= level <= 15,
    ;
}

/// The steps are strictly brighter one after the other, step 0 is dark and the top step is the
/// brightest the PWM takes.
pub proof fn lemma_levels_increase(level: int, other: int)
    requires
        0 <= level < other < BACKLIGHT_LEVEL_COUNT,
    ensures
        spec_level_duty(level) < spec_level_duty(other),
        spec_level_duty(0) == 0,
        spec_level_duty(BACKLIGHT_DEFAULT_LEVEL as int) == BACKLIGHT_MAX,
{
}

} // verus!
