//! The ST7789 LCD of the dongle: when the processor that drives it redraws, and what.
//!
//! A redraw only clears, draws and sends the parts of the status screen that the new state
//! changes. The brightness overlay is the one thing that is not redrawn from an event: it is an
//! animation, so [`LcdProcessor::poll`] steps it and watches the brightness for the changes that
//! start it.
pub mod framebuffer;
pub mod spim3_anomaly198;

use vstd::prelude::*;

use crate::backlight::Brightness;
use crate::connection::{BatteryStatus, ConnectionStatus};
use crate::status_screen::{
    BRIGHTNESS_SLIDE_FRAMES, BrightnessOverlay, HALF_COUNT, Layout, RedrawPlan, Status,
    plan_redraw,
};
use vstd::std_specs::cmp::PartialEqSpec;

verus! {

/// Width (px) of the panel after its rotation to landscape.
pub const WIDTH: usize = 280;

/// Height (px) of the panel after its rotation to landscape.
pub const HEIGHT: usize = 240;

/// How long (s) the brightness overlay stays fully in view once the brightness has stopped
/// changing.
pub const BRIGHTNESS_HOLD_SECS: u64 = 2;

/// Level an output pin whose logical levels may be swapped is driven to: High for a requested
/// High unless `inverted`, and the other way round. Used for the data/command pin of the panel.
pub fn polarity_level(high: bool, inverted: bool) -> (level: bool)
    ensures
        level == (high != inverted),
{
    if inverted {
        !high
    } else {
        high
    }
}

/// State of the processor that keeps the panel showing the state of the keyboard.
pub struct LcdProcessor {
    /// Whether the panel came up. When it did not, nothing is ever drawn.
    panel: bool,
    /// Where the parts of the screen lie.
    layout: Layout,
    /// State reported last.
    status: Status,
    /// State the panel currently shows.
    drawn: Option<Status>,
    /// Brightness seen last, which a poll compares against to notice that the backlight has
    /// been stepped.
    brightness: Brightness,
    /// How far the brightness overlay has come in, from 0 for off screen up to
    /// [`BRIGHTNESS_SLIDE_FRAMES`] for fully in.
    slide: u8,
    /// Timer tick at which the overlay starts sliding back out.
    hold_until: u64,
}

/// Whether `drawn` shows `status` already.
pub open spec fn shows(drawn: Option<Status>, status: Status) -> bool {
    match drawn {
        Some(d) => d.same(status),
        None => false,
    }
}

impl LcdProcessor {
    /// Whether the panel came up.
    pub closed spec fn spec_panel(&self) -> bool {
        self.panel
    }

    /// Where the parts of the screen lie.
    pub closed spec fn spec_layout(&self) -> Layout {
        self.layout
    }

    /// State reported last.
    pub closed spec fn spec_status(&self) -> Status {
        self.status
    }

    /// State the panel currently shows.
    pub closed spec fn spec_drawn(&self) -> Option<Status> {
        self.drawn
    }

    /// Brightness seen last.
    pub closed spec fn spec_brightness(&self) -> Brightness {
        self.brightness
    }

    /// How far the overlay has come in.
    pub closed spec fn spec_slide(&self) -> u8 {
        self.slide
    }

    /// Timer tick at which the overlay starts sliding back out.
    pub closed spec fn spec_hold_until(&self) -> u64 {
        self.hold_until
    }

    /// Whether the layout is sound and the overlay is on screen exactly while it has come in,
    /// showing the brightness seen last.
    pub closed spec fn wf(&self) -> bool {
        &&& self.layout.wf()
        &&& self.slide <= BRIGHTNESS_SLIDE_FRAMES
        &&& self.status.brightness == (if self.slide > 0 {
            Some(BrightnessOverlay { percent: self.brightness.percent, slide: self.slide })
        } else {
            None
        })
    }

    /// What [`Self::render`] plans from the state reported last, given what the panel shows.
    pub open spec fn render_ensures(
        old_drawn: Option<Status>,
        panel: bool,
        layout: Layout,
        status: Status,
        drawn: Option<Status>,
        plan: Option<RedrawPlan>,
    ) -> bool {
        if shows(old_drawn, status) || !panel {
            plan.is_none() && drawn == old_drawn
        } else {
            &&& drawn == Some(status)
            &&& plan matches Some(p) && p.full == old_drawn.is_none() && Self::plan_for(
                p,
                old_drawn,
                layout,
                status,
            )
        }
    }

    /// Whether `p` is what [`plan_redraw`] plans for `status` over a screen that shows
    /// `old_drawn`.
    pub open spec fn plan_for(p: RedrawPlan, old_drawn: Option<Status>, layout: Layout, status: Status) -> bool {
        &&& p.rows.wf()
        &&& match old_drawn {
            None => {
                &&& p.header && p.overlay && p.layer && p.battery
                &&& p.rows@ == seq![crate::status_screen::band::Band { top: 0, height: layout.height }]
            },
            Some(shown) => {
                &&& p.header == crate::status_screen::spec_header_dirty(status, shown)
                &&& p.layer == crate::status_screen::spec_layer_dirty(layout, status, shown)
                &&& p.overlay == crate::status_screen::spec_overlay_dirty(layout, status, shown)
                &&& p.battery == crate::status_screen::spec_battery_dirty(status, shown)
                &&& p.rows@ == crate::status_screen::dirty_rows(layout, p.header, p.overlay, p.layer, p.battery)
            },
        }
    }

    /// Builds the state with nothing drawn yet, taking the brightness the backlight comes up at
    /// as the starting point rather than as a change, so that no overlay slides in at boot.
    pub fn new(layout: Layout, brightness: Brightness, panel: bool) -> (r: Self)
        requires
            layout.wf(),
        ensures
            r.wf(),
            r.spec_panel() == panel,
            r.spec_layout() == layout,
            r.spec_status().same(Status::spec_new()),
            r.spec_drawn().is_none(),
            r.spec_brightness() == brightness,
            r.spec_slide() == 0,
            r.spec_hold_until() == 0,
    {
        LcdProcessor {
            panel,
            layout,
            status: Status::new(),
            drawn: None,
            brightness,
            slide: 0,
            hold_until: 0,
        }
    }

    /// State reported last.
    pub fn status(&self) -> (r: Status)
        ensures
            r == self.spec_status(),
    {
        self.status
    }

    /// Decides the redraw that brings the panel to the state reported last, and records that it
    /// shows it. Nothing is redrawn while the panel already shows that state, nor when there is
    /// no panel.
    pub fn render(&mut self) -> (plan: Option<RedrawPlan>)
        requires
            old(self).wf(),
        ensures
            final(self).wf(),
            final(self).spec_status() == old(self).spec_status(),
            final(self).spec_panel() == old(self).spec_panel(),
            final(self).spec_layout() == old(self).spec_layout(),
            final(self).spec_brightness() == old(self).spec_brightness(),
            final(self).spec_slide() == old(self).spec_slide(),
            final(self).spec_hold_until() == old(self).spec_hold_until(),
            Self::render_ensures(
                old(self).spec_drawn(),
                old(self).spec_panel(),
                old(self).spec_layout(),
                old(self).spec_status(),
                final(self).spec_drawn(),
                plan,
            ),
    {
        let status = self.status;
        let shown = self.drawn == Some(status);
        proof {
            if let Some(d) = self.drawn {
                crate::status_screen::lemma_eq_is_same(d, status);
            }
        }
        if shown || !self.panel {
            return None;
        }
        let drawn = self.drawn;
        let plan = plan_redraw(&self.layout, &status, drawn);
        self.drawn = Some(status);
        Some(plan)
    }

    /// Takes in a change of the host connection state, and decides the redraw.
    pub fn on_connection_status_change_event(&mut self, connection: ConnectionStatus) -> (plan:
        Option<RedrawPlan>)
        requires
            old(self).wf(),
        ensures
            final(self).wf(),
            final(self).spec_status() == (Status { connection, ..old(self).spec_status() }),
            Self::render_ensures(
                old(self).spec_drawn(),
                old(self).spec_panel(),
                old(self).spec_layout(),
                final(self).spec_status(),
                final(self).spec_drawn(),
                plan,
            ),
    {
        self.status.connection = connection;
        self.render()
    }

    /// Takes in a layer change, and decides the redraw.
    pub fn on_layer_change_event(&mut self, layer: u8) -> (plan: Option<RedrawPlan>)
        requires
            old(self).wf(),
        ensures
            final(self).wf(),
            final(self).spec_status() == (Status { layer, ..old(self).spec_status() }),
            Self::render_ensures(
                old(self).spec_drawn(),
                old(self).spec_panel(),
                old(self).spec_layout(),
                final(self).spec_status(),
                final(self).spec_drawn(),
                plan,
            ),
    {
        self.status.layer = layer;
        self.render()
    }

    /// Takes in a change of the modifiers being held, as the packed bits of the combination, and
    /// decides the redraw.
    pub fn on_modifier_event(&mut self, modifiers: u8) -> (plan: Option<RedrawPlan>)
        requires
            old(self).wf(),
        ensures
            final(self).wf(),
            final(self).spec_status() == (Status { modifiers, ..old(self).spec_status() }),
            Self::render_ensures(
                old(self).spec_drawn(),
                old(self).spec_panel(),
                old(self).spec_layout(),
                final(self).spec_status(),
                final(self).spec_drawn(),
                plan,
            ),
    {
        self.status.modifiers = modifiers;
        self.render()
    }

    /// Takes in the battery of the half `id`, and decides the redraw. An id that is not one of
    /// the two halves is dropped rather than shown in the wrong place.
    pub fn on_peripheral_battery_event(&mut self, id: usize, battery: BatteryStatus) -> (plan:
        Option<RedrawPlan>)
        requires
            old(self).wf(),
        ensures
            final(self).wf(),
            id >= HALF_COUNT ==> plan.is_none() && *final(self) == *old(self),
            id < HALF_COUNT ==> {
                &&& final(self).spec_status().batteries@ == old(
                    self,
                ).spec_status().batteries@.update(id as int, battery)
                &&& final(self).spec_status() == (Status {
                    batteries: final(self).spec_status().batteries,
                    ..old(self).spec_status()
                })
                &&& Self::render_ensures(
                    old(self).spec_drawn(),
                    old(self).spec_panel(),
                    old(self).spec_layout(),
                    final(self).spec_status(),
                    final(self).spec_drawn(),
                    plan,
                )
            },
    {
        if id >= HALF_COUNT {
            return None;
        }
        self.status.batteries[id] = battery;
        self.render()
    }

    /// Takes in a change of the link to the half `id`. A half that is not connected has its
    /// battery dropped rather than left at the level it last reported, which nothing else would
    /// ever clear.
    pub fn on_peripheral_connected_event(&mut self, id: usize, connected: bool) -> (plan: Option<
        RedrawPlan,
    >)
        requires
            old(self).wf(),
        ensures
            final(self).wf(),
            connected || id >= HALF_COUNT ==> plan.is_none() && *final(self) == *old(self),
            !connected && id < HALF_COUNT ==> {
                &&& final(self).spec_status().batteries@ == old(
                    self,
                ).spec_status().batteries@.update(id as int, BatteryStatus::Unavailable)
                &&& final(self).spec_status() == (Status {
                    batteries: final(self).spec_status().batteries,
                    ..old(self).spec_status()
                })
                &&& Self::render_ensures(
                    old(self).spec_drawn(),
                    old(self).spec_panel(),
                    old(self).spec_layout(),
                    final(self).spec_status(),
                    final(self).spec_drawn(),
                    plan,
                )
            },
    {
        if connected || id >= HALF_COUNT {
            return None;
        }
        self.status.batteries[id] = BatteryStatus::Unavailable;
        self.render()
    }

    /// The overlay's slide after a poll at `now` that sees `brightness`, and the tick it is held
    /// until.
    pub open spec fn spec_slide_after(&self, brightness: Brightness, now: u64, hold_ticks: u64) -> (
        u8,
        u64,
    ) {
        let hold_until = if brightness != self.spec_brightness() {
            (now + hold_ticks) as u64
        } else {
            self.spec_hold_until()
        };
        let target = if now < hold_until {
            BRIGHTNESS_SLIDE_FRAMES
        } else {
            0
        };
        let slide = if self.spec_slide() < target {
            (self.spec_slide() + 1) as u8
        } else if self.spec_slide() > target {
            (self.spec_slide() - 1) as u8
        } else {
            self.spec_slide()
        };
        (slide, hold_until)
    }

    /// Whether `next` is what a poll at `now` that sees `brightness` leaves of this state: the
    /// brightness seen last, the slide and the hold as [`Self::spec_slide_after`] gives them, and
    /// the overlay reported at that slide, the rest of the state reported last unchanged.
    pub open spec fn spec_polled(&self, next: Self, brightness: Brightness, now: u64, hold_ticks: u64) -> bool {
        let (slide, hold_until) = self.spec_slide_after(brightness, now, hold_ticks);
        &&& next.spec_brightness() == brightness
        &&& next.spec_slide() == slide
        &&& next.spec_hold_until() == hold_until
        &&& next.spec_status() == (Status {
            brightness: if slide > 0 {
                Some(BrightnessOverlay { percent: brightness.percent, slide })
            } else {
                None
            },
            ..self.spec_status()
        })
    }

    /// Moves the brightness overlay one frame, and decides the redraw.
    ///
    /// `brightness` is where the backlight stands, `now` the current timer tick and
    /// `hold_ticks` how many ticks the overlay stays fully in view after the last change. A
    /// brightness that differs from the one seen last restarts the hold, so a run of presses
    /// keeps the overlay up and the hold counts from the last of them. The slide moves one frame
    /// per poll towards fully in while held and towards off screen afterwards.
    pub fn poll(&mut self, brightness: Brightness, now: u64, hold_ticks: u64) -> (plan: Option<
        RedrawPlan,
    >)
        requires
            old(self).wf(),
            now + hold_ticks <= u64::MAX,
        ensures
            final(self).wf(),
            old(self).spec_polled(*final(self), brightness, now, hold_ticks),
            Self::render_ensures(
                old(self).spec_drawn(),
                old(self).spec_panel(),
                old(self).spec_layout(),
                final(self).spec_status(),
                final(self).spec_drawn(),
                plan,
            ),
    {
        if brightness != self.brightness {
            self.brightness = brightness;
            self.hold_until = now + hold_ticks;
        }
        let target = if now < self.hold_until {
            BRIGHTNESS_SLIDE_FRAMES
        } else {
            0
        };
        if self.slide < target {
            self.slide = self.slide + 1;
        } else if self.slide > target {
            self.slide = self.slide - 1;
        }
        self.status.brightness = if self.slide > 0 {
            Some(BrightnessOverlay { percent: self.brightness.percent, slide: self.slide })
        } else {
            None
        };
        self.render()
    }
}

/// A second redraw right after a redraw has nothing left to do.
pub proof fn lemma_render_settles(
    old_drawn: Option<Status>,
    panel: bool,
    layout: Layout,
    status: Status,
    drawn: Option<Status>,
    plan: Option<RedrawPlan>,
    drawn2: Option<Status>,
    plan2: Option<RedrawPlan>,
)
    requires
        LcdProcessor::render_ensures(old_drawn, panel, layout, status, drawn, plan),
        LcdProcessor::render_ensures(drawn, panel, layout, status, drawn2, plan2),
    ensures
        plan2.is_none(),
        drawn2 == drawn,
{
    if !shows(old_drawn, status) && panel {
        assert(status.batteries@ =~= status.batteries@);
    }
}

/// The overlay moves one frame per poll: towards fully in while the hold lasts, and towards off
/// screen once it is over, never past either end.
pub proof fn lemma_slide_moves_one_frame(p: LcdProcessor, brightness: Brightness, now: u64, hold_ticks: u64)
    requires
        p.wf(),
        now + hold_ticks <= u64::MAX,
    ensures
        ({
            let (slide, hold_until) = p.spec_slide_after(brightness, now, hold_ticks);
            &&& slide <= BRIGHTNESS_SLIDE_FRAMES
            &&& now < hold_until ==> slide == if p.spec_slide() < BRIGHTNESS_SLIDE_FRAMES {
                p.spec_slide() + 1
            } else {
                BRIGHTNESS_SLIDE_FRAMES as int
            }
            &&& now >= hold_until ==> slide == if p.spec_slide() > 0 {
                p.spec_slide() - 1
            } else {
                0
            }
        }),
{
    lemma_wf(p);
}

/// A brightness that differs from the one seen last holds the overlay in view from `now` for
/// `hold_ticks` ticks, whatever hold was running.
pub proof fn lemma_change_restarts_hold(p: LcdProcessor, brightness: Brightness, now: u64, hold_ticks: u64)
    requires
        brightness != p.spec_brightness(),
        now + hold_ticks <= u64::MAX,
    ensures
        p.spec_slide_after(brightness, now, hold_ticks).1 == now + hold_ticks,
{
}

/// The brightness the backlight comes up at slides no overlay in: as long as it does not change,
/// a poll of a freshly built processor leaves the overlay off screen.
pub proof fn lemma_no_overlay_at_boot(p: LcdProcessor, now: u64, hold_ticks: u64)
    requires
        p.spec_slide() == 0,
        p.spec_hold_until() == 0,
        now + hold_ticks <= u64::MAX,
    ensures
        p.spec_slide_after(p.spec_brightness(), now, hold_ticks).0 == 0,
{
}

/// What a well-formed [`LcdProcessor`] holds: a sound layout, an overlay slid in no further than
/// [`BRIGHTNESS_SLIDE_FRAMES`], and an overlay reported exactly while it has come in, at the
/// brightness seen last.
pub proof fn lemma_wf(p: LcdProcessor)
    requires
        p.wf(),
    ensures
        p.spec_layout().wf(),
        p.spec_slide() <= BRIGHTNESS_SLIDE_FRAMES,
        p.spec_status().brightness == (if p.spec_slide() > 0 {
            Some(BrightnessOverlay { percent: p.spec_brightness().percent, slide: p.spec_slide() })
        } else {
            None
        }),
{
}

/// Once the hold is over and the brightness stays as seen last, [`BRIGHTNESS_SLIDE_FRAMES`] polls
/// or more take the overlay off screen, however far it had come in: `states` are the processor
/// before and after each poll, and `times` the ticks the polls ran at.
pub proof fn lemma_overlay_gone_after_hold(
    states: Seq<LcdProcessor>,
    times: Seq<u64>,
    brightness: Brightness,
    hold_ticks: u64,
)
    requires
        states.len() == times.len() + 1,
        times.len() >= BRIGHTNESS_SLIDE_FRAMES,
        states[0].wf(),
        states[0].spec_brightness() == brightness,
        forall|i: int| 0 <= i < times.len() ==> #[trigger] times[i] >= states[0].spec_hold_until(),
        forall|i: int|
            0 <= i < times.len() ==> (#[trigger] states[i]).spec_polled(
                states[i + 1],
                brightness,
                times[i],
                hold_ticks,
            ),
    ensures
        states.last().spec_slide() == 0,
        states.last().spec_status().brightness.is_none(),
{
    lemma_wf(states[0]);
    lemma_slide_falls(states, times, brightness, hold_ticks, times.len() as int);
}

/// After `n` of the polls of [`lemma_overlay_gone_after_hold`], the hold is unchanged and the
/// overlay has gone out by `n` frames or is off screen.
proof fn lemma_slide_falls(
    states: Seq<LcdProcessor>,
    times: Seq<u64>,
    brightness: Brightness,
    hold_ticks: u64,
    n: int,
)
    requires
        states.len() == times.len() + 1,
        0 <= n <= times.len(),
        states[0].spec_slide() <= BRIGHTNESS_SLIDE_FRAMES,
        states[0].spec_brightness() == brightness,
        forall|i: int| 0 <= i < times.len() ==> #[trigger] times[i] >= states[0].spec_hold_until(),
        forall|i: int|
            0 <= i < times.len() ==> (#[trigger] states[i]).spec_polled(
                states[i + 1],
                brightness,
                times[i],
                hold_ticks,
            ),
    ensures
        states[n].spec_brightness() == brightness,
        states[n].spec_hold_until() == states[0].spec_hold_until(),
        states[n].spec_slide() <= (if n < BRIGHTNESS_SLIDE_FRAMES {
            BRIGHTNESS_SLIDE_FRAMES - n
        } else {
            0
        }),
        n > 0 ==> states[n].spec_status().brightness == (if states[n].spec_slide() > 0 {
            Some(BrightnessOverlay { percent: brightness.percent, slide: states[n].spec_slide() })
        } else {
            None
        }),
    decreases n,
{
    if n > 0 {
        lemma_slide_falls(states, times, brightness, hold_ticks, n - 1);
        assert(states[n - 1].spec_polled(states[n], brightness, times[n - 1], hold_ticks));
        assert(times[n - 1] >= states[0].spec_hold_until());
    }
}

} // verus!
