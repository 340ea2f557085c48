//! What the WS2812 indicator LEDs of a half show.
//!
//! What each LED shows differs between the halves, following the official firmware, and is
//! passed in as [`left_roles`] or [`right_roles`]. The event handlers only update state; what to
//! send to the LEDs is decided in [`IndicatorProcessor::poll`], which the firmware calls every
//! [`POLL_INTERVAL_MS`] and whose answer it carries out.
use vstd::prelude::*;

use crate::connection::{BatteryStatus, BleState, ConnectionStatus, UsbState};
use crate::ws2812::Rgb;

verus! {

/// Number of LEDs per half.
pub const LED_COUNT: usize = 2;

/// Poll interval (ms).
pub const POLL_INTERVAL_MS: u32 = 50;

/// Period (ms) of the heartbeat, the slow blink of searching, charging and a lost split link.
pub const HEARTBEAT_PERIOD_MS: u32 = 1000;

/// Period (ms) of the crisp blink of a low battery.
pub const LOW_BATTERY_BLINK_PERIOD_MS: u32 = 500;

/// Lit time (ms) of "lit for one second, then off".
pub const HOLD_MS: u32 = 1000;

/// Lit time (ms) of the power-on self test.
pub const SELF_TEST_MS: u32 = 2000;

/// Number of polls in one heartbeat cycle.
pub const HEARTBEAT_TICKS: u32 = HEARTBEAT_PERIOD_MS / POLL_INTERVAL_MS;

/// Number of polls that corresponds to half a low battery blink period.
pub const LOW_BATTERY_HALF_TICKS: u32 = LOW_BATTERY_BLINK_PERIOD_MS / 2 / POLL_INTERVAL_MS;

/// Number of polls that corresponds to holding the LED lit.
pub const HOLD_TICKS: u32 = HOLD_MS / POLL_INTERVAL_MS;

/// Number of polls that the power-on self test lasts.
pub const SELF_TEST_TICKS: u32 = SELF_TEST_MS / POLL_INTERVAL_MS;

/// Threshold (%) below which the battery level is considered low.
pub const LOW_BATTERY_PERCENT: u8 = 20;

/// Brightness of each component: an eighth of the maximum.
pub const LEVEL: u8 = u8::MAX / 8;

/// Green.
pub open spec fn green() -> Rgb {
    Rgb { r: 0, g: LEVEL, b: 0 }
}

/// Red.
pub open spec fn red() -> Rgb {
    Rgb { r: LEVEL, g: 0, b: 0 }
}

/// Blue.
pub open spec fn blue() -> Rgb {
    Rgb { r: 0, g: 0, b: LEVEL }
}

/// Yellow.
pub open spec fn yellow() -> Rgb {
    Rgb { r: LEVEL, g: LEVEL, b: 0 }
}

/// Cyan.
pub open spec fn cyan() -> Rgb {
    Rgb { r: 0, g: LEVEL, b: LEVEL }
}

/// Off.
pub open spec fn off() -> Rgb {
    Rgb { r: 0, g: 0, b: 0 }
}

/// Colors that correspond to the BLE profile number: green, red, blue, yellow, cyan.
pub open spec fn spec_profile_color(profile: int) -> Option<Rgb> {
    if profile == 0 {
        Some(green())
    } else if profile == 1 {
        Some(red())
    } else if profile == 2 {
        Some(blue())
    } else if profile == 3 {
        Some(yellow())
    } else if profile == 4 {
        Some(cyan())
    } else {
        None
    }
}

/// The color of BLE profile `profile`, for the five profiles there are.
pub fn profile_color(profile: u8) -> (r: Option<Rgb>)
    ensures
        r == spec_profile_color(profile as int),
{
    match profile {
        0 => Some(Rgb::new(0, LEVEL, 0)),
        1 => Some(Rgb::new(LEVEL, 0, 0)),
        2 => Some(Rgb::new(0, 0, LEVEL)),
        3 => Some(Rgb::new(LEVEL, LEVEL, 0)),
        4 => Some(Rgb::new(0, LEVEL, LEVEL)),
        _ => None,
    }
}

/// What a single LED shows.
#[derive(Clone, Copy, PartialEq, Eq, Debug, Structural)]
pub enum LedRole {
    /// Host connection state of the central.
    HostConnection,
    /// Split link and battery on one LED, the link taking priority.
    BatteryAndLink,
    /// Battery of this half only.
    Battery,
    /// Split link to the central only.
    SplitLink,
}

/// Roles of the left half. Inner shows the battery and the link, outer shows the host
/// connection.
pub fn left_roles() -> (r: [LedRole; LED_COUNT])
    ensures
        r@ == seq![LedRole::BatteryAndLink, LedRole::HostConnection],
{
    let r = [LedRole::BatteryAndLink, LedRole::HostConnection];
    assert(r@ =~= seq![LedRole::BatteryAndLink, LedRole::HostConnection]);
    r
}

/// Roles of the right half. Inner shows the battery, outer shows the split link.
pub fn right_roles() -> (r: [LedRole; LED_COUNT])
    ensures
        r@ == seq![LedRole::Battery, LedRole::SplitLink],
{
    let r = [LedRole::Battery, LedRole::SplitLink];
    assert(r@ =~= seq![LedRole::Battery, LedRole::SplitLink]);
    r
}

/// A component scaled by `num / den` (a zero `den` counting as one), saturating at 255.
pub open spec fn spec_scale(component: u8, num: u32, den: u32) -> u8 {
    let d: int = if den == 0 { 1 } else { den as int };
    let v: int = (component as int * num as int) / d;
    if v > 255 {
        255
    } else {
        v as u8
    }
}

/// `color` with every component scaled by `num / den`.
pub open spec fn spec_scaled(color: Rgb, num: u32, den: u32) -> Rgb {
    Rgb {
        r: spec_scale(color.r, num, den),
        g: spec_scale(color.g, num, den),
        b: spec_scale(color.b, num, den),
    }
}

fn scale(component: u8, num: u32, den: u32) -> (r: u8)
    requires
        component * num <= u32::MAX,
    ensures
        r == spec_scale(component, num, den),
{
    let d: u32 = if den == 0 {
        1
    } else {
        den
    };
    let v: u32 = component as u32 * num / d;
    if v > 255 {
        255
    } else {
        v as u8
    }
}

/// Scales every component of `color` by `num / den`.
///
/// The products of the components with `num` have to fit in a `u32`.
pub fn scaled(color: Rgb, num: u32, den: u32) -> (r: Rgb)
    requires
        color.r * num <= u32::MAX,
        color.g * num <= u32::MAX,
        color.b * num <= u32::MAX,
    ensures
        r == spec_scaled(color, num, den),
{
    Rgb::new(scale(color.r, num, den), scale(color.g, num, den), scale(color.b, num, den))
}

/// What the firmware has to do after a poll, in this order: raise the LED supply and wait for it
/// to settle, send a frame, and drop the supply again.
#[derive(Clone, Copy, PartialEq, Eq, Debug)]
pub struct PollActions {
    /// Raise the LED supply, then wait for it to settle.
    pub power_on: bool,
    /// Send these colors to the LEDs, when the LED driver is up.
    pub write: Option<[Rgb; LED_COUNT]>,
    /// Drop the LED supply.
    pub power_off: bool,
}

/// State of the indicator of one half.
pub struct IndicatorProcessor {
    /// Whether the LED supply is currently enabled.
    pub powered: bool,
    /// Host connection state of the central, synchronized over the split link.
    pub connection: ConnectionStatus,
    /// Whether the split link to the central is established.
    pub central_connected: bool,
    /// Battery level (%). `None` when it has not been obtained.
    pub battery_level: Option<u8>,
    /// Whether the battery is charging.
    pub charging: bool,
    /// Blink phase. Advances on every poll.
    pub phase: u32,
    /// Remaining polls to stay lit after the host connection is established.
    pub host_hold: u32,
    /// Remaining polls to stay lit after the split link is established.
    pub link_hold: u32,
    /// Remaining polls to stay lit after charging completes.
    pub charge_done_hold: u32,
    /// Remaining polls of the power-on self test.
    pub self_test: u32,
    /// What each LED shows. Index 0 is the LED nearest the MCU.
    pub roles: [LedRole; LED_COUNT],
    /// Colors sent last time, kept to avoid resending the same content.
    pub last: Option<[Rgb; LED_COUNT]>,
}

/// Whether both LEDs of `colors` are off.
pub open spec fn all_off(colors: Seq<Rgb>) -> bool {
    colors[0].is_off() && colors[1].is_off()
}

/// Whether `colors` are the ones sent last.
pub open spec fn already_sent(last: Option<[Rgb; LED_COUNT]>, colors: Seq<Rgb>) -> bool {
    match last {
        Some(prev) => prev@ == colors,
        None => false,
    }
}

impl IndicatorProcessor {
    /// `color` dimmed along a triangular heartbeat that ramps up and back down over one cycle.
    pub open spec fn spec_heartbeat(&self, color: Rgb) -> Rgb {
        let half = HEARTBEAT_TICKS / 2;
        let position = self.phase % HEARTBEAT_TICKS;
        let level = if position < half {
            position
        } else {
            (HEARTBEAT_TICKS - position) as u32
        };
        spec_scaled(color, level, half)
    }

    /// Whether the low battery blink is in its lit phase.
    pub open spec fn spec_low_battery_blink_on(&self) -> bool {
        (self.phase / LOW_BATTERY_HALF_TICKS) % 2 == 0
    }

    /// Whether a host is actively using the dongle over USB.
    pub open spec fn spec_usb_in_use(&self) -> bool {
        self.connection.usb == UsbState::Configured
    }

    /// Host connection of the central: lit in the profile color for a while once connected, a
    /// heartbeat in it while advertising with no host using USB, and off otherwise.
    pub open spec fn spec_host_color(&self) -> Rgb {
        match spec_profile_color(self.connection.ble.profile as int) {
            None => off(),
            Some(color) => if self.connection.ble.state == BleState::Connected && self.host_hold
                > 0 {
                color
            } else if self.connection.ble.state == BleState::Advertising
                && !self.spec_usb_in_use() {
                self.spec_heartbeat(color)
            } else {
                off()
            },
        }
    }

    /// Split link to the central: a blue heartbeat while it is down, blue for a while once it is
    /// up, and off otherwise.
    pub open spec fn spec_split_link_color(&self) -> Rgb {
        if !self.central_connected {
            self.spec_heartbeat(blue())
        } else if self.link_hold > 0 {
            blue()
        } else {
            off()
        }
    }

    /// Battery of this half: a green heartbeat while charging, green for a while once charged,
    /// then a red blink while the level is known to be low.
    pub open spec fn spec_battery_color(&self) -> Rgb {
        if self.charging {
            self.spec_heartbeat(green())
        } else if self.charge_done_hold > 0 {
            green()
        } else if self.battery_level matches Some(level) && level < LOW_BATTERY_PERCENT {
            if self.spec_low_battery_blink_on() {
                red()
            } else {
                off()
            }
        } else {
            off()
        }
    }

    /// The split link, or the battery while the link shows nothing.
    pub open spec fn spec_battery_and_link_color(&self) -> Rgb {
        if self.spec_split_link_color().is_off() {
            self.spec_battery_color()
        } else {
            self.spec_split_link_color()
        }
    }

    /// Color for one LED according to the role assigned to it.
    pub open spec fn spec_role_color(&self, role: LedRole) -> Rgb {
        match role {
            LedRole::HostConnection => self.spec_host_color(),
            LedRole::BatteryAndLink => self.spec_battery_and_link_color(),
            LedRole::Battery => self.spec_battery_color(),
            LedRole::SplitLink => self.spec_split_link_color(),
        }
    }

    /// What the LEDs show: red and green during the self test, each role's color afterwards.
    pub open spec fn spec_colors(&self) -> Seq<Rgb> {
        if self.self_test > 0 {
            seq![red(), green()]
        } else {
            seq![self.spec_role_color(self.roles[0]), self.spec_role_color(self.roles[1])]
        }
    }

    /// The state after the charge detection reads `charging` and every timer has advanced by
    /// one poll.
    pub open spec fn spec_advanced(&self, charging: bool) -> Self {
        let done = self.charging && !charging && (self.battery_level matches Some(level) && level
            >= LOW_BATTERY_PERCENT);
        let charge_done_hold = if done {
            HOLD_TICKS
        } else {
            self.charge_done_hold
        };
        IndicatorProcessor {
            phase: ((self.phase + 1) % 0x1_0000_0000) as u32,
            charging,
            host_hold: if self.host_hold > 0 { (self.host_hold - 1) as u32 } else { 0 },
            link_hold: if self.link_hold > 0 { (self.link_hold - 1) as u32 } else { 0 },
            charge_done_hold: if charge_done_hold > 0 { (charge_done_hold - 1) as u32 } else { 0 },
            self_test: if self.self_test > 0 { (self.self_test - 1) as u32 } else { 0 },
            ..*self
        }
    }

    /// Builds the state at power-on: nothing connected, no battery level, not charging, the LED
    /// supply off and the self test about to run.
    pub fn new(roles: [LedRole; LED_COUNT]) -> (r: Self)
        ensures
            !r.powered,
            r.connection == ConnectionStatus::new_spec(),
            !r.central_connected,
            r.battery_level.is_none(),
            !r.charging,
            r.phase == 0,
            r.host_hold == 0,
            r.link_hold == 0,
            r.charge_done_hold == 0,
            r.self_test == SELF_TEST_TICKS,
            r.roles == roles,
            r.last.is_none(),
    {
        IndicatorProcessor {
            powered: false,
            connection: ConnectionStatus::new(),
            central_connected: false,
            battery_level: None,
            charging: false,
            phase: 0,
            host_hold: 0,
            link_hold: 0,
            charge_done_hold: 0,
            self_test: SELF_TEST_TICKS,
            roles,
            last: None,
        }
    }

    /// Takes in a change of the host connection state, and holds the host LED lit when BLE has
    /// just connected.
    pub fn on_connection_status_change_event(&mut self, connection: ConnectionStatus)
        ensures
            final(self).connection == connection,
            final(self).host_hold == (if old(self).connection.ble.state != BleState::Connected
                && connection.ble.state == BleState::Connected {
                HOLD_TICKS
            } else {
                old(self).host_hold
            }),
            *final(self) == (IndicatorProcessor {
                connection: final(self).connection,
                host_hold: final(self).host_hold,
                ..*old(self)
            }),
    {
        let was_connected = match self.connection.ble.state {
            BleState::Connected => true,
            _ => false,
        };
        self.connection = connection;
        let now_connected = match connection.ble.state {
            BleState::Connected => true,
            _ => false,
        };
        if !was_connected && now_connected {
            self.host_hold = HOLD_TICKS;
        }
    }

    /// Takes in a change of the split link connection state, and holds the link LED lit when the
    /// link has just come up.
    pub fn on_central_connected_event(&mut self, connected: bool)
        ensures
            final(self).central_connected == connected,
            final(self).link_hold == (if connected && !old(self).central_connected {
                HOLD_TICKS
            } else {
                old(self).link_hold
            }),
            *final(self) == (IndicatorProcessor {
                central_connected: final(self).central_connected,
                link_hold: final(self).link_hold,
                ..*old(self)
            }),
    {
        if connected && !self.central_connected {
            self.link_hold = HOLD_TICKS;
        }
        self.central_connected = connected;
    }

    /// Takes in a change of the battery level.
    pub fn on_battery_status_event(&mut self, status: BatteryStatus)
        ensures
            *final(self) == (IndicatorProcessor { battery_level: status.spec_level(), ..*old(self) }),
    {
        self.battery_level = status.level();
    }

    /// Reads the charge detection and holds the battery LED lit when charging has just finished
    /// with the level known and not low.
    fn update_charging(&mut self, charging: bool)
        ensures
            *final(self) == (IndicatorProcessor {
                charging,
                charge_done_hold: if old(self).charging && !charging && (old(
                    self,
                ).battery_level matches Some(level) && level >= LOW_BATTERY_PERCENT) {
                    HOLD_TICKS
                } else {
                    old(self).charge_done_hold
                },
                ..*old(self)
            }),
    {
        let level_ok = match self.battery_level {
            Some(level) => level >= LOW_BATTERY_PERCENT,
            None => false,
        };
        if self.charging && !charging && level_ok {
            self.charge_done_hold = HOLD_TICKS;
        }
        self.charging = charging;
    }

    /// `color` dimmed along a triangular heartbeat. The LED is fully dark only for the single
    /// tick at the trough.
    fn heartbeat(&self, color: Rgb) -> (r: Rgb)
        ensures
            r == self.spec_heartbeat(color),
    {
        let half = HEARTBEAT_TICKS / 2;
        let position = self.phase % HEARTBEAT_TICKS;
        let level = if position < half {
            position
        } else {
            HEARTBEAT_TICKS - position
        };
        assert(color.r * level <= 255 * 10 && color.g * level <= 255 * 10 && color.b * level
            <= 255 * 10) by (nonlinear_arith)
            requires
                level <= 10,
        ;
        scaled(color, level, half)
    }

    /// `true` when the low battery blink is in its lit phase.
    fn low_battery_blink_on(&self) -> (r: bool)
        ensures
            r == self.spec_low_battery_blink_on(),
    {
        (self.phase / LOW_BATTERY_HALF_TICKS) % 2 == 0
    }

    /// Whether a host is actively using the dongle over USB. A suspended host is not active use.
    fn usb_in_use(&self) -> (r: bool)
        ensures
            r == self.spec_usb_in_use(),
    {
        match self.connection.usb {
            UsbState::Configured => true,
            _ => false,
        }
    }

    /// Shows the BLE host connection state of the central.
    fn host_color(&self) -> (r: Rgb)
        ensures
            r == self.spec_host_color(),
    {
        let color = match profile_color(self.connection.ble.profile) {
            Some(color) => color,
            None => return Rgb::off(),
        };
        match self.connection.ble.state {
            BleState::Connected => if self.host_hold > 0 {
                color
            } else {
                Rgb::off()
            },
            BleState::Advertising => if !self.usb_in_use() {
                self.heartbeat(color)
            } else {
                Rgb::off()
            },
            _ => Rgb::off(),
        }
    }

    /// Shows the split link to the central.
    fn split_link_color(&self) -> (r: Rgb)
        ensures
            r == self.spec_split_link_color(),
    {
        if !self.central_connected {
            return self.heartbeat(Rgb::new(0, 0, LEVEL));
        }
        if self.link_hold > 0 {
            return Rgb::new(0, 0, LEVEL);
        }
        Rgb::off()
    }

    /// Shows the battery of this half: charging, charge completion, then a low level.
    fn battery_color(&self) -> (r: Rgb)
        ensures
            r == self.spec_battery_color(),
    {
        if self.charging {
            return self.heartbeat(Rgb::new(0, LEVEL, 0));
        }
        if self.charge_done_hold > 0 {
            return Rgb::new(0, LEVEL, 0);
        }
        let low = match self.battery_level {
            Some(level) => level < LOW_BATTERY_PERCENT,
            None => false,
        };
        if low {
            return if self.low_battery_blink_on() {
                Rgb::new(LEVEL, 0, 0)
            } else {
                Rgb::off()
            };
        }
        Rgb::off()
    }

    /// Shows the split link and the battery on one LED, the link taking priority.
    fn battery_and_link_color(&self) -> (r: Rgb)
        ensures
            r == self.spec_battery_and_link_color(),
    {
        let link = self.split_link_color();
        if link.r == 0 && link.g == 0 && link.b == 0 {
            self.battery_color()
        } else {
            link
        }
    }

    /// Color for one LED according to the role assigned to it.
    fn role_color(&self, role: LedRole) -> (r: Rgb)
        ensures
            r == self.spec_role_color(role),
    {
        match role {
            LedRole::HostConnection => self.host_color(),
            LedRole::BatteryAndLink => self.battery_and_link_color(),
            LedRole::Battery => self.battery_color(),
            LedRole::SplitLink => self.split_link_color(),
        }
    }

    /// Advances the phase and each timer given what the charge detection reads, and decides what
    /// to send to the LEDs.
    ///
    /// The LED supply is only up while something is lit. Raising it means the LEDs lost their
    /// state, so the frame is then sent even when the colors did not change; otherwise a frame
    /// is sent only when the colors differ from the ones sent last.
    pub fn poll(&mut self, charging: bool) -> (actions: PollActions)
        ensures
            ({
                let advanced = old(self).spec_advanced(charging);
                let colors = advanced.spec_colors();
                let lit = !all_off(colors);
                &&& actions.power_on == (lit && !old(self).powered)
                &&& actions.power_off == (!lit && old(self).powered)
                &&& final(self).powered == lit
                &&& final(self).last matches Some(last) && last@ == colors
                &&& (actions.write matches Some(w) ==> w@ == colors)
                &&& actions.write.is_none() == (!actions.power_on && already_sent(
                    old(self).last,
                    colors,
                ))
                &&& *final(self) == (IndicatorProcessor {
                    powered: lit,
                    last: final(self).last,
                    ..advanced
                })
            }),
    {
        let ghost advanced = self.spec_advanced(charging);
        self.phase = self.phase.wrapping_add(1);
        self.update_charging(charging);
        self.host_hold = self.host_hold.saturating_sub(1);
        self.link_hold = self.link_hold.saturating_sub(1);
        self.charge_done_hold = self.charge_done_hold.saturating_sub(1);
        self.self_test = self.self_test.saturating_sub(1);
        assert(*self == advanced);

        let colors: [Rgb; LED_COUNT] = if self.self_test > 0 {
            [Rgb::new(LEVEL, 0, 0), Rgb::new(0, LEVEL, 0)]
        } else {
            [self.role_color(self.roles[0]), self.role_color(self.roles[1])]
        };
        assert(colors@ =~= advanced.spec_colors());
        let lit = !(colors[0].r == 0 && colors[0].g == 0 && colors[0].b == 0 && colors[1].r == 0
            && colors[1].g == 0 && colors[1].b == 0);

        let mut power_on = false;
        if lit && !self.powered {
            self.powered = true;
            power_on = true;
            self.last = None;
        }
        let same = match self.last {
            Some(prev) => prev[0] == colors[0] && prev[1] == colors[1],
            None => false,
        };
        let ghost prev_last = self.last;
        let mut write = None;
        if !same {
            self.last = Some(colors);
            write = Some(colors);
        }
        proof {
            if let Some(prev) = prev_last {
                if same {
                    assert(prev@ =~= colors@);
                }
            }
            if let Some(prev) = old(self).last {
                if !power_on && prev@ == colors@ {
                    assert(prev[0] == colors@[0] && prev[1] == colors@[1]);
                }
            }
        }
        let mut power_off = false;
        if !lit && self.powered {
            self.powered = false;
            power_off = true;
        }
        PollActions { power_on, write, power_off }
    }
}

/// For as long as the power-on self test runs, the inner LED shows red and the outer one green,
/// whatever the state of the links and the battery.
pub proof fn lemma_self_test_shows_red_and_green(p: IndicatorProcessor, charging: bool)
    requires
        p.self_test >= 2,
    ensures
        p.spec_advanced(charging).spec_colors() == seq![red(), green()],
{
}

/// The self test lasts [`SELF_TEST_TICKS`] polls from power-on: the polls before the last one
/// show it, and the last one and every later poll show the roles.
pub proof fn lemma_self_test_length(p: IndicatorProcessor, charging: bool)
    ensures
        p.spec_advanced(charging).self_test == (if p.self_test > 0 {
            p.self_test - 1
        } else {
            0
        }),
        p.spec_advanced(charging).self_test == 0 ==> p.spec_advanced(charging).spec_colors()
            == seq![
            p.spec_advanced(charging).spec_role_color(p.roles[0]),
            p.spec_advanced(charging).spec_role_color(p.roles[1]),
        ],
{
}

/// A heartbeat of a color whose lit components are at least ten is dark only at the trough of
/// the cycle, once every [`HEARTBEAT_TICKS`] polls.
pub proof fn lemma_heartbeat_dark_only_at_trough(p: IndicatorProcessor, color: Rgb)
    requires
        !color.is_off(),
        color.r == 0 || color.r >= 10,
        color.g == 0 || color.g >= 10,
        color.b == 0 || color.b >= 10,
    ensures
        p.spec_heartbeat(color).is_off() <==> p.phase % HEARTBEAT_TICKS == 0,
{
    let position = p.phase % HEARTBEAT_TICKS;
    let level: u32 = if position < 10 {
        position
    } else {
        (HEARTBEAT_TICKS - position) as u32
    };
    assert(0 <= position < 20);
    assert(1 <= level <= 10 || position == 0);
    assert(p.spec_heartbeat(color) == spec_scaled(color, level, 10));
    if position == 0 {
        assert(level == 0);
        assert(color.r * level == 0 && color.g * level == 0 && color.b * level == 0)
            by (nonlinear_arith)
            requires
                level == 0,
        ;
    } else {
        assert(1 <= level <= 10);
        if color.r >= 10 {
            assert(color.r * level / 10 >= 1) by (nonlinear_arith)
                requires
                    color.r >= 10,
                    level >= 1,
            ;
        }
        if color.g >= 10 {
            assert(color.g * level / 10 >= 1) by (nonlinear_arith)
                requires
                    color.g >= 10,
                    level >= 1,
            ;
        }
        if color.b >= 10 {
            assert(color.b * level / 10 >= 1) by (nonlinear_arith)
                requires
                    color.b >= 10,
                    level >= 1,
            ;
        }
        if color.r > 0 {
            assert(spec_scale(color.r, level, 10) >= 1);
        } else if color.g > 0 {
            assert(spec_scale(color.g, level, 10) >= 1);
        } else {
            assert(spec_scale(color.b, level, 10) >= 1);
        }
    }
}

/// The indication of searching for a host is suppressed while a host uses the dongle over USB.
pub proof fn lemma_no_search_blink_while_usb_in_use(p: IndicatorProcessor)
    requires
        p.connection.usb == UsbState::Configured,
        p.connection.ble.state == BleState::Advertising,
    ensures
        p.spec_host_color().is_off(),
{
}

/// The battery is not judged to be low while its level has not been obtained: with no charge
/// going on or just finished, the battery LED stays off.
pub proof fn lemma_unknown_level_is_not_low(p: IndicatorProcessor)
    requires
        p.battery_level.is_none(),
        !p.charging,
        p.charge_done_hold == 0,
    ensures
        p.spec_battery_color().is_off(),
{
}

/// Below [`LOW_BATTERY_PERCENT`], with no charge going on or just finished, the battery LED
/// blinks red: lit for [`LOW_BATTERY_HALF_TICKS`] polls, dark for as many.
pub proof fn lemma_low_battery_blinks_red(p: IndicatorProcessor, level: u8)
    requires
        p.battery_level == Some(level),
        level < LOW_BATTERY_PERCENT,
        !p.charging,
        p.charge_done_hold == 0,
    ensures
        p.spec_battery_color() == (if (p.phase / LOW_BATTERY_HALF_TICKS) % 2 == 0 {
            red()
        } else {
            off()
        }),
{
}

/// When charging finishes with the level known and not low, the battery LED is lit green on
/// that poll, and stays so for [`HOLD_TICKS`] polls in all; while charging it beats in green.
pub proof fn lemma_charge_indication(p: IndicatorProcessor, level: u8)
    requires
        p.charging,
        p.battery_level == Some(level),
        level >= LOW_BATTERY_PERCENT,
    ensures
        p.spec_advanced(false).spec_battery_color() == green(),
        p.spec_advanced(false).charge_done_hold == HOLD_TICKS - 1,
        p.spec_advanced(true).spec_battery_color() == p.spec_advanced(true).spec_heartbeat(green()),
{
}

/// Once BLE has connected to a host, the host LED is lit in the color of the profile while the
/// hold lasts and dark afterwards; each poll shortens the hold by one, so the LED goes dark
/// [`HOLD_TICKS`] polls after the connection. A profile with no color leaves it dark.
pub proof fn lemma_host_indication(p: IndicatorProcessor, charging: bool)
    ensures
        p.connection.ble.state == BleState::Connected && p.host_hold > 0 ==> (
        spec_profile_color(p.connection.ble.profile as int) matches Some(color)
            ==> p.spec_host_color() == color),
        p.connection.ble.state == BleState::Connected && p.host_hold == 0
            ==> p.spec_host_color().is_off(),
        spec_profile_color(p.connection.ble.profile as int).is_none()
            ==> p.spec_host_color().is_off(),
        p.connection.ble.state != BleState::Connected && p.connection.ble.state
            != BleState::Advertising ==> p.spec_host_color().is_off(),
        p.host_hold > 0 ==> p.spec_advanced(charging).host_hold == p.host_hold - 1,
        p.host_hold == 0 ==> p.spec_advanced(charging).host_hold == 0,
        p.spec_advanced(charging).connection == p.connection,
{
}

/// Once the split link is up, the link LED is lit blue while the hold lasts and dark
/// afterwards; while the link is down it beats in blue.
pub proof fn lemma_link_indication(p: IndicatorProcessor)
    ensures
        p.central_connected && p.link_hold > 0 ==> p.spec_split_link_color() == blue(),
        p.central_connected && p.link_hold == 0 ==> p.spec_split_link_color().is_off(),
        !p.central_connected ==> p.spec_split_link_color() == p.spec_heartbeat(blue()),
{
}

/// The LED of the left half that shows both the split link and the battery shows the link
/// while it has something to show, and the battery otherwise.
pub proof fn lemma_link_takes_priority(p: IndicatorProcessor)
    ensures
        !p.spec_split_link_color().is_off() ==> p.spec_battery_and_link_color()
            == p.spec_split_link_color(),
        p.spec_split_link_color().is_off() ==> p.spec_battery_and_link_color()
            == p.spec_battery_color(),
{
}

} // verus!
