//! The state of the keyboard's links and batteries, as plain values.
//!
//! The processors of this crate decide from these what to show; the firmware fills them in from
//! the events it receives.
use vstd::prelude::*;

verus! {

/// Transport that carries the reports.
#[derive(Clone, Copy, PartialEq, Eq, Debug, Structural)]
pub enum ConnectionType {
    Usb,
    Ble,
}

/// USB device lifecycle.
#[derive(Clone, Copy, PartialEq, Eq, Debug, Structural)]
pub enum UsbState {
    Disabled,
    Enabled,
    Configured,
    Suspended,
}

/// What the BLE subsystem is currently doing.
#[derive(Clone, Copy, PartialEq, Eq, Debug, Structural)]
pub enum BleState {
    /// The BLE is advertising.
    Advertising,
    /// The BLE is connected.
    Connected,
    /// The BLE is not in use.
    Inactive,
}

/// Which BLE profile is active and what the BLE is doing.
#[derive(Clone, Copy, PartialEq, Eq, Debug, Structural)]
pub struct BleStatus {
    pub profile: u8,
    pub state: BleState,
}

/// Host connection of the central, both transports included.
#[derive(Clone, Copy, PartialEq, Eq, Debug, Structural)]
pub struct ConnectionStatus {
    pub usb: UsbState,
    pub ble: BleStatus,
    /// Tiebreaker when both transports are ready.
    pub preferred: ConnectionType,
}

/// Charge state of a battery.
#[derive(Clone, Copy, PartialEq, Eq, Debug, Structural)]
pub enum ChargeState {
    Charging,
    Discharging,
    Unknown,
}

/// Battery of one half.
#[derive(Clone, Copy, PartialEq, Eq, Debug, Structural)]
pub enum BatteryStatus {
    Unavailable,
    Available { charge_state: ChargeState, level: Option<u8> },
}

impl BatteryStatus {
    /// The level the status carries, if it carries one.
    pub open spec fn spec_level(self) -> Option<u8> {
        match self {
            BatteryStatus::Available { level, .. } => level,
            BatteryStatus::Unavailable => None,
        }
    }

    /// The level the status carries, if it carries one.
    pub fn level(self) -> (r: Option<u8>)
        ensures
            r == self.spec_level(),
    {
        match self {
            BatteryStatus::Available { level, .. } => level,
            BatteryStatus::Unavailable => None,
        }
    }
}

impl ConnectionStatus {
    /// Nothing connected: USB disabled, BLE inactive on profile 0, USB preferred.
    pub open spec fn new_spec() -> Self {
        ConnectionStatus {
            usb: UsbState::Disabled,
            ble: BleStatus { profile: 0, state: BleState::Inactive },
            preferred: ConnectionType::Usb,
        }
    }

    /// Nothing connected: USB disabled, BLE inactive on profile 0, USB preferred.
    pub fn new() -> (r: Self)
        ensures
            r == Self::new_spec(),
    {
        ConnectionStatus {
            usb: UsbState::Disabled,
            ble: BleStatus { profile: 0, state: BleState::Inactive },
            preferred: ConnectionType::Usb,
        }
    }

    /// Whether USB can carry reports: configured, or suspended and waiting for a remote wakeup.
    pub open spec fn usb_ready(self) -> bool {
        self.usb == UsbState::Configured || self.usb == UsbState::Suspended
    }

    /// Whether BLE can carry reports.
    pub open spec fn ble_ready(self) -> bool {
        self.ble.state == BleState::Connected
    }

    /// The transport reports are routed to.
    pub open spec fn spec_active(self) -> Option<ConnectionType> {
        if self.usb_ready() && self.ble_ready() {
            Some(self.preferred)
        } else if self.usb_ready() {
            Some(ConnectionType::Usb)
        } else if self.ble_ready() {
            Some(ConnectionType::Ble)
        } else {
            None
        }
    }

    /// Picks the active transport from the readiness of both and the preference, which breaks a
    /// tie.
    pub fn decide_active(&self) -> (r: Option<ConnectionType>)
        ensures
            r == self.spec_active(),
    {
        let usb_ready = match self.usb {
            UsbState::Configured | UsbState::Suspended => true,
            _ => false,
        };
        let ble_ready = match self.ble.state {
            BleState::Connected => true,
            _ => false,
        };
        match (usb_ready, ble_ready) {
            (true, false) => Some(ConnectionType::Usb),
            (false, true) => Some(ConnectionType::Ble),
            (true, true) => Some(self.preferred),
            (false, false) => None,
        }
    }
}

} // verus!
