//! Status shown by the system tray, and the power assertion held while syncing.

use vstd::prelude::*;

verus! {

#[derive(Debug, Clone, Copy, PartialEq, Eq, Structural)]
pub enum TrayStatus {
    Idle,
    Syncing,
    Paused,
    Error,
}

impl TrayStatus {
    pub open spec fn tooltip_spec(self) -> Seq<char> {
        match self {
            TrayStatus::Idle => "RSync - Idle"@,
            TrayStatus::Syncing => "RSync - Syncing..."@,
            TrayStatus::Paused => "RSync - Paused"@,
            TrayStatus::Error => "RSync - Error"@,
        }
    }

    /// The tray's tooltip for this status.
    pub fn tooltip(&self) -> (r: &'static str)
        ensures
            r@ == self.tooltip_spec(),
    {
        match self {
            TrayStatus::Idle => "RSync - Idle",
            TrayStatus::Syncing => "RSync - Syncing...",
            TrayStatus::Paused => "RSync - Paused",
            TrayStatus::Error => "RSync - Error",
        }
    }
}

/// What the tray shows and how the window behaves.
#[derive(Debug, Clone, Copy, PartialEq, Eq, Structural)]
pub struct TrayState {
    pub status: TrayStatus,
    pub window_visible: bool,
    pub minimize_to_tray: bool,
}

impl TrayState {
    /// Idle, window shown, minimizing to the tray.
    pub fn new() -> (r: TrayState)
        ensures
            r.status == TrayStatus::Idle,
            r.window_visible,
            r.minimize_to_tray,
    {
        TrayState { status: TrayStatus::Idle, window_visible: true, minimize_to_tray: true }
    }

    pub fn get_status(&self) -> (r: TrayStatus)
        ensures
            r == self.status,
    {
        self.status
    }

    pub fn set_status(&mut self, status: TrayStatus)
        ensures
            *final(self) == (TrayState { status, ..*old(self) }),
    {
        self.status = status;
    }

    pub fn is_window_visible(&self) -> (r: bool)
        ensures
            r == self.window_visible,
    {
        self.window_visible
    }

    pub fn set_window_visible(&mut self, visible: bool)
        ensures
            *final(self) == (TrayState { window_visible: visible, ..*old(self) }),
    {
        self.window_visible = visible;
    }

    pub fn is_minimize_to_tray_enabled(&self) -> (r: bool)
        ensures
            r == self.minimize_to_tray,
    {
        self.minimize_to_tray
    }

    pub fn set_minimize_to_tray(&mut self, enabled: bool)
        ensures
            *final(self) == (TrayState { minimize_to_tray: enabled, ..*old(self) }),
    {
        self.minimize_to_tray = enabled;
    }
}

/// The power assertion that keeps the system awake; 0 when none is held.
#[derive(Debug, Clone, Copy, PartialEq, Eq, Structural)]
pub struct PowerAssertion {
    pub assertion_id: u32,
}

impl PowerAssertion {
    pub fn new() -> (r: PowerAssertion)
        ensures
            r.assertion_id == 0,
    {
        PowerAssertion { assertion_id: 0 }
    }

    pub fn is_preventing_sleep(&self) -> (r: bool)
        ensures
            r == (self.assertion_id != 0),
    {
        self.assertion_id != 0
    }

    /// Records the outcome of asking the system for an assertion: a nonzero id
    /// on success. Returns whether sleep is now prevented.
    pub fn record_created(&mut self, created: Option<u32>) -> (r: bool)
        ensures
            final(self).assertion_id == match created {
                Some(id) => id,
                None => old(self).assertion_id,
            },
            r == final(self).is_preventing_sleep_spec(),
    {
        match created {
            Some(id) => {
                self.assertion_id = id;
            },
            None => {},
        }
        self.assertion_id != 0
    }

    pub open spec fn is_preventing_sleep_spec(self) -> bool {
        self.assertion_id != 0
    }

    /// Gives up the held assertion, returning its id for the system to release.
    pub fn take(&mut self) -> (r: Option<u32>)
        ensures
            final(self).assertion_id == 0,
            r == if old(self).assertion_id == 0 { None } else { Some(old(self).assertion_id) },
    {
        let id = self.assertion_id;
        self.assertion_id = 0;
        if id == 0 {
            None
        } else {
            Some(id)
        }
    }
}

} // verus!
