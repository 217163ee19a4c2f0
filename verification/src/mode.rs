//! Who controls the device: the OpenDeck host, or the device's own firmware
//! (standalone mode), and the decisions that move it between the two.
//!
//! Times are milliseconds of a monotonic clock that the caller reads; a
//! transition that never happened counts as long past.
use vstd::prelude::*;

use crate::commands::{
    heartbeat_commands, host_switch_commands, spec_heartbeat_sequence, spec_host_switch_sequence,
    TransportCommand,
};
use crate::protocol::{
    classify_input, decode_input_report, is_input_report, spec_classify_input, spec_status_scr,
    status_report_scr, InputEvent,
};

verus! {

/// After a switch to host control, knob 1 clicks are ignored this long.
pub const HOST_COOLDOWN_MS: u64 = 1000;

/// After a switch to standalone mode, or after the firmware showed an overlay
/// page, a return to the home page does not reconnect for this long.
pub const STANDALONE_COOLDOWN_MS: u64 = 1500;

/// The connection mode of one device and the times of its transitions.
#[derive(PartialEq, Eq, Structural, Clone, Copy, Debug)]
pub struct ModeState {
    /// The device runs its own firmware profiles.
    pub standalone: bool,
    /// When the device last came back to host control.
    pub host_since: Option<u64>,
    /// When the device last went standalone.
    pub standalone_since: Option<u64>,
    /// When the firmware last reported an overlay page (`scr` above zero).
    pub overlay_seen: Option<u64>,
}

/// What the plugin does with an input report while the host controls the
/// device.
#[derive(PartialEq, Eq, Structural, Clone, Copy, Debug)]
pub enum HostAction {
    /// Forward a key press at a logical position.
    KeyDown(u8),
    /// Forward a key release at a logical position.
    KeyUp(u8),
    /// Forward a knob click.
    EncoderDown(u8),
    /// Forward a knob release.
    EncoderUp(u8),
    /// Forward a knob rotation by the given ticks.
    EncoderChange(u8, i16),
    /// Knob 1 was clicked: hand the device to its firmware.
    EnterStandalone,
    /// Nothing to do.
    Ignore,
    /// A code the plugin does not know; it is only reported.
    Unhandled(u8),
}

/// What the plugin does with a status report while the device is standalone.
#[derive(PartialEq, Eq, Structural, Clone, Copy, Debug)]
pub enum StandaloneAction {
    /// Knob 1 took the firmware back to its home page: reconnect.
    ReturnToHost,
    /// Nothing to do.
    Ignore,
}

/// At least `window` milliseconds have passed since `since` (a clock that
/// went backwards counts as no time passed).
pub open spec fn cooled_down(since: Option<u64>, now: u64, window: u64) -> bool {
    match since {
        None => true,
        Some(t) => now >= t && now - t >= window,
    }
}

/// Executable form of `cooled_down`.
fn has_cooled_down(since: Option<u64>, now: u64, window: u64) -> (r: bool)
    ensures
        r == cooled_down(since, now, window),
{
    match since {
        None => true,
        Some(t) => now >= t && now - t >= window,
    }
}

impl ModeState {
    /// A freshly connected device: host control, no transitions yet.
    pub open spec fn spec_new() -> ModeState {
        ModeState { standalone: false, host_since: None, standalone_since: None, overlay_seen: None }
    }

    /// The action for an input report while under host control.
    pub open spec fn spec_host_action(self, event: InputEvent, now: u64) -> HostAction {
        if self.standalone {
            HostAction::Ignore
        } else {
            match event {
                InputEvent::Key { position, pressed } => if pressed {
                    HostAction::KeyDown(position)
                } else {
                    HostAction::KeyUp(position)
                },
                InputEvent::EncoderPress { knob, pressed } => if knob == 0 {
                    if pressed && cooled_down(self.host_since, now, HOST_COOLDOWN_MS) {
                        HostAction::EnterStandalone
                    } else {
                        HostAction::Ignore
                    }
                } else if pressed {
                    HostAction::EncoderDown(knob)
                } else {
                    HostAction::EncoderUp(knob)
                },
                InputEvent::EncoderTurn { knob, ticks } => HostAction::EncoderChange(knob, ticks),
                InputEvent::Unhandled { code } => HostAction::Unhandled(code),
            }
        }
    }

    /// The state after the firmware took over at `now`.
    pub open spec fn spec_entered_standalone(self, now: u64) -> ModeState {
        ModeState { standalone: true, standalone_since: Some(now), ..self }
    }

    /// The state after the host took over again at `now` (no change when
    /// the host already had control).
    pub open spec fn spec_entered_host(self, now: u64) -> ModeState {
        if self.standalone {
            ModeState { standalone: false, host_since: Some(now), ..self }
        } else {
            self
        }
    }

    /// The state after a status report announcing page `scr` at `now`.
    pub open spec fn spec_after_status(self, scr: i64, now: u64) -> ModeState {
        if self.standalone && scr > 0 {
            ModeState { overlay_seen: Some(now), ..self }
        } else {
            self
        }
    }

    /// The action for a status report announcing page `scr` at `now`: back
    /// on the home page (0), long enough after going standalone and after
    /// the last overlay page, means knob 1 was clicked.
    pub open spec fn spec_status_action(self, scr: i64, now: u64) -> StandaloneAction {
        if self.standalone && scr == 0 && cooled_down(self.standalone_since, now, STANDALONE_COOLDOWN_MS)
            && cooled_down(self.overlay_seen, now, STANDALONE_COOLDOWN_MS) {
            StandaloneAction::ReturnToHost
        } else {
            StandaloneAction::Ignore
        }
    }

    /// A freshly connected device.
    pub fn new() -> (s: ModeState)
        ensures
            s == ModeState::spec_new(),
    {
        ModeState { standalone: false, host_since: None, standalone_since: None, overlay_seen: None }
    }

    /// Decides what an input report read under host control leads to.
    pub fn host_action(&self, event: InputEvent, now: u64) -> (a: HostAction)
        ensures
            a == self.spec_host_action(event, now),
    {
        if self.standalone {
            return HostAction::Ignore;
        }
        match event {
            InputEvent::Key { position, pressed } => if pressed {
                HostAction::KeyDown(position)
            } else {
                HostAction::KeyUp(position)
            },
            InputEvent::EncoderPress { knob, pressed } => if knob == 0 {
                if pressed && has_cooled_down(self.host_since, now, HOST_COOLDOWN_MS) {
                    HostAction::EnterStandalone
                } else {
                    HostAction::Ignore
                }
            } else if pressed {
                HostAction::EncoderDown(knob)
            } else {
                HostAction::EncoderUp(knob)
            },
            InputEvent::EncoderTurn { knob, ticks } => HostAction::EncoderChange(knob, ticks),
            InputEvent::Unhandled { code } => HostAction::Unhandled(code),
        }
    }

    /// Whether a switch to standalone mode has anything to do (it has not
    /// when the device is standalone already).
    pub fn standalone_switch_needed(&self) -> (r: bool)
        ensures
            r == !self.standalone,
    {
        !self.standalone
    }

    /// Completes a switch to standalone mode with the status of the
    /// `Disconnected` command: a failure status is returned and changes
    /// nothing; on success the device is standalone from `now` on.
    pub fn finish_standalone_switch(&mut self, status: u32, now: u64) -> (r: Result<(), u32>)
        requires
            !old(self).standalone,
        ensures
            status != 0 ==> r == Err::<(), u32>(status) && *final(self) == *old(self),
            status == 0 ==> r is Ok && *final(self) == old(self).spec_entered_standalone(now),
    {
        if status != 0 {
            return Err(status);
        }
        self.standalone = true;
        self.standalone_since = Some(now);
        Ok(())
    }

    /// The commands of a switch back to host control: the handshake when
    /// the device is standalone, nothing when the host has it already.
    pub fn host_switch_commands(&self) -> (cmds: Vec<TransportCommand>)
        ensures
            self.standalone ==> cmds@ == spec_host_switch_sequence(),
            !self.standalone ==> cmds@.len() == 0,
    {
        if self.standalone {
            host_switch_commands()
        } else {
            Vec::new()
        }
    }

    /// Completes a switch back to host control at `now`.
    pub fn finish_host_switch(&mut self, now: u64)
        ensures
            *final(self) == old(self).spec_entered_host(now),
    {
        if self.standalone {
            self.standalone = false;
            self.host_since = Some(now);
        }
    }

    /// Handles the page (`scr`) of a status report read at `now` while
    /// standalone: records overlay pages and decides whether to reconnect.
    pub fn on_status_page(&mut self, scr: i64, now: u64) -> (a: StandaloneAction)
        ensures
            a == old(self).spec_status_action(scr, now),
            *final(self) == old(self).spec_after_status(scr, now),
    {
        if !self.standalone {
            return StandaloneAction::Ignore;
        }
        if scr > 0 {
            self.overlay_seen = Some(now);
            StandaloneAction::Ignore
        } else if scr == 0 && has_cooled_down(self.standalone_since, now, STANDALONE_COOLDOWN_MS)
            && has_cooled_down(self.overlay_seen, now, STANDALONE_COOLDOWN_MS) {
            StandaloneAction::ReturnToHost
        } else {
            StandaloneAction::Ignore
        }
    }

    /// Handles a report read from the vendor interface under host control:
    /// `None` for a report that is no input report, the action for its
    /// event otherwise.
    pub fn on_input_report(&self, data: &[u8], now: u64) -> (a: Option<HostAction>)
        ensures
            !is_input_report(data@) ==> a is None,
            is_input_report(data@) ==> a == Some(
                self.spec_host_action(spec_classify_input(data@[10], data@[11]), now),
            ),
    {
        match decode_input_report(data) {
            Some((code, state)) => Some(self.host_action(classify_input(code, state), now)),
            None => None,
        }
    }

    /// Handles a report read from the vendor interface while standalone:
    /// a status report with a page number is handled as such, anything else
    /// is ignored.
    pub fn on_standalone_report(&mut self, data: &[u8], now: u64) -> (a: StandaloneAction)
        ensures
            match spec_status_scr(data@) {
                Some(scr) => a == old(self).spec_status_action(scr, now) && *final(self) == old(
                    self,
                ).spec_after_status(scr, now),
                None => a == StandaloneAction::Ignore && *final(self) == *old(self),
            },
    {
        match status_report_scr(data) {
            Some(scr) => self.on_status_page(scr, now),
            None => StandaloneAction::Ignore,
        }
    }

    /// The keep-alive commands: sent only while the host controls the device.
    pub fn heartbeat_commands(&self) -> (cmds: Vec<TransportCommand>)
        ensures
            !self.standalone ==> cmds@ == spec_heartbeat_sequence(),
            self.standalone ==> cmds@.len() == 0,
    {
        if self.standalone {
            Vec::new()
        } else {
            heartbeat_commands()
        }
    }
}

/// Knob 1 is never forwarded to the host: its click either hands the device
/// to the firmware or is ignored, and its release is always ignored.
pub proof fn lemma_knob_one_not_forwarded(s: ModeState, pressed: bool, now: u64)
    ensures
        s.spec_host_action(InputEvent::EncoderPress { knob: 0, pressed }, now)
            == HostAction::EnterStandalone || s.spec_host_action(
            InputEvent::EncoderPress { knob: 0, pressed },
            now,
        ) == HostAction::Ignore,
        !pressed ==> s.spec_host_action(InputEvent::EncoderPress { knob: 0, pressed }, now)
            == HostAction::Ignore,
{
}

/// Within a second of coming back to host control, a knob 1 click does not
/// hand the device to the firmware again.
pub proof fn lemma_host_cooldown(s: ModeState, switched_at: u64, now: u64)
    requires
        s.standalone,
        now < switched_at + HOST_COOLDOWN_MS,
    ensures
        s.spec_entered_host(switched_at).spec_host_action(
            InputEvent::EncoderPress { knob: 0, pressed: true },
            now,
        ) == HostAction::Ignore,
{
}

/// Within 1.5 s of going standalone, a report of the home page does not
/// reconnect.
pub proof fn lemma_standalone_cooldown(s: ModeState, switched_at: u64, now: u64)
    requires
        now < switched_at + STANDALONE_COOLDOWN_MS,
    ensures
        s.spec_entered_standalone(switched_at).spec_status_action(0, now)
            == StandaloneAction::Ignore,
{
}

/// Within 1.5 s of an overlay page (a knob turn on the firmware), a report
/// of the home page does not reconnect.
pub proof fn lemma_overlay_cooldown(s: ModeState, scr: i64, seen_at: u64, now: u64)
    requires
        s.standalone,
        scr > 0,
        now < seen_at + STANDALONE_COOLDOWN_MS,
    ensures
        s.spec_status_action(scr, seen_at) == StandaloneAction::Ignore,
        s.spec_after_status(scr, seen_at).spec_status_action(0, now) == StandaloneAction::Ignore,
{
}

/// Only a report of the home page, while standalone, reconnects; and a
/// reconnect followed by the switch back leaves the host in control.
pub proof fn lemma_reconnect_only_from_home_page(s: ModeState, scr: i64, now: u64, later: u64)
    ensures
        s.spec_status_action(scr, now) == StandaloneAction::ReturnToHost ==> s.standalone && scr
            == 0,
        !s.spec_entered_host(later).standalone,
        s.spec_status_action(scr, now) == StandaloneAction::ReturnToHost ==> s.spec_entered_host(
            later,
        ).host_since == Some(later),
{
}

/// A device that went standalone and came back is under host control with
/// both transitions recorded; input reports read while standalone are
/// never forwarded.
pub proof fn lemma_standalone_round_trip(s: ModeState, event: InputEvent, t1: u64, t2: u64, now: u64)
    requires
        !s.standalone,
    ensures
        s.spec_entered_standalone(t1).spec_host_action(event, now) == HostAction::Ignore,
        s.spec_entered_standalone(t1).spec_entered_host(t2) == (ModeState {
            standalone: false,
            host_since: Some(t2),
            standalone_since: Some(t1),
            overlay_seen: s.overlay_seen,
        }),
{
}

/// A standalone device reconnects on a home-page report (`scr` 0) as soon
/// as at least 1.5 s have passed since it went standalone and since the last
/// overlay page, where a transition or overlay that never happened counts as
/// long past; and only then.
pub proof fn lemma_home_page_reconnects(s: ModeState, scr: i64, now: u64)
    ensures
        (s.standalone && scr == 0 && (s.standalone_since matches Some(t) ==> now >= t && now - t
            >= 1500) && (s.overlay_seen matches Some(t) ==> now >= t && now - t >= 1500))
            <==> s.spec_status_action(scr, now) == StandaloneAction::ReturnToHost,
{
}

/// Under host control the plugin forwards what the device reports: every
/// key press and release at its position, every rotation of every knob
/// (knob 0 included) with its ticks, and clicks and releases of knobs other
/// than knob 0; only knob 0 clicks are withheld.
pub proof fn lemma_host_forwards_input(s: ModeState, knob: u8, position: u8, ticks: i16, pressed: bool, now: u64)
    requires
        !s.standalone,
    ensures
        s.spec_host_action(InputEvent::EncoderTurn { knob, ticks }, now) == HostAction::EncoderChange(
            knob,
            ticks,
        ),
        s.spec_host_action(InputEvent::Key { position, pressed }, now) == (if pressed {
            HostAction::KeyDown(position)
        } else {
            HostAction::KeyUp(position)
        }),
        knob != 0 ==> s.spec_host_action(InputEvent::EncoderPress { knob, pressed }, now) == (
        if pressed {
            HostAction::EncoderDown(knob)
        } else {
            HostAction::EncoderUp(knob)
        }),
        (s.host_since matches Some(t) ==> now >= t && now - t >= 1000) ==> s.spec_host_action(
            InputEvent::EncoderPress { knob: 0, pressed: true },
            now,
        ) == HostAction::EnterStandalone,
{
}

} // verus!
