//! The device session: ownership of one transport handle, the connect
//! decision, and the translation of every feature toggle into the transport
//! command it must issue. The radio transport itself is an outside
//! collaborator: it opens and closes handles, delivers raw snapshots, and
//! performs the commands this module produces.

use vstd::prelude::*;

use crate::bitmask::{spec_get_bit8, spec_set_bit8};
use crate::error::{CwiidError, ErrorChannel, InternalError};
use crate::report::{RawState, WiiMoteState};
use crate::state_enums::{Feature, Led};

verus! {

/// The transport's flag selecting the secondary motion-sensor extension in
/// an enable or disable request.
pub const MOTIONPLUS_FLAG: i32 = 0x10;

/// The handle value a failed open reports; the Error Channel keys the
/// connect diagnostic under it.
pub const NULL_HANDLE: u64 = 0;

/// One request for the transport to perform on a session's handle. Produced
/// by the session's decision methods; the caller performs it through the
/// native layer and feeds the resulting status code to `convert_error`.
#[derive(Debug, Clone, Copy, PartialEq, Eq, Structural)]
pub enum Command {
    /// Write this 8-bit LED mask.
    SetLed(u8),
    /// Write this rumble byte (1 on, 0 off).
    SetRumble(u8),
    /// Write this 8-bit report-mode mask.
    SetReportMode(u8),
    /// Initialize and enable the extension selected by this flag.
    Enable(i32),
    /// Disable the extension selected by this flag.
    Disable(i32),
}

/// A live session: the sole owner of one open transport handle. The handle
/// is released exactly once, by `close`, which consumes the session, so no
/// operation can follow teardown.
#[derive(Debug)]
pub struct WiiMote {
    pub handle: u64,
}

impl WiiMote {
    /// Adopt a handle the transport just opened.
    pub fn new(handle: u64) -> (w: Self)
        ensures
            w.handle == handle,
    {
        Self { handle }
    }

    /// Decide the outcome of a connect attempt: `opened` is the handle the
    /// transport's open call produced, if any. With no handle the attempt
    /// failed; the diagnostic pending under the null handle is consumed and
    /// returned with the sentinel status code 0.
    pub fn find(opened: Option<u64>, channel: &mut ErrorChannel) -> (r: Result<Self, CwiidError>)
        ensures
            opened matches Some(h) ==> {
                &&& r matches Ok(w) && w.handle == h
                &&& final(channel)@ == old(channel)@
            },
            opened is None ==> {
                &&& final(channel)@ == old(channel)@.remove(NULL_HANDLE)
                &&& r matches Err(CwiidError::Internal(InternalError(c, m))) && c == 0 && (m
                    matches Some(msg) ==> old(channel)@.contains_key(NULL_HANDLE) && msg == old(
                    channel,
                )@[NULL_HANDLE]) && (m is None ==> !old(channel)@.contains_key(NULL_HANDLE))
            },
    {
        match opened {
            Some(h) => Ok(Self { handle: h }),
            None => {
                let message = channel.consume(NULL_HANDLE);
                Err(CwiidError::Internal(InternalError(0, message)))
            },
        }
    }

    /// Read-modify-write an LED: given the freshly read snapshot, the mask to
    /// write back has the chosen LED's bit set or cleared and every other bit
    /// unchanged.
    pub fn set_led(&self, current: &RawState, led: Led, state: bool) -> (c: Command)
        ensures
            c == Command::SetLed(spec_set_bit8(current.led, led.spec_ordinal(), state)),
    {
        let mut mask = current.led;
        led.set(&mut mask, state);
        Command::SetLed(mask)
    }

    /// Whether the LED's bit is set in the freshly read snapshot.
    pub fn is_led_on(&self, current: &RawState, led: Led) -> (r: bool)
        ensures
            r == spec_get_bit8(current.led, led.spec_ordinal()),
    {
        led.get(&current.led)
    }

    /// The rumble write: a direct byte, not a bitmask.
    pub fn set_rumble(&self, state: bool) -> (c: Command)
        ensures
            c == Command::SetRumble(if state { 1u8 } else { 0u8 }),
    {
        Command::SetRumble(if state { 1 } else { 0 })
    }

    /// Whether the snapshot's rumble byte is nonzero.
    pub fn is_rumble_enabled(&self, current: &RawState) -> (r: bool)
        ensures
            r == (current.rumble != 0),
    {
        current.rumble != 0
    }

    /// Read-modify-write a report-class flag: the report-mode mask to write
    /// back has the chosen class's bit set or cleared and every other bit
    /// unchanged.
    pub fn set_feature(&self, current: &RawState, feature: Feature, state: bool) -> (c: Command)
        ensures
            c == Command::SetReportMode(
                spec_set_bit8(current.rpt_mode, feature.spec_ordinal(), state),
            ),
    {
        let mut mask = current.rpt_mode;
        feature.set(&mut mask, state);
        Command::SetReportMode(mask)
    }

    /// Whether the report class's bit is set in the freshly read snapshot.
    pub fn is_feature_enabled(&self, current: &RawState, feature: Feature) -> (r: bool)
        ensures
            r == spec_get_bit8(current.rpt_mode, feature.spec_ordinal()),
    {
        feature.get(&current.rpt_mode)
    }

    /// The secondary motion sensor goes through a dedicated enable or
    /// disable request rather than the report-mode mask, since it needs
    /// device-side initialization.
    pub fn set_motion_plus(&self, state: bool) -> (c: Command)
        ensures
            state ==> c == Command::Enable(MOTIONPLUS_FLAG),
            !state ==> c == Command::Disable(MOTIONPLUS_FLAG),
    {
        if state {
            Command::Enable(MOTIONPLUS_FLAG)
        } else {
            Command::Disable(MOTIONPLUS_FLAG)
        }
    }

    /// Assemble the snapshot read for this session: the raw state and the
    /// session identifier, both read from the device under this handle.
    pub fn get_state(&self, state_data: RawState, id: i32) -> (s: WiiMoteState)
        ensures
            s.state_data == state_data,
            s.id == id,
    {
        WiiMoteState { state_data, id }
    }

    /// Tear the session down, consuming it: the handle comes back exactly
    /// once for the transport to close, and no operation on this session can
    /// be written after it.
    pub fn close(self) -> (h: u64)
        ensures
            h == self.handle,
    {
        self.handle
    }
}

} // verus!
