//! Raw report snapshots and their decoding into typed state. The raw layout
//! (field widths, axis indexing, the four infrared slots, the battery scale)
//! is the device's fixed, externally specified binary report contract.

use vstd::prelude::*;

use crate::state_enums::{
    spec_decode_ir, spec_pressed, Acceleration, Button, IRSensor, AXIS_X, AXIS_Y, AXIS_Z,
};

verus! {

/// The raw battery byte that stands for a full battery.
pub const BATTERY_MAX: u8 = 208;

/// One raw infrared slot of a report: a validity flag, a position pair and a
/// signed size byte (-1 means no size estimate).
#[derive(Debug, Clone, Copy, PartialEq, Eq)]
pub struct RawIrSource {
    pub valid: i8,
    pub pos: [u16; 2],
    pub size: i8,
}

/// One raw state snapshot, read atomically from the device: every field
/// comes from the same report.
#[derive(Debug, PartialEq, Eq)]
pub struct RawState {
    pub rpt_mode: u8,
    pub led: u8,
    pub rumble: u8,
    pub battery: u8,
    pub buttons: u16,
    pub acc: [u8; 3],
    pub ir_src: [RawIrSource; 4],
}

/// An immutable decoded snapshot of one session's device state, paired with
/// the session identifier it was read under.
#[derive(Debug, PartialEq, Eq)]
pub struct WiiMoteState {
    pub state_data: RawState,
    pub id: i32,
}

impl WiiMoteState {
    /// Decode the acceleration bytes at the fixed axis indices.
    pub fn acceleration(&self) -> (r: Acceleration)
        ensures
            r.x == self.state_data.acc[AXIS_X as int],
            r.y == self.state_data.acc[AXIS_Y as int],
            r.z == self.state_data.acc[AXIS_Z as int],
    {
        Acceleration::new(self.state_data.acc)
    }

    /// The pressed buttons of this snapshot, in declaration order.
    pub fn button(&self) -> (r: Vec<Button>)
        ensures
            r@ == spec_pressed(self.state_data.buttons),
    {
        crate::state_enums::pressed_buttons(self.state_data.buttons)
    }

    /// The battery charge as a whole percentage of the full-battery byte.
    pub fn battery(&self) -> (r: u8)
        ensures
            r as int == 100 * (self.state_data.battery as int) / (BATTERY_MAX as int),
    {
        let scaled: u32 = 100u32 * (self.state_data.battery as u32);
        let pct: u32 = scaled / (BATTERY_MAX as u32);
        proof {
            assert(scaled / 208u32 < 256) by (bit_vector)
                requires
                    scaled <= 25500,
            ;
        }
        pct as u8
    }

    /// Decode the infrared slots of this snapshot.
    pub fn ir_sensor(&self) -> (r: IRSensor)
        ensures
            r@ == spec_decode_ir(self.state_data.ir_src@),
    {
        IRSensor::new(self.state_data.ir_src.as_slice())
    }
}

} // verus!
