//! The closed sets of named single-bit flags of the report protocol (LEDs,
//! report-class features, buttons), and the typed values a raw report decodes
//! into (acceleration vector, infrared source list).

use vstd::prelude::*;

use crate::bitmask::{
    get_bit16, get_bit8, set_bit16, set_bit8, spec_get_bit16, spec_get_bit8, spec_set_bit16,
    spec_set_bit8,
};
use crate::report::RawIrSource;

verus! {

/// Index of the horizontal axis inside a raw position or acceleration array.
pub const AXIS_X: usize = 0;

/// Index of the vertical axis inside a raw position or acceleration array.
pub const AXIS_Y: usize = 1;

/// Index of the depth axis inside a raw acceleration array.
pub const AXIS_Z: usize = 2;

/// One of the four player LEDs, each a single bit of the 8-bit LED mask.
#[derive(Debug, Clone, Copy, PartialEq, Eq, Structural)]
pub enum Led {
    Led1,
    Led2,
    Led3,
    Led4,
}

impl Led {
    /// The protocol bit of this LED inside the 8-bit LED mask.
    pub open spec fn spec_ordinal(self) -> u8 {
        match self {
            Led::Led1 => 0x01,
            Led::Led2 => 0x02,
            Led::Led3 => 0x04,
            Led::Led4 => 0x08,
        }
    }

    pub fn ordinal(&self) -> (r: u8)
        ensures
            r == self.spec_ordinal(),
    {
        match self {
            Led::Led1 => 0x01,
            Led::Led2 => 0x02,
            Led::Led3 => 0x04,
            Led::Led4 => 0x08,
        }
    }

    /// Turn this LED's bit on or off inside `bitmap`.
    pub fn set(&self, bitmap: &mut u8, state: bool)
        ensures
            *final(bitmap) == spec_set_bit8(*old(bitmap), self.spec_ordinal(), state),
    {
        *bitmap = set_bit8(*bitmap, self.ordinal(), state);
    }

    /// Whether this LED's bit is present in `bitmap`.
    pub fn get(&self, bitmap: &u8) -> (r: bool)
        ensures
            r == spec_get_bit8(*bitmap, self.spec_ordinal()),
    {
        get_bit8(*bitmap, self.ordinal())
    }
}

/// One report class the device can stream, each a single bit of the 8-bit
/// report-mode mask. Flags are independent; no flag implies another.
#[derive(Debug, Clone, Copy, PartialEq, Eq, Structural)]
pub enum Feature {
    Status,
    Button,
    Acceleration,
    IR,
    Nunchuk,
    Classic,
    Balance,
    MotionPlus,
}

impl Feature {
    /// The protocol bit of this report class inside the 8-bit report-mode mask.
    pub open spec fn spec_ordinal(self) -> u8 {
        match self {
            Feature::Status => 0x01,
            Feature::Button => 0x02,
            Feature::Acceleration => 0x04,
            Feature::IR => 0x08,
            Feature::Nunchuk => 0x10,
            Feature::Classic => 0x20,
            Feature::Balance => 0x40,
            Feature::MotionPlus => 0x80,
        }
    }

    pub fn ordinal(&self) -> (r: u8)
        ensures
            r == self.spec_ordinal(),
    {
        match self {
            Feature::Status => 0x01,
            Feature::Button => 0x02,
            Feature::Acceleration => 0x04,
            Feature::IR => 0x08,
            Feature::Nunchuk => 0x10,
            Feature::Classic => 0x20,
            Feature::Balance => 0x40,
            Feature::MotionPlus => 0x80,
        }
    }

    /// Turn this report class's bit on or off inside `bitmap`.
    pub fn set(&self, bitmap: &mut u8, state: bool)
        ensures
            *final(bitmap) == spec_set_bit8(*old(bitmap), self.spec_ordinal(), state),
    {
        *bitmap = set_bit8(*bitmap, self.ordinal(), state);
    }

    /// Whether this report class's bit is present in `bitmap`.
    pub fn get(&self, bitmap: &u8) -> (r: bool)
        ensures
            r == spec_get_bit8(*bitmap, self.spec_ordinal()),
    {
        get_bit8(*bitmap, self.ordinal())
    }
}

/// One of the eleven controller buttons, each a single bit of the 16-bit
/// button mask.
#[derive(Debug, Clone, Copy, PartialEq, Eq, Structural)]
pub enum Button {
    Num2,
    Num1,
    B,
    A,
    Minus,
    Home,
    Left,
    Right,
    Down,
    Up,
    Plus,
}

impl Button {
    /// The protocol bit of this button inside the 16-bit button mask.
    pub open spec fn spec_ordinal(self) -> u16 {
        match self {
            Button::Num2 => 0x0001,
            Button::Num1 => 0x0002,
            Button::B => 0x0004,
            Button::A => 0x0008,
            Button::Minus => 0x0010,
            Button::Home => 0x0080,
            Button::Left => 0x0100,
            Button::Right => 0x0200,
            Button::Down => 0x0400,
            Button::Up => 0x0800,
            Button::Plus => 0x1000,
        }
    }

    pub fn ordinal(&self) -> (r: u16)
        ensures
            r == self.spec_ordinal(),
    {
        match self {
            Button::Num2 => 0x0001,
            Button::Num1 => 0x0002,
            Button::B => 0x0004,
            Button::A => 0x0008,
            Button::Minus => 0x0010,
            Button::Home => 0x0080,
            Button::Left => 0x0100,
            Button::Right => 0x0200,
            Button::Down => 0x0400,
            Button::Up => 0x0800,
            Button::Plus => 0x1000,
        }
    }

    /// All eleven buttons, in declaration order.
    pub open spec fn spec_variants() -> Seq<Button> {
        seq![
            Button::Num2,
            Button::Num1,
            Button::B,
            Button::A,
            Button::Minus,
            Button::Home,
            Button::Left,
            Button::Right,
            Button::Down,
            Button::Up,
            Button::Plus,
        ]
    }

    pub fn variants() -> (v: Vec<Button>)
        ensures
            v@ == Self::spec_variants(),
    {
        let mut v: Vec<Button> = Vec::new();
        v.push(Button::Num2);
        v.push(Button::Num1);
        v.push(Button::B);
        v.push(Button::A);
        v.push(Button::Minus);
        v.push(Button::Home);
        v.push(Button::Left);
        v.push(Button::Right);
        v.push(Button::Down);
        v.push(Button::Up);
        v.push(Button::Plus);
        proof {
            assert(v@ =~= Self::spec_variants());
        }
        v
    }

    /// Turn this button's bit on or off inside `bitmap`.
    pub fn set(&self, bitmap: &mut u16, state: bool)
        ensures
            *final(bitmap) == spec_set_bit16(*old(bitmap), self.spec_ordinal(), state),
    {
        *bitmap = set_bit16(*bitmap, self.ordinal(), state);
    }

    /// Whether this button's bit is present in `bitmap`.
    pub fn get(&self, bitmap: &u16) -> (r: bool)
        ensures
            r == spec_get_bit16(*bitmap, self.spec_ordinal()),
    {
        get_bit16(*bitmap, self.ordinal())
    }
}

/// The buttons of `vars` whose bit is present in `mask`, in the order of
/// `vars`.
pub open spec fn spec_pressed_prefix(mask: u16, vars: Seq<Button>) -> Seq<Button>
    decreases vars.len(),
{
    if vars.len() == 0 {
        Seq::empty()
    } else {
        let prefix = spec_pressed_prefix(mask, vars.drop_last());
        if spec_get_bit16(mask, vars.last().spec_ordinal()) {
            prefix.push(vars.last())
        } else {
            prefix
        }
    }
}

/// The pressed-button set of a 16-bit button mask, in declaration order.
pub open spec fn spec_pressed(mask: u16) -> Seq<Button> {
    spec_pressed_prefix(mask, Button::spec_variants())
}

/// The buttons whose bit is present in `mask`, in declaration order.
pub fn pressed_buttons(mask: u16) -> (r: Vec<Button>)
    ensures
        r@ == spec_pressed(mask),
{
    let vars = Button::variants();
    let mut out: Vec<Button> = Vec::new();
    let mut i: usize = 0;
    while i < vars.len()
        invariant
            i <= vars@.len(),
            vars@ == Button::spec_variants(),
            out@ == spec_pressed_prefix(mask, vars@.take(i as int)),
        decreases vars@.len() - i,
    {
        let b = vars[i];
        if b.get(&mask) {
            out.push(b);
        }
        proof {
            assert(vars@.take((i + 1) as int).drop_last() =~= vars@.take(i as int));
        }
        i = i + 1;
    }
    proof {
        assert(vars@.take(vars@.len() as int) =~= vars@);
    }
    out
}

/// A decoded 3-axis acceleration sample; each raw axis is one byte.
#[derive(Debug, Clone, Copy, PartialEq, Eq, Structural)]
pub struct Acceleration {
    pub x: u8,
    pub y: u8,
    pub z: u8,
}

impl Acceleration {
    pub(crate) fn new(array: [u8; 3]) -> (r: Self)
        ensures
            r.x == array[AXIS_X as int],
            r.y == array[AXIS_Y as int],
            r.z == array[AXIS_Z as int],
    {
        Self { x: array[AXIS_X], y: array[AXIS_Y], z: array[AXIS_Z] }
    }
}

/// One decoded infrared point source.
#[derive(Debug, Clone, Copy, PartialEq, Eq, Structural)]
pub struct IRSource {
    pub x: u16,
    pub y: u16,
    /// Size estimate; -1 means no estimate.
    pub size: i8,
}

/// The decoded source of one valid raw slot.
pub open spec fn spec_decode_ir_slot(s: RawIrSource) -> IRSource {
    IRSource { x: s.pos[AXIS_X as int], y: s.pos[AXIS_Y as int], size: s.size }
}

/// The decoded sources of `slots`: one entry for each slot whose validity
/// flag is nonzero, in slot order.
pub open spec fn spec_decode_ir(slots: Seq<RawIrSource>) -> Seq<IRSource>
    decreases slots.len(),
{
    if slots.len() == 0 {
        Seq::empty()
    } else {
        let prefix = spec_decode_ir(slots.drop_last());
        if slots.last().valid != 0 {
            prefix.push(spec_decode_ir_slot(slots.last()))
        } else {
            prefix
        }
    }
}

/// The decoded infrared camera reading: the point sources of the valid raw
/// slots, in original slot order.
pub struct IRSensor {
    sources: Vec<IRSource>,
}

impl View for IRSensor {
    type V = Seq<IRSource>;

    closed spec fn view(&self) -> Seq<IRSource> {
        self.sources@
    }
}

impl IRSensor {
    /// Decode the raw slots: keep a slot only if its validity flag is
    /// nonzero, extracting position and signed size.
    pub fn new(sources: &[RawIrSource]) -> (r: Self)
        ensures
            r@ == spec_decode_ir(sources@),
    {
        let mut out: Vec<IRSource> = Vec::new();
        let mut i: usize = 0;
        while i < sources.len()
            invariant
                i <= sources@.len(),
                out@ == spec_decode_ir(sources@.take(i as int)),
            decreases sources@.len() - i,
        {
            let s = sources[i];
            if s.valid != 0 {
                out.push(IRSource { x: s.pos[AXIS_X], y: s.pos[AXIS_Y], size: s.size });
            }
            proof {
                assert(sources@.take((i + 1) as int).drop_last() =~= sources@.take(i as int));
            }
            i = i + 1;
        }
        proof {
            assert(sources@.take(sources@.len() as int) =~= sources@);
        }
        Self { sources: out }
    }

    pub fn sources(&self) -> (r: &[IRSource])
        ensures
            r@ == self@,
    {
        self.sources.as_slice()
    }
}

} // verus!
