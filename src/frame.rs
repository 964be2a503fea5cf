//! The telemetry frame: its fixed 14-byte wire layout and the packed button byte.
use vstd::prelude::*;

verus! {

/// Button byte bit: left trigger, upper switch.
pub const BTN_LU: u8 = 0x20;

/// Button byte bit: left trigger, lower switch.
pub const BTN_LL: u8 = 0x10;

/// Button byte bit: right trigger, upper switch.
pub const BTN_RU: u8 = 0x80;

/// Button byte bit: right trigger, lower switch.
pub const BTN_RL: u8 = 0x40;

/// Button byte bit: left bumper, upper switch.
pub const BTN_EU: u8 = 0x08;

/// Button byte bit: left bumper, lower switch.
pub const BTN_EL: u8 = 0x02;

/// Button byte bit: right bumper, upper switch.
pub const BTN_FU: u8 = 0x04;

/// Button byte bit: right bumper, lower switch.
pub const BTN_FL: u8 = 0x01;

/// Number of bytes in a serialized frame.
pub const FRAME_LEN: usize = 14;

/// Joystick rest position: the midpoint of an axis.
pub const JOYSTICK_REST: u8 = 127;

/// One telemetry frame, fields in wire order.
#[derive(Clone, Copy, Debug, PartialEq, Eq, Structural)]
pub struct ControllerData {
    pub j1_y: u8,
    pub j1_x: u8,
    pub j2_y: u8,
    pub j2_x: u8,
    pub buttons: u8,
    pub battery: u8,
    pub main_pwr: u8,
    pub idle_time: u8,
    pub pwr_off_delay: u8,
    pub cont_count: u8,
    pub unused: u8,
    pub unused1: u8,
    pub unused2: u8,
    pub unused3: u8,
}

/// The eight switches that the button byte packs.
#[derive(Clone, Copy, Debug, PartialEq, Eq, Structural)]
pub struct ButtonState {
    pub left_trigger_upper: bool,
    pub left_trigger_lower: bool,
    pub right_trigger_upper: bool,
    pub right_trigger_lower: bool,
    pub left_button_upper: bool,
    pub left_button_lower: bool,
    pub right_button_upper: bool,
    pub right_button_lower: bool,
}

/// Why a byte buffer is not a frame.
#[derive(Clone, Copy, Debug, PartialEq, Eq, Structural)]
pub enum FrameError {
    /// The buffer holds this many bytes instead of `FRAME_LEN`.
    WrongLength(usize),
}

/// The frame at rest: centred sticks, no buttons, battery unknown, power on.
pub open spec fn default_frame() -> ControllerData {
    ControllerData {
        j1_y: 127,
        j1_x: 127,
        j2_y: 127,
        j2_x: 127,
        buttons: 0,
        battery: 127,
        main_pwr: 255,
        idle_time: 0,
        pwr_off_delay: 0,
        cont_count: 0,
        unused: 0,
        unused1: 0,
        unused2: 0,
        unused3: 0,
    }
}

/// No switch pressed.
pub open spec fn no_buttons() -> ButtonState {
    ButtonState {
        left_trigger_upper: false,
        left_trigger_lower: false,
        right_trigger_upper: false,
        right_trigger_lower: false,
        left_button_upper: false,
        left_button_lower: false,
        right_button_upper: false,
        right_button_lower: false,
    }
}

/// The bytes of a frame, one per field, in wire order.
pub open spec fn frame_bytes(d: ControllerData) -> Seq<u8> {
    seq![
        d.j1_y,
        d.j1_x,
        d.j2_y,
        d.j2_x,
        d.buttons,
        d.battery,
        d.main_pwr,
        d.idle_time,
        d.pwr_off_delay,
        d.cont_count,
        d.unused,
        d.unused1,
        d.unused2,
        d.unused3,
    ]
}

/// The frame whose fields are the 14 bytes of `b`, in wire order.
pub open spec fn frame_of(b: Seq<u8>) -> ControllerData {
    ControllerData {
        j1_y: b[0],
        j1_x: b[1],
        j2_y: b[2],
        j2_x: b[3],
        buttons: b[4],
        battery: b[5],
        main_pwr: b[6],
        idle_time: b[7],
        pwr_off_delay: b[8],
        cont_count: b[9],
        unused: b[10],
        unused1: b[11],
        unused2: b[12],
        unused3: b[13],
    }
}

/// `bit` when the switch is set, else nothing.
pub open spec fn flag_bit(set: bool, bit: u8) -> u8 {
    if set {
        bit
    } else {
        0
    }
}

/// The packed button byte: the OR of the bits of the set switches.
pub open spec fn button_mask(s: ButtonState) -> u8 {
    flag_bit(s.left_trigger_upper, 0x20) | flag_bit(s.left_trigger_lower, 0x10) | flag_bit(
        s.right_trigger_upper,
        0x80,
    ) | flag_bit(s.right_trigger_lower, 0x40) | flag_bit(s.left_button_upper, 0x08) | flag_bit(
        s.left_button_lower,
        0x02,
    ) | flag_bit(s.right_button_upper, 0x04) | flag_bit(s.right_button_lower, 0x01)
}

impl Default for ControllerData {
    fn default() -> (r: Self)
        ensures
            r == default_frame(),
    {
        Self {
            j1_y: JOYSTICK_REST,
            j1_x: JOYSTICK_REST,
            j2_y: JOYSTICK_REST,
            j2_x: JOYSTICK_REST,
            buttons: 0,
            battery: 127,
            main_pwr: 255,
            idle_time: 0,
            pwr_off_delay: 0,
            cont_count: 0,
            unused: 0,
            unused1: 0,
            unused2: 0,
            unused3: 0,
        }
    }
}

impl Default for ButtonState {
    fn default() -> (r: Self)
        ensures
            r == no_buttons(),
    {
        Self {
            left_trigger_upper: false,
            left_trigger_lower: false,
            right_trigger_upper: false,
            right_trigger_lower: false,
            left_button_upper: false,
            left_button_lower: false,
            right_button_upper: false,
            right_button_lower: false,
        }
    }
}

proof fn lemma_or_flag(v: u8, set: bool, bit: u8)
    ensures
        (if set {
            v | bit
        } else {
            v
        }) == v | flag_bit(set, bit),
{
    assert(v | 0u8 == v) by (bit_vector);
}

/// Packs the switches into the button byte.
pub fn get_button_value(state: ButtonState) -> (value: u8)
    ensures
        value == button_mask(state),
{
    let mut value: u8 = 0;
    if state.left_trigger_upper {
        value |= BTN_LU;
        assert(0u8 | 0x20u8 == 0x20u8) by (bit_vector);
    }
    proof {
        lemma_or_flag(value, state.left_trigger_lower, BTN_LL);
    }
    if state.left_trigger_lower {
        value |= BTN_LL;
    }
    proof {
        lemma_or_flag(value, state.right_trigger_upper, BTN_RU);
    }
    if state.right_trigger_upper {
        value |= BTN_RU;
    }
    proof {
        lemma_or_flag(value, state.right_trigger_lower, BTN_RL);
    }
    if state.right_trigger_lower {
        value |= BTN_RL;
    }
    proof {
        lemma_or_flag(value, state.left_button_upper, BTN_EU);
    }
    if state.left_button_upper {
        value |= BTN_EU;
    }
    proof {
        lemma_or_flag(value, state.left_button_lower, BTN_EL);
    }
    if state.left_button_lower {
        value |= BTN_EL;
    }
    proof {
        lemma_or_flag(value, state.right_button_upper, BTN_FU);
    }
    if state.right_button_upper {
        value |= BTN_FU;
    }
    proof {
        lemma_or_flag(value, state.right_button_lower, BTN_FL);
    }
    if state.right_button_lower {
        value |= BTN_FL;
    }
    value
}

/// Writes a frame out as its 14 bytes in wire order.
pub fn serialize_controller_data(data: ControllerData) -> (buffer: Vec<u8>)
    ensures
        buffer@ == frame_bytes(data),
{
    let mut buffer: Vec<u8> = Vec::new();
    buffer.push(data.j1_y);
    buffer.push(data.j1_x);
    buffer.push(data.j2_y);
    buffer.push(data.j2_x);
    buffer.push(data.buttons);
    buffer.push(data.battery);
    buffer.push(data.main_pwr);
    buffer.push(data.idle_time);
    buffer.push(data.pwr_off_delay);
    buffer.push(data.cont_count);
    buffer.push(data.unused);
    buffer.push(data.unused1);
    buffer.push(data.unused2);
    buffer.push(data.unused3);
    assert(buffer@ =~= frame_bytes(data));
    buffer
}

/// Reads a frame back from its bytes; any length but `FRAME_LEN` is refused.
pub fn deserialize_controller_data(bytes: &[u8]) -> (r: Result<ControllerData, FrameError>)
    ensures
        bytes@.len() == 14 ==> r == Ok::<ControllerData, FrameError>(frame_of(bytes@)),
        bytes@.len() != 14 ==> r == Err::<ControllerData, FrameError>(
            FrameError::WrongLength(bytes@.len() as usize),
        ),
{
    if bytes.len() != FRAME_LEN {
        return Err(FrameError::WrongLength(bytes.len()));
    }
    Ok(
        ControllerData {
            j1_y: bytes[0],
            j1_x: bytes[1],
            j2_y: bytes[2],
            j2_x: bytes[3],
            buttons: bytes[4],
            battery: bytes[5],
            main_pwr: bytes[6],
            idle_time: bytes[7],
            pwr_off_delay: bytes[8],
            cont_count: bytes[9],
            unused: bytes[10],
            unused1: bytes[11],
            unused2: bytes[12],
            unused3: bytes[13],
        },
    )
}

/// A frame serializes to exactly 14 bytes, and reading those bytes back gives the
/// same frame, field for field.
pub proof fn lemma_frame_round_trip(d: ControllerData)
    ensures
        frame_bytes(d).len() == FRAME_LEN,
        frame_of(frame_bytes(d)) == d,
{
}

/// Any 14 bytes are the serialization of the frame read from them.
pub proof fn lemma_bytes_round_trip(b: Seq<u8>)
    requires
        b.len() == FRAME_LEN,
    ensures
        frame_bytes(frame_of(b)) == b,
{
    assert(frame_bytes(frame_of(b)) =~= b);
}

/// Each switch owns its own bit of the button byte, after the fixed table: the
/// switch is set exactly when its bit is, so all eight bits are used and none twice.
pub proof fn lemma_button_bits(s: ButtonState)
    ensures
        s.right_trigger_upper == (button_mask(s) & 0x80 != 0),
        s.right_trigger_lower == (button_mask(s) & 0x40 != 0),
        s.left_trigger_upper == (button_mask(s) & 0x20 != 0),
        s.left_trigger_lower == (button_mask(s) & 0x10 != 0),
        s.left_button_upper == (button_mask(s) & 0x08 != 0),
        s.right_button_upper == (button_mask(s) & 0x04 != 0),
        s.left_button_lower == (button_mask(s) & 0x02 != 0),
        s.right_button_lower == (button_mask(s) & 0x01 != 0),
{
    let lu = flag_bit(s.left_trigger_upper, 0x20);
    let ll = flag_bit(s.left_trigger_lower, 0x10);
    let ru = flag_bit(s.right_trigger_upper, 0x80);
    let rl = flag_bit(s.right_trigger_lower, 0x40);
    let eu = flag_bit(s.left_button_upper, 0x08);
    let el = flag_bit(s.left_button_lower, 0x02);
    let fu = flag_bit(s.right_button_upper, 0x04);
    let fl = flag_bit(s.right_button_lower, 0x01);
    assert(lu == 0 || lu == 0x20);
    assert(ll == 0 || ll == 0x10);
    assert(ru == 0 || ru == 0x80);
    assert(rl == 0 || rl == 0x40);
    assert(eu == 0 || eu == 0x08);
    assert(el == 0 || el == 0x02);
    assert(fu == 0 || fu == 0x04);
    assert(fl == 0 || fl == 0x01);
    let m = button_mask(s);
    assert(m == lu | ll | ru | rl | eu | el | fu | fl);
    assert((lu == 0 || lu == 0x20) && (ll == 0 || ll == 0x10) && (ru == 0 || ru == 0x80) && (
    rl == 0 || rl == 0x40) && (eu == 0 || eu == 0x08) && (el == 0 || el == 0x02) && (fu == 0
        || fu == 0x04) && (fl == 0 || fl == 0x01) && m == lu | ll | ru | rl | eu | el | fu | fl
        ==> (m & 0x80 == ru) && (m & 0x40 == rl) && (m & 0x20 == lu) && (m & 0x10 == ll) && (m
        & 0x08 == eu) && (m & 0x04 == fu) && (m & 0x02 == el) && (m & 0x01 == fl)) by (bit_vector);
}

/// Distinct switch settings never pack to the same byte.
pub proof fn lemma_button_mask_injective(s: ButtonState, t: ButtonState)
    requires
        button_mask(s) == button_mask(t),
    ensures
        s == t,
{
    lemma_button_bits(s);
    lemma_button_bits(t);
}

} // verus!
