use vstd::prelude::*;

verus! {

/// Size in bytes of one input report.
pub const REPORT_LEN: usize = 64;

/// Tag carried in byte 0 of an input report.
pub const INPUT_REPORT_TAG: u8 = 0x01;

/// Named button flags of the controller.
#[derive(Debug, Clone, Copy, PartialEq, Eq)]
pub struct Buttons {
    pub a: bool,
    pub b: bool,
    pub x: bool,
    pub y: bool,
    /// Left bumper.
    pub lb: bool,
    /// Right bumper.
    pub rb: bool,
    /// Left trigger click.
    pub lt: bool,
    /// Right trigger click.
    pub rt: bool,
    /// Left grip.
    pub lgrip: bool,
    /// Right grip.
    pub rgrip: bool,
    pub start: bool,
    /// Back button.
    pub select: bool,
    /// System button.
    pub steam: bool,
    /// Left trackpad click.
    pub lpad_click: bool,
    /// Right trackpad click.
    pub rpad_click: bool,
    pub stick_click: bool,
}

impl Default for Buttons {
    fn default() -> (r: Self)
        ensures
            !r.a,
            !r.b,
            !r.x,
            !r.y,
            !r.lb,
            !r.rb,
            !r.lt,
            !r.rt,
            !r.lgrip,
            !r.rgrip,
            !r.start,
            !r.select,
            !r.steam,
            !r.lpad_click,
            !r.rpad_click,
            !r.stick_click,
    {
        Buttons {
            a: false,
            b: false,
            x: false,
            y: false,
            lb: false,
            rb: false,
            lt: false,
            rt: false,
            lgrip: false,
            rgrip: false,
            start: false,
            select: false,
            steam: false,
            lpad_click: false,
            rpad_click: false,
            stick_click: false,
        }
    }
}

/// One trackpad: coordinates and whether a finger is on it.
#[derive(Debug, Clone, Copy, PartialEq, Eq)]
pub struct TrackpadData {
    pub x: i16,
    pub y: i16,
    pub active: bool,
}

impl Default for TrackpadData {
    fn default() -> (r: Self)
        ensures
            r.x == 0,
            r.y == 0,
            !r.active,
    {
        TrackpadData { x: 0, y: 0, active: false }
    }
}

/// Analog stick position.
#[derive(Debug, Clone, Copy, PartialEq, Eq)]
pub struct StickData {
    pub x: i16,
    pub y: i16,
}

impl Default for StickData {
    fn default() -> (r: Self)
        ensures
            r.x == 0,
            r.y == 0,
    {
        StickData { x: 0, y: 0 }
    }
}

/// Analog trigger pull; the value at rest is near the top of the range.
#[derive(Debug, Clone, Copy, PartialEq, Eq)]
pub struct TriggersData {
    pub left: u8,
    pub right: u8,
}

impl Default for TriggersData {
    fn default() -> (r: Self)
        ensures
            r.left == 0,
            r.right == 0,
    {
        TriggersData { left: 0, right: 0 }
    }
}

/// Gyroscope sample.
#[derive(Debug, Clone, Copy, PartialEq, Eq)]
pub struct GyroData {
    pub pitch: i16,
    pub yaw: i16,
    pub roll: i16,
}

impl Default for GyroData {
    fn default() -> (r: Self)
        ensures
            r.pitch == 0,
            r.yaw == 0,
            r.roll == 0,
    {
        GyroData { pitch: 0, yaw: 0, roll: 0 }
    }
}

/// Complete input state decoded from one report.
#[derive(Debug, Clone, Copy, PartialEq, Eq)]
pub struct ControllerInput {
    pub buttons: ButtonState,
    pub left_trackpad: TrackpadData,
    pub right_trackpad: TrackpadData,
    pub stick: StickData,
    pub triggers: TriggersData,
    pub gyro: GyroData,
    pub timestamp: u32,
}

/// Button flags of a decoded input snapshot.
#[derive(Debug, Clone, Copy, PartialEq, Eq)]
pub struct ButtonState {
    pub a: bool,
    pub b: bool,
    pub x: bool,
    pub y: bool,
    /// Left bumper.
    pub lb: bool,
    /// Right bumper.
    pub rb: bool,
    /// Left trigger click.
    pub lt: bool,
    /// Right trigger click.
    pub rt: bool,
    /// Left grip.
    pub lgrip: bool,
    /// Right grip.
    pub rgrip: bool,
    pub start: bool,
    /// Back button.
    pub select: bool,
    /// System button.
    pub steam: bool,
    /// Left trackpad click.
    pub lpad_click: bool,
    /// Right trackpad click.
    pub rpad_click: bool,
    pub stick_click: bool,
}

impl Default for ButtonState {
    fn default() -> (r: Self)
        ensures
            !r.a,
            !r.b,
            !r.x,
            !r.y,
            !r.lb,
            !r.rb,
            !r.lt,
            !r.rt,
            !r.lgrip,
            !r.rgrip,
            !r.start,
            !r.select,
            !r.steam,
            !r.lpad_click,
            !r.rpad_click,
            !r.stick_click,
    {
        ButtonState {
            a: false,
            b: false,
            x: false,
            y: false,
            lb: false,
            rb: false,
            lt: false,
            rt: false,
            lgrip: false,
            rgrip: false,
            start: false,
            select: false,
            steam: false,
            lpad_click: false,
            rpad_click: false,
            stick_click: false,
        }
    }
}

/// Whether no button of `b` is pressed.
pub open spec fn no_buttons(b: ButtonState) -> bool {
    !b.a
    && !b.b
    && !b.x
    && !b.y
    && !b.lb
    && !b.rb
    && !b.lt
    && !b.rt
    && !b.lgrip
    && !b.rgrip
    && !b.start
    && !b.select
    && !b.steam
    && !b.lpad_click
    && !b.rpad_click
    && !b.stick_click
}

/// The snapshot with nothing pressed, touched or moved.
pub open spec fn is_rest(c: ControllerInput) -> bool {
    &&& no_buttons(c.buttons)
    &&& c.left_trackpad == TrackpadData { x: 0, y: 0, active: false }
    &&& c.right_trackpad == TrackpadData { x: 0, y: 0, active: false }
    &&& c.stick == StickData { x: 0, y: 0 }
    &&& c.triggers == TriggersData { left: 0, right: 0 }
    &&& c.gyro == GyroData { pitch: 0, yaw: 0, roll: 0 }
    &&& c.timestamp == 0
}

impl Default for ControllerInput {
    fn default() -> (r: Self)
        ensures
            is_rest(r),
    {
        ControllerInput {
            buttons: ButtonState::default(),
            left_trackpad: TrackpadData::default(),
            right_trackpad: TrackpadData::default(),
            stick: StickData::default(),
            triggers: TriggersData::default(),
            gyro: GyroData::default(),
            timestamp: 0,
        }
    }
}

/// Little-endian unsigned value of two bytes.
pub open spec fn le_u16(lo: u8, hi: u8) -> int {
    lo as int + 256 * (hi as int)
}

/// Two's-complement value of a little-endian byte pair.
pub open spec fn le_i16(lo: u8, hi: u8) -> i16 {
    if le_u16(lo, hi) >= 32768 {
        (le_u16(lo, hi) - 65536) as i16
    } else {
        le_u16(lo, hi) as i16
    }
}

/// Little-endian value of four bytes.
pub open spec fn le_u32(b0: u8, b1: u8, b2: u8, b3: u8) -> u32 {
    (b0 as int + 256 * (b1 as int) + 65536 * (b2 as int) + 16777216 * (b3 as int)) as u32
}

/// Reads a signed 16-bit little-endian value.
pub fn read_i16_le(lo: u8, hi: u8) -> (r: i16)
    ensures
        r == le_i16(lo, hi),
{
    let v: i32 = lo as i32 + 256 * (hi as i32);
    if v >= 32768 {
        (v - 65536) as i16
    } else {
        v as i16
    }
}

/// Reads an unsigned 32-bit little-endian value.
pub fn read_u32_le(b0: u8, b1: u8, b2: u8, b3: u8) -> (r: u32)
    ensures
        r == le_u32(b0, b1, b2, b3),
{
    b0 as u32 + 256 * (b1 as u32) + 65536 * (b2 as u32) + 16777216 * (b3 as u32)
}

/// Why a byte buffer is not an input report.
#[derive(Debug, Clone, Copy, PartialEq, Eq)]
pub enum DecodeError {
    /// The buffer holds fewer bytes than one report; carries its length.
    TooShort(usize),
    /// Byte 0 is not the input-report tag; carries that byte.
    UnexpectedReportType(u8),
}

/// Byte 8, bit 0: right trigger clicked.
pub open spec fn right_trigger_clicked(flags: u8) -> bool {
    flags & 0x01u8 != 0
}

/// Byte 8, bit 1: left trigger clicked.
pub open spec fn left_trigger_clicked(flags: u8) -> bool {
    flags & 0x02u8 != 0
}

/// Byte 10, bit 3: a finger is on the left trackpad.
pub open spec fn left_pad_touched(flags: u8) -> bool {
    flags & 0x08u8 != 0
}

/// Byte 10, bit 4: a finger is on the right trackpad.
pub open spec fn right_pad_touched(flags: u8) -> bool {
    flags & 0x10u8 != 0
}

/// Byte 10, bit 2: the touched pad is pressed down.
pub open spec fn pad_pressed(flags: u8) -> bool {
    flags & 0x04u8 != 0
}

/// The snapshot that a well-formed report `d` stands for.
pub open spec fn decoded_report(d: Seq<u8>) -> ControllerInput {
    let pads = d[10];
    let touched = left_pad_touched(pads);
    let x = le_i16(d[16], d[17]);
    let y = le_i16(d[18], d[19]);
    ControllerInput {
        buttons: ButtonState {
            a: false,
            b: false,
            x: false,
            y: false,
            lb: false,
            rb: false,
            lt: left_trigger_clicked(d[8]),
            rt: right_trigger_clicked(d[8]),
            lgrip: false,
            rgrip: false,
            start: false,
            select: false,
            steam: false,
            lpad_click: touched && pad_pressed(pads),
            rpad_click: right_pad_touched(pads) && pad_pressed(pads),
            stick_click: false,
        },
        left_trackpad: if touched {
            TrackpadData { x, y, active: true }
        } else {
            TrackpadData { x: 0, y: 0, active: false }
        },
        right_trackpad: TrackpadData {
            x: le_i16(d[20], d[21]),
            y: le_i16(d[22], d[23]),
            active: right_pad_touched(pads),
        },
        stick: if touched {
            StickData { x: 0, y: 0 }
        } else {
            StickData { x, y }
        },
        triggers: TriggersData { left: d[13], right: d[12] },
        gyro: GyroData {
            pitch: le_i16(d[48], d[49]),
            yaw: le_i16(d[50], d[51]),
            roll: le_i16(d[52], d[53]),
        },
        timestamp: le_u32(d[4], d[5], d[6], d[7]),
    }
}

/// What decoding the buffer `d` yields.
pub open spec fn decode_result(d: Seq<u8>) -> Result<ControllerInput, DecodeError> {
    if d.len() < REPORT_LEN {
        Err(DecodeError::TooShort(d.len() as usize))
    } else if d[0] != INPUT_REPORT_TAG {
        Err(DecodeError::UnexpectedReportType(d[0]))
    } else {
        Ok(decoded_report(d))
    }
}

/// Decodes one input report.
///
/// Fails with `TooShort` below 64 bytes and with `UnexpectedReportType` when
/// byte 0 is not 0x01; otherwise returns the snapshot laid out in the report.
/// Face buttons, bumpers, grips, menu buttons and the stick click have no known
/// place in the report and are always false.
pub fn parse_input_report(data: &[u8]) -> (r: Result<ControllerInput, DecodeError>)
    ensures
        r == decode_result(data@),
{
    if data.len() < REPORT_LEN {
        return Err(DecodeError::TooShort(data.len()));
    }
    if data[0] != INPUT_REPORT_TAG {
        return Err(DecodeError::UnexpectedReportType(data[0]));
    }

    let mut input = ControllerInput::default();

    let trigger_flags = data[8];
    input.buttons.rt = trigger_flags & 0x01u8 != 0;
    input.buttons.lt = trigger_flags & 0x02u8 != 0;

    let pad_flags = data[10];
    let lpad_touched = pad_flags & 0x08u8 != 0;
    let rpad_touched = pad_flags & 0x10u8 != 0;
    let pressed = pad_flags & 0x04u8 != 0;
    input.buttons.lpad_click = lpad_touched && pressed;
    input.buttons.rpad_click = rpad_touched && pressed;

    input.triggers.right = data[12];
    input.triggers.left = data[13];

    // Bytes 16..20 carry the left trackpad while it is touched, the stick otherwise.
    let shared_x = read_i16_le(data[16], data[17]);
    let shared_y = read_i16_le(data[18], data[19]);
    if lpad_touched {
        input.left_trackpad = TrackpadData { x: shared_x, y: shared_y, active: true };
        input.stick = StickData::default();
    } else {
        input.stick = StickData { x: shared_x, y: shared_y };
        input.left_trackpad = TrackpadData::default();
    }

    input.right_trackpad = TrackpadData {
        x: read_i16_le(data[20], data[21]),
        y: read_i16_le(data[22], data[23]),
        active: rpad_touched,
    };

    input.gyro = GyroData {
        pitch: read_i16_le(data[48], data[49]),
        yaw: read_i16_le(data[50], data[51]),
        roll: read_i16_le(data[52], data[53]),
    };

    input.timestamp = read_u32_le(data[4], data[5], data[6], data[7]);

    Ok(input)
}

/// Decoding is a function of the bytes alone: equal buffers give equal results.
pub proof fn lemma_decode_deterministic(a: Seq<u8>, b: Seq<u8>)
    requires
        a == b,
    ensures
        decode_result(a) == decode_result(b),
{
}

/// Every buffer shorter than one report is rejected as too short.
pub proof fn lemma_short_buffer_rejected(d: Seq<u8>)
    requires
        d.len() < REPORT_LEN,
    ensures
        decode_result(d) == Err::<ControllerInput, DecodeError>(DecodeError::TooShort(d.len() as usize)),
{
}

/// A full-length buffer whose byte 0 is not the input tag is rejected for its
/// report type, whatever the other bytes hold.
pub proof fn lemma_wrong_tag_rejected(d: Seq<u8>)
    requires
        d.len() >= REPORT_LEN,
        d[0] != INPUT_REPORT_TAG,
    ensures
        decode_result(d) == Err::<ControllerInput, DecodeError>(DecodeError::UnexpectedReportType(d[0])),
{
}

/// Bytes 16..20 drive either the left trackpad or the stick, never both: with
/// the left pad touched the stick reads (0, 0); otherwise the left pad is
/// inactive at (0, 0).
pub proof fn lemma_left_pad_excludes_stick(d: Seq<u8>)
    requires
        decode_result(d) is Ok,
    ensures
        left_pad_touched(d[10]) ==> {
            let c = decode_result(d)->Ok_0;
            &&& c.stick == StickData { x: 0, y: 0 }
            &&& c.left_trackpad == TrackpadData {
                x: le_i16(d[16], d[17]),
                y: le_i16(d[18], d[19]),
                active: true,
            }
        },
        !left_pad_touched(d[10]) ==> {
            let c = decode_result(d)->Ok_0;
            &&& c.left_trackpad == TrackpadData { x: 0, y: 0, active: false }
            &&& c.stick == StickData { x: le_i16(d[16], d[17]), y: le_i16(d[18], d[19]) }
        },
{
}

/// Trigger clicks come from bits 0 and 1 of byte 8 alone, and the analog
/// triggers from bytes 12 and 13 alone: two reports that agree there agree on
/// the corresponding decoded values, whatever else differs.
pub proof fn lemma_trigger_sources(a: Seq<u8>, b: Seq<u8>)
    requires
        decode_result(a) is Ok,
        decode_result(b) is Ok,
    ensures
        a[8] & 0x03u8 == b[8] & 0x03u8 ==> {
            &&& decode_result(a)->Ok_0.buttons.rt == decode_result(b)->Ok_0.buttons.rt
            &&& decode_result(a)->Ok_0.buttons.lt == decode_result(b)->Ok_0.buttons.lt
        },
        a[12] == b[12] && a[13] == b[13] ==> decode_result(a)->Ok_0.triggers
            == decode_result(b)->Ok_0.triggers,
{
    let x = a[8];
    let y = b[8];
    assert((x & 0x03u8 == y & 0x03u8) ==> ((x & 0x01u8 != 0) == (y & 0x01u8 != 0) && (x
        & 0x02u8 != 0) == (y & 0x02u8 != 0))) by (bit_vector);
}

} // verus!
