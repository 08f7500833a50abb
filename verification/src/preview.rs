//! Forwarding the operator's pointer and keyboard from the preview to the
//! device as BLE HID reports: pointer scaling, key mapping, and the state of
//! the pointer bridge.
use vstd::prelude::*;
use crate::preferences::clamp_spec;
use crate::protocol::{ControlInputEvent, KeyModifiers, KeyboardInputReport, MouseInputReport};

verus! {

pub const POINTER_EDGE_SETTLE_REPORTS: usize = 3;
pub const POINTER_TARGET_SETTLE_REPORTS: usize = 3;
pub const DEFAULT_PHONE_POINTER_LONG_AXIS_UNITS: u32 = 120;
pub const DEFAULT_TABLET_POINTER_LONG_AXIS_UNITS: u32 = 160;
pub const MIN_POINTER_LONG_AXIS_UNITS: u32 = 60;
pub const MAX_POINTER_LONG_AXIS_UNITS: u32 = 1600;
pub const TABLET_ASPECT_RATIO_X1000: u32 = 1500;

/// A key of the host keyboard, as the preview receives it.
#[derive(Debug, Clone, Copy, PartialEq, Eq, Structural)]
pub enum Key {
    A,
    B,
    C,
    D,
    E,
    F,
    G,
    H,
    I,
    J,
    K,
    L,
    M,
    N,
    O,
    P,
    Q,
    R,
    S,
    T,
    U,
    V,
    W,
    X,
    Y,
    Z,
    Num1,
    Num2,
    Num3,
    Num4,
    Num5,
    Num6,
    Num7,
    Num8,
    Num9,
    Num0,
    Enter,
    Escape,
    Backspace,
    Tab,
    Space,
    Minus,
    Equals,
    OpenBracket,
    CloseBracket,
    Backslash,
    Semicolon,
    Quote,
    Backtick,
    Comma,
    Period,
    Slash,
    Delete,
    ArrowRight,
    ArrowLeft,
    ArrowDown,
    ArrowUp,
    Exclamationmark,
    Questionmark,
    Colon,
    Plus,
    Pipe,
    OpenCurlyBracket,
    CloseCurlyBracket,
    Other,
}

/// The host's modifier keys. `command` is the platform's command key (Ctrl on
/// Windows and Linux, Cmd on macOS).
#[derive(Debug, Clone, Copy, PartialEq, Eq, Structural, Default)]
pub struct Modifiers {
    pub alt: bool,
    pub ctrl: bool,
    pub shift: bool,
    pub mac_cmd: bool,
    pub command: bool,
}

/// A pointer button of the host.
#[derive(Debug, Clone, Copy, PartialEq, Eq, Structural)]
pub enum PointerButton {
    Primary,
    Secondary,
    Middle,
    Extra1,
    Extra2,
}

/// The HID usage of a key and whether it needs Shift.
pub open spec fn key_usage_spec(key: Key) -> Option<(u8, bool)> {
    match key {
        Key::A => Some((0x04u8, false)),
        Key::B => Some((0x05u8, false)),
        Key::C => Some((0x06u8, false)),
        Key::D => Some((0x07u8, false)),
        Key::E => Some((0x08u8, false)),
        Key::F => Some((0x09u8, false)),
        Key::G => Some((0x0au8, false)),
        Key::H => Some((0x0bu8, false)),
        Key::I => Some((0x0cu8, false)),
        Key::J => Some((0x0du8, false)),
        Key::K => Some((0x0eu8, false)),
        Key::L => Some((0x0fu8, false)),
        Key::M => Some((0x10u8, false)),
        Key::N => Some((0x11u8, false)),
        Key::O => Some((0x12u8, false)),
        Key::P => Some((0x13u8, false)),
        Key::Q => Some((0x14u8, false)),
        Key::R => Some((0x15u8, false)),
        Key::S => Some((0x16u8, false)),
        Key::T => Some((0x17u8, false)),
        Key::U => Some((0x18u8, false)),
        Key::V => Some((0x19u8, false)),
        Key::W => Some((0x1au8, false)),
        Key::X => Some((0x1bu8, false)),
        Key::Y => Some((0x1cu8, false)),
        Key::Z => Some((0x1du8, false)),
        Key::Num1 => Some((0x1eu8, false)),
        Key::Num2 => Some((0x1fu8, false)),
        Key::Num3 => Some((0x20u8, false)),
        Key::Num4 => Some((0x21u8, false)),
        Key::Num5 => Some((0x22u8, false)),
        Key::Num6 => Some((0x23u8, false)),
        Key::Num7 => Some((0x24u8, false)),
        Key::Num8 => Some((0x25u8, false)),
        Key::Num9 => Some((0x26u8, false)),
        Key::Num0 => Some((0x27u8, false)),
        Key::Enter => Some((0x28u8, false)),
        Key::Escape => Some((0x29u8, false)),
        Key::Backspace => Some((0x2au8, false)),
        Key::Tab => Some((0x2bu8, false)),
        Key::Space => Some((0x2cu8, false)),
        Key::Minus => Some((0x2du8, false)),
        Key::Equals => Some((0x2eu8, false)),
        Key::OpenBracket => Some((0x2fu8, false)),
        Key::CloseBracket => Some((0x30u8, false)),
        Key::Backslash => Some((0x31u8, false)),
        Key::Semicolon => Some((0x33u8, false)),
        Key::Quote => Some((0x34u8, false)),
        Key::Backtick => Some((0x35u8, false)),
        Key::Comma => Some((0x36u8, false)),
        Key::Period => Some((0x37u8, false)),
        Key::Slash => Some((0x38u8, false)),
        Key::Delete => Some((0x4cu8, false)),
        Key::ArrowRight => Some((0x4fu8, false)),
        Key::ArrowLeft => Some((0x50u8, false)),
        Key::ArrowDown => Some((0x51u8, false)),
        Key::ArrowUp => Some((0x52u8, false)),
        Key::Exclamationmark => Some((0x1eu8, true)),
        Key::Questionmark => Some((0x38u8, true)),
        Key::Colon => Some((0x33u8, true)),
        Key::Plus => Some((0x2eu8, true)),
        Key::Pipe => Some((0x31u8, true)),
        Key::OpenCurlyBracket => Some((0x2fu8, true)),
        Key::CloseCurlyBracket => Some((0x30u8, true)),
        Key::Other => None,
    }
}

/// The HID usage of a key and whether it needs Shift; none for keys that are
/// not forwarded.
pub fn key_usage(key: Key) -> (r: Option<(u8, bool)>)
    ensures
        r == key_usage_spec(key),
{
    let usage = match key {
        Key::A => (0x04, false),
        Key::B => (0x05, false),
        Key::C => (0x06, false),
        Key::D => (0x07, false),
        Key::E => (0x08, false),
        Key::F => (0x09, false),
        Key::G => (0x0a, false),
        Key::H => (0x0b, false),
        Key::I => (0x0c, false),
        Key::J => (0x0d, false),
        Key::K => (0x0e, false),
        Key::L => (0x0f, false),
        Key::M => (0x10, false),
        Key::N => (0x11, false),
        Key::O => (0x12, false),
        Key::P => (0x13, false),
        Key::Q => (0x14, false),
        Key::R => (0x15, false),
        Key::S => (0x16, false),
        Key::T => (0x17, false),
        Key::U => (0x18, false),
        Key::V => (0x19, false),
        Key::W => (0x1a, false),
        Key::X => (0x1b, false),
        Key::Y => (0x1c, false),
        Key::Z => (0x1d, false),
        Key::Num1 => (0x1e, false),
        Key::Num2 => (0x1f, false),
        Key::Num3 => (0x20, false),
        Key::Num4 => (0x21, false),
        Key::Num5 => (0x22, false),
        Key::Num6 => (0x23, false),
        Key::Num7 => (0x24, false),
        Key::Num8 => (0x25, false),
        Key::Num9 => (0x26, false),
        Key::Num0 => (0x27, false),
        Key::Enter => (0x28, false),
        Key::Escape => (0x29, false),
        Key::Backspace => (0x2a, false),
        Key::Tab => (0x2b, false),
        Key::Space => (0x2c, false),
        Key::Minus => (0x2d, false),
        Key::Equals => (0x2e, false),
        Key::OpenBracket => (0x2f, false),
        Key::CloseBracket => (0x30, false),
        Key::Backslash => (0x31, false),
        Key::Semicolon => (0x33, false),
        Key::Quote => (0x34, false),
        Key::Backtick => (0x35, false),
        Key::Comma => (0x36, false),
        Key::Period => (0x37, false),
        Key::Slash => (0x38, false),
        Key::Delete => (0x4c, false),
        Key::ArrowRight => (0x4f, false),
        Key::ArrowLeft => (0x50, false),
        Key::ArrowDown => (0x51, false),
        Key::ArrowUp => (0x52, false),
        Key::Exclamationmark => (0x1e, true),
        Key::Questionmark => (0x38, true),
        Key::Colon => (0x33, true),
        Key::Plus => (0x2e, true),
        Key::Pipe => (0x31, true),
        Key::OpenCurlyBracket => (0x2f, true),
        Key::CloseCurlyBracket => (0x30, true),
        Key::Other => return None,
    };
    Some(usage)
}

/// The device's modifiers for the host's: Shift and Alt as they are, and any
/// command key (Ctrl, Cmd) as the device's Cmd (meta); Ctrl is never sent.
pub open spec fn key_modifiers_spec(modifiers: Modifiers) -> KeyModifiers {
    KeyModifiers {
        shift: modifiers.shift,
        alt: modifiers.alt,
        ctrl: false,
        meta: modifiers.command || modifiers.ctrl || modifiers.mac_cmd,
    }
}

/// The device's modifiers for the host's.
pub fn key_modifiers(modifiers: Modifiers) -> (r: KeyModifiers)
    ensures
        r == key_modifiers_spec(modifiers),
{
    KeyModifiers {
        shift: modifiers.shift,
        alt: modifiers.alt,
        ctrl: false,
        meta: modifiers.command || modifiers.ctrl || modifiers.mac_cmd,
    }
}

/// The keyboard report of a key press or release; punctuation typed with
/// Shift carries Shift whatever the host's modifiers.
pub open spec fn keyboard_report_spec(key: Key, pressed: bool, modifiers: Modifiers) -> Option<KeyboardInputReport> {
    match key_usage_spec(key) {
        Some((usage_id, force_shift)) => Some(KeyboardInputReport {
            usage_id,
            modifiers: KeyModifiers {
                shift: key_modifiers_spec(modifiers).shift || force_shift,
                ..key_modifiers_spec(modifiers)
            },
            pressed,
        }),
        None => None,
    }
}

/// The keyboard report of a key press or release, if the key is forwarded.
pub fn keyboard_report(key: Key, pressed: bool, modifiers: Modifiers) -> (r: Option<KeyboardInputReport>)
    ensures
        r == keyboard_report_spec(key, pressed, modifiers),
{
    let (usage_id, force_shift) = match key_usage(key) {
        Some(u) => u,
        None => return None,
    };
    let mut mapped_modifiers = key_modifiers(modifiers);
    mapped_modifiers.shift = mapped_modifiers.shift || force_shift;
    Some(KeyboardInputReport { usage_id, modifiers: mapped_modifiers, pressed })
}

/// The paste shortcut (V with a command key), which the host handles itself.
pub fn is_host_paste_shortcut(key: Key, modifiers: Modifiers) -> (r: bool)
    ensures
        r == (key == Key::V && (modifiers.command || modifiers.ctrl || modifiers.mac_cmd)),
{
    key == Key::V && (modifiers.command || modifiers.ctrl || modifiers.mac_cmd)
}

/// The HID button bit of a pointer button; none for the extra buttons.
pub fn button_mask(button: PointerButton) -> (r: u8)
    ensures
        r == (match button {
            PointerButton::Primary => 0x01u8,
            PointerButton::Secondary => 0x02u8,
            PointerButton::Middle => 0x04u8,
            _ => 0u8,
        }),
{
    match button {
        PointerButton::Primary => 0x01,
        PointerButton::Secondary => 0x02,
        PointerButton::Middle => 0x04,
        _ => 0,
    }
}

/// The larger of two values.
pub open spec fn max_u32(a: u32, b: u32) -> u32 {
    if a >= b { a } else { b }
}

/// The smaller of two values.
pub open spec fn min_u32(a: u32, b: u32) -> u32 {
    if a <= b { a } else { b }
}

/// The pointer range of the long axis for a frame shape: tablets (aspect
/// ratio at most 1.5) get 160 units, phones 120.
pub open spec fn default_long_axis_spec(frame_size: [u32; 2]) -> u32 {
    let short_axis = max_u32(min_u32(frame_size[0], frame_size[1]), 1);
    let long_axis = max_u32(max_u32(frame_size[0], frame_size[1]), 1);
    if (long_axis as int * 1000) / (short_axis as int) <= TABLET_ASPECT_RATIO_X1000 {
        DEFAULT_TABLET_POINTER_LONG_AXIS_UNITS
    } else {
        DEFAULT_PHONE_POINTER_LONG_AXIS_UNITS
    }
}

/// The default pointer range of the long axis for a frame: tablets get 160
/// units, phones 120.
pub fn default_pointer_long_axis_units_for_frame(frame_size: [u32; 2]) -> (r: u32)
    ensures
        r == default_long_axis_spec(frame_size),
{
    let a = frame_size[0];
    let b = frame_size[1];
    let short_axis = if a <= b { a } else { b };
    let short_axis = if short_axis >= 1 { short_axis } else { 1 };
    let long_axis = if a >= b { a } else { b };
    let long_axis = if long_axis >= 1 { long_axis } else { 1 };
    let aspect_x1000: u64 = long_axis as u64 * 1000 / short_axis as u64;
    if aspect_x1000 <= TABLET_ASPECT_RATIO_X1000 as u64 {
        DEFAULT_TABLET_POINTER_LONG_AXIS_UNITS
    } else {
        DEFAULT_PHONE_POINTER_LONG_AXIS_UNITS
    }
}

/// One axis of the pointer range: the frame axis scaled so that the long
/// axis spans `pointer_long_axis` units, rounded to nearest and limited to
/// `1..=32767`.
pub open spec fn scaled_axis_spec(frame_axis: u32, frame_long_axis: u32, pointer_long_axis: u32) -> u32 {
    let v = (frame_axis as int * pointer_long_axis as int + frame_long_axis as int / 2)
        / frame_long_axis as int;
    if v < 1 {
        1
    } else if v > 32767 {
        32767
    } else {
        v as u32
    }
}

/// One axis of the pointer range.
pub fn scaled_pointer_axis(frame_axis: u32, frame_long_axis: u32, pointer_long_axis: u32) -> (r: u32)
    requires
        frame_long_axis > 0,
    ensures
        r == scaled_axis_spec(frame_axis, frame_long_axis, pointer_long_axis),
{
    assert(frame_axis as u64 * pointer_long_axis as u64 <= 0xffff_ffffu64 * 0xffff_ffffu64) by (nonlinear_arith)
        requires
            frame_axis <= 0xffff_ffffu32,
            pointer_long_axis <= 0xffff_ffffu32,
    ;
    let v: u64 = (frame_axis as u64 * pointer_long_axis as u64 + (frame_long_axis / 2) as u64)
        / frame_long_axis as u64;
    if v < 1 {
        1
    } else if v > 32767 {
        32767
    } else {
        v as u32
    }
}

/// The pointer range of both axes for a frame when the long axis spans
/// `long_axis` units.
pub open spec fn pointer_size_with_long_axis_spec(frame_size: [u32; 2], long_axis: u32) -> [u32; 2] {
    let frame_long_axis = max_u32(max_u32(frame_size[0], frame_size[1]), 1);
    [
        scaled_axis_spec(frame_size[0], frame_long_axis, long_axis),
        scaled_axis_spec(frame_size[1], frame_long_axis, long_axis),
    ]
}

/// The pointer range of both axes for a frame when the long axis spans
/// `long_axis` units.
pub fn pointer_size_for_frame_with_long_axis(frame_size: [u32; 2], long_axis: u32) -> (r: [u32; 2])
    ensures
        r == pointer_size_with_long_axis_spec(frame_size, long_axis),
{
    let a = frame_size[0];
    let b = frame_size[1];
    let frame_long_axis = if a >= b { a } else { b };
    let frame_long_axis = if frame_long_axis >= 1 { frame_long_axis } else { 1 };
    [
        scaled_pointer_axis(a, frame_long_axis, long_axis),
        scaled_pointer_axis(b, frame_long_axis, long_axis),
    ]
}

/// An optional unit count limited to the supported range.
pub open spec fn clamp_units(units: Option<u32>) -> Option<u32> {
    match units {
        Some(v) => Some(clamp_spec(v, MIN_POINTER_LONG_AXIS_UNITS, MAX_POINTER_LONG_AXIS_UNITS)),
        None => None,
    }
}

/// The long axis range in use: the operator's setting, else the environment's
/// override, each limited to 60..=1600, else the default for the frame.
pub open spec fn long_axis_units_spec(frame_size: [u32; 2], override_units: Option<u32>, env_units: Option<u32>) -> u32 {
    match clamp_units(override_units) {
        Some(v) => v,
        None => match clamp_units(env_units) {
            Some(v) => v,
            None => default_long_axis_spec(frame_size),
        },
    }
}

/// An optional unit count limited to the supported range.
pub fn clamp_pointer_units(units: Option<u32>) -> (r: Option<u32>)
    ensures
        r == clamp_units(units),
{
    match units {
        Some(v) => Some(
            crate::preferences::clamp_u32(v, MIN_POINTER_LONG_AXIS_UNITS, MAX_POINTER_LONG_AXIS_UNITS),
        ),
        None => None,
    }
}

/// The long axis range in use for a frame. `env_units` is the value of the
/// `IOS_CONTROL_BLE_POINTER_LONG_AXIS_UNITS` override, if set and a number.
pub fn pointer_long_axis_units_for_frame(
    frame_size: [u32; 2],
    override_units: Option<u32>,
    env_units: Option<u32>,
) -> (r: u32)
    ensures
        r == long_axis_units_spec(frame_size, override_units, env_units),
{
    match clamp_pointer_units(override_units) {
        Some(v) => v,
        None => match clamp_pointer_units(env_units) {
            Some(v) => v,
            None => default_pointer_long_axis_units_for_frame(frame_size),
        },
    }
}

/// The pointer range of both axes for a frame.
pub fn pointer_size_for_frame(
    frame_size: [u32; 2],
    override_units: Option<u32>,
    env_units: Option<u32>,
) -> (r: [u32; 2])
    ensures
        r == pointer_size_with_long_axis_spec(
            frame_size,
            long_axis_units_spec(frame_size, override_units, env_units),
        ),
{
    let long_axis = pointer_long_axis_units_for_frame(frame_size, override_units, env_units);
    pointer_size_for_frame_with_long_axis(frame_size, long_axis)
}

/// The move that pushes the device pointer against the top-left corner: twice
/// the axis range, at most 32767.
pub open spec fn overshoot_spec(frame_axis: u32) -> i16 {
    if frame_axis as int * 2 > 32767 {
        32767i16
    } else {
        (frame_axis * 2) as i16
    }
}

/// The move that pushes the device pointer against the edge of one axis.
pub fn overshoot_delta(frame_axis: u32) -> (r: i16)
    ensures
        r == overshoot_spec(frame_axis),
{
    let doubled: u64 = frame_axis as u64 * 2;
    let limited: u64 = if doubled < 32767 { doubled } else { 32767 };
    limited as i16
}

/// A pointer move limited to what one report can carry.
pub open spec fn clamp_axis_spec(value: int) -> i16 {
    if value < -32768 {
        -32768i16
    } else if value > 32767 {
        32767i16
    } else {
        value as i16
    }
}

/// A pointer move limited to what one report can carry.
pub fn clamp_mouse_axis(value: i64) -> (r: i16)
    ensures
        r == clamp_axis_spec(value as int),
{
    if value < -32768 {
        -32768
    } else if value > 32767 {
        32767
    } else {
        value as i16
    }
}

/// Where the bridge believes the device pointer is, in pointer units of a
/// frame of the given size.
#[derive(Debug, Clone, Copy)]
pub struct DevicePointerState {
    pub frame_size: [u32; 2],
    pub position: [i32; 2],
}

/// A pointer position in the preview, as the host measured it: whether it lies
/// inside the preview, where it is in pointer units, and the move in pointer
/// units from the last remembered position (none when there is none).
#[derive(Debug, Clone, Copy)]
pub struct PointerSample {
    pub inside: bool,
    pub target: [i32; 2],
    pub delta: Option<[i16; 2]>,
}

/// What the host should do with the position of the event just handled.
#[derive(Debug, Clone, Copy, PartialEq, Eq, Structural)]
pub enum PointerMemory {
    Keep,
    Remember,
    Forget,
}

/// The state of pointer and keyboard forwarding from the preview.
#[derive(Debug)]
pub struct PreviewInputBridge {
    armed: bool,
    device_pointer: Option<DevicePointerState>,
    buttons: u8,
    pointer_long_axis_units: Option<u32>,
    env_pointer_long_axis_units: Option<u32>,
}

/// The content of a [`PreviewInputBridge`].
pub struct BridgeView {
    pub armed: bool,
    pub device_pointer: Option<DevicePointerState>,
    pub buttons: u8,
    pub pointer_long_axis_units: Option<u32>,
    pub env_pointer_long_axis_units: Option<u32>,
}

impl View for PreviewInputBridge {
    type V = BridgeView;

    closed spec fn view(&self) -> BridgeView {
        BridgeView {
            armed: self.armed,
            device_pointer: self.device_pointer,
            buttons: self.buttons,
            pointer_long_axis_units: self.pointer_long_axis_units,
            env_pointer_long_axis_units: self.env_pointer_long_axis_units,
        }
    }
}

/// An input event with its text as characters.
pub enum EventView {
    Mouse(MouseInputReport),
    MouseSequence(Seq<MouseInputReport>),
    Keyboard(KeyboardInputReport),
    Text(Seq<char>),
}

impl View for ControlInputEvent {
    type V = EventView;

    open spec fn view(&self) -> EventView {
        match self {
            ControlInputEvent::Mouse(r) => EventView::Mouse(*r),
            ControlInputEvent::MouseSequence(rs) => EventView::MouseSequence(rs@),
            ControlInputEvent::Keyboard(k) => EventView::Keyboard(*k),
            ControlInputEvent::Text(t) => EventView::Text(t@),
        }
    }
}

/// The views of a sequence of events.
pub open spec fn event_views(events: Seq<ControlInputEvent>) -> Seq<EventView> {
    events.map_values(|e: ControlInputEvent| e@)
}

/// A report with the given buttons and move and no wheel.
pub open spec fn report(buttons: u8, dx: i16, dy: i16) -> MouseInputReport {
    MouseInputReport { buttons, dx, dy, wheel: 0 }
}

/// The all-released report.
pub open spec fn released_report() -> MouseInputReport {
    MouseInputReport { buttons: 0, dx: 0, dy: 0, wheel: 0 }
}

/// `count` reports that hold the buttons without moving.
pub open spec fn settle_spec(buttons: u8, count: nat) -> Seq<MouseInputReport> {
    Seq::new(count, |i: int| report(buttons, 0, 0))
}

/// The events that carry a list of reports: none, one report, or a sequence.
pub open spec fn mouse_events_spec(reports: Seq<MouseInputReport>) -> Seq<EventView> {
    if reports.len() == 0 {
        seq![]
    } else if reports.len() == 1 {
        seq![EventView::Mouse(reports[0])]
    } else {
        seq![EventView::MouseSequence(reports)]
    }
}

/// A frame size with no zero axis.
pub open spec fn norm_frame(frame_size: [u32; 2]) -> [u32; 2] {
    [max_u32(frame_size[0], 1), max_u32(frame_size[1], 1)]
}

/// The pointer range that the bridge uses for a frame.
pub open spec fn bridge_pointer_size(s: BridgeView, frame_size: [u32; 2]) -> [u32; 2] {
    let f = norm_frame(frame_size);
    pointer_size_with_long_axis_spec(
        f,
        long_axis_units_spec(f, s.pointer_long_axis_units, s.env_pointer_long_axis_units),
    )
}

/// The tracked pointer belongs to a frame of this size.
pub open spec fn tracks(s: BridgeView, frame: [u32; 2]) -> bool {
    s.device_pointer is Some && s.device_pointer->0.frame_size[0] == frame[0]
        && s.device_pointer->0.frame_size[1] == frame[1]
}

/// Releasing control: one all-released report if anything was armed or held,
/// then nothing armed, held or tracked.
pub open spec fn release_spec(s: BridgeView) -> (BridgeView, Seq<EventView>) {
    (
        BridgeView { armed: false, buttons: 0, device_pointer: None, ..s },
        if s.armed || s.buttons != 0 {
            seq![EventView::Mouse(released_report())]
        } else {
            seq![]
        },
    )
}

/// Moving the tracked pointer to `target`: the move from its tracked position
/// (limited to one report), or, when it tracks no pointer of this frame, only
/// tracking it at `target`.
pub open spec fn move_to_spec(s: BridgeView, target: [i32; 2], frame: [u32; 2]) -> (
    BridgeView,
    Seq<MouseInputReport>,
) {
    if !tracks(s, frame) {
        (
            BridgeView {
                device_pointer: Some(DevicePointerState { frame_size: frame, position: target }),
                ..s
            },
            seq![],
        )
    } else {
        let p = s.device_pointer->0.position;
        let dx = clamp_axis_spec(target[0] - p[0]);
        let dy = clamp_axis_spec(target[1] - p[1]);
        (
            BridgeView {
                device_pointer: Some(DevicePointerState { frame_size: frame, position: target }),
                ..s
            },
            if dx != 0 || dy != 0 {
                seq![report(s.buttons, dx, dy)]
            } else {
                seq![]
            },
        )
    }
}

/// Moving by the preview's move: to the absolute target when the pointer is
/// tracked for this frame, else by the relative move if there is one.
pub open spec fn by_delta_spec(s: BridgeView, sample: PointerSample, frame: [u32; 2]) -> (
    BridgeView,
    Seq<MouseInputReport>,
) {
    if tracks(s, frame) {
        move_to_spec(s, sample.target, frame)
    } else {
        match sample.delta {
            Some(d) => (s, if d[0] != 0 || d[1] != 0 {
                seq![report(s.buttons, d[0], d[1])]
            } else {
                seq![]
            }),
            None => (s, seq![]),
        }
    }
}

/// Placing the pointer at a fresh click: when the pointer is not tracked for
/// this frame, first push it into the top-left corner and let it settle; then
/// move it to the target and let it settle.
pub open spec fn to_position_spec(s: BridgeView, target: [i32; 2], frame: [u32; 2], size: [u32; 2]) -> (
    BridgeView,
    Seq<MouseInputReport>,
) {
    let (s1, pre) = if !tracks(s, frame) {
        (
            BridgeView {
                device_pointer: Some(DevicePointerState { frame_size: frame, position: [0, 0] }),
                ..s
            },
            seq![report(s.buttons, (-overshoot_spec(size[0])) as i16, (-overshoot_spec(size[1])) as i16)]
                + settle_spec(s.buttons, POINTER_EDGE_SETTLE_REPORTS as nat),
        )
    } else {
        (s, seq![])
    };
    let (s2, moves) = move_to_spec(s1, target, frame);
    (s2, pre + moves + settle_spec(s.buttons, POINTER_TARGET_SETTLE_REPORTS as nat))
}

/// A pointer move over the preview.
pub open spec fn pointer_moved_spec(s: BridgeView, sample: PointerSample, frame_size: [u32; 2]) -> (
    BridgeView,
    Seq<EventView>,
    PointerMemory,
) {
    let frame = norm_frame(frame_size);
    if !s.armed {
        (s, seq![], if sample.inside {
            PointerMemory::Remember
        } else {
            PointerMemory::Keep
        })
    } else if !sample.inside {
        let (s1, events) = release_spec(s);
        (s1, events, PointerMemory::Forget)
    } else {
        let (s1, reports) = by_delta_spec(s, sample, frame);
        (s1, mouse_events_spec(reports), PointerMemory::Remember)
    }
}

/// A button press or release over the preview.
pub open spec fn pointer_button_spec(
    s: BridgeView,
    sample: PointerSample,
    mask: u8,
    pressed: bool,
    frame_size: [u32; 2],
) -> (BridgeView, Seq<EventView>, PointerMemory) {
    let frame = norm_frame(frame_size);
    let size = bridge_pointer_size(s, frame_size);
    let starts_new_gesture = pressed && sample.inside && s.buttons == 0;
    let s0 = if pressed && sample.inside {
        BridgeView { armed: true, ..s }
    } else {
        s
    };
    if !s0.armed {
        (s0, seq![], PointerMemory::Keep)
    } else if !sample.inside {
        let (s1, events) = release_spec(s0);
        (s1, events, PointerMemory::Forget)
    } else {
        let (s1, moves) = if starts_new_gesture {
            to_position_spec(s0, sample.target, frame, size)
        } else if !pressed && s0.buttons != 0 {
            by_delta_spec(s0, sample, frame)
        } else {
            (s0, seq![])
        };
        let buttons = if pressed {
            s1.buttons | mask
        } else {
            s1.buttons & !mask
        };
        (
            BridgeView { buttons, ..s1 },
            mouse_events_spec(moves.push(report(buttons, 0, 0))),
            PointerMemory::Remember,
        )
    }
}

/// Appends the events that carry the reports.
fn push_mouse_reports(events: &mut Vec<ControlInputEvent>, reports: Vec<MouseInputReport>)
    ensures
        event_views(final(events)@) == event_views(old(events)@) + mouse_events_spec(reports@),
{
    let ghost before = event_views(events@);
    if reports.len() == 0 {
        assert(before + mouse_events_spec(reports@) =~= before);
    } else if reports.len() == 1 {
        events.push(ControlInputEvent::Mouse(reports[0]));
        assert(event_views(events@) =~= before + mouse_events_spec(reports@));
    } else {
        let ghost rs = reports@;
        events.push(ControlInputEvent::MouseSequence(reports));
        assert(event_views(events@) =~= before + mouse_events_spec(rs));
    }
}

/// Appends `count` reports that hold the buttons without moving.
fn push_settle_reports(reports: &mut Vec<MouseInputReport>, buttons: u8, count: usize)
    ensures
        final(reports)@ == old(reports)@ + settle_spec(buttons, count as nat),
{
    let ghost before = reports@;
    let mut i: usize = 0;
    while i < count
        invariant
            i <= count,
            reports@ == before + settle_spec(buttons, i as nat),
        decreases count - i,
    {
        reports.push(MouseInputReport { buttons, dx: 0, dy: 0, wheel: 0 });
        assert(reports@ =~= before + settle_spec(buttons, (i + 1) as nat));
        i = i + 1;
    }
}

/// The frame size with no zero axis.
fn normalized_frame(frame_size: [u32; 2]) -> (r: [u32; 2])
    ensures
        r == norm_frame(frame_size),
{
    let a = if frame_size[0] >= 1 { frame_size[0] } else { 1 };
    let b = if frame_size[1] >= 1 { frame_size[1] } else { 1 };
    [a, b]
}

impl PreviewInputBridge {
    /// A bridge with nothing armed; `env_pointer_long_axis_units` is the value
    /// of the environment's pointer range override, if any.
    pub fn new(env_pointer_long_axis_units: Option<u32>) -> (r: Self)
        ensures
            r@ == (BridgeView {
                armed: false,
                device_pointer: None,
                buttons: 0,
                pointer_long_axis_units: None,
                env_pointer_long_axis_units,
            }),
    {
        PreviewInputBridge {
            armed: false,
            device_pointer: None,
            buttons: 0,
            pointer_long_axis_units: None,
            env_pointer_long_axis_units,
        }
    }

    /// Whether pointer and keyboard forwarding is armed.
    pub fn is_armed(&self) -> (r: bool)
        ensures
            r == self@.armed,
    {
        self.armed
    }

    /// Disarms, releases all buttons and forgets the tracked pointer, without
    /// sending anything.
    pub fn reset(&mut self)
        ensures
            final(self)@ == (BridgeView {
                armed: false,
                buttons: 0,
                device_pointer: None,
                ..old(self)@
            }),
    {
        self.armed = false;
        self.device_pointer = None;
        self.buttons = 0;
    }

    /// The operator's pointer range setting, if any.
    pub fn pointer_long_axis_units(&self) -> (r: Option<u32>)
        ensures
            r == self@.pointer_long_axis_units,
    {
        self.pointer_long_axis_units
    }

    /// Sets the operator's pointer range (limited to 60..=1600) and forgets the
    /// tracked pointer, whose position was in the old range.
    pub fn set_pointer_long_axis_units(&mut self, units: Option<u32>)
        ensures
            final(self)@ == (BridgeView {
                pointer_long_axis_units: clamp_units(units),
                device_pointer: None,
                ..old(self)@
            }),
    {
        self.pointer_long_axis_units = clamp_pointer_units(units);
        self.device_pointer = None;
    }

    /// The pointer range that a frame of the given size maps to.
    pub fn pointer_size(&self, frame_size: [u32; 2]) -> (r: [u32; 2])
        ensures
            r == bridge_pointer_size(self@, frame_size),
    {
        let frame = normalized_frame(frame_size);
        pointer_size_for_frame(frame, self.pointer_long_axis_units, self.env_pointer_long_axis_units)
    }

    /// Releases control: the events that tell the device so.
    pub fn release_control(&mut self) -> (r: Vec<ControlInputEvent>)
        ensures
            (final(self)@, event_views(r@)) == release_spec(old(self)@),
    {
        let mut events: Vec<ControlInputEvent> = Vec::new();
        self.release(&mut events);
        assert(event_views(events@) =~= release_spec(old(self)@).1);
        events
    }

    fn release(&mut self, events: &mut Vec<ControlInputEvent>)
        ensures
            final(self)@ == release_spec(old(self)@).0,
            event_views(final(events)@) == event_views(old(events)@) + release_spec(old(self)@).1,
    {
        let ghost before = event_views(events@);
        if self.armed || self.buttons != 0 {
            events.push(ControlInputEvent::Mouse(MouseInputReport { buttons: 0, dx: 0, dy: 0, wheel: 0 }));
            assert(event_views(events@) =~= before + release_spec(old(self)@).1);
        } else {
            assert(event_views(events@) =~= before + release_spec(old(self)@).1);
        }
        self.buttons = 0;
        self.armed = false;
        self.device_pointer = None;
    }

    fn tracks_frame(&self, frame: [u32; 2]) -> (r: bool)
        ensures
            r == tracks(self@, frame),
    {
        match self.device_pointer {
            Some(pointer) => pointer.frame_size[0] == frame[0] && pointer.frame_size[1] == frame[1],
            None => false,
        }
    }

    fn queue_device_pointer_to(&mut self, target: [i32; 2], frame: [u32; 2], reports: &mut Vec<MouseInputReport>)
        ensures
            final(self)@ == move_to_spec(old(self)@, target, frame).0,
            final(reports)@ == old(reports)@ + move_to_spec(old(self)@, target, frame).1,
    {
        let ghost before = reports@;
        if !self.tracks_frame(frame) {
            self.device_pointer = Some(DevicePointerState { frame_size: frame, position: target });
            assert(reports@ =~= before + move_to_spec(old(self)@, target, frame).1);
            return;
        }
        let position = match self.device_pointer {
            Some(pointer) => pointer.position,
            None => [0, 0],
        };
        let dx = clamp_mouse_axis(target[0] as i64 - position[0] as i64);
        let dy = clamp_mouse_axis(target[1] as i64 - position[1] as i64);
        if dx != 0 || dy != 0 {
            reports.push(MouseInputReport { buttons: self.buttons, dx, dy, wheel: 0 });
        }
        assert(reports@ =~= before + move_to_spec(old(self)@, target, frame).1);
        self.device_pointer = Some(DevicePointerState { frame_size: frame, position: target });
    }

    fn queue_pointer_by_preview_delta(&mut self, sample: PointerSample, frame: [u32; 2], reports: &mut Vec<MouseInputReport>)
        ensures
            final(self)@ == by_delta_spec(old(self)@, sample, frame).0,
            final(reports)@ == old(reports)@ + by_delta_spec(old(self)@, sample, frame).1,
    {
        let ghost before = reports@;
        if self.tracks_frame(frame) {
            self.queue_device_pointer_to(sample.target, frame, reports);
            return;
        }
        match sample.delta {
            Some(d) => {
                if d[0] != 0 || d[1] != 0 {
                    reports.push(MouseInputReport { buttons: self.buttons, dx: d[0], dy: d[1], wheel: 0 });
                }
            },
            None => {},
        }
        assert(reports@ =~= before + by_delta_spec(old(self)@, sample, frame).1);
    }

    fn queue_pointer_to_preview_position(
        &mut self,
        target: [i32; 2],
        frame: [u32; 2],
        size: [u32; 2],
        reports: &mut Vec<MouseInputReport>,
    )
        ensures
            final(self)@ == to_position_spec(old(self)@, target, frame, size).0,
            final(reports)@ == old(reports)@ + to_position_spec(old(self)@, target, frame, size).1,
    {
        let ghost before = reports@;
        let ghost s = self@;
        if !self.tracks_frame(frame) {
            let ox = overshoot_delta(size[0]);
            let oy = overshoot_delta(size[1]);
            reports.push(MouseInputReport { buttons: self.buttons, dx: -ox, dy: -oy, wheel: 0 });
            push_settle_reports(reports, self.buttons, POINTER_EDGE_SETTLE_REPORTS);
            self.device_pointer = Some(DevicePointerState { frame_size: frame, position: [0, 0] });
        }
        let ghost mid = reports@;
        self.queue_device_pointer_to(target, frame, reports);
        push_settle_reports(reports, self.buttons, POINTER_TARGET_SETTLE_REPORTS);
        assert(reports@ =~= before + to_position_spec(s, target, frame, size).1);
    }

    /// Handles a pointer move over the preview. While disarmed only the
    /// position is remembered; leaving the preview releases control;
    /// otherwise the device pointer follows.
    pub fn handle_pointer_moved(
        &mut self,
        sample: PointerSample,
        frame_size: [u32; 2],
        events: &mut Vec<ControlInputEvent>,
    ) -> (memory: PointerMemory)
        ensures
            final(self)@ == pointer_moved_spec(old(self)@, sample, frame_size).0,
            event_views(final(events)@) == event_views(old(events)@) + pointer_moved_spec(
                old(self)@,
                sample,
                frame_size,
            ).1,
            memory == pointer_moved_spec(old(self)@, sample, frame_size).2,
    {
        let frame = normalized_frame(frame_size);
        if !self.armed {
            assert(event_views(events@) =~= event_views(events@) + seq![]);
            return if sample.inside {
                PointerMemory::Remember
            } else {
                PointerMemory::Keep
            };
        }
        if !sample.inside {
            self.release(events);
            return PointerMemory::Forget;
        }
        let mut reports: Vec<MouseInputReport> = Vec::new();
        self.queue_pointer_by_preview_delta(sample, frame, &mut reports);
        assert(reports@ =~= by_delta_spec(old(self)@, sample, frame).1);
        push_mouse_reports(events, reports);
        PointerMemory::Remember
    }

    /// Handles a button press or release over the preview. A press inside the
    /// preview arms forwarding; a fresh click first places the device pointer
    /// at the click; a release inside moves it to the release point; leaving
    /// the preview releases control.
    pub fn handle_pointer_button(
        &mut self,
        sample: PointerSample,
        button: PointerButton,
        pressed: bool,
        frame_size: [u32; 2],
        events: &mut Vec<ControlInputEvent>,
    ) -> (memory: PointerMemory)
        ensures
            final(self)@ == pointer_button_spec(old(self)@, sample, button_mask_spec(button), pressed, frame_size).0,
            event_views(final(events)@) == event_views(old(events)@) + pointer_button_spec(
                old(self)@,
                sample,
                button_mask_spec(button),
                pressed,
                frame_size,
            ).1,
            memory == pointer_button_spec(old(self)@, sample, button_mask_spec(button), pressed, frame_size).2,
    {
        let ghost s = self@;
        let ghost before = event_views(events@);
        let frame = normalized_frame(frame_size);
        let size = self.pointer_size(frame_size);
        let inside = sample.inside;
        let starts_new_gesture = pressed && inside && self.buttons == 0;
        if pressed && inside {
            self.armed = true;
        }
        if !self.armed {
            assert(event_views(events@) =~= before + seq![]);
            return PointerMemory::Keep;
        }
        if !inside {
            self.release(events);
            return PointerMemory::Forget;
        }
        let mut reports: Vec<MouseInputReport> = Vec::new();
        if starts_new_gesture {
            self.queue_pointer_to_preview_position(sample.target, frame, size, &mut reports);
        } else if !pressed && self.buttons != 0 {
            self.queue_pointer_by_preview_delta(sample, frame, &mut reports);
        }
        let mask = button_mask(button);
        if pressed {
            self.buttons = self.buttons | mask;
        } else {
            self.buttons = self.buttons & !mask;
        }
        reports.push(MouseInputReport { buttons: self.buttons, dx: 0, dy: 0, wheel: 0 });
        push_mouse_reports(events, reports);
        PointerMemory::Remember
    }

    /// Handles the pointer leaving the window: releases control.
    pub fn handle_pointer_gone(&mut self, events: &mut Vec<ControlInputEvent>) -> (memory: PointerMemory)
        ensures
            final(self)@ == release_spec(old(self)@).0,
            event_views(final(events)@) == event_views(old(events)@) + release_spec(old(self)@).1,
            memory == PointerMemory::Forget,
    {
        self.release(events);
        PointerMemory::Forget
    }

    /// Handles a wheel step (`wheel` is -1, 0 or 1): forwarded while armed and
    /// over the preview.
    pub fn handle_wheel(&self, wheel: i8, pointer_inside: bool, events: &mut Vec<ControlInputEvent>)
        ensures
            event_views(final(events)@) == event_views(old(events)@) + if self@.armed && pointer_inside
                && wheel != 0 {
                seq![EventView::Mouse(MouseInputReport { buttons: self@.buttons, dx: 0, dy: 0, wheel })]
            } else {
                seq![]
            },
    {
        let ghost before = event_views(events@);
        if self.armed && pointer_inside && wheel != 0 {
            events.push(ControlInputEvent::Mouse(MouseInputReport { buttons: self.buttons, dx: 0, dy: 0, wheel }));
        }
        assert(event_views(events@) =~= before + if self@.armed && pointer_inside && wheel != 0 {
            seq![EventView::Mouse(MouseInputReport { buttons: self@.buttons, dx: 0, dy: 0, wheel })]
        } else {
            seq![]
        });
    }

    /// Handles a key press or release: forwarded while armed, except the
    /// paste shortcut, which the host keeps.
    pub fn handle_key(&self, key: Key, pressed: bool, modifiers: Modifiers, events: &mut Vec<ControlInputEvent>)
        ensures
            event_views(final(events)@) == event_views(old(events)@) + if self@.armed
                && !(key == Key::V && (modifiers.command || modifiers.ctrl || modifiers.mac_cmd))
                && keyboard_report_spec(key, pressed, modifiers) is Some {
                seq![EventView::Keyboard(keyboard_report_spec(key, pressed, modifiers)->0)]
            } else {
                seq![]
            },
    {
        let ghost before = event_views(events@);
        if self.armed && !is_host_paste_shortcut(key, modifiers) {
            if let Some(report) = keyboard_report(key, pressed, modifiers) {
                events.push(ControlInputEvent::Keyboard(report));
            }
        }
        assert(event_views(events@) =~= before + if self@.armed
            && !(key == Key::V && (modifiers.command || modifiers.ctrl || modifiers.mac_cmd))
            && keyboard_report_spec(key, pressed, modifiers) is Some {
            seq![EventView::Keyboard(keyboard_report_spec(key, pressed, modifiers)->0)]
        } else {
            seq![]
        });
    }

    /// Pasted text goes to the device in one text event.
    pub fn handle_paste_text(&self, text: &str, events: &mut Vec<ControlInputEvent>)
        ensures
            event_views(final(events)@) == event_views(old(events)@).push(EventView::Text(text@)),
    {
        let ghost before = event_views(events@);
        events.push(ControlInputEvent::Text(crate::text::owned(text)));
        assert(event_views(events@) =~= before.push(EventView::Text(text@)));
    }

    /// Typed text is left to the key events, except a space, which input
    /// methods use to pick a candidate and which is sent as text.
    pub fn handle_text_event(&self, text: &str, events: &mut Vec<ControlInputEvent>)
        ensures
            event_views(final(events)@) == event_views(old(events)@) + if text@ == " "@ {
                seq![EventView::Text(text@)]
            } else {
                seq![]
            },
    {
        let ghost before = event_views(events@);
        if crate::text::same_text(text, " ") {
            events.push(ControlInputEvent::Text(crate::text::owned(text)));
        }
        assert(event_views(events@) =~= before + if text@ == " "@ {
            seq![EventView::Text(text@)]
        } else {
            seq![]
        });
    }

    /// Handles pasted text: forwarded while armed, when not empty.
    pub fn handle_paste(&self, text: &str, events: &mut Vec<ControlInputEvent>)
        ensures
            event_views(final(events)@) == event_views(old(events)@) + if self@.armed && text@.len() > 0 {
                seq![EventView::Text(text@)]
            } else {
                seq![]
            },
    {
        let ghost before = event_views(events@);
        if self.armed && text.unicode_len() > 0 {
            self.handle_paste_text(text, events);
        }
        assert(event_views(events@) =~= before + if self@.armed && text@.len() > 0 {
            seq![EventView::Text(text@)]
        } else {
            seq![]
        });
    }

    /// Handles typed text: forwarded while armed, when not empty.
    pub fn handle_text(&self, text: &str, events: &mut Vec<ControlInputEvent>)
        ensures
            event_views(final(events)@) == event_views(old(events)@) + if self@.armed && text@.len() > 0
                && text@ == " "@ {
                seq![EventView::Text(text@)]
            } else {
                seq![]
            },
    {
        let ghost before = event_views(events@);
        if self.armed && text.unicode_len() > 0 {
            self.handle_text_event(text, events);
        }
        assert(event_views(events@) =~= before + if self@.armed && text@.len() > 0 && text@ == " "@ {
            seq![EventView::Text(text@)]
        } else {
            seq![]
        });
    }

    /// Releases control when the pointer is no longer over the preview or the
    /// window lost focus while armed; gives whether it did.
    pub fn release_if_away(&mut self, pointer_inside: bool, viewport_focused: bool, events: &mut Vec<ControlInputEvent>) -> (released: bool)
        ensures
            released == (old(self)@.armed && (!pointer_inside || !viewport_focused)),
            released ==> final(self)@ == release_spec(old(self)@).0 && event_views(final(events)@)
                == event_views(old(events)@) + release_spec(old(self)@).1,
            !released ==> final(self)@ == old(self)@ && final(events)@ == old(events)@,
    {
        if self.armed && (!pointer_inside || !viewport_focused) {
            self.release(events);
            return true;
        }
        false
    }
}

/// The HID button bit of a pointer button.
pub open spec fn button_mask_spec(button: PointerButton) -> u8 {
    match button {
        PointerButton::Primary => 0x01u8,
        PointerButton::Secondary => 0x02u8,
        PointerButton::Middle => 0x04u8,
        _ => 0u8,
    }
}

impl Default for PreviewInputBridge {
    fn default() -> (r: Self)
        ensures
            r@ == (BridgeView {
                armed: false,
                device_pointer: None,
                buttons: 0,
                pointer_long_axis_units: None,
                env_pointer_long_axis_units: None,
            }),
    {
        PreviewInputBridge::new(None)
    }
}

/// Releasing control lets go of every button and disarms the bridge, with
/// one button-up report only when something was held or armed; a second
/// release sends nothing and changes nothing.
pub proof fn law_release_is_idempotent(s: BridgeView)
    ensures
        !release_spec(s).0.armed && release_spec(s).0.buttons == 0,
        release_spec(release_spec(s).0).1 == Seq::<EventView>::empty(),
        release_spec(release_spec(s).0).0 == release_spec(s).0,
{
}

/// The usage a key is sent with (0 for a key that is not sent).
pub open spec fn usage_of(key: Key) -> u8 {
    match key_usage_spec(key) {
        Some((u, _)) => u,
        None => 0,
    }
}

/// A letter key's place in the alphabet (`A` is 0), or -1.
pub open spec fn letter_position(key: Key) -> int {
    match key {
        Key::A => 0,
        Key::B => 1,
        Key::C => 2,
        Key::D => 3,
        Key::E => 4,
        Key::F => 5,
        Key::G => 6,
        Key::H => 7,
        Key::I => 8,
        Key::J => 9,
        Key::K => 10,
        Key::L => 11,
        Key::M => 12,
        Key::N => 13,
        Key::O => 14,
        Key::P => 15,
        Key::Q => 16,
        Key::R => 17,
        Key::S => 18,
        Key::T => 19,
        Key::U => 20,
        Key::V => 21,
        Key::W => 22,
        Key::X => 23,
        Key::Y => 24,
        Key::Z => 25,
        _ => -1,
    }
}

/// A number key's digit, or -1.
pub open spec fn digit_of(key: Key) -> int {
    match key {
        Key::Num0 => 0,
        Key::Num1 => 1,
        Key::Num2 => 2,
        Key::Num3 => 3,
        Key::Num4 => 4,
        Key::Num5 => 5,
        Key::Num6 => 6,
        Key::Num7 => 7,
        Key::Num8 => 8,
        Key::Num9 => 9,
        _ => -1,
    }
}

/// Keys are sent with the usages of the HID Keyboard/Keypad page: letters
/// from 0x04 (`a`) in alphabet order, digits `1`..`9` from 0x1e and `0` at
/// 0x27, then Return 0x28, Escape 0x29, Backspace 0x2a, Tab 0x2b, Space 0x2c,
/// the punctuation keys of a US layout, Delete Forward 0x4c and the arrows
/// 0x4f..0x52. A character typed with Shift is sent as its US-layout base key
/// with Shift. Every key but `Other` is sent.
pub proof fn law_keys_follow_hid_usage_tables(key: Key)
    ensures
        letter_position(key) >= 0 ==> key_usage_spec(key) == Some(((0x04 + letter_position(key)) as u8, false)),
        digit_of(key) >= 1 ==> key_usage_spec(key) == Some(((0x1d + digit_of(key)) as u8, false)),
        digit_of(key) == 0 ==> key_usage_spec(key) == Some((0x27u8, false)),
        key == Key::Enter ==> key_usage_spec(key) == Some((0x28u8, false)),
        key == Key::Escape ==> key_usage_spec(key) == Some((0x29u8, false)),
        key == Key::Backspace ==> key_usage_spec(key) == Some((0x2au8, false)),
        key == Key::Tab ==> key_usage_spec(key) == Some((0x2bu8, false)),
        key == Key::Space ==> key_usage_spec(key) == Some((0x2cu8, false)),
        key == Key::Minus ==> key_usage_spec(key) == Some((0x2du8, false)),
        key == Key::Equals ==> key_usage_spec(key) == Some((0x2eu8, false)),
        key == Key::OpenBracket ==> key_usage_spec(key) == Some((0x2fu8, false)),
        key == Key::CloseBracket ==> key_usage_spec(key) == Some((0x30u8, false)),
        key == Key::Backslash ==> key_usage_spec(key) == Some((0x31u8, false)),
        key == Key::Semicolon ==> key_usage_spec(key) == Some((0x33u8, false)),
        key == Key::Quote ==> key_usage_spec(key) == Some((0x34u8, false)),
        key == Key::Backtick ==> key_usage_spec(key) == Some((0x35u8, false)),
        key == Key::Comma ==> key_usage_spec(key) == Some((0x36u8, false)),
        key == Key::Period ==> key_usage_spec(key) == Some((0x37u8, false)),
        key == Key::Slash ==> key_usage_spec(key) == Some((0x38u8, false)),
        key == Key::Delete ==> key_usage_spec(key) == Some((0x4cu8, false)),
        key == Key::ArrowRight ==> key_usage_spec(key) == Some((0x4fu8, false)),
        key == Key::ArrowLeft ==> key_usage_spec(key) == Some((0x50u8, false)),
        key == Key::ArrowDown ==> key_usage_spec(key) == Some((0x51u8, false)),
        key == Key::ArrowUp ==> key_usage_spec(key) == Some((0x52u8, false)),
        key == Key::Exclamationmark ==> key_usage_spec(key) == Some((usage_of(Key::Num1), true)),
        key == Key::Questionmark ==> key_usage_spec(key) == Some((usage_of(Key::Slash), true)),
        key == Key::Colon ==> key_usage_spec(key) == Some((usage_of(Key::Semicolon), true)),
        key == Key::Plus ==> key_usage_spec(key) == Some((usage_of(Key::Equals), true)),
        key == Key::Pipe ==> key_usage_spec(key) == Some((usage_of(Key::Backslash), true)),
        key == Key::OpenCurlyBracket ==> key_usage_spec(key) == Some((usage_of(Key::OpenBracket), true)),
        key == Key::CloseCurlyBracket ==> key_usage_spec(key) == Some((usage_of(Key::CloseBracket), true)),
        key_usage_spec(key) is None <==> key == Key::Other,
{
}

/// The key whose unshifted usage is `usage`.
spec fn key_of_usage(usage: u8) -> Key {
    match usage {
        0x04u8 => Key::A,
        0x05u8 => Key::B,
        0x06u8 => Key::C,
        0x07u8 => Key::D,
        0x08u8 => Key::E,
        0x09u8 => Key::F,
        0x0au8 => Key::G,
        0x0bu8 => Key::H,
        0x0cu8 => Key::I,
        0x0du8 => Key::J,
        0x0eu8 => Key::K,
        0x0fu8 => Key::L,
        0x10u8 => Key::M,
        0x11u8 => Key::N,
        0x12u8 => Key::O,
        0x13u8 => Key::P,
        0x14u8 => Key::Q,
        0x15u8 => Key::R,
        0x16u8 => Key::S,
        0x17u8 => Key::T,
        0x18u8 => Key::U,
        0x19u8 => Key::V,
        0x1au8 => Key::W,
        0x1bu8 => Key::X,
        0x1cu8 => Key::Y,
        0x1du8 => Key::Z,
        0x1eu8 => Key::Num1,
        0x1fu8 => Key::Num2,
        0x20u8 => Key::Num3,
        0x21u8 => Key::Num4,
        0x22u8 => Key::Num5,
        0x23u8 => Key::Num6,
        0x24u8 => Key::Num7,
        0x25u8 => Key::Num8,
        0x26u8 => Key::Num9,
        0x27u8 => Key::Num0,
        0x28u8 => Key::Enter,
        0x29u8 => Key::Escape,
        0x2au8 => Key::Backspace,
        0x2bu8 => Key::Tab,
        0x2cu8 => Key::Space,
        0x2du8 => Key::Minus,
        0x2eu8 => Key::Equals,
        0x2fu8 => Key::OpenBracket,
        0x30u8 => Key::CloseBracket,
        0x31u8 => Key::Backslash,
        0x33u8 => Key::Semicolon,
        0x34u8 => Key::Quote,
        0x35u8 => Key::Backtick,
        0x36u8 => Key::Comma,
        0x37u8 => Key::Period,
        0x38u8 => Key::Slash,
        0x4cu8 => Key::Delete,
        0x4fu8 => Key::ArrowRight,
        0x50u8 => Key::ArrowLeft,
        0x51u8 => Key::ArrowDown,
        0x52u8 => Key::ArrowUp,
        _ => Key::Other,
    }
}

proof fn lemma_usage_names_its_key(key: Key)
    ensures
        key_usage_spec(key) matches Some((u, false)) ==> key_of_usage(u) == key,
{
}

/// Distinct keys typed without Shift send distinct usages: no key stands in
/// for another.
pub proof fn law_distinct_keys_send_distinct_usages(a: Key, b: Key)
    requires
        key_usage_spec(a) matches Some((u, false)),
        key_usage_spec(b) matches Some((v, false)),
        usage_of(a) == usage_of(b),
    ensures
        a == b,
{
    lemma_usage_names_its_key(a);
    lemma_usage_names_its_key(b);
}

} // verus!
