use host_desktop::preview::{
    default_pointer_long_axis_units_for_frame, is_host_paste_shortcut, keyboard_report,
    pointer_size_for_frame, pointer_size_for_frame_with_long_axis, Key, Modifiers, PointerButton,
    PointerMemory, PointerSample, PreviewInputBridge, DEFAULT_PHONE_POINTER_LONG_AXIS_UNITS,
    DEFAULT_TABLET_POINTER_LONG_AXIS_UNITS, MIN_POINTER_LONG_AXIS_UNITS,
};
use host_desktop::protocol::{ControlInputEvent, MouseInputReport};

const NO_MODIFIERS: Modifiers = Modifiers {
    alt: false,
    ctrl: false,
    shift: false,
    mac_cmd: false,
    command: false,
};

/// The preview rectangle of the pointer tests: 100 x 200 points at (10, 10).
const RECT_MIN: (f32, f32) = (10.0, 10.0);
const RECT_SIZE: (f32, f32) = (100.0, 200.0);
const FRAME: [u32; 2] = [1000, 2000];

/// Measures pointer positions as the host does and keeps the last position
/// that the bridge asked it to remember.
struct Host {
    bridge: PreviewInputBridge,
    last: Option<(f32, f32)>,
}

fn absolute_axis(value: f32, frame_axis: u32, preview_axis: f32) -> i32 {
    let value = value.clamp(0.0, preview_axis);
    (value * frame_axis as f32 / preview_axis)
        .round()
        .clamp(0.0, i32::MAX as f32) as i32
}

fn delta_axis(delta: f32, frame_axis: u32, preview_axis: f32) -> i16 {
    (delta * frame_axis as f32 / preview_axis)
        .round()
        .clamp(i16::MIN as f32, i16::MAX as f32) as i16
}

impl Host {
    fn new() -> Self {
        Host {
            bridge: PreviewInputBridge::new(None),
            last: None,
        }
    }

    fn sample(&self, pos: (f32, f32)) -> PointerSample {
        let size = self.bridge.pointer_size(FRAME);
        let inside = RECT_MIN.0 <= pos.0
            && pos.0 <= RECT_MIN.0 + RECT_SIZE.0
            && RECT_MIN.1 <= pos.1
            && pos.1 <= RECT_MIN.1 + RECT_SIZE.1;
        PointerSample {
            inside,
            target: [
                absolute_axis(pos.0 - RECT_MIN.0, size[0], RECT_SIZE.0),
                absolute_axis(pos.1 - RECT_MIN.1, size[1], RECT_SIZE.1),
            ],
            delta: self.last.map(|last| {
                [
                    delta_axis(pos.0 - last.0, size[0], RECT_SIZE.0),
                    delta_axis(pos.1 - last.1, size[1], RECT_SIZE.1),
                ]
            }),
        }
    }

    fn remember(&mut self, memory: PointerMemory, pos: (f32, f32)) {
        match memory {
            PointerMemory::Keep => {}
            PointerMemory::Remember => self.last = Some(pos),
            PointerMemory::Forget => self.last = None,
        }
    }

    fn moved(&mut self, pos: (f32, f32), events: &mut Vec<ControlInputEvent>) {
        let sample = self.sample(pos);
        let memory = self.bridge.handle_pointer_moved(sample, FRAME, events);
        self.remember(memory, pos);
    }

    fn button(&mut self, pos: (f32, f32), pressed: bool, events: &mut Vec<ControlInputEvent>) {
        let sample = self.sample(pos);
        let memory =
            self.bridge
                .handle_pointer_button(sample, PointerButton::Primary, pressed, FRAME, events);
        self.remember(memory, pos);
    }
}

fn mouse(buttons: u8, dx: i16, dy: i16) -> MouseInputReport {
    MouseInputReport {
        buttons,
        dx,
        dy,
        wheel: 0,
    }
}

#[test]
fn key_mapper_maps_windows_command_to_ios_meta() {
    let report = keyboard_report(
        Key::L,
        true,
        Modifiers {
            ctrl: true,
            command: true,
            ..NO_MODIFIERS
        },
    )
    .expect("key should map");

    assert_eq!(report.usage_id, 0x0f);
    assert!(report.modifiers.meta);
    assert!(!report.modifiers.ctrl);
}

#[test]
fn key_mapper_maps_windows_ctrl_only_to_ios_meta() {
    let report = keyboard_report(
        Key::L,
        true,
        Modifiers {
            ctrl: true,
            ..NO_MODIFIERS
        },
    )
    .expect("key should map");

    assert_eq!(report.usage_id, 0x0f);
    assert!(report.modifiers.meta);
    assert!(!report.modifiers.ctrl);
}

#[test]
fn shifted_punctuation_forces_shift_modifier() {
    let report = keyboard_report(Key::Questionmark, true, NO_MODIFIERS).expect("key should map");

    assert_eq!(report.usage_id, 0x38);
    assert!(report.modifiers.shift);
}

#[test]
fn unmapped_key_gives_no_report() {
    assert_eq!(keyboard_report(Key::Other, true, NO_MODIFIERS), None);
}

#[test]
fn paste_text_emits_single_batched_text_event() {
    let bridge = PreviewInputBridge::new(None);
    let mut events = Vec::new();

    bridge.handle_paste_text("Az9!", &mut events);

    assert_eq!(events, vec![ControlInputEvent::Text("Az9!".into())]);
}

#[test]
fn text_event_space_forwards_for_ime_candidate_selection() {
    let bridge = PreviewInputBridge::new(None);
    let mut events = Vec::new();

    bridge.handle_text_event(" ", &mut events);
    bridge.handle_text_event("a", &mut events);

    assert_eq!(events, vec![ControlInputEvent::Text(" ".into())]);
}

#[test]
fn windows_paste_shortcut_is_intercepted_by_host() {
    assert!(is_host_paste_shortcut(
        Key::V,
        Modifiers {
            ctrl: true,
            command: true,
            ..NO_MODIFIERS
        }
    ));
    assert!(!is_host_paste_shortcut(
        Key::C,
        Modifiers {
            command: true,
            ..NO_MODIFIERS
        }
    ));
}

#[test]
fn pointer_size_uses_ios_logical_scale_not_video_pixels() {
    assert_eq!(
        default_pointer_long_axis_units_for_frame([1080, 1920]),
        DEFAULT_PHONE_POINTER_LONG_AXIS_UNITS
    );
    assert_eq!(
        default_pointer_long_axis_units_for_frame([2048, 2732]),
        DEFAULT_TABLET_POINTER_LONG_AXIS_UNITS
    );
    assert_eq!(
        pointer_size_for_frame_with_long_axis([1080, 1920], DEFAULT_PHONE_POINTER_LONG_AXIS_UNITS,),
        [68, 120]
    );
}

#[test]
fn pointer_size_can_use_live_bridge_override() {
    let mut bridge = PreviewInputBridge::new(None);

    bridge.set_pointer_long_axis_units(Some(60));

    assert_eq!(bridge.pointer_long_axis_units(), Some(60));
    assert_eq!(
        pointer_size_for_frame([1000, 2000], bridge.pointer_long_axis_units(), None),
        [30, 60]
    );
}

#[test]
fn pointer_size_override_is_clamped() {
    let mut bridge = PreviewInputBridge::new(None);

    bridge.set_pointer_long_axis_units(Some(1));

    assert_eq!(
        bridge.pointer_long_axis_units(),
        Some(MIN_POINTER_LONG_AXIS_UNITS)
    );
}

#[test]
fn pointer_size_prefers_override_then_environment_then_default() {
    assert_eq!(pointer_size_for_frame([1000, 2000], Some(60), Some(200)), [30, 60]);
    assert_eq!(pointer_size_for_frame([1000, 2000], None, Some(200)), [100, 200]);
    assert_eq!(pointer_size_for_frame([1000, 2000], None, Some(5000)), [800, 1600]);
    assert_eq!(pointer_size_for_frame([1000, 2000], None, None), [60, 120]);
}

#[test]
fn preview_click_inside_arms_ble_mouse_forwarding() {
    let mut host = Host::new();
    let mut events = Vec::new();

    host.moved((20.0, 20.0), &mut events);
    assert!(!host.bridge.is_armed());
    assert!(events.is_empty());

    host.button((20.0, 20.0), true, &mut events);

    assert!(host.bridge.is_armed());
    assert_eq!(
        events,
        vec![ControlInputEvent::MouseSequence(vec![
            mouse(0, -120, -240),
            mouse(0, 0, 0),
            mouse(0, 0, 0),
            mouse(0, 0, 0),
            mouse(0, 6, 6),
            mouse(0, 0, 0),
            mouse(0, 0, 0),
            mouse(0, 0, 0),
            mouse(0x01, 0, 0),
        ])]
    );
}

#[test]
fn preview_mouse_move_inside_forwards_scaled_ble_delta() {
    let mut host = Host::new();
    let mut events = Vec::new();

    host.button((20.0, 20.0), true, &mut events);
    events.clear();

    host.moved((25.0, 30.0), &mut events);

    assert_eq!(
        events,
        vec![ControlInputEvent::Mouse(MouseInputReport {
            buttons: 0x01,
            dx: 3,
            dy: 6,
            wheel: 0,
        })]
    );
}

#[test]
fn preview_repositions_fresh_clicks_from_tracked_device_pointer() {
    let mut host = Host::new();
    let mut events = Vec::new();

    host.button((20.0, 20.0), true, &mut events);
    host.button((20.0, 20.0), false, &mut events);
    events.clear();

    host.button((60.0, 110.0), true, &mut events);

    assert_eq!(
        events,
        vec![ControlInputEvent::MouseSequence(vec![
            mouse(0, 24, 54),
            mouse(0, 0, 0),
            mouse(0, 0, 0),
            mouse(0, 0, 0),
            mouse(0x01, 0, 0),
        ])]
    );
}

#[test]
fn preview_release_uses_release_position_for_drag_without_move_event() {
    let mut host = Host::new();
    let mut events = Vec::new();

    host.button((20.0, 20.0), true, &mut events);
    events.clear();

    host.button((30.0, 50.0), false, &mut events);

    assert_eq!(
        events,
        vec![ControlInputEvent::MouseSequence(vec![
            mouse(0x01, 6, 18),
            mouse(0, 0, 0),
        ])]
    );
}

#[test]
fn preview_pointer_exit_releases_ble_mouse_control() {
    let mut host = Host::new();
    let mut events = Vec::new();

    host.button((20.0, 20.0), true, &mut events);
    events.clear();

    host.moved((120.0, 30.0), &mut events);

    assert!(!host.bridge.is_armed());
    assert_eq!(
        events,
        vec![ControlInputEvent::Mouse(MouseInputReport::default())]
    );
}

#[test]
fn preview_pointer_exit_releases_ble_control_after_click_is_released() {
    let mut host = Host::new();
    let mut events = Vec::new();

    host.button((20.0, 20.0), true, &mut events);
    host.button((20.0, 20.0), false, &mut events);
    events.clear();

    host.moved((120.0, 30.0), &mut events);

    assert!(!host.bridge.is_armed());
    assert_eq!(
        events,
        vec![ControlInputEvent::Mouse(MouseInputReport::default())]
    );
}

#[test]
fn release_control_emits_one_released_report_only_when_armed() {
    let mut host = Host::new();
    let mut events = Vec::new();
    assert!(host.bridge.release_control().is_empty());

    host.button((20.0, 20.0), true, &mut events);
    assert_eq!(
        host.bridge.release_control(),
        vec![ControlInputEvent::Mouse(MouseInputReport::default())]
    );
    assert!(!host.bridge.is_armed());
    assert!(host.bridge.release_control().is_empty());
}
