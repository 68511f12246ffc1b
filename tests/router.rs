use pinnacle::focus::FocusTarget;
use pinnacle::geometry::{Point, Rect, Size};
use pinnacle::input::{InputState, KeyAction, ModifierMask, ModifiersState, MouseEdge};
use pinnacle::msg::CallbackId;
use pinnacle::output::Output;
use pinnacle::pointer::{InputEvent, InputOutcome};
use pinnacle::resize::{move_request_server, GrabStatus, ResizeEdge};
use pinnacle::state::State;
use pinnacle::tag::{Tag, TagId, TagIdCounter};
use pinnacle::window::{Status, WindowElement, WindowElementState, WindowKind};

fn rect(x: i32, y: i32, w: i32, h: i32) -> Rect {
    Rect { loc: Point { x, y }, size: Size { w, h } }
}

fn window(r: Rect) -> WindowElement {
    let mut state = WindowElementState::new();
    state.tags = vec![TagId::Id(0)];
    state.status = Status::Floating(r);
    WindowElement {
        kind: WindowKind::Wayland,
        surface: Some(5),
        alive: true,
        class: None,
        title: None,
        geometry: Rect { loc: Point { x: 0, y: 0 }, size: r.size },
        input_region: vec![Rect { loc: Point { x: 0, y: 0 }, size: r.size }],
        min_size: Size { w: 0, h: 0 },
        max_size: Size { w: 0, h: 0 },
        loc: r.loc,
        state,
    }
}

fn state() -> State {
    let mut counter = TagIdCounter::new();
    let mut t0 = Tag::new("1".to_string(), &mut counter);
    t0.set_active(true);
    State {
        outputs: vec![Output {
            name: "DP-1".to_string(),
            geometry: rect(0, 0, 800, 600),
            tags: vec![t0],
            layers: Vec::new(),
        }],
        windows: vec![window(rect(100, 100, 200, 100))],
        stack: vec![0],
        focus_stack: vec![0],
        focused_output: Some(0),
        pointer_location: Point { x: 150, y: 150 },
        keyboard_focus: None,
        input_state: InputState::new(),
    }
}

fn mods(ctrl: bool) -> ModifiersState {
    ModifiersState { ctrl, alt: false, shift: false, logo: false, caps_lock: false, num_lock: false }
}

#[test]
fn resize_edges_decode_from_both_protocols() {
    assert_eq!(ResizeEdge::from_xdg(0), None);
    assert_eq!(ResizeEdge::from_xdg(1), Some(ResizeEdge::Top));
    assert_eq!(ResizeEdge::from_xdg(5), Some(ResizeEdge::TopLeft));
    assert_eq!(ResizeEdge::from_xdg(10), Some(ResizeEdge::BottomRight));
    assert_eq!(ResizeEdge::from_xdg(3), None);
    assert_eq!(ResizeEdge::from_x11(0), Some(ResizeEdge::TopLeft));
    assert_eq!(ResizeEdge::from_x11(3), Some(ResizeEdge::Right));
    assert_eq!(ResizeEdge::from_x11(7), Some(ResizeEdge::Left));
    assert_eq!(ResizeEdge::from_x11(8), None);
}

#[test]
fn move_grab_follows_pointer_delta() {
    let mut s = state();
    let grab = move_request_server(&s, 5, 272).expect("grab");
    assert_eq!(grab.initial_window_loc, Point { x: 100, y: 100 });
    assert_eq!(grab.motion(&mut s.windows[0], Point { x: 170, y: 140 }), GrabStatus::Held);
    assert_eq!(s.windows[0].loc, Point { x: 120, y: 90 });
    assert_eq!(s.windows[0].state.status, Status::Floating(rect(120, 90, 200, 100)));
    assert_eq!(grab.button(&vec![272]), GrabStatus::Held);
    assert_eq!(grab.button(&Vec::new()), GrabStatus::Released);
    assert!(move_request_server(&s, 6, 272).is_none());
}

#[test]
fn router_dispatches_each_event_kind() {
    let mut s = state();
    let ctrl = ModifierMask { shift: false, ctrl: true, alt: false, super_key: false };
    s.input_state.register_keybind(ctrl, 0x71, CallbackId(0));
    s.input_state.register_mousebind(ctrl, 273, MouseEdge::Press, CallbackId(1));

    let key = InputEvent::Keyboard { pressed: true, mod_sym: 0x71, raw_sym: Some(0x71) };
    assert_eq!(s.process_input_event(key, mods(true)), InputOutcome::Key(Some(KeyAction::CallCallback(CallbackId(0)))));
    assert_eq!(s.process_input_event(key, mods(false)), InputOutcome::Key(None));

    let moved = s.process_input_event(InputEvent::PointerMotion { dx: 10, dy: 0 }, mods(false));
    assert_eq!(moved, InputOutcome::Pointer(Some((FocusTarget::Window(0), Point { x: 100, y: 100 }))));
    assert_eq!(s.pointer_location, Point { x: 160, y: 150 });

    let far = s.process_input_event(InputEvent::PointerMotion { dx: i32::MAX, dy: 0 }, mods(false));
    assert_eq!(far, InputOutcome::Ignored);
    assert_eq!(s.pointer_location, Point { x: 160, y: 150 });

    let abs = s.process_input_event(InputEvent::PointerMotionAbsolute { x: 700, y: 500 }, mods(false));
    assert_eq!(abs, InputOutcome::Pointer(None));
    assert_eq!(s.pointer_location, Point { x: 700, y: 500 });

    let bound = s.process_input_event(InputEvent::PointerButton { button: 273, pressed: true }, mods(true));
    assert_eq!(bound, InputOutcome::Button(Some(CallbackId(1))));
    assert_eq!(s.process_input_event(InputEvent::PointerAxis, mods(false)), InputOutcome::Axis);
}
