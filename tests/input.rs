use pinnacle::focus::FocusTarget;
use pinnacle::geometry::{Point, Rect, Size};
use pinnacle::input::{
    InputState, KeyAction, Modifier, ModifierMask, ModifiersState, MouseEdge, KEY_SWITCH_VT_1,
    KEY_SWITCH_VT_12,
};
use pinnacle::msg::CallbackId;
use pinnacle::output::Output;
use pinnacle::state::State;
use pinnacle::tag::{Tag, TagId, TagIdCounter};
use pinnacle::window::{WindowElement, WindowElementState, WindowKind};

fn rect(x: i32, y: i32, w: i32, h: i32) -> Rect {
    Rect { loc: Point { x, y }, size: Size { w, h } }
}

fn ctrl() -> ModifierMask {
    ModifierMask { shift: false, ctrl: true, alt: false, super_key: false }
}

fn none() -> ModifierMask {
    ModifierMask { shift: false, ctrl: false, alt: false, super_key: false }
}

fn window(kind: WindowKind, r: Rect, tags: Vec<TagId>) -> WindowElement {
    let mut state = WindowElementState::new();
    state.tags = tags;
    state.activated = true;
    WindowElement {
        kind,
        surface: Some(1),
        alive: true,
        class: None,
        title: None,
        geometry: Rect { loc: Point { x: 0, y: 0 }, size: r.size },
        input_region: vec![Rect { loc: Point { x: 0, y: 0 }, size: r.size }],
        min_size: Size { w: 0, h: 0 },
        max_size: Size { w: 0, h: 0 },
        loc: r.loc,
        state,
    }
}

fn output(name: &str, geometry: Rect, tags: Vec<Tag>) -> Output {
    Output { name: name.to_string(), geometry, tags, layers: Vec::new() }
}

fn state(outputs: Vec<Output>, windows: Vec<WindowElement>) -> State {
    let n = windows.len();
    State {
        outputs,
        windows,
        stack: (0..n).collect(),
        focus_stack: Vec::new(),
        focused_output: None,
        pointer_location: Point { x: 0, y: 0 },
        keyboard_focus: None,
        input_state: InputState::new(),
    }
}

fn two_outputs() -> Vec<Output> {
    let mut counter = TagIdCounter::new();
    let mut t0 = Tag::new("1".to_string(), &mut counter);
    let mut t1 = Tag::new("2".to_string(), &mut counter);
    t0.set_active(true);
    t1.set_active(true);
    vec![output("DP-1", rect(0, 0, 100, 100), vec![t0]), output("DP-2", rect(200, 0, 100, 100), vec![t1])]
}

#[test]
fn modifier_mask_from_list_and_state() {
    let m = ModifierMask::from_modifiers(&vec![Modifier::Ctrl, Modifier::Super, Modifier::Ctrl]);
    assert_eq!(m, ModifierMask { shift: false, ctrl: true, alt: false, super_key: true });
    assert_eq!(ModifierMask::from_modifiers(&Vec::new()), none());
    let s = ModifiersState { ctrl: true, alt: false, shift: true, logo: false, caps_lock: true, num_lock: true };
    assert_eq!(ModifierMask::from_state(s), ModifierMask { shift: true, ctrl: true, alt: false, super_key: false });
}

#[test]
fn keybind_modified_keysym_beats_raw_keysym() {
    let mut input = InputState::new();
    input.register_keybind(ctrl(), 0x51, CallbackId(1));
    input.register_keybind(ctrl(), 0x71, CallbackId(2));
    assert_eq!(input.key_action(true, ctrl(), 0x51, Some(0x71)), Some(KeyAction::CallCallback(CallbackId(1))));
    assert_eq!(input.key_action(true, ctrl(), 0x52, Some(0x71)), Some(KeyAction::CallCallback(CallbackId(2))));
    assert_eq!(input.key_action(false, ctrl(), 0x51, Some(0x71)), None);
    assert_eq!(input.key_action(true, none(), 0x51, Some(0x71)), None);
}

#[test]
fn keybind_last_registration_wins() {
    let mut input = InputState::new();
    input.register_keybind(ctrl(), 0x71, CallbackId(1));
    input.register_keybind(ctrl(), 0x71, CallbackId(4));
    assert_eq!(input.keybind(ctrl(), 0x71), Some(CallbackId(4)));
    assert_eq!(input.keybind(none(), 0x71), None);
}

#[test]
fn builtin_bindings_in_order() {
    let mut input = InputState::new();
    input.kill_keybind = Some((ctrl(), 0x65));
    input.reload_keybind = Some((ctrl(), 0x72));
    assert_eq!(input.key_action(true, ctrl(), 0x65, None), Some(KeyAction::Quit));
    assert_eq!(input.key_action(true, ctrl(), 0x72, None), Some(KeyAction::ReloadConfig));
    input.register_keybind(ctrl(), 0x65, CallbackId(9));
    assert_eq!(input.key_action(true, ctrl(), 0x65, None), Some(KeyAction::CallCallback(CallbackId(9))));
}

#[test]
fn vt_switch_keys_map_to_terminals_one_to_twelve() {
    let input = InputState::new();
    assert_eq!(input.key_action(true, none(), KEY_SWITCH_VT_1, None), Some(KeyAction::SwitchVt(1)));
    assert_eq!(input.key_action(true, none(), KEY_SWITCH_VT_1 + 4, None), Some(KeyAction::SwitchVt(5)));
    assert_eq!(input.key_action(true, none(), KEY_SWITCH_VT_12, None), Some(KeyAction::SwitchVt(12)));
    assert_eq!(input.key_action(true, none(), KEY_SWITCH_VT_12 + 1, None), None);
    assert_eq!(input.key_action(true, none(), KEY_SWITCH_VT_1 - 1, None), None);
}

#[test]
fn mousebind_fires_and_nothing_else_happens() {
    let mut s = state(two_outputs(), vec![window(WindowKind::Wayland, rect(0, 0, 50, 50), vec![TagId::Id(0)])]);
    s.input_state.register_mousebind(ctrl(), 272, MouseEdge::Press, CallbackId(3));
    s.pointer_location = Point { x: 10, y: 10 };
    assert_eq!(s.pointer_button(272, true, ctrl()), Some(CallbackId(3)));
    assert_eq!(s.keyboard_focus, None);
    assert_eq!(s.pointer_button(272, false, ctrl()), None);
    assert_eq!(s.keyboard_focus, None);
}

#[test]
fn click_raises_and_focuses_window() {
    let a = window(WindowKind::Wayland, rect(0, 0, 50, 50), vec![TagId::Id(0)]);
    let b = window(WindowKind::X11, rect(20, 20, 50, 50), vec![TagId::Id(0)]);
    let c = window(WindowKind::Wayland, rect(60, 60, 10, 10), vec![TagId::Id(0)]);
    let mut s = state(two_outputs(), vec![a, b, c]);
    s.pointer_location = Point { x: 10, y: 10 };
    assert_eq!(s.pointer_button(272, true, none()), None);
    assert_eq!(s.keyboard_focus, Some(FocusTarget::Window(0)));
    assert_eq!(s.stack, vec![1, 2, 0]);
}

#[test]
fn click_on_override_redirect_keeps_keyboard_focus() {
    let a = window(WindowKind::Wayland, rect(0, 0, 50, 50), vec![TagId::Id(0)]);
    let or = window(WindowKind::X11OverrideRedirect, rect(0, 0, 20, 20), vec![TagId::Id(0)]);
    let mut s = state(two_outputs(), vec![a, or]);
    s.keyboard_focus = Some(FocusTarget::Window(0));
    s.pointer_location = Point { x: 5, y: 5 };
    s.pointer_button(272, true, none());
    assert_eq!(s.keyboard_focus, Some(FocusTarget::Window(0)));
    assert_eq!(s.stack, vec![0, 1]);
}

#[test]
fn click_on_nothing_clears_focus_and_deactivates() {
    let a = window(WindowKind::Wayland, rect(0, 0, 50, 50), vec![TagId::Id(0)]);
    let or = window(WindowKind::X11OverrideRedirect, rect(0, 0, 20, 20), vec![TagId::Id(0)]);
    let mut s = state(two_outputs(), vec![a, or]);
    s.keyboard_focus = Some(FocusTarget::Window(0));
    s.pointer_location = Point { x: 90, y: 90 };
    s.pointer_button(272, true, none());
    assert_eq!(s.keyboard_focus, None);
    assert!(!s.windows[0].state.activated);
    assert!(s.windows[1].state.activated);
}

#[test]
fn clamp_coords_picks_nearest_output_point() {
    let s = state(two_outputs(), Vec::new());
    assert_eq!(s.clamp_coords(Point { x: 50, y: 50 }), Point { x: 50, y: 50 });
    assert_eq!(s.clamp_coords(Point { x: 130, y: 50 }), Point { x: 99, y: 50 });
    assert_eq!(s.clamp_coords(Point { x: 180, y: 50 }), Point { x: 200, y: 50 });
    assert_eq!(s.clamp_coords(Point { x: 149, y: 500 }), Point { x: 99, y: 99 });
    assert_eq!(s.clamp_coords(Point { x: 150, y: 500 }), Point { x: 200, y: 99 });
    assert!(s.surface_under(s.clamp_coords(Point { x: 130, y: 50 })).is_none());
    assert_eq!(s.output_under(s.clamp_coords(Point { x: 130, y: 50 })), Some(0));
    let empty = state(Vec::new(), Vec::new());
    assert_eq!(empty.clamp_coords(Point { x: -7, y: 9 }), Point { x: -7, y: 9 });
}

#[test]
fn pointer_motion_moves_focus_between_outputs() {
    let mut s = state(two_outputs(), Vec::new());
    s.pointer_location = Point { x: 90, y: 50 };
    s.pointer_motion(5, 0);
    assert_eq!(s.pointer_location, Point { x: 95, y: 50 });
    assert_eq!(s.focused_output, Some(0));
    s.pointer_motion(115, 0);
    assert_eq!(s.pointer_location, Point { x: 210, y: 50 });
    assert_eq!(s.focused_output, Some(1));
    s.pointer_motion(500, 0);
    assert_eq!(s.pointer_location, Point { x: 299, y: 50 });
    assert_eq!(s.focused_output, Some(1));
}

#[test]
fn pointer_motion_absolute_uses_first_output() {
    let w = window(WindowKind::Wayland, rect(0, 0, 50, 50), vec![TagId::Id(0)]);
    let mut s = state(two_outputs(), vec![w]);
    let under = s.pointer_motion_absolute(10, 20);
    assert_eq!(s.pointer_location, Point { x: 10, y: 20 });
    assert_eq!(s.focused_output, Some(0));
    assert_eq!(under, Some((FocusTarget::Window(0), Point { x: 0, y: 0 })));
    let mut empty = state(Vec::new(), Vec::new());
    assert_eq!(empty.pointer_motion_absolute(10, 20), None);
    assert_eq!(empty.pointer_location, Point { x: 0, y: 0 });
}
