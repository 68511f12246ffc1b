use pinnacle::focus::FocusTarget;
use pinnacle::geometry::{Point, Rect, Size};
use pinnacle::input::InputState;
use pinnacle::output::{Layer, LayerSurface, Output};
use pinnacle::state::State;
use pinnacle::tag::{Tag, TagId, TagIdCounter};
use pinnacle::window::{FullscreenOrMaximized, WindowElement, WindowElementState, WindowKind};

fn rect(x: i32, y: i32, w: i32, h: i32) -> Rect {
    Rect { loc: Point { x, y }, size: Size { w, h } }
}

fn window(surface: u32, loc: Point, size: Size, tags: Vec<TagId>) -> WindowElement {
    let mut state = WindowElementState::new();
    state.tags = tags;
    WindowElement {
        kind: WindowKind::Wayland,
        surface: Some(surface),
        alive: true,
        class: None,
        title: None,
        geometry: Rect { loc: Point { x: 0, y: 0 }, size },
        input_region: vec![Rect { loc: Point { x: 0, y: 0 }, size }],
        min_size: Size { w: 0, h: 0 },
        max_size: Size { w: 0, h: 0 },
        loc,
        state,
    }
}

fn one_output_state(windows: Vec<WindowElement>, layers: Vec<LayerSurface>) -> State {
    let mut counter = TagIdCounter::new();
    let mut t0 = Tag::new("1".to_string(), &mut counter);
    let t1 = Tag::new("2".to_string(), &mut counter);
    t0.set_active(true);
    let n = windows.len();
    State {
        outputs: vec![Output {
            name: "DP-1".to_string(),
            geometry: rect(0, 0, 1000, 800),
            tags: vec![t0, t1],
            layers,
        }],
        windows,
        stack: (0..n).collect(),
        focus_stack: (0..n).collect(),
        focused_output: None,
        pointer_location: Point { x: 0, y: 0 },
        keyboard_focus: None,
        input_state: InputState::new(),
    }
}

#[test]
fn focus_fullscreen_window_beats_normal_window_under_point() {
    let normal = window(1, Point { x: 0, y: 0 }, Size { w: 500, h: 500 }, vec![TagId::Id(0)]);
    let mut full = window(2, Point { x: 600, y: 600 }, Size { w: 10, h: 10 }, vec![TagId::Id(0)]);
    full.state.fullscreen_or_maximized = FullscreenOrMaximized::Fullscreen;
    let mut s = one_output_state(vec![full, normal], Vec::new());
    s.stack = vec![0, 1];
    s.focus_stack = vec![0, 1];
    let r = s.surface_under(Point { x: 100, y: 100 });
    assert_eq!(r, Some((FocusTarget::Window(0), Point { x: 0, y: 0 })));
}

#[test]
fn focus_fullscreen_on_inactive_tag_does_not_occlude() {
    let normal = window(1, Point { x: 0, y: 0 }, Size { w: 500, h: 500 }, vec![TagId::Id(0)]);
    let mut full = window(2, Point { x: 0, y: 0 }, Size { w: 1000, h: 800 }, vec![TagId::Id(1)]);
    full.state.fullscreen_or_maximized = FullscreenOrMaximized::Fullscreen;
    let s = one_output_state(vec![normal, full], Vec::new());
    let r = s.surface_under(Point { x: 100, y: 100 });
    assert_eq!(r, Some((FocusTarget::Window(0), Point { x: 0, y: 0 })));
}

#[test]
fn focus_topmost_window_wins_and_offset_is_surface_origin() {
    let below = window(1, Point { x: 0, y: 0 }, Size { w: 500, h: 500 }, vec![TagId::Id(0)]);
    let mut above = window(2, Point { x: 100, y: 50 }, Size { w: 200, h: 200 }, vec![TagId::Id(0)]);
    above.geometry.loc = Point { x: 5, y: 20 };
    let s = one_output_state(vec![below, above], Vec::new());
    assert_eq!(
        s.surface_under(Point { x: 150, y: 100 }),
        Some((FocusTarget::Window(1), Point { x: 95, y: 30 }))
    );
    assert_eq!(
        s.surface_under(Point { x: 450, y: 450 }),
        Some((FocusTarget::Window(0), Point { x: 0, y: 0 }))
    );
    assert_eq!(s.surface_under(Point { x: 700, y: 700 }), None);
}

#[test]
fn focus_nothing_outside_every_output() {
    let w = window(1, Point { x: 0, y: 0 }, Size { w: 500, h: 500 }, vec![TagId::Id(0)]);
    let s = one_output_state(vec![w], Vec::new());
    assert_eq!(s.surface_under(Point { x: -5, y: 10 }), None);
    assert_eq!(s.surface_under(Point { x: 1000, y: 10 }), None);
}

#[test]
fn focus_overlay_then_top_layer_before_windows() {
    let w = window(1, Point { x: 0, y: 0 }, Size { w: 1000, h: 800 }, vec![TagId::Id(0)]);
    let layers = vec![
        LayerSurface { surface: 10, layer: Layer::Top, geometry: rect(0, 0, 1000, 30) },
        LayerSurface { surface: 11, layer: Layer::Overlay, geometry: rect(0, 0, 100, 100) },
        LayerSurface { surface: 12, layer: Layer::Bottom, geometry: rect(0, 0, 1000, 800) },
    ];
    let s = one_output_state(vec![w], layers);
    assert_eq!(
        s.surface_under(Point { x: 50, y: 10 }),
        Some((FocusTarget::LayerSurface { output: 0, layer: 1 }, Point { x: 0, y: 0 }))
    );
    assert_eq!(
        s.surface_under(Point { x: 500, y: 10 }),
        Some((FocusTarget::LayerSurface { output: 0, layer: 0 }, Point { x: 0, y: 0 }))
    );
    assert_eq!(
        s.surface_under(Point { x: 500, y: 500 }),
        Some((FocusTarget::Window(0), Point { x: 0, y: 0 }))
    );
}

#[test]
fn focus_window_on_hidden_tag_is_skipped() {
    let hidden = window(1, Point { x: 0, y: 0 }, Size { w: 500, h: 500 }, vec![TagId::Id(1)]);
    let s = one_output_state(vec![hidden], Vec::new());
    assert_eq!(s.surface_under(Point { x: 10, y: 10 }), None);
}

#[test]
fn window_for_surface_prefers_mapped_windows() {
    let a = window(7, Point { x: 0, y: 0 }, Size { w: 10, h: 10 }, Vec::new());
    let b = window(7, Point { x: 0, y: 0 }, Size { w: 10, h: 10 }, Vec::new());
    let c = window(8, Point { x: 0, y: 0 }, Size { w: 10, h: 10 }, Vec::new());
    let mut s = one_output_state(vec![a, b, c], Vec::new());
    s.stack = vec![1];
    assert_eq!(s.window_for_surface(7), Some(1));
    assert_eq!(s.window_for_surface(8), Some(2));
    assert_eq!(s.window_for_surface(9), None);
    assert!(s.is_mapped(1));
    assert!(!s.is_mapped(0));
}
