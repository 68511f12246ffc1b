use pinnacle::geometry::{Point, Rect, Size};
use pinnacle::input::InputState;
use pinnacle::output::Output;
use pinnacle::resize::{
    handle_commit, requested_size, resize_request_client, resize_request_server, GrabStatus,
    ResizeEdge, ResizeSurfaceGrab, ResizeSurfaceState,
};
use pinnacle::state::State;
use pinnacle::window::{Status, WindowElement, WindowElementState, WindowKind};

fn rect(x: i32, y: i32, w: i32, h: i32) -> Rect {
    Rect { loc: Point { x, y }, size: Size { w, h } }
}

fn window_at(r: Rect) -> WindowElement {
    WindowElement {
        kind: WindowKind::Wayland,
        surface: Some(3),
        alive: true,
        class: None,
        title: None,
        geometry: Rect { loc: Point { x: 0, y: 0 }, size: r.size },
        input_region: vec![Rect { loc: Point { x: 0, y: 0 }, size: r.size }],
        min_size: Size { w: 0, h: 0 },
        max_size: Size { w: 0, h: 0 },
        loc: r.loc,
        state: WindowElementState::new(),
    }
}

fn state_with(w: WindowElement, pointer: Point) -> State {
    State {
        outputs: vec![Output {
            name: "DP-1".to_string(),
            geometry: rect(0, 0, 1920, 1080),
            tags: Vec::new(),
            layers: Vec::new(),
        }],
        windows: vec![w],
        stack: vec![0],
        focus_stack: vec![0],
        focused_output: Some(0),
        pointer_location: pointer,
        keyboard_focus: None,
        input_state: InputState::new(),
    }
}

const NO_BOUND: Size = Size { w: 0, h: 0 };

#[test]
fn resize_top_left_scenario() {
    let start = Point { x: 100, y: 100 };
    let mut s = state_with(window_at(rect(100, 100, 200, 150)), start);
    let mut grab = resize_request_server(&mut s, 3, ResizeEdge::TopLeft, 272).expect("grab");
    assert_eq!(grab.initial_window_rect, rect(100, 100, 200, 150));
    assert_eq!(
        s.windows[0].state.resize_state,
        ResizeSurfaceState::Resizing { edges: ResizeEdge::TopLeft, initial_window_rect: rect(100, 100, 200, 150) }
    );

    let status = grab.motion(&mut s.windows[0], Point { x: 80, y: 90 });
    assert_eq!(status, GrabStatus::Held);
    assert_eq!(grab.last_window_size, Size { w: 220, h: 160 });
    assert_eq!(s.windows[0].state.requested_size, Some(Size { w: 220, h: 160 }));

    assert_eq!(grab.button(&mut s.windows[0], &Vec::new()), GrabStatus::Released);
    assert_eq!(
        s.windows[0].state.resize_state,
        ResizeSurfaceState::WaitingForLastCommit { edges: ResizeEdge::TopLeft, initial_window_rect: rect(100, 100, 200, 150) }
    );

    s.windows[0].geometry.size = Size { w: 220, h: 160 };
    assert_eq!(handle_commit(&mut s, 3), Some(Point { x: 80, y: 90 }));
    assert_eq!(s.windows[0].loc, Point { x: 80, y: 90 });
    assert_eq!(s.windows[0].state.resize_state, ResizeSurfaceState::Idle);
    assert_eq!(s.windows[0].state.status, Status::Floating(rect(80, 90, 220, 160)));
}

#[test]
fn resize_left_edge_keeps_right_edge_when_client_picks_other_size() {
    let mut s = state_with(window_at(rect(300, 200, 400, 300)), Point { x: 300, y: 250 });
    let mut grab = resize_request_server(&mut s, 3, ResizeEdge::Left, 272).expect("grab");
    grab.motion(&mut s.windows[0], Point { x: 250, y: 250 });
    assert_eq!(grab.last_window_size, Size { w: 450, h: 300 });
    grab.button(&mut s.windows[0], &Vec::new());
    s.windows[0].geometry.size = Size { w: 440, h: 300 };
    let loc = handle_commit(&mut s, 3).expect("mapped window");
    assert_eq!(loc, Point { x: 260, y: 200 });
    assert_eq!(loc.x + 440, 300 + 400);
}

#[test]
fn resize_live_commit_keeps_resizing() {
    let mut s = state_with(window_at(rect(300, 200, 400, 300)), Point { x: 300, y: 200 });
    let mut grab = resize_request_server(&mut s, 3, ResizeEdge::Top, 272).expect("grab");
    grab.motion(&mut s.windows[0], Point { x: 300, y: 150 });
    s.windows[0].geometry.size = Size { w: 400, h: 350 };
    assert_eq!(handle_commit(&mut s, 3), Some(Point { x: 300, y: 150 }));
    assert!(matches!(s.windows[0].state.resize_state, ResizeSurfaceState::Resizing { .. }));
}

#[test]
fn resize_right_edge_commit_does_not_move() {
    let mut s = state_with(window_at(rect(10, 10, 100, 100)), Point { x: 110, y: 50 });
    let mut grab = resize_request_server(&mut s, 3, ResizeEdge::BottomRight, 272).expect("grab");
    grab.motion(&mut s.windows[0], Point { x: 130, y: 70 });
    assert_eq!(grab.last_window_size, Size { w: 120, h: 120 });
    s.windows[0].geometry.size = Size { w: 120, h: 120 };
    assert_eq!(handle_commit(&mut s, 3), Some(Point { x: 10, y: 10 }));
}

#[test]
fn resize_clamps_to_declared_bounds() {
    let min = Size { w: 50, h: 40 };
    let max = Size { w: 300, h: 200 };
    let r = requested_size(ResizeEdge::BottomRight, Size { w: 100, h: 100 }, 1_000_000, 1_000_000, min, max, 0);
    assert_eq!(r, Size { w: 300, h: 200 });
    let r = requested_size(ResizeEdge::BottomRight, Size { w: 100, h: 100 }, -1_000_000, -1_000_000, min, max, 0);
    assert_eq!(r, Size { w: 50, h: 40 });
}

#[test]
fn resize_never_asks_non_positive_sizes() {
    let r = requested_size(ResizeEdge::TopLeft, Size { w: 100, h: 100 }, 500, 500, NO_BOUND, NO_BOUND, 0);
    assert_eq!(r, Size { w: 1, h: 1 });
    let r = requested_size(ResizeEdge::Top, Size { w: 100, h: 100 }, 0, 500, NO_BOUND, NO_BOUND, -30);
    assert_eq!(r, Size { w: 100, h: 31 });
    let r = requested_size(ResizeEdge::Right, Size { w: 100, h: 100 }, i32::MAX as i64, 0, NO_BOUND, NO_BOUND, 0);
    assert_eq!(r, Size { w: i32::MAX, h: 100 });
}

#[test]
fn resize_refused_for_tiled_unknown_or_unpressed() {
    let mut w = window_at(rect(0, 0, 100, 100));
    w.state.status = Status::Tiled(None);
    let mut s = state_with(w, Point { x: 0, y: 0 });
    assert!(resize_request_server(&mut s, 3, ResizeEdge::Left, 272).is_none());
    assert_eq!(s.windows[0].state.resize_state, ResizeSurfaceState::Idle);

    let mut s = state_with(window_at(rect(0, 0, 100, 100)), Point { x: 0, y: 0 });
    assert!(resize_request_server(&mut s, 99, ResizeEdge::Left, 272).is_none());
    assert!(resize_request_client(&mut s, 3, None, ResizeEdge::Left, 272).is_none());
    let g = resize_request_client(&mut s, 3, Some(Point { x: 5, y: 6 }), ResizeEdge::Left, 272).expect("grab");
    assert_eq!(g.start_location, Point { x: 5, y: 6 });
}

#[test]
fn resize_grab_held_while_button_down_and_released_for_dead_window() {
    let mut s = state_with(window_at(rect(0, 0, 100, 100)), Point { x: 0, y: 0 });
    let mut grab = resize_request_server(&mut s, 3, ResizeEdge::Bottom, 272).expect("grab");
    assert_eq!(grab.button(&mut s.windows[0], &vec![272]), GrabStatus::Held);
    s.windows[0].alive = false;
    assert_eq!(grab.motion(&mut s.windows[0], Point { x: 0, y: 50 }), GrabStatus::Released);
    assert_eq!(grab.button(&mut s.windows[0], &Vec::new()), GrabStatus::Released);
    assert!(matches!(s.windows[0].state.resize_state, ResizeSurfaceState::Resizing { .. }));
}

#[test]
fn resize_start_needs_a_surface() {
    let mut w = window_at(rect(0, 0, 100, 100));
    w.surface = None;
    let g = ResizeSurfaceGrab::start(Point { x: 0, y: 0 }, &mut w, 0, ResizeEdge::Left, rect(0, 0, 100, 100), 272);
    assert!(g.is_none());
    let mut state = ResizeSurfaceState::WaitingForLastCommit { edges: ResizeEdge::Left, initial_window_rect: rect(0, 0, 1, 1) };
    assert_eq!(state.commit(), Some((ResizeEdge::Left, rect(0, 0, 1, 1))));
    assert_eq!(state, ResizeSurfaceState::Idle);
    assert_eq!(state.commit(), None);
}
