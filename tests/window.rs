use pinnacle::geometry::{Point, Rect, Size};
use pinnacle::output::Output;
use pinnacle::tag::{Tag, TagId, TagIdCounter};
use pinnacle::window::{
    FullscreenOrMaximized, LocationRequestState, Status, WindowElement, WindowElementState,
    WindowKind,
};

fn rect(x: i32, y: i32, w: i32, h: i32) -> Rect {
    Rect { loc: Point { x, y }, size: Size { w, h } }
}

fn window(kind: WindowKind, tags: Vec<TagId>) -> WindowElement {
    let mut state = WindowElementState::new();
    state.tags = tags;
    WindowElement {
        kind,
        surface: Some(1),
        alive: true,
        class: Some("foot".to_string()),
        title: Some("shell".to_string()),
        geometry: rect(0, 0, 100, 100),
        input_region: vec![rect(0, 0, 100, 100)],
        min_size: Size { w: 0, h: 0 },
        max_size: Size { w: 0, h: 0 },
        loc: Point { x: 0, y: 0 },
        state,
    }
}

fn output(tags: Vec<Tag>) -> Output {
    Output { name: "DP-1".to_string(), geometry: rect(0, 0, 1920, 1080), tags, layers: Vec::new() }
}

#[test]
fn window_visible_only_with_an_active_tag() {
    let mut counter = TagIdCounter::new();
    let mut t0 = Tag::new("1".to_string(), &mut counter);
    let t1 = Tag::new("2".to_string(), &mut counter);
    t0.set_active(true);
    let outputs = vec![output(vec![t0, t1])];
    assert!(window(WindowKind::Wayland, vec![TagId::Id(0)]).is_on_active_tag(&outputs));
    assert!(window(WindowKind::Wayland, vec![TagId::Id(1), TagId::Id(0)]).is_on_active_tag(&outputs));
    assert!(!window(WindowKind::Wayland, vec![TagId::Id(1)]).is_on_active_tag(&outputs));
    assert!(!window(WindowKind::Wayland, Vec::new()).is_on_active_tag(&outputs));
}

#[test]
fn window_on_tag_of_another_output_is_visible_when_that_output_shows_it() {
    let mut counter = TagIdCounter::new();
    let t0 = Tag::new("1".to_string(), &mut counter);
    let mut t1 = Tag::new("2".to_string(), &mut counter);
    t1.set_active(true);
    let outputs = vec![output(vec![t0]), output(vec![t1])];
    let w = window(WindowKind::X11, vec![TagId::Id(1)]);
    assert!(w.is_on_active_tag(&outputs));
    assert_eq!(w.output(&outputs), Some(1));
}

#[test]
fn place_on_output_takes_active_tags_then_first_then_none() {
    let mut counter = TagIdCounter::new();
    let t0 = Tag::new("1".to_string(), &mut counter);
    let mut t1 = Tag::new("2".to_string(), &mut counter);
    let mut t2 = Tag::new("3".to_string(), &mut counter);
    t1.set_active(true);
    t2.set_active(true);
    let mut w = window(WindowKind::Wayland, vec![TagId::Id(9)]);
    w.place_on_output(&output(vec![t0, t1, t2]));
    assert_eq!(w.state.tags, vec![TagId::Id(1), TagId::Id(2)]);

    let t3 = Tag::new("4".to_string(), &mut counter);
    let t4 = Tag::new("5".to_string(), &mut counter);
    w.place_on_output(&output(vec![t3, t4]));
    assert_eq!(w.state.tags, vec![TagId::Id(3)]);

    w.place_on_output(&output(Vec::new()));
    assert!(w.state.tags.is_empty());
}

#[test]
fn window_keeps_its_tags_across_a_reload() {
    let mut counter = TagIdCounter::new();
    let _first = Tag::new("1".to_string(), &mut counter);
    let second = Tag::new("2".to_string(), &mut counter);
    let w = window(WindowKind::Wayland, vec![second.id()]);
    TagId::reset(&mut counter);
    let _first_again = Tag::new("1".to_string(), &mut counter);
    let second_again = Tag::new("2".to_string(), &mut counter);
    assert!(w.has_tag(&second));
    assert!(w.has_tag(&second_again));
    let third = Tag::new("3".to_string(), &mut counter);
    assert!(!w.has_tag(&third));
}

#[test]
fn window_kind_queries() {
    let w = window(WindowKind::X11OverrideRedirect, Vec::new());
    assert!(w.is_x11_override_redirect());
    assert!(!w.is_x11());
    assert!(!w.is_wayland());
    assert!(window(WindowKind::Wayland, Vec::new()).is_wayland());
    assert!(window(WindowKind::X11, Vec::new()).is_x11());
    assert_eq!(w.class(), Some("foot".to_string()));
    assert_eq!(w.title(), Some("shell".to_string()));
}

#[test]
fn change_geometry_requests_size_and_notes_location() {
    let mut w = window(WindowKind::Wayland, Vec::new());
    w.change_geometry(rect(10, 20, 300, 200));
    assert_eq!(w.state.requested_size, Some(Size { w: 300, h: 200 }));
    assert_eq!(w.state.loc_request_state, LocationRequestState::Sent(Point { x: 10, y: 20 }));

    let mut or = window(WindowKind::X11OverrideRedirect, Vec::new());
    or.change_geometry(rect(1, 2, 3, 4));
    assert_eq!(or.state.requested_size, None);
    assert_eq!(or.state.loc_request_state, LocationRequestState::Sent(Point { x: 1, y: 2 }));
}

#[test]
fn tiled_and_fullscreen_queries() {
    let mut w = window(WindowKind::Wayland, Vec::new());
    assert!(!w.is_tiled());
    w.state.status = Status::Tiled(None);
    assert!(w.is_tiled());
    assert!(!w.is_fullscreen());
    w.state.fullscreen_or_maximized = FullscreenOrMaximized::Fullscreen;
    assert!(w.is_fullscreen());
}

#[test]
fn input_region_is_surface_local() {
    let mut w = window(WindowKind::Wayland, Vec::new());
    w.input_region = vec![rect(0, 0, 10, 10), rect(50, 50, 10, 10)];
    assert!(w.is_in_input_region(5, 5));
    assert!(w.is_in_input_region(55, 59));
    assert!(!w.is_in_input_region(10, 10));
    assert!(!w.is_in_input_region(30, 30));
}

#[test]
fn window_hidden_once_its_tag_is_switched_off() {
    let mut counter = TagIdCounter::new();
    let mut t0 = Tag::new("1".to_string(), &mut counter);
    t0.set_active(true);
    let mut outputs = vec![output(vec![t0])];
    let w = window(WindowKind::Wayland, vec![TagId::Id(0)]);
    assert!(w.is_on_active_tag(&outputs));
    outputs[0].set_tag_active(TagId::Id(0), false);
    assert!(!w.is_on_active_tag(&outputs));
    outputs[0].toggle_tag(TagId::Id(0));
    assert!(w.is_on_active_tag(&outputs));
}
