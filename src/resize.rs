use vstd::prelude::*;

use crate::geometry::{Point, Rect, Size};
use crate::state::State;
use crate::window::{Status, WindowElement, WindowElementState, WindowKind};

verus! {

/// The edge or corner of a window that a resize drags.
#[derive(Debug, Clone, Copy, PartialEq, Eq, Structural)]
pub enum ResizeEdge {
    Top,
    Bottom,
    Left,
    TopLeft,
    BottomLeft,
    Right,
    TopRight,
    BottomRight,
}

impl ResizeEdge {
    /// The edge an `xdg_toplevel` resize request names by its wire value;
    /// none for "no edge" or an unknown value.
    pub open spec fn spec_from_xdg(v: u32) -> Option<ResizeEdge> {
        if v == 1 {
            Some(ResizeEdge::Top)
        } else if v == 2 {
            Some(ResizeEdge::Bottom)
        } else if v == 4 {
            Some(ResizeEdge::Left)
        } else if v == 5 {
            Some(ResizeEdge::TopLeft)
        } else if v == 6 {
            Some(ResizeEdge::BottomLeft)
        } else if v == 8 {
            Some(ResizeEdge::Right)
        } else if v == 9 {
            Some(ResizeEdge::TopRight)
        } else if v == 10 {
            Some(ResizeEdge::BottomRight)
        } else {
            None
        }
    }

    /// The edge an X11 move-resize request names by its direction value, 0 to 7
    /// clockwise from the top-left corner; none for other values (moves and
    /// keyboard resizes).
    pub open spec fn spec_from_x11(v: u32) -> Option<ResizeEdge> {
        if v == 0 {
            Some(ResizeEdge::TopLeft)
        } else if v == 1 {
            Some(ResizeEdge::Top)
        } else if v == 2 {
            Some(ResizeEdge::TopRight)
        } else if v == 3 {
            Some(ResizeEdge::Right)
        } else if v == 4 {
            Some(ResizeEdge::BottomRight)
        } else if v == 5 {
            Some(ResizeEdge::Bottom)
        } else if v == 6 {
            Some(ResizeEdge::BottomLeft)
        } else if v == 7 {
            Some(ResizeEdge::Left)
        } else {
            None
        }
    }

    pub fn from_xdg(v: u32) -> (r: Option<ResizeEdge>)
        ensures
            r == ResizeEdge::spec_from_xdg(v),
    {
        match v {
            1 => Some(ResizeEdge::Top),
            2 => Some(ResizeEdge::Bottom),
            4 => Some(ResizeEdge::Left),
            5 => Some(ResizeEdge::TopLeft),
            6 => Some(ResizeEdge::BottomLeft),
            8 => Some(ResizeEdge::Right),
            9 => Some(ResizeEdge::TopRight),
            10 => Some(ResizeEdge::BottomRight),
            _ => None,
        }
    }

    pub fn from_x11(v: u32) -> (r: Option<ResizeEdge>)
        ensures
            r == ResizeEdge::spec_from_x11(v),
    {
        match v {
            0 => Some(ResizeEdge::TopLeft),
            1 => Some(ResizeEdge::Top),
            2 => Some(ResizeEdge::TopRight),
            3 => Some(ResizeEdge::Right),
            4 => Some(ResizeEdge::BottomRight),
            5 => Some(ResizeEdge::Bottom),
            6 => Some(ResizeEdge::BottomLeft),
            7 => Some(ResizeEdge::Left),
            _ => None,
        }
    }

    /// The drag moves the left edge.
    pub open spec fn spec_left(self) -> bool {
        self == ResizeEdge::Left || self == ResizeEdge::TopLeft || self == ResizeEdge::BottomLeft
    }

    /// The drag moves the right edge.
    pub open spec fn spec_right(self) -> bool {
        self == ResizeEdge::Right || self == ResizeEdge::TopRight || self == ResizeEdge::BottomRight
    }

    /// The drag moves the top edge.
    pub open spec fn spec_top(self) -> bool {
        self == ResizeEdge::Top || self == ResizeEdge::TopLeft || self == ResizeEdge::TopRight
    }

    /// The drag moves the bottom edge.
    pub open spec fn spec_bottom(self) -> bool {
        self == ResizeEdge::Bottom || self == ResizeEdge::BottomLeft || self
            == ResizeEdge::BottomRight
    }

    pub fn is_left(self) -> (r: bool)
        ensures
            r == self.spec_left(),
    {
        matches!(self, ResizeEdge::Left | ResizeEdge::TopLeft | ResizeEdge::BottomLeft)
    }

    pub fn is_right(self) -> (r: bool)
        ensures
            r == self.spec_right(),
    {
        matches!(self, ResizeEdge::Right | ResizeEdge::TopRight | ResizeEdge::BottomRight)
    }

    pub fn is_top(self) -> (r: bool)
        ensures
            r == self.spec_top(),
    {
        matches!(self, ResizeEdge::Top | ResizeEdge::TopLeft | ResizeEdge::TopRight)
    }

    pub fn is_bottom(self) -> (r: bool)
        ensures
            r == self.spec_bottom(),
    {
        matches!(self, ResizeEdge::Bottom | ResizeEdge::BottomLeft | ResizeEdge::BottomRight)
    }
}

/// Where a window's surface stands in a resize, between the grab's start and
/// the commit that follows its end.
#[derive(Debug, Clone, Copy, PartialEq, Eq, Structural)]
pub enum ResizeSurfaceState {
    Idle,
    Resizing { edges: ResizeEdge, initial_window_rect: Rect },
    WaitingForLastCommit { edges: ResizeEdge, initial_window_rect: Rect },
}

impl ResizeSurfaceState {
    /// The edges and starting rectangle of the resize in progress, if any.
    pub open spec fn spec_resize(self) -> Option<(ResizeEdge, Rect)> {
        match self {
            ResizeSurfaceState::Idle => None,
            ResizeSurfaceState::Resizing { edges, initial_window_rect } => Some(
                (edges, initial_window_rect),
            ),
            ResizeSurfaceState::WaitingForLastCommit { edges, initial_window_rect } => Some(
                (edges, initial_window_rect),
            ),
        }
    }

    /// Take note of a commit: hand back the resize in progress, and end it if
    /// the grab had already been released.
    pub fn commit(&mut self) -> (r: Option<(ResizeEdge, Rect)>)
        ensures
            r == old(self).spec_resize(),
            *final(self) == match *old(self) {
                ResizeSurfaceState::WaitingForLastCommit { .. } => ResizeSurfaceState::Idle,
                s => s,
            },
    {
        match *self {
            ResizeSurfaceState::Idle => None,
            ResizeSurfaceState::Resizing { edges, initial_window_rect } => Some(
                (edges, initial_window_rect),
            ),
            ResizeSurfaceState::WaitingForLastCommit { edges, initial_window_rect } => {
                *self = ResizeSurfaceState::Idle;
                Some((edges, initial_window_rect))
            },
        }
    }
}

/// `v` brought into `[lo, hi]`; where the bounds cross, the lower one wins.
pub open spec fn bounded(v: int, lo: int, hi: int) -> int {
    if v < lo || hi < lo {
        lo
    } else if v > hi {
        hi
    } else {
        v
    }
}

fn bounded_i64(v: i64, lo: i64, hi: i64) -> (r: i64)
    ensures
        r == bounded(v as int, lo as int, hi as int),
{
    if v < lo || hi < lo {
        lo
    } else if v > hi {
        hi
    } else {
        v
    }
}

/// The width a drag of `dx` asks for: the left edge shrinks the window as the
/// pointer moves right, the right edge grows it.
pub open spec fn candidate_width(edges: ResizeEdge, w: int, dx: int) -> int {
    if edges.spec_left() {
        w - dx
    } else if edges.spec_right() {
        w + dx
    } else {
        w
    }
}

/// The height a drag of `dy` asks for: the top edge shrinks the window as the
/// pointer moves down, the bottom edge grows it.
pub open spec fn candidate_height(edges: ResizeEdge, h: int, dy: int) -> int {
    if edges.spec_top() {
        h - dy
    } else if edges.spec_bottom() {
        h + dy
    } else {
        h
    }
}

/// The least width a resize may ask for.
pub open spec fn min_width(min_size: Size) -> int {
    if min_size.w > 1 {
        min_size.w as int
    } else {
        1
    }
}

/// The least height a resize may ask for: one more than the content's offset
/// from the top of the surface, so that no negative content height is asked.
pub open spec fn min_height(min_size: Size, content_top: i32) -> int {
    let floor = (if content_top < 0 { -(content_top as int) } else { content_top as int }) + 1;
    if min_size.h > floor {
        min_size.h as int
    } else {
        floor
    }
}

/// The greatest width a resize may ask for; 0 means no bound.
pub open spec fn max_width(max_size: Size) -> int {
    if max_size.w != 0 {
        max_size.w as int
    } else {
        i32::MAX as int
    }
}

/// The greatest height a resize may ask for; 0 means no bound.
pub open spec fn max_height(max_size: Size) -> int {
    if max_size.h != 0 {
        max_size.h as int
    } else {
        i32::MAX as int
    }
}

/// The size a resize from `edges` asks for, after the pointer has moved by
/// `(dx, dy)` from where the grab started.
pub open spec fn spec_requested_size(
    edges: ResizeEdge,
    initial: Size,
    dx: int,
    dy: int,
    min_size: Size,
    max_size: Size,
    content_top: i32,
) -> Size {
    Size {
        w: bounded(
            candidate_width(edges, initial.w as int, dx),
            min_width(min_size),
            max_width(max_size),
        ) as i32,
        h: bounded(
            candidate_height(edges, initial.h as int, dy),
            min_height(min_size, content_top),
            max_height(max_size),
        ) as i32,
    }
}

/// The content offset is small enough that the least height fits in an `i32`.
pub open spec fn content_top_fits(content_top: i32) -> bool {
    i32::MIN + 1 < content_top < i32::MAX
}

/// The size a resize from `edges` asks for, after the pointer has moved by
/// `(dx, dy)` from where the grab started, kept within the surface's declared
/// bounds.
pub fn requested_size(
    edges: ResizeEdge,
    initial: Size,
    dx: i64,
    dy: i64,
    min_size: Size,
    max_size: Size,
    content_top: i32,
) -> (r: Size)
    requires
        content_top_fits(content_top),
        -0x1_0000_0000 <= dx <= 0x1_0000_0000,
        -0x1_0000_0000 <= dy <= 0x1_0000_0000,
    ensures
        r == spec_requested_size(edges, initial, dx as int, dy as int, min_size, max_size, content_top),
{
    let w = initial.w as i64;
    let h = initial.h as i64;
    let cw: i64 = if edges.is_left() {
        w - dx
    } else if edges.is_right() {
        w + dx
    } else {
        w
    };
    let ch: i64 = if edges.is_top() {
        h - dy
    } else if edges.is_bottom() {
        h + dy
    } else {
        h
    };
    let min_w: i64 = if min_size.w > 1 { min_size.w as i64 } else { 1 };
    let top: i64 = content_top as i64;
    let floor: i64 = (if top < 0 { -top } else { top }) + 1;
    let min_h: i64 = if min_size.h as i64 > floor { min_size.h as i64 } else { floor };
    let max_w: i64 = if max_size.w != 0 { max_size.w as i64 } else { i32::MAX as i64 };
    let max_h: i64 = if max_size.h != 0 { max_size.h as i64 } else { i32::MAX as i64 };
    let rw = bounded_i64(cw, min_w, max_w);
    let rh = bounded_i64(ch, min_h, max_h);
    Size { w: rw as i32, h: rh as i32 }
}

/// Whatever the pointer does, the size a resize asks for lies within the
/// surface's bounds: at least the least size, and, where the bounds do not
/// cross, at most the greatest (a maximum of 0 bounding nothing).
pub proof fn lemma_requested_size_in_bounds(
    edges: ResizeEdge,
    initial: Size,
    dx: int,
    dy: int,
    min_size: Size,
    max_size: Size,
    content_top: i32,
)
    requires
        content_top_fits(content_top),
    ensures
        ({
            let r = spec_requested_size(edges, initial, dx, dy, min_size, max_size, content_top);
            &&& min_width(min_size) <= r.w
            &&& min_height(min_size, content_top) <= r.h
            &&& min_width(min_size) <= max_width(max_size) ==> r.w <= max_width(max_size)
            &&& min_height(min_size, content_top) <= max_height(max_size) ==> r.h <= max_height(
                max_size,
            )
            &&& r.w >= 1
            &&& r.h >= 1
        }),
{
    let bw = bounded(candidate_width(edges, initial.w as int, dx), min_width(min_size), max_width(max_size));
    let bh = bounded(
        candidate_height(edges, initial.h as int, dy),
        min_height(min_size, content_top),
        max_height(max_size),
    );
    assert(1 <= bw <= i32::MAX);
    assert(1 <= bh <= i32::MAX);
    assert(bw as i32 == bw);
    assert(bh as i32 == bh);
}

/// The bounds a window's surface declares; a window without a surface has none.
pub open spec fn size_bounds(window: WindowElement) -> (Size, Size) {
    if window.surface is Some {
        (window.min_size, window.max_size)
    } else {
        (Size { w: 0, h: 0 }, Size { w: 0, h: 0 })
    }
}

/// Where a window stands after the commit that ends (or continues) a resize:
/// the edges opposite the dragged ones stay where they were, going by the size
/// the surface has just committed.
pub open spec fn spec_anchored_location(
    edges: ResizeEdge,
    initial: Rect,
    committed: Size,
    loc: Point,
) -> (int, int) {
    (
        if edges.spec_left() {
            initial.loc.x + (initial.size.w - committed.w)
        } else {
            loc.x as int
        },
        if edges.spec_top() {
            initial.loc.y + (initial.size.h - committed.h)
        } else {
            loc.y as int
        },
    )
}

/// The location `(x, y)` can be given to `w`: it fits in an `i32`, and so does
/// the surface origin it puts the window at.
pub open spec fn location_fits(w: WindowElement, x: int, y: int) -> bool {
    &&& i32::MIN <= x <= i32::MAX
    &&& i32::MIN <= y <= i32::MAX
    &&& i32::MIN <= x - w.geometry.loc.x <= i32::MAX
    &&& i32::MIN <= y - w.geometry.loc.y <= i32::MAX
}

/// A commit of `w`'s surface moves it: a resize is in progress from an edge
/// on the left or the top, and the anchored location fits.
pub open spec fn commit_moves(w: WindowElement) -> bool {
    match w.state.resize_state.spec_resize() {
        None => false,
        Some((edges, initial)) => {
            let (x, y) = spec_anchored_location(edges, initial, w.geometry.size, w.loc);
            (edges.spec_left() || edges.spec_top()) && location_fits(w, x, y)
        },
    }
}

/// Where `w` stands after a commit of its surface.
pub open spec fn commit_location(w: WindowElement) -> Point {
    match w.state.resize_state.spec_resize() {
        Some((edges, initial)) if commit_moves(w) => {
            let (x, y) = spec_anchored_location(edges, initial, w.geometry.size, w.loc);
            Point { x: x as i32, y: y as i32 }
        },
        _ => w.loc,
    }
}

/// The resize state after a commit: a resize whose grab has ended is over.
pub open spec fn resize_state_after_commit(s: ResizeSurfaceState) -> ResizeSurfaceState {
    match s {
        ResizeSurfaceState::WaitingForLastCommit { .. } => ResizeSurfaceState::Idle,
        s => s,
    }
}

/// `w` after a commit of its surface: moved so that the edges opposite the
/// dragged ones stay put, its floating rectangle following it.
pub open spec fn committed_window(w: WindowElement) -> WindowElement {
    WindowElement {
        loc: commit_location(w),
        state: WindowElementState {
            resize_state: resize_state_after_commit(w.state.resize_state),
            status: if commit_moves(w) && w.state.status is Floating {
                Status::Floating(Rect { loc: commit_location(w), size: w.geometry.size })
            } else {
                w.state.status
            },
            ..w.state
        },
        ..w
    }
}

/// After the commit that concludes a resize from the left, the window's right
/// edge is where it was when the resize began, whatever size the surface
/// committed (and likewise the bottom edge after one from the top); the
/// resize is then over.
pub proof fn lemma_commit_keeps_opposite_edge(w: WindowElement)
    requires
        w.state.resize_state is WaitingForLastCommit,
        ({
            let (edges, initial) = w.state.resize_state.spec_resize().unwrap();
            let (x, y) = spec_anchored_location(edges, initial, w.geometry.size, w.loc);
            location_fits(w, x, y)
        }),
    ensures
        ({
            let (edges, initial) = w.state.resize_state.spec_resize().unwrap();
            let c = committed_window(w);
            &&& edges.spec_left() ==> c.loc.x + w.geometry.size.w == initial.loc.x + initial.size.w
            &&& edges.spec_top() ==> c.loc.y + w.geometry.size.h == initial.loc.y + initial.size.h
            &&& !edges.spec_left() ==> c.loc.x == w.loc.x
            &&& !edges.spec_top() ==> c.loc.y == w.loc.y
            &&& c.state.resize_state == ResizeSurfaceState::Idle
        }),
{
}

/// Putting a window whose location still fits where window `i` stood keeps
/// the state well formed.
proof fn lemma_update_keeps_wf(s0: State, s1: State, i: int)
    requires
        s0.wf(),
        s1.same_but_windows(s0),
        0 <= i < s0.windows@.len(),
        s1.windows@.len() == s0.windows@.len(),
        forall|k: int| 0 <= k < s0.windows@.len() && k != i ==> s1.windows@[k] == s0.windows@[k],
        s1.windows@[i].offset_fits(),
        s1.windows@[i].geometry == s0.windows@[i].geometry,
    ensures
        s1.wf(),
{
    assert forall|k: int| 0 <= k < s1.windows@.len() implies #[trigger] s1.windows@[k].offset_fits()
        && content_top_fits(s1.windows@[k].geometry.loc.y) by {
        if k != i {
            assert(s1.windows@[k] == s0.windows@[k]);
        }
        assert(s0.windows@[k].offset_fits());
        assert(content_top_fits(s0.windows@[k].geometry.loc.y));
    }
}

/// Move the window of `surface` as its commit calls for, if a resize is in
/// progress, and hand back the window's location after it. Nothing happens for
/// a surface without a window, or whose window is not mapped.
pub fn handle_commit(state: &mut State, surface: u32) -> (r: Option<Point>)
    requires
        old(state).wf(),
    ensures
        final(state).wf(),
        final(state).same_but_windows(*old(state)),
        match old(state).spec_window_for_surface(surface) {
            Some(i) if old(state).spec_mapped(i) => {
                &&& r == Some(commit_location(old(state).windows@[i]))
                &&& final(state).windows@ == old(state).windows@.update(
                    i,
                    committed_window(old(state).windows@[i]),
                )
            },
            _ => r is None && final(state).windows@ == old(state).windows@,
        },
{
    let i = match state.window_for_surface(surface) {
        Some(i) => i,
        None => return None,
    };
    if !state.is_mapped(i) {
        return None;
    }
    let ghost w0 = state.windows@[i as int];
    let w = &mut state.windows[i];
    let loc = w.loc;
    let committed = w.geometry.size;
    let after = match w.state.resize_state.commit() {
        None => loc,
        Some((edges, initial)) => {
            let x: i64 = if edges.is_left() {
                initial.loc.x as i64 + (initial.size.w as i64 - committed.w as i64)
            } else {
                loc.x as i64
            };
            let y: i64 = if edges.is_top() {
                initial.loc.y as i64 + (initial.size.h as i64 - committed.h as i64)
            } else {
                loc.y as i64
            };
            let gx = w.geometry.loc.x as i64;
            let gy = w.geometry.loc.y as i64;
            let fits = i32::MIN as i64 <= x && x <= i32::MAX as i64 && i32::MIN as i64 <= y && y
                <= i32::MAX as i64 && i32::MIN as i64 <= x - gx && x - gx <= i32::MAX as i64
                && i32::MIN as i64 <= y - gy && y - gy <= i32::MAX as i64;
            if (edges.is_left() || edges.is_top()) && fits {
                let new_loc = Point { x: x as i32, y: y as i32 };
                w.loc = new_loc;
                if let Status::Floating(_) = w.state.status {
                    w.state.status = Status::Floating(Rect { loc: new_loc, size: committed });
                }
                new_loc
            } else {
                loc
            }
        },
    };
    assert(state.windows@[i as int] == committed_window(w0));
    proof {
        assert(state.windows@ =~= old(state).windows@.update(i as int, committed_window(w0)));
        assert(old(state).windows@[i as int].offset_fits());
        lemma_update_keeps_wf(*old(state), *state, i as int);
    }
    Some(after)
}

/// `w` with its resize state set to `s`.
pub open spec fn with_resize_state(w: WindowElement, s: ResizeSurfaceState) -> WindowElement {
    WindowElement { state: WindowElementState { resize_state: s, ..w.state }, ..w }
}

/// `w` with `size` noted as the size last asked of its surface.
pub open spec fn with_requested_size(w: WindowElement, size: Option<Size>) -> WindowElement {
    WindowElement { state: WindowElementState { requested_size: size, ..w.state }, ..w }
}

/// A pointer grab that resizes a window.
#[derive(Debug, Clone, Copy, PartialEq, Eq, Structural)]
pub struct ResizeSurfaceGrab {
    /// Where the pointer was when the grab started.
    pub start_location: Point,
    /// The window being resized, as an index into the state's windows.
    pub window: usize,
    pub edges: ResizeEdge,
    pub initial_window_rect: Rect,
    pub last_window_size: Size,
    pub button_used: u32,
}

/// What a grab asks of the pointer after an event.
#[derive(Debug, Clone, Copy, PartialEq, Eq, Structural)]
pub enum GrabStatus {
    /// The grab goes on.
    Held,
    /// The grab ends: the pointer is handed back.
    Released,
}

impl ResizeSurfaceGrab {
    /// Start resizing `window` (index `index`) from `edges`. A window without
    /// a surface cannot be resized.
    pub fn start(
        start_location: Point,
        window: &mut WindowElement,
        index: usize,
        edges: ResizeEdge,
        initial_window_rect: Rect,
        button_used: u32,
    ) -> (r: Option<ResizeSurfaceGrab>)
        ensures
            match r {
                Some(g) => {
                    &&& old(window).surface is Some
                    &&& g == (ResizeSurfaceGrab {
                        start_location,
                        window: index,
                        edges,
                        initial_window_rect,
                        last_window_size: initial_window_rect.size,
                        button_used,
                    })
                    &&& *final(window) == with_resize_state(
                        *old(window),
                        ResizeSurfaceState::Resizing { edges, initial_window_rect },
                    )
                },
                None => old(window).surface is None && *final(window) == *old(window),
            },
    {
        if window.surface.is_none() {
            return None;
        }
        window.state.resize_state = ResizeSurfaceState::Resizing { edges, initial_window_rect };
        Some(
            ResizeSurfaceGrab {
                start_location,
                window: index,
                edges,
                initial_window_rect,
                last_window_size: initial_window_rect.size,
                button_used,
            },
        )
    }

    /// The pointer moved to `location`: ask the window for the size the drag
    /// now calls for. A window that died ends the grab.
    pub fn motion(&mut self, window: &mut WindowElement, location: Point) -> (r: GrabStatus)
        requires
            content_top_fits(old(window).geometry.loc.y),
        ensures
            !old(window).alive ==> {
                &&& r == GrabStatus::Released
                &&& *final(self) == *old(self)
                &&& *final(window) == *old(window)
            },
            old(window).alive ==> {
                let size = spec_requested_size(
                    old(self).edges,
                    old(self).initial_window_rect.size,
                    location.x - old(self).start_location.x,
                    location.y - old(self).start_location.y,
                    size_bounds(*old(window)).0,
                    size_bounds(*old(window)).1,
                    old(window).geometry.loc.y,
                );
                &&& r == GrabStatus::Held
                &&& *final(self) == (ResizeSurfaceGrab { last_window_size: size, ..*old(self) })
                &&& *final(window) == with_requested_size(*old(window), Some(size))
            },
    {
        if !window.alive {
            return GrabStatus::Released;
        }
        let dx = location.x as i64 - self.start_location.x as i64;
        let dy = location.y as i64 - self.start_location.y as i64;
        let (min_size, max_size) = if window.surface.is_some() {
            (window.min_size, window.max_size)
        } else {
            (Size { w: 0, h: 0 }, Size { w: 0, h: 0 })
        };
        let size = requested_size(
            self.edges,
            self.initial_window_rect.size,
            dx,
            dy,
            min_size,
            max_size,
            window.geometry.loc.y,
        );
        self.last_window_size = size;
        window.state.requested_size = Some(size);
        GrabStatus::Held
    }

    /// A button changed: once the grab's button is up, the grab ends, the last
    /// size is asked once more of a Wayland window, and the window waits for
    /// the commit that concludes the resize.
    pub fn button(&self, window: &mut WindowElement, pressed: &Vec<u32>) -> (r: GrabStatus)
        ensures
            r == if pressed@.contains(self.button_used) {
                GrabStatus::Held
            } else {
                GrabStatus::Released
            },
            ({
                let ends = !pressed@.contains(self.button_used) && old(window).alive;
                let waiting = ResizeSurfaceState::WaitingForLastCommit {
                    edges: self.edges,
                    initial_window_rect: self.initial_window_rect,
                };
                *final(window) == if ends && old(window).kind == WindowKind::Wayland {
                    with_resize_state(
                        with_requested_size(*old(window), Some(self.last_window_size)),
                        waiting,
                    )
                } else if ends && old(window).surface is Some {
                    with_resize_state(*old(window), waiting)
                } else {
                    *old(window)
                }
            }),
    {
        let mut k: usize = 0;
        while k < pressed.len()
            invariant
                0 <= k <= pressed@.len(),
                forall|k2: int| 0 <= k2 < k ==> pressed@[k2] != self.button_used,
            decreases pressed@.len() - k,
        {
            if pressed[k] == self.button_used {
                assert(pressed@[k as int] == self.button_used);
                return GrabStatus::Held;
            }
            k += 1;
        }
        if !window.alive {
            return GrabStatus::Released;
        }
        match window.kind {
            WindowKind::Wayland => {
                window.state.requested_size = Some(self.last_window_size);
                window.state.resize_state = ResizeSurfaceState::WaitingForLastCommit {
                    edges: self.edges,
                    initial_window_rect: self.initial_window_rect,
                };
            },
            _ => {
                if window.surface.is_some() {
                    window.state.resize_state = ResizeSurfaceState::WaitingForLastCommit {
                        edges: self.edges,
                        initial_window_rect: self.initial_window_rect,
                    };
                }
            },
        }
        GrabStatus::Released
    }
}

/// `w` put at `loc`, its floating rectangle following it.
pub open spec fn moved_window(w: WindowElement, loc: Point) -> WindowElement {
    WindowElement {
        loc,
        state: WindowElementState {
            status: if w.state.status is Floating {
                Status::Floating(Rect { loc, size: w.geometry.size })
            } else {
                w.state.status
            },
            ..w.state
        },
        ..w
    }
}

/// A pointer grab that moves a window: the window follows the pointer's
/// displacement from where the grab started.
#[derive(Debug, Clone, Copy, PartialEq, Eq, Structural)]
pub struct MoveSurfaceGrab {
    pub start_location: Point,
    /// The window being moved, as an index into the state's windows.
    pub window: usize,
    pub initial_window_loc: Point,
    pub button_used: u32,
}

impl MoveSurfaceGrab {
    /// Where the window goes when the pointer is at `location`.
    pub open spec fn spec_target(self, location: Point) -> (int, int) {
        (
            self.initial_window_loc.x + (location.x - self.start_location.x),
            self.initial_window_loc.y + (location.y - self.start_location.y),
        )
    }

    /// The pointer moved to `location`: move the window by as much as the
    /// pointer has moved since the grab started. A window that died ends the
    /// grab; a location that does not fit leaves the window where it is.
    pub fn motion(&self, window: &mut WindowElement, location: Point) -> (r: GrabStatus)
        ensures
            r == if old(window).alive {
                GrabStatus::Held
            } else {
                GrabStatus::Released
            },
            *final(window) == if old(window).alive && location_fits(
                *old(window),
                self.spec_target(location).0,
                self.spec_target(location).1,
            ) {
                moved_window(
                    *old(window),
                    Point {
                        x: self.spec_target(location).0 as i32,
                        y: self.spec_target(location).1 as i32,
                    },
                )
            } else {
                *old(window)
            },
    {
        if !window.alive {
            return GrabStatus::Released;
        }
        let x = self.initial_window_loc.x as i64 + (location.x as i64 - self.start_location.x as i64);
        let y = self.initial_window_loc.y as i64 + (location.y as i64 - self.start_location.y as i64);
        let gx = window.geometry.loc.x as i64;
        let gy = window.geometry.loc.y as i64;
        let fits = i32::MIN as i64 <= x && x <= i32::MAX as i64 && i32::MIN as i64 <= y && y
            <= i32::MAX as i64 && i32::MIN as i64 <= x - gx && x - gx <= i32::MAX as i64 && i32::MIN
            as i64 <= y - gy && y - gy <= i32::MAX as i64;
        if fits {
            let loc = Point { x: x as i32, y: y as i32 };
            window.loc = loc;
            if let Status::Floating(_) = window.state.status {
                window.state.status = Status::Floating(Rect { loc, size: window.geometry.size });
            }
        }
        GrabStatus::Held
    }

    /// A button changed: the grab ends once its button is up.
    pub fn button(&self, pressed: &Vec<u32>) -> (r: GrabStatus)
        ensures
            r == if pressed@.contains(self.button_used) {
                GrabStatus::Held
            } else {
                GrabStatus::Released
            },
    {
        let mut k: usize = 0;
        while k < pressed.len()
            invariant
                0 <= k <= pressed@.len(),
                forall|k2: int| 0 <= k2 < k ==> pressed@[k2] != self.button_used,
            decreases pressed@.len() - k,
        {
            if pressed[k] == self.button_used {
                assert(pressed@[k as int] == self.button_used);
                return GrabStatus::Held;
            }
            k += 1;
        }
        GrabStatus::Released
    }
}

/// A move of the window of `surface` may start: the window exists and is
/// mapped.
pub open spec fn move_allowed(state: State, surface: u32) -> bool {
    match state.spec_window_for_surface(surface) {
        Some(i) => state.spec_mapped(i),
        None => false,
    }
}

/// Start moving the window of `surface` from where the pointer is.
pub fn move_request_server(state: &State, surface: u32, button_used: u32) -> (r: Option<
    MoveSurfaceGrab,
>)
    requires
        state.wf(),
    ensures
        move_allowed(*state, surface) ==> {
            let i = state.spec_window_for_surface(surface).unwrap();
            r == Some(
                MoveSurfaceGrab {
                    start_location: state.pointer_location,
                    window: i as usize,
                    initial_window_loc: state.windows@[i].loc,
                    button_used,
                },
            )
        },
        !move_allowed(*state, surface) ==> r is None,
{
    let i = match state.window_for_surface(surface) {
        Some(i) => i,
        None => return None,
    };
    if !state.is_mapped(i) {
        return None;
    }
    Some(
        MoveSurfaceGrab {
            start_location: state.pointer_location,
            window: i,
            initial_window_loc: state.windows[i].loc,
            button_used,
        },
    )
}

/// A resize of the window of `surface` may start: the window exists, is
/// mapped and is not tiled.
pub open spec fn resize_allowed(state: State, surface: u32) -> bool {
    match state.spec_window_for_surface(surface) {
        Some(i) => state.spec_mapped(i) && !state.windows@[i].spec_tiled(),
        None => false,
    }
}

/// The grab a resize of the window of `surface` starts with.
pub open spec fn spec_resize_grab(
    state: State,
    surface: u32,
    start_location: Point,
    edges: ResizeEdge,
    button_used: u32,
) -> ResizeSurfaceGrab {
    let i = state.spec_window_for_surface(surface).unwrap();
    let w = state.windows@[i];
    ResizeSurfaceGrab {
        start_location,
        window: i as usize,
        edges,
        initial_window_rect: Rect { loc: w.loc, size: w.geometry.size },
        last_window_size: w.geometry.size,
        button_used,
    }
}

/// The window of `surface` once a resize of it has started.
pub open spec fn resizing_window(w: WindowElement, edges: ResizeEdge) -> WindowElement {
    with_resize_state(
        w,
        ResizeSurfaceState::Resizing {
            edges,
            initial_window_rect: Rect { loc: w.loc, size: w.geometry.size },
        },
    )
}

fn begin_resize(
    state: &mut State,
    surface: u32,
    start_location: Point,
    edges: ResizeEdge,
    button_used: u32,
) -> (r: Option<ResizeSurfaceGrab>)
    requires
        old(state).wf(),
    ensures
        final(state).wf(),
        final(state).same_but_windows(*old(state)),
        resize_allowed(*old(state), surface) ==> {
            let i = old(state).spec_window_for_surface(surface).unwrap();
            &&& r == Some(spec_resize_grab(*old(state), surface, start_location, edges, button_used))
            &&& final(state).windows@ == old(state).windows@.update(
                i,
                resizing_window(old(state).windows@[i], edges),
            )
        },
        !resize_allowed(*old(state), surface) ==> r is None && final(state).windows@ == old(
            state,
        ).windows@,
{
    let i = match state.window_for_surface(surface) {
        Some(i) => i,
        None => return None,
    };
    if state.windows[i].is_tiled() || !state.is_mapped(i) {
        return None;
    }
    let ghost w0 = state.windows@[i as int];
    let initial = Rect { loc: state.windows[i].loc, size: state.windows[i].geometry.size };
    let grab = ResizeSurfaceGrab::start(
        start_location,
        &mut state.windows[i],
        i,
        edges,
        initial,
        button_used,
    );
    assert(state.windows@[i as int] == resizing_window(w0, edges));
    assert(state.windows@ =~= old(state).windows@.update(i as int, resizing_window(w0, edges)));
    proof {
        assert(old(state).windows@[i as int].offset_fits());
        lemma_update_keeps_wf(*old(state), *state, i as int);
    }
    grab
}

/// A resize asked for by the compositor itself: the grab starts where the
/// pointer is. Tiled, unmapped or unknown windows are not resized.
pub fn resize_request_server(
    state: &mut State,
    surface: u32,
    edges: ResizeEdge,
    button_used: u32,
) -> (r: Option<ResizeSurfaceGrab>)
    requires
        old(state).wf(),
    ensures
        final(state).wf(),
        final(state).same_but_windows(*old(state)),
        resize_allowed(*old(state), surface) ==> {
            let i = old(state).spec_window_for_surface(surface).unwrap();
            &&& r == Some(
                spec_resize_grab(
                    *old(state),
                    surface,
                    old(state).pointer_location,
                    edges,
                    button_used,
                ),
            )
            &&& final(state).windows@ == old(state).windows@.update(
                i,
                resizing_window(old(state).windows@[i], edges),
            )
        },
        !resize_allowed(*old(state), surface) ==> r is None && final(state).windows@ == old(
            state,
        ).windows@,
{
    let start = state.pointer_location;
    begin_resize(state, surface, start, edges, button_used)
}

/// A resize asked for by a client: it goes ahead only where the pointer holds
/// a press on the client's surface, which `start_location` gives (where that
/// press began).
pub fn resize_request_client(
    state: &mut State,
    surface: u32,
    start_location: Option<Point>,
    edges: ResizeEdge,
    button_used: u32,
) -> (r: Option<ResizeSurfaceGrab>)
    requires
        old(state).wf(),
    ensures
        final(state).wf(),
        final(state).same_but_windows(*old(state)),
        match start_location {
            Some(start) if resize_allowed(*old(state), surface) => {
                let i = old(state).spec_window_for_surface(surface).unwrap();
                &&& r == Some(spec_resize_grab(*old(state), surface, start, edges, button_used))
                &&& final(state).windows@ == old(state).windows@.update(
                    i,
                    resizing_window(old(state).windows@[i], edges),
                )
            },
            _ => r is None && final(state).windows@ == old(state).windows@,
        },
{
    match start_location {
        Some(start) => begin_resize(state, surface, start, edges, button_used),
        None => None,
    }
}

} // verus!
