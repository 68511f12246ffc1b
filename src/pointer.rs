use vstd::prelude::*;

use crate::focus::FocusTarget;
use crate::geometry::Point;
use crate::input::{lookup, mouse_chord, KeyAction, ModifierMask, ModifiersState, MouseEdge};
use crate::msg::CallbackId;
use crate::output::Output;
use crate::state::{lemma_same_shape_wf, State};
use crate::window::{WindowElement, WindowElementState, WindowKind};

verus! {

/// `v` brought into `[lo, hi]`.
pub open spec fn clamp_int(v: int, lo: int, hi: int) -> int {
    if v < lo {
        lo
    } else if v > hi {
        hi
    } else {
        v
    }
}

/// The last coordinate inside a span that starts at `lo` and is `len` long
/// (the start itself for an empty span).
pub open spec fn last_inside(lo: int, len: int) -> int {
    if len > 0 {
        lo + len - 1
    } else {
        lo
    }
}

/// The point of output `o` nearest to `(x, y)`.
pub open spec fn nearest_on(o: Output, x: int, y: int) -> (int, int) {
    (
        clamp_int(x, o.geometry.loc.x as int, last_inside(o.geometry.loc.x as int, o.geometry.size.w as int)),
        clamp_int(y, o.geometry.loc.y as int, last_inside(o.geometry.loc.y as int, o.geometry.size.h as int)),
    )
}

/// The squared distance from `(x, y)` to output `o`.
pub open spec fn distance_sq(o: Output, x: int, y: int) -> int {
    let (nx, ny) = nearest_on(o, x, y);
    (x - nx) * (x - nx) + (y - ny) * (y - ny)
}

/// The first of the first `n` outputs nearest to `(x, y)`.
pub open spec fn nearest_output(outputs: Seq<Output>, n: int, x: int, y: int) -> int
    decreases n,
{
    if n <= 1 {
        0
    } else {
        let k = nearest_output(outputs, n - 1, x, y);
        if distance_sq(outputs[n - 1], x, y) < distance_sq(outputs[k], x, y) {
            n - 1
        } else {
            k
        }
    }
}

/// `(x, y)` kept inside the outputs: the nearest point of the nearest output
/// (the first, between equals). With no output, the point is left as it is.
pub open spec fn spec_clamp_coords(outputs: Seq<Output>, x: int, y: int) -> (int, int) {
    if outputs.len() == 0 {
        (x, y)
    } else {
        nearest_on(outputs[nearest_output(outputs, outputs.len() as int, x, y)], x, y)
    }
}

proof fn lemma_nearest_output_in_range(outputs: Seq<Output>, n: int, x: int, y: int)
    requires
        1 <= n,
    ensures
        0 <= nearest_output(outputs, n, x, y) < n,
    decreases n,
{
    if n > 1 {
        lemma_nearest_output_in_range(outputs, n - 1, x, y);
    }
}

/// The nearest point lies in the nearest output, and so is the point itself
/// wherever it lies in some output.
pub proof fn lemma_clamp_inside(outputs: Seq<Output>, x: int, y: int, o: int)
    requires
        0 <= o < outputs.len(),
        forall|k: int| 0 <= k < outputs.len() ==> #[trigger] outputs[k].extent_fits(),
        outputs[o].geometry.spec_contains_int(x, y),
    ensures
        spec_clamp_coords(outputs, x, y) == (x, y),
{
    lemma_nearest_output_in_range(outputs, outputs.len() as int, x, y);
    lemma_nearest_is_least(outputs, outputs.len() as int, x, y, o);
    let k = nearest_output(outputs, outputs.len() as int, x, y);
    assert(nearest_on(outputs[o], x, y) == (x, y));
    assert(distance_sq(outputs[o], x, y) == 0) by (nonlinear_arith)
        requires
            nearest_on(outputs[o], x, y) == (x, y),
            distance_sq(outputs[o], x, y) == (x - nearest_on(outputs[o], x, y).0) * (x - nearest_on(outputs[o], x, y).0)
                + (y - nearest_on(outputs[o], x, y).1) * (y - nearest_on(outputs[o], x, y).1),
    ;
    let (nx, ny) = nearest_on(outputs[k], x, y);
    assert((x - nx) * (x - nx) >= 0) by (nonlinear_arith);
    assert((y - ny) * (y - ny) >= 0) by (nonlinear_arith);
    assert(x - nx == 0) by (nonlinear_arith)
        requires
            (x - nx) * (x - nx) + (y - ny) * (y - ny) <= 0,
            (y - ny) * (y - ny) >= 0,
    ;
    assert(y - ny == 0) by (nonlinear_arith)
        requires
            (x - nx) * (x - nx) + (y - ny) * (y - ny) <= 0,
            (x - nx) * (x - nx) >= 0,
    ;
}

/// Where the nearest output is not empty, the clamped point lies in it: the
/// pointer is never left outside every output.
pub proof fn lemma_clamp_lands_inside(outputs: Seq<Output>, x: int, y: int)
    requires
        outputs.len() > 0,
        ({
            let o = outputs[nearest_output(outputs, outputs.len() as int, x, y)];
            o.geometry.size.w > 0 && o.geometry.size.h > 0
        }),
    ensures
        ({
            let k = nearest_output(outputs, outputs.len() as int, x, y);
            let (cx, cy) = spec_clamp_coords(outputs, x, y);
            &&& 0 <= k < outputs.len()
            &&& outputs[k].geometry.spec_contains_int(cx, cy)
        }),
{
    lemma_nearest_output_in_range(outputs, outputs.len() as int, x, y);
}

proof fn lemma_nearest_is_least(outputs: Seq<Output>, n: int, x: int, y: int, o: int)
    requires
        0 <= o < n,
    ensures
        distance_sq(outputs[nearest_output(outputs, n, x, y)], x, y) <= distance_sq(outputs[o], x, y),
    decreases n,
{
    if n > 1 {
        if o < n - 1 {
            lemma_nearest_is_least(outputs, n - 1, x, y, o);
        } else {
            lemma_nearest_output_in_range(outputs, n - 1, x, y);
        }
    }
}

/// The output that has the pointer after it moved to `loc`: the first output
/// under it, if any, else the one that had it; the first output if none had.
pub open spec fn spec_focused_output_after(s: State, loc: Point) -> Option<usize> {
    match s.focused_output {
        Some(f) => match s.spec_output_under(loc) {
            Some(o) => Some(o as usize),
            None => Some(f),
        },
        None => if s.outputs@.len() > 0 {
            Some(0usize)
        } else {
            None
        },
    }
}

/// Any window but `w`.
pub open spec fn other_than(w: usize) -> spec_fn(usize) -> bool {
    |x: usize| x != w
}

/// `s1` is `s0` with the pointer moved to `loc`: the output under it has the
/// pointer, and `r` is what lies under it.
pub open spec fn pointer_moved(s0: State, s1: State, loc: Point, r: Option<(FocusTarget, Point)>) -> bool {
    &&& s1.pointer_location == loc
    &&& s1.focused_output == spec_focused_output_after(s0, loc)
    &&& r == s1.spec_surface_under(loc)
    &&& s1.outputs@ == s0.outputs@
    &&& s1.windows@ == s0.windows@
    &&& s1.stack@ == s0.stack@
    &&& s1.focus_stack@ == s0.focus_stack@
    &&& s1.keyboard_focus == s0.keyboard_focus
    &&& s1.input_state == s0.input_state
}

/// The stack with window `w` moved to the top, if it is in it.
pub open spec fn raised(stack: Seq<usize>, w: usize) -> Seq<usize> {
    if stack.contains(w) {
        stack.filter(other_than(w)).push(w)
    } else {
        stack
    }
}

/// `w` with its activated flag set to `on`.
pub open spec fn with_activated(w: WindowElement, on: bool) -> WindowElement {
    WindowElement { state: WindowElementState { activated: on, ..w.state }, ..w }
}

/// `w` after a click on nothing: no longer drawn active, unless it is an
/// override-redirect window, which is left alone.
pub open spec fn deactivated(w: WindowElement) -> WindowElement {
    if w.kind == WindowKind::X11OverrideRedirect {
        w
    } else {
        with_activated(w, false)
    }
}

impl State {
    pub fn clamp_coords(&self, pos: Point) -> (r: Point)
        requires
            self.wf(),
        ensures
            (r.x as int, r.y as int) == spec_clamp_coords(self.outputs@, pos.x as int, pos.y as int),
    {
        if self.outputs.len() == 0 {
            return pos;
        }
        let x = pos.x as i64;
        let y = pos.y as i64;
        let mut best: usize = 0;
        let mut best_x: i64 = 0;
        let mut best_y: i64 = 0;
        let mut best_d: i128 = 0;
        let mut k: usize = 0;
        while k < self.outputs.len()
            invariant
                self.wf(),
                self.outputs@.len() > 0,
                x == pos.x,
                y == pos.y,
                0 <= k <= self.outputs@.len(),
                k > 0 ==> best == nearest_output(self.outputs@, k as int, x as int, y as int),
                k > 0 ==> (best_x as int, best_y as int) == nearest_on(
                    self.outputs@[best as int],
                    x as int,
                    y as int,
                ),
                k > 0 ==> best_d == distance_sq(self.outputs@[best as int], x as int, y as int),
                k > 0 ==> best < k,
            decreases self.outputs@.len() - k,
        {
            let g = self.outputs[k].geometry;
            assert(self.outputs@[k as int].extent_fits());
            let lo_x = g.loc.x as i64;
            let hi_x = if g.size.w > 0 { g.loc.x as i64 + g.size.w as i64 - 1 } else { lo_x };
            let lo_y = g.loc.y as i64;
            let hi_y = if g.size.h > 0 { g.loc.y as i64 + g.size.h as i64 - 1 } else { lo_y };
            let nx: i64 = if x < lo_x {
                lo_x
            } else if x > hi_x {
                hi_x
            } else {
                x
            };
            let ny: i64 = if y < lo_y {
                lo_y
            } else if y > hi_y {
                hi_y
            } else {
                y
            };
            let ddx = (x - nx) as i128;
            let ddy = (y - ny) as i128;
            assert(-0x1_0000_0000 <= ddx <= 0x1_0000_0000);
            assert(-0x1_0000_0000 <= ddy <= 0x1_0000_0000);
            assert(0 <= ddx * ddx <= 0x1_0000_0000_0000_0000) by (nonlinear_arith)
                requires
                    -0x1_0000_0000 <= ddx <= 0x1_0000_0000,
            ;
            assert(0 <= ddy * ddy <= 0x1_0000_0000_0000_0000) by (nonlinear_arith)
                requires
                    -0x1_0000_0000 <= ddy <= 0x1_0000_0000,
            ;
            let d = ddx * ddx + ddy * ddy;
            if k == 0 || d < best_d {
                best = k;
                best_x = nx;
                best_y = ny;
                best_d = d;
            }
            k += 1;
        }
        proof {
            assert(self.outputs@[best as int].extent_fits());
        }
        Point { x: best_x as i32, y: best_y as i32 }
    }

    /// Update which output has the pointer, now at `loc`.
    fn update_focused_output(&mut self, loc: Point)
        requires
            old(self).wf(),
        ensures
            final(self).wf(),
            final(self).focused_output == spec_focused_output_after(*old(self), loc),
            final(self).outputs@ == old(self).outputs@,
            final(self).windows@ == old(self).windows@,
            final(self).stack@ == old(self).stack@,
            final(self).focus_stack@ == old(self).focus_stack@,
            final(self).pointer_location == old(self).pointer_location,
            final(self).keyboard_focus == old(self).keyboard_focus,
            final(self).input_state == old(self).input_state,
    {
        proof {
            crate::search::lemma_first_from(0, self.outputs@.len() as int, self.output_pred(loc));
        }
        match self.focused_output {
            Some(_) => {
                if let Some(o) = self.output_under(loc) {
                    self.focused_output = Some(o);
                }
            },
            None => {
                if self.outputs.len() > 0 {
                    self.focused_output = Some(0);
                }
            },
        }
    }

    /// The pointer moved by `(dx, dy)`: it goes there, kept inside the outputs,
    /// and the output under it takes the pointer. Hands back what is now under
    /// the pointer, to which the motion goes.
    pub fn pointer_motion(&mut self, dx: i32, dy: i32) -> (r: Option<(FocusTarget, Point)>)
        requires
            old(self).wf(),
            i32::MIN <= old(self).pointer_location.x + dx <= i32::MAX,
            i32::MIN <= old(self).pointer_location.y + dy <= i32::MAX,
        ensures
            final(self).wf(),
            (final(self).pointer_location.x as int, final(self).pointer_location.y as int)
                == spec_clamp_coords(
                old(self).outputs@,
                old(self).pointer_location.x + dx,
                old(self).pointer_location.y + dy,
            ),
            pointer_moved(*old(self), *final(self), final(self).pointer_location, r),
    {
        let moved = Point { x: self.pointer_location.x + dx, y: self.pointer_location.y + dy };
        let loc = self.clamp_coords(moved);
        self.pointer_location = loc;
        self.update_focused_output(loc);
        self.surface_under(loc)
    }

    /// The pointer was put at `(x, y)` within the first output (the backend
    /// has scaled it to that output's size). With no output, nothing happens.
    pub fn pointer_motion_absolute(&mut self, x: i32, y: i32) -> (r: Option<(FocusTarget, Point)>)
        requires
            old(self).wf(),
            old(self).outputs@.len() > 0 ==> {
                &&& i32::MIN <= old(self).outputs@[0].geometry.loc.x + x <= i32::MAX
                &&& i32::MIN <= old(self).outputs@[0].geometry.loc.y + y <= i32::MAX
            },
        ensures
            final(self).wf(),
            old(self).outputs@.len() == 0 ==> r is None && *final(self) == *old(self),
            old(self).outputs@.len() > 0 ==> pointer_moved(
                *old(self),
                *final(self),
                Point {
                    x: (old(self).outputs@[0].geometry.loc.x + x) as i32,
                    y: (old(self).outputs@[0].geometry.loc.y + y) as i32,
                },
                r,
            ),
    {
        if self.outputs.len() == 0 {
            return None;
        }
        let g = self.outputs[0].geometry;
        let loc = Point { x: g.loc.x + x, y: g.loc.y + y };
        self.pointer_location = loc;
        self.update_focused_output(loc);
        self.surface_under(loc)
    }
}

impl State {
    /// Move window `w` to the top of the stack, if it is mapped.
    pub fn raise_window(&mut self, w: usize)
        requires
            old(self).wf(),
        ensures
            final(self).wf(),
            final(self).stack@ == raised(old(self).stack@, w),
            final(self).same_but_stack(*old(self)),
    {
        if !self.is_mapped(w) {
            return;
        }
        let ghost pred = other_than(w);
        let mut kept: Vec<usize> = Vec::new();
        let mut k: usize = 0;
        while k < self.stack.len()
            invariant
                0 <= k <= self.stack@.len(),
                kept@ == self.stack@.subrange(0, k as int).filter(pred),
                pred == other_than(w),
            decreases self.stack@.len() - k,
        {
            proof {
                let s = self.stack@.subrange(0, k as int + 1);
                assert(s.drop_last() =~= self.stack@.subrange(0, k as int));
                reveal(Seq::filter);
            }
            if self.stack[k] != w {
                kept.push(self.stack[k]);
            }
            proof {
                let s = self.stack@.subrange(0, k as int + 1);
                assert(s.filter(pred) =~= kept@);
            }
            k += 1;
        }
        assert(self.stack@.subrange(0, self.stack@.len() as int) =~= self.stack@);
        kept.push(w);
        let ghost old_stack = self.stack@;
        proof {
            assert forall|j: int| 0 <= j < kept@.len() implies #[trigger] kept@[j]
                < self.windows@.len() by {
                if j < kept@.len() - 1 {
                    let f = old_stack.filter(pred);
                    assert(f.contains(kept@[j]));
                    old_stack.lemma_filter_contains_rev(pred, kept@[j]);
                } else {
                    let k = choose|k: int| 0 <= k < old_stack.len() && old_stack[k] == w;
                    assert(old_stack[k] < self.windows@.len());
                }
            }
        }
        self.stack = kept;
    }

    /// The windows, each with `deactivated` applied.
    fn deactivate_all(&mut self)
        requires
            old(self).wf(),
        ensures
            final(self).wf(),
            final(self).same_but_windows(*old(self)),
            final(self).windows@.len() == old(self).windows@.len(),
            forall|k: int|
                0 <= k < old(self).windows@.len() ==> final(self).windows@[k] == deactivated(
                    #[trigger] old(self).windows@[k],
                ),
    {
        let mut k: usize = 0;
        while k < self.windows.len()
            invariant
                0 <= k <= self.windows@.len(),
                self.windows@.len() == old(self).windows@.len(),
                self.same_but_windows(*old(self)),
                forall|j: int| 0 <= j < k ==> self.windows@[j] == deactivated(#[trigger] old(self).windows@[j]),
                forall|j: int| k <= j < self.windows@.len() ==> self.windows@[j] == old(self).windows@[j],
            decreases self.windows@.len() - k,
        {
            if !self.windows[k].is_x11_override_redirect() {
                self.windows[k].state.activated = false;
            }
            k += 1;
        }
        proof {
            lemma_same_shape_wf(*old(self), *self);
        }
    }

    /// A pointer button changed. A mousebinding of the chord wins: its callback
    /// is handed back and nothing else happens. Otherwise a press raises the
    /// window under the pointer and gives keyboard focus to what is under it
    /// (never to an override-redirect window); a press on nothing clears the
    /// keyboard focus and deactivates every window.
    pub fn pointer_button(&mut self, button: u32, pressed: bool, mods: ModifierMask) -> (r: Option<
        CallbackId,
    >)
        requires
            old(self).wf(),
        ensures
            final(self).wf(),
            ({
                let edge = if pressed {
                    MouseEdge::Press
                } else {
                    MouseEdge::Release
                };
                let bound = lookup(old(self).input_state.mousebinds@, mouse_chord(mods, button, edge));
                &&& r == bound
                &&& (bound is Some || !pressed) ==> *final(self) == *old(self)
                &&& (bound is None && pressed) ==> click_effect(
                    *old(self),
                    *final(self),
                    old(self).spec_surface_under(old(self).pointer_location),
                )
            }),
    {
        let edge = if pressed {
            MouseEdge::Press
        } else {
            MouseEdge::Release
        };
        if let Some(cb) = self.input_state.mousebind(mods, button, edge) {
            return Some(cb);
        }
        if !pressed {
            return None;
        }
        let loc = self.pointer_location;
        match self.surface_under(loc) {
            Some((FocusTarget::Window(w), _)) => {
                proof {
                    crate::search::lemma_last_below(self.focus_stack@.len() as int, self.fullscreen_pred());
                    crate::search::lemma_last_below(self.stack@.len() as int, self.window_pred(loc));
                }
                assert(w < self.windows@.len());
                let ghost s0 = *self;
                self.raise_window(w);
                let kind = self.windows[w].kind;
                if let WindowKind::X11 = kind {
                    let ghost s1 = *self;
                    self.windows[w].state.activated = true;
                    proof {
                        assert(self.windows@ =~= s1.windows@.update(w as int, with_activated(s1.windows@[w as int], true)));
                        lemma_same_shape_wf(s1, *self);
                    }
                }
                if !matches!(kind, WindowKind::X11OverrideRedirect) {
                    self.keyboard_focus = Some(FocusTarget::Window(w));
                }
            },
            Some((target, _)) => {
                self.keyboard_focus = Some(target);
            },
            None => {
                self.deactivate_all();
                self.keyboard_focus = None;
            },
        }
        None
    }
}

/// What a press with no mousebinding does to `s0`, giving `s1`, when `under`
/// is what lies under the pointer.
pub open spec fn click_effect(s0: State, s1: State, under: Option<(FocusTarget, Point)>) -> bool {
    &&& s1.outputs@ == s0.outputs@
    &&& s1.focus_stack@ == s0.focus_stack@
    &&& s1.focused_output == s0.focused_output
    &&& s1.pointer_location == s0.pointer_location
    &&& s1.input_state == s0.input_state
    &&& match under {
        Some((FocusTarget::Window(w), _)) => {
            let win = s0.windows@[w as int];
            &&& s1.stack@ == raised(s0.stack@, w)
            &&& s1.windows@ == if win.kind == WindowKind::X11 {
                s0.windows@.update(w as int, with_activated(win, true))
            } else {
                s0.windows@
            }
            &&& s1.keyboard_focus == if win.kind == WindowKind::X11OverrideRedirect {
                s0.keyboard_focus
            } else {
                Some(FocusTarget::Window(w))
            }
        },
        Some((target, _)) => {
            &&& s1.stack@ == s0.stack@
            &&& s1.windows@ == s0.windows@
            &&& s1.keyboard_focus == Some(target)
        },
        None => {
            &&& s1.stack@ == s0.stack@
            &&& s1.keyboard_focus is None
            &&& s1.windows@.len() == s0.windows@.len()
            &&& forall|k: int|
                0 <= k < s0.windows@.len() ==> s1.windows@[k] == deactivated(#[trigger] s0.windows@[k])
        },
    }
}

/// A raw input event, as the backend reports it.
#[derive(Debug, Clone, Copy, PartialEq, Eq, Structural)]
pub enum InputEvent {
    /// A key changed: the keysym it produces with the modifiers applied, and
    /// its first unmodified keysym, if any.
    Keyboard { pressed: bool, mod_sym: u32, raw_sym: Option<u32> },
    /// The pointer moved by a delta.
    PointerMotion { dx: i32, dy: i32 },
    /// The pointer was put at a point of the first output, scaled to its size.
    PointerMotionAbsolute { x: i32, y: i32 },
    PointerButton { button: u32, pressed: bool },
    /// A scroll; its amounts go to the focused client as they are.
    PointerAxis,
}

/// What the router made of an event.
#[derive(Debug, Clone, Copy, PartialEq, Eq)]
pub enum InputOutcome {
    /// A key event: the action that takes it, or `None` to forward it to the
    /// surface with keyboard focus.
    Key(Option<KeyAction>),
    /// A motion: what lies under the pointer now, which gets the motion.
    Pointer(Option<(FocusTarget, Point)>),
    /// A button: the callback of the mousebinding it fired, if any. The button
    /// is forwarded to the pointer's focus either way.
    Button(Option<CallbackId>),
    /// A scroll, forwarded as it is.
    Axis,
    /// A motion to a location that does not fit the coordinate space.
    Ignored,
}

impl State {
    /// Route one input event, with the keyboard's modifiers as they are now.
    pub fn process_input_event(&mut self, event: InputEvent, modifiers: ModifiersState) -> (r:
        InputOutcome)
        requires
            old(self).wf(),
        ensures
            final(self).wf(),
            ({
                let mods = ModifierMask {
                    shift: modifiers.shift,
                    ctrl: modifiers.ctrl,
                    alt: modifiers.alt,
                    super_key: modifiers.logo,
                };
                let s0 = *old(self);
                let s1 = *final(self);
                match event {
                    InputEvent::Keyboard { pressed, mod_sym, raw_sym } => {
                        &&& r == InputOutcome::Key(
                            s0.input_state.spec_key_action(pressed, mods, mod_sym, raw_sym),
                        )
                        &&& s1 == s0
                    },
                    InputEvent::PointerMotion { dx, dy } => {
                        let x = s0.pointer_location.x + dx;
                        let y = s0.pointer_location.y + dy;
                        if i32::MIN <= x <= i32::MAX && i32::MIN <= y <= i32::MAX {
                            &&& (s1.pointer_location.x as int, s1.pointer_location.y as int)
                                == spec_clamp_coords(s0.outputs@, x, y)
                            &&& r matches InputOutcome::Pointer(under)
                            &&& pointer_moved(s0, s1, s1.pointer_location, under)
                        } else {
                            r == InputOutcome::Ignored && s1 == s0
                        }
                    },
                    InputEvent::PointerMotionAbsolute { x, y } => {
                        if s0.outputs@.len() == 0 {
                            r == InputOutcome::Pointer(None) && s1 == s0
                        } else {
                            let gx = s0.outputs@[0].geometry.loc.x + x;
                            let gy = s0.outputs@[0].geometry.loc.y + y;
                            if i32::MIN <= gx <= i32::MAX && i32::MIN <= gy <= i32::MAX {
                                &&& r matches InputOutcome::Pointer(under)
                                &&& pointer_moved(
                                    s0,
                                    s1,
                                    Point { x: gx as i32, y: gy as i32 },
                                    under,
                                )
                            } else {
                                r == InputOutcome::Ignored && s1 == s0
                            }
                        }
                    },
                    InputEvent::PointerButton { button, pressed } => {
                        let edge = if pressed {
                            MouseEdge::Press
                        } else {
                            MouseEdge::Release
                        };
                        let bound = lookup(s0.input_state.mousebinds@, mouse_chord(mods, button, edge));
                        &&& r == InputOutcome::Button(bound)
                        &&& (bound is Some || !pressed) ==> s1 == s0
                        &&& (bound is None && pressed) ==> click_effect(
                            s0,
                            s1,
                            s0.spec_surface_under(s0.pointer_location),
                        )
                    },
                    InputEvent::PointerAxis => r == InputOutcome::Axis && s1 == s0,
                }
            }),
    {
        let mods = ModifierMask::from_state(modifiers);
        match event {
            InputEvent::Keyboard { pressed, mod_sym, raw_sym } => {
                InputOutcome::Key(self.input_state.key_action(pressed, mods, mod_sym, raw_sym))
            },
            InputEvent::PointerMotion { dx, dy } => {
                let x = self.pointer_location.x as i64 + dx as i64;
                let y = self.pointer_location.y as i64 + dy as i64;
                if i32::MIN as i64 <= x && x <= i32::MAX as i64 && i32::MIN as i64 <= y && y
                    <= i32::MAX as i64 {
                    InputOutcome::Pointer(self.pointer_motion(dx, dy))
                } else {
                    InputOutcome::Ignored
                }
            },
            InputEvent::PointerMotionAbsolute { x, y } => {
                if self.outputs.len() == 0 {
                    return InputOutcome::Pointer(None);
                }
                let g = self.outputs[0].geometry;
                let gx = g.loc.x as i64 + x as i64;
                let gy = g.loc.y as i64 + y as i64;
                if i32::MIN as i64 <= gx && gx <= i32::MAX as i64 && i32::MIN as i64 <= gy && gy
                    <= i32::MAX as i64 {
                    InputOutcome::Pointer(self.pointer_motion_absolute(x, y))
                } else {
                    InputOutcome::Ignored
                }
            },
            InputEvent::PointerButton { button, pressed } => {
                InputOutcome::Button(self.pointer_button(button, pressed, mods))
            },
            InputEvent::PointerAxis => InputOutcome::Axis,
        }
    }
}

} // verus!
