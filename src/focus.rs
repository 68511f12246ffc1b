use vstd::prelude::*;

use crate::geometry::Point;
use crate::search::{first_from, last_below, lemma_first_from, lemma_last_below};
use crate::state::State;

verus! {

/// What can have pointer or keyboard focus.
#[derive(Debug, Clone, Copy, PartialEq, Eq, Structural)]
pub enum FocusTarget {
    /// A window, by index into the state's windows.
    Window(usize),
    /// A layer surface, by output and index into its layers.
    LayerSurface { output: usize, layer: usize },
}

impl State {
    /// Output `o` contains `p`.
    pub open spec fn output_pred(self, p: Point) -> spec_fn(int) -> bool {
        |o: int| self.outputs@[o].geometry.spec_contains(p)
    }

    /// The window at position `k` of the focus stack is fullscreen and on an
    /// active tag.
    pub open spec fn fullscreen_pred(self) -> spec_fn(int) -> bool {
        |k: int|
            {
                let w = self.windows@[self.focus_stack@[k] as int];
                w.spec_fullscreen() && w.spec_on_active_tag(self.outputs@)
            }
    }

    /// The window at position `k` of the stack is on an active tag and its
    /// input region holds `p`.
    pub open spec fn window_pred(self, p: Point) -> spec_fn(int) -> bool {
        |k: int|
            {
                let w = self.windows@[self.stack@[k] as int];
                &&& w.spec_on_active_tag(self.outputs@)
                &&& w.spec_in_input_region(
                    p.x - w.spec_surface_origin().0,
                    p.y - w.spec_surface_origin().1,
                )
            }
    }

    /// The first output that contains `p`.
    pub open spec fn spec_output_under(self, p: Point) -> Option<int> {
        first_from(0, self.outputs@.len() as int, self.output_pred(p))
    }

    /// The most recently focused fullscreen window on an active tag, as a
    /// position in the focus stack.
    pub open spec fn spec_top_fullscreen(self) -> Option<int> {
        last_below(self.focus_stack@.len() as int, self.fullscreen_pred())
    }

    /// The topmost window under `p` on an active tag, as a position in the stack.
    pub open spec fn spec_window_under(self, p: Point) -> Option<int> {
        last_below(self.stack@.len() as int, self.window_pred(p))
    }

    /// What is under `p`, and the location of its surface origin: the
    /// fullscreen window that was focused last, if any is on an active tag;
    /// else the topmost overlay, then top-layer surface under `p`; else the
    /// topmost window on an active tag whose input region holds `p`. Nothing is
    /// under a point outside every output.
    pub open spec fn spec_surface_under(self, p: Point) -> Option<(FocusTarget, Point)> {
        match self.spec_output_under(p) {
            None => None,
            Some(o) => {
                let out = self.outputs@[o];
                match self.spec_top_fullscreen() {
                    Some(k) => Some(
                        (FocusTarget::Window(self.focus_stack@[k]), out.geometry.loc),
                    ),
                    None => match out.spec_upper_layer_under(
                        p.x - out.geometry.loc.x,
                        p.y - out.geometry.loc.y,
                    ) {
                        Some(l) => Some(
                            (
                                FocusTarget::LayerSurface { output: o as usize, layer: l as usize },
                                Point {
                                    x: (out.geometry.loc.x + out.layers@[l].geometry.loc.x) as i32,
                                    y: (out.geometry.loc.y + out.layers@[l].geometry.loc.y) as i32,
                                },
                            ),
                        ),
                        None => match self.spec_window_under(p) {
                            Some(k) => {
                                let w = self.windows@[self.stack@[k] as int];
                                Some(
                                    (
                                        FocusTarget::Window(self.stack@[k]),
                                        Point {
                                            x: w.spec_surface_origin().0 as i32,
                                            y: w.spec_surface_origin().1 as i32,
                                        },
                                    ),
                                )
                            },
                            None => None,
                        },
                    },
                }
            },
        }
    }

    pub fn output_under(&self, p: Point) -> (r: Option<usize>)
        ensures
            match r {
                Some(o) => self.spec_output_under(p) == Some(o as int),
                None => self.spec_output_under(p) is None,
            },
    {
        let ghost pred = self.output_pred(p);
        let mut o: usize = 0;
        while o < self.outputs.len()
            invariant
                o <= self.outputs@.len(),
                pred == self.output_pred(p),
                first_from(0, self.outputs@.len() as int, pred) == first_from(
                    o as int,
                    self.outputs@.len() as int,
                    pred,
                ),
            decreases self.outputs@.len() - o,
        {
            if self.outputs[o].geometry.contains(p) {
                return Some(o);
            }
            o += 1;
        }
        None
    }

    fn top_fullscreen(&self) -> (r: Option<usize>)
        requires
            self.wf(),
        ensures
            match r {
                Some(k) => self.spec_top_fullscreen() == Some(k as int),
                None => self.spec_top_fullscreen() is None,
            },
    {
        let ghost pred = self.fullscreen_pred();
        let mut k: usize = self.focus_stack.len();
        while k > 0
            invariant
                self.wf(),
                k <= self.focus_stack@.len(),
                pred == self.fullscreen_pred(),
                last_below(self.focus_stack@.len() as int, pred) == last_below(k as int, pred),
            decreases k,
        {
            let w = &self.windows[self.focus_stack[k - 1]];
            if w.is_fullscreen() && w.is_on_active_tag(&self.outputs) {
                return Some(k - 1);
            }
            k -= 1;
        }
        None
    }

    fn window_under(&self, p: Point) -> (r: Option<usize>)
        requires
            self.wf(),
        ensures
            match r {
                Some(k) => self.spec_window_under(p) == Some(k as int),
                None => self.spec_window_under(p) is None,
            },
    {
        let ghost pred = self.window_pred(p);
        let mut k: usize = self.stack.len();
        while k > 0
            invariant
                self.wf(),
                k <= self.stack@.len(),
                pred == self.window_pred(p),
                last_below(self.stack@.len() as int, pred) == last_below(k as int, pred),
            decreases k,
        {
            let w = &self.windows[self.stack[k - 1]];
            if w.is_on_active_tag(&self.outputs) {
                let ox = w.loc.x as i64 - w.geometry.loc.x as i64;
                let oy = w.loc.y as i64 - w.geometry.loc.y as i64;
                if w.is_in_input_region(p.x as i64 - ox, p.y as i64 - oy) {
                    return Some(k - 1);
                }
            }
            k -= 1;
        }
        None
    }

    /// Get the focus target under `p`, with the location of its surface origin.
    pub fn surface_under(&self, p: Point) -> (r: Option<(FocusTarget, Point)>)
        requires
            self.wf(),
        ensures
            r == self.spec_surface_under(p),
    {
        proof {
            lemma_first_from(0, self.outputs@.len() as int, self.output_pred(p));
            lemma_last_below(self.focus_stack@.len() as int, self.fullscreen_pred());
            lemma_last_below(self.stack@.len() as int, self.window_pred(p));
        }
        let o = match self.output_under(p) {
            Some(o) => o,
            None => return None,
        };
        let out = &self.outputs[o];
        if let Some(k) = self.top_fullscreen() {
            return Some((FocusTarget::Window(self.focus_stack[k]), out.geometry.loc));
        }
        let rx = p.x as i64 - out.geometry.loc.x as i64;
        let ry = p.y as i64 - out.geometry.loc.y as i64;
        proof {
            lemma_last_below(out.layers@.len() as int, out.layer_pred(crate::output::Layer::Overlay, rx as int, ry as int));
            lemma_last_below(out.layers@.len() as int, out.layer_pred(crate::output::Layer::Top, rx as int, ry as int));
        }
        if let Some(l) = out.upper_layer_under(rx, ry) {
            assert(out.layers_fit());
            let lg = out.layers[l].geometry;
            let loc = Point { x: out.geometry.loc.x + lg.loc.x, y: out.geometry.loc.y + lg.loc.y };
            return Some((FocusTarget::LayerSurface { output: o, layer: l }, loc));
        }
        match self.window_under(p) {
            Some(k) => {
                let w = &self.windows[self.stack[k]];
                assert(w.offset_fits());
                let loc = Point { x: w.loc.x - w.geometry.loc.x, y: w.loc.y - w.geometry.loc.y };
                Some((FocusTarget::Window(self.stack[k]), loc))
            },
            None => None,
        }
    }
}

/// Fullscreen content occludes everything on screen: when the window at
/// position `k` of the focus stack is fullscreen and on an active tag, whatever
/// lies under a point of an output is a fullscreen window on an active tag
/// (the one focused last), never a layer surface or a window under the point;
/// and when that window is the only such one, it is that window.
pub proof fn lemma_fullscreen_occludes(s: State, p: Point, k: int)
    requires
        s.wf(),
        0 <= k < s.focus_stack@.len(),
        s.windows@[s.focus_stack@[k] as int].spec_fullscreen(),
        s.windows@[s.focus_stack@[k] as int].spec_on_active_tag(s.outputs@),
        exists|o: int| 0 <= o < s.outputs@.len() && s.outputs@[o].geometry.spec_contains(p),
    ensures
        match s.spec_surface_under(p) {
            Some((FocusTarget::Window(w), _)) => {
                &&& s.windows@[w as int].spec_fullscreen()
                &&& s.windows@[w as int].spec_on_active_tag(s.outputs@)
                &&& (forall|j: int|
                    0 <= j < s.focus_stack@.len() && j != k ==> !(s.windows@[#[trigger] s.focus_stack@[j] as int].spec_fullscreen()
                        && s.windows@[s.focus_stack@[j] as int].spec_on_active_tag(s.outputs@)))
                    ==> w == s.focus_stack@[k]
            },
            _ => false,
        },
{
    lemma_first_from(0, s.outputs@.len() as int, s.output_pred(p));
    lemma_last_below(s.focus_stack@.len() as int, s.fullscreen_pred());
    let o = choose|o: int| 0 <= o < s.outputs@.len() && s.outputs@[o].geometry.spec_contains(p);
    assert((s.output_pred(p))(o));
    assert((s.fullscreen_pred())(k));
}

} // verus!
