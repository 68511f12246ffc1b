use vstd::prelude::*;

use crate::focus::FocusTarget;
use crate::geometry::Point;
use crate::input::InputState;
use crate::output::Output;
use crate::resize::content_top_fits;
use crate::search::{first_from, lemma_first_from};
use crate::window::WindowElement;

verus! {

/// The compositor state that the interaction core reads and changes.
#[derive(Debug)]
pub struct State {
    pub outputs: Vec<Output>,
    /// Every window, mapped or not.
    pub windows: Vec<WindowElement>,
    /// The mapped windows, as indices into `windows`, back to front.
    pub stack: Vec<usize>,
    /// Windows in the order they were focused, most recent last.
    pub focus_stack: Vec<usize>,
    /// The output that has the pointer.
    pub focused_output: Option<usize>,
    pub pointer_location: Point,
    pub keyboard_focus: Option<FocusTarget>,
    pub input_state: InputState,
}

impl State {
    /// Every index refers to an existing window or output, and the locations
    /// that focus resolution hands out fit in an `i32`.
    pub open spec fn wf(self) -> bool {
        &&& forall|k: int| 0 <= k < self.stack@.len() ==> #[trigger] self.stack@[k] < self.windows@.len()
        &&& forall|k: int|
            0 <= k < self.focus_stack@.len() ==> #[trigger] self.focus_stack@[k] < self.windows@.len()
        &&& forall|k: int| 0 <= k < self.windows@.len() ==> #[trigger] self.windows@[k].offset_fits()
        &&& forall|k: int|
            0 <= k < self.windows@.len() ==> content_top_fits(#[trigger] self.windows@[k].geometry.loc.y)
        &&& forall|o: int| 0 <= o < self.outputs@.len() ==> #[trigger] self.outputs@[o].layers_fit()
        &&& forall|o: int| 0 <= o < self.outputs@.len() ==> #[trigger] self.outputs@[o].extent_fits()
        &&& match self.focused_output {
            Some(o) => o < self.outputs@.len(),
            None => true,
        }
    }

    /// `self` and `other` differ at most in their windows.
    pub open spec fn same_but_windows(self, other: State) -> bool {
        &&& self.outputs@ == other.outputs@
        &&& self.stack@ == other.stack@
        &&& self.focus_stack@ == other.focus_stack@
        &&& self.focused_output == other.focused_output
        &&& self.pointer_location == other.pointer_location
        &&& self.keyboard_focus == other.keyboard_focus
        &&& self.input_state == other.input_state
    }

    /// `self` is well formed like `other`: the outputs, stacks and the windows'
    /// places are the same.
    pub open spec fn same_shape(self, other: State) -> bool {
        &&& self.outputs@ == other.outputs@
        &&& self.stack@ == other.stack@
        &&& self.focus_stack@ == other.focus_stack@
        &&& self.focused_output == other.focused_output
        &&& self.windows@.len() == other.windows@.len()
        &&& forall|k: int|
            0 <= k < self.windows@.len() ==> (#[trigger] self.windows@[k]).loc == other.windows@[k].loc
                && self.windows@[k].geometry == other.windows@[k].geometry
    }

    /// `self` and `other` differ at most in their stack.
    pub open spec fn same_but_stack(self, other: State) -> bool {
        &&& self.outputs@ == other.outputs@
        &&& self.windows@ == other.windows@
        &&& self.focus_stack@ == other.focus_stack@
        &&& self.focused_output == other.focused_output
        &&& self.pointer_location == other.pointer_location
        &&& self.keyboard_focus == other.keyboard_focus
        &&& self.input_state == other.input_state
    }

    /// Window `i` is mapped: it has a place in the stack.
    pub open spec fn spec_mapped(self, i: int) -> bool {
        exists|k: int| 0 <= k < self.stack@.len() && self.stack@[k] == i
    }

    pub fn is_mapped(&self, i: usize) -> (r: bool)
        ensures
            r == self.spec_mapped(i as int),
    {
        let mut k: usize = 0;
        while k < self.stack.len()
            invariant
                0 <= k <= self.stack@.len(),
                forall|k2: int| 0 <= k2 < k ==> self.stack@[k2] != i,
            decreases self.stack@.len() - k,
        {
            if self.stack[k] == i {
                assert(self.stack@[k as int] == i);
                return true;
            }
            k += 1;
        }
        false
    }

    /// Mapped window `k` of the stack has surface `surface`.
    pub open spec fn stack_surface_pred(self, surface: u32) -> spec_fn(int) -> bool {
        |k: int| self.windows@[self.stack@[k] as int].surface == Some(surface)
    }

    /// Window `i` has surface `surface`.
    pub open spec fn window_surface_pred(self, surface: u32) -> spec_fn(int) -> bool {
        |i: int| self.windows@[i].surface == Some(surface)
    }

    /// The window of `surface`: the first mapped one, back to front; failing
    /// that, the first of all windows.
    pub open spec fn spec_window_for_surface(self, surface: u32) -> Option<int> {
        match first_from(0, self.stack@.len() as int, self.stack_surface_pred(surface)) {
            Some(k) => Some(self.stack@[k] as int),
            None => first_from(0, self.windows@.len() as int, self.window_surface_pred(surface)),
        }
    }

    /// Returns the index of the window whose surface is `surface`.
    pub fn window_for_surface(&self, surface: u32) -> (r: Option<usize>)
        requires
            self.wf(),
        ensures
            match r {
                Some(i) => {
                    &&& self.spec_window_for_surface(surface) == Some(i as int)
                    &&& i < self.windows@.len()
                    &&& self.windows@[i as int].surface == Some(surface)
                },
                None => self.spec_window_for_surface(surface) is None,
            },
    {
        proof {
            lemma_first_from(0, self.stack@.len() as int, self.stack_surface_pred(surface));
            lemma_first_from(0, self.windows@.len() as int, self.window_surface_pred(surface));
        }
        let ghost sp = self.stack_surface_pred(surface);
        let mut k: usize = 0;
        while k < self.stack.len()
            invariant
                self.wf(),
                k <= self.stack@.len(),
                sp == self.stack_surface_pred(surface),
                first_from(0, self.stack@.len() as int, sp) == first_from(
                    k as int,
                    self.stack@.len() as int,
                    sp,
                ),
            decreases self.stack@.len() - k,
        {
            let i = self.stack[k];
            if self.windows[i].surface == Some(surface) {
                return Some(i);
            }
            k += 1;
        }
        let ghost wp = self.window_surface_pred(surface);
        let mut i: usize = 0;
        while i < self.windows.len()
            invariant
                i <= self.windows@.len(),
                wp == self.window_surface_pred(surface),
                sp == self.stack_surface_pred(surface),
                first_from(0, self.stack@.len() as int, sp) is None,
                first_from(0, self.windows@.len() as int, wp) == first_from(
                    i as int,
                    self.windows@.len() as int,
                    wp,
                ),
            decreases self.windows@.len() - i,
        {
            if self.windows[i].surface == Some(surface) {
                return Some(i);
            }
            i += 1;
        }
        None
    }
}

/// A state shaped like a well-formed one is well formed.
pub proof fn lemma_same_shape_wf(s0: State, s1: State)
    requires
        s0.wf(),
        s1.same_shape(s0),
    ensures
        s1.wf(),
{
    assert forall|k: int| 0 <= k < s1.windows@.len() implies #[trigger] s1.windows@[k].offset_fits()
        && content_top_fits(s1.windows@[k].geometry.loc.y) by {
        assert(s0.windows@[k].offset_fits());
        assert(content_top_fits(s0.windows@[k].geometry.loc.y));
    }
    assert forall|k: int| 0 <= k < s1.stack@.len() implies #[trigger] s1.stack@[k] < s1.windows@.len() by {
        assert(s0.stack@[k] < s0.windows@.len());
    }
    assert forall|k: int| 0 <= k < s1.focus_stack@.len() implies #[trigger] s1.focus_stack@[k] < s1.windows@.len() by {
        assert(s0.focus_stack@[k] < s0.windows@.len());
    }
    assert forall|o: int| 0 <= o < s1.outputs@.len() implies #[trigger] s1.outputs@[o].layers_fit()
        && s1.outputs@[o].extent_fits() by {
        assert(s0.outputs@[o].layers_fit());
        assert(s0.outputs@[o].extent_fits());
    }
}

} // verus!
