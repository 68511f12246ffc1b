use vstd::prelude::*;

use crate::geometry::{Point, Rect, Size};
use crate::output::Output;
use crate::resize::ResizeSurfaceState;
use crate::tag::{counter_iter, lemma_counter_from_zero, Tag, TagId, TagView};

verus! {

/// The kinds of windows.
#[derive(Debug, Clone, Copy, PartialEq, Eq, Structural)]
pub enum WindowKind {
    /// A native Wayland window.
    Wayland,
    /// An Xwayland window.
    X11,
    /// An Xwayland override-redirect window, which is never focused or tiled.
    X11OverrideRedirect,
}

/// Whether a window floats (with its floating rectangle) or is tiled.
#[derive(Debug, Clone, Copy, PartialEq, Eq, Structural)]
pub enum Status {
    Floating(Rect),
    Tiled(Option<Rect>),
}

#[derive(Debug, Clone, Copy, PartialEq, Eq, Structural)]
pub enum FullscreenOrMaximized {
    Neither,
    Fullscreen,
    Maximized,
}

/// Where a location change sent to a window stands.
#[derive(Debug, Clone, Copy, PartialEq, Eq, Structural)]
pub enum LocationRequestState {
    Idle,
    Sent(Point),
    Acknowledged(Point),
}

/// What the compositor keeps about a window.
#[derive(Debug)]
pub struct WindowElementState {
    /// The ids of the window's tags.
    pub tags: Vec<TagId>,
    pub status: Status,
    pub fullscreen_or_maximized: FullscreenOrMaximized,
    pub resize_state: ResizeSurfaceState,
    pub loc_request_state: LocationRequestState,
    /// The size last asked of the window's surface, if any.
    pub requested_size: Option<Size>,
    /// Whether the window is drawn as the active one.
    pub activated: bool,
}

/// A window, as the interaction core sees it.
#[derive(Debug)]
pub struct WindowElement {
    pub kind: WindowKind,
    /// The id of the window's surface; an Xwayland window may have none yet.
    pub surface: Option<u32>,
    pub alive: bool,
    pub class: Option<String>,
    pub title: Option<String>,
    /// The window's geometry relative to its surface: `loc` is the offset of
    /// the content (negative where the client draws decorations), `size` the
    /// size it last committed.
    pub geometry: Rect,
    /// The input region, in surface-local coordinates.
    pub input_region: Vec<Rect>,
    /// The minimum and maximum size the surface declares; 0 means no bound.
    pub min_size: Size,
    pub max_size: Size,
    /// The window's location in the global space.
    pub loc: Point,
    pub state: WindowElementState,
}

impl WindowElementState {
    pub fn new() -> (r: WindowElementState)
        ensures
            r.tags@.len() == 0,
            r.status == Status::Floating(
                Rect { loc: Point { x: 0, y: 0 }, size: Size { w: 0, h: 0 } },
            ),
            r.fullscreen_or_maximized == FullscreenOrMaximized::Neither,
            r.resize_state == ResizeSurfaceState::Idle,
            r.loc_request_state == LocationRequestState::Idle,
            r.requested_size.is_none(),
            !r.activated,
    {
        WindowElementState {
            tags: Vec::new(),
            status: Status::Floating(Rect { loc: Point { x: 0, y: 0 }, size: Size { w: 0, h: 0 } }),
            fullscreen_or_maximized: FullscreenOrMaximized::Neither,
            resize_state: ResizeSurfaceState::Idle,
            loc_request_state: LocationRequestState::Idle,
            requested_size: None,
            activated: false,
        }
    }
}

/// The tags a window placed on `output` gets: the output's active tags; else
/// its first tag; else none.
pub open spec fn placement_tags(output: Output) -> Seq<TagId> {
    if output.spec_focused_tags().len() > 0 {
        output.spec_focused_tags()
    } else if output.tags@.len() > 0 {
        seq![output.tags@[0]@.id]
    } else {
        seq![]
    }
}

impl WindowElement {
    /// `self` and `other` are the same surface: they differ at most in the
    /// compositor's state.
    pub open spec fn same_surface(self, other: WindowElement) -> bool {
        &&& self.kind == other.kind
        &&& self.surface == other.surface
        &&& self.alive == other.alive
        &&& self.class == other.class
        &&& self.title == other.title
        &&& self.geometry == other.geometry
        &&& self.input_region@ == other.input_region@
        &&& self.min_size == other.min_size
        &&& self.max_size == other.max_size
        &&& self.loc == other.loc
    }

    /// One of the window's tags is an active tag of one of `outputs`.
    pub open spec fn spec_on_active_tag(self, outputs: Seq<Output>) -> bool {
        exists|k: int, o: int|
            0 <= k < self.state.tags@.len() && 0 <= o < outputs.len() && #[trigger] outputs[o].shows_tag(
                #[trigger] self.state.tags@[k],
            )
    }

    /// Where the window's surface origin stands: its location less the
    /// content offset.
    pub open spec fn spec_surface_origin(self) -> (int, int) {
        (self.loc.x - self.geometry.loc.x, self.loc.y - self.geometry.loc.y)
    }

    /// The surface origin fits in an `i32`.
    pub open spec fn offset_fits(self) -> bool {
        &&& i32::MIN <= self.spec_surface_origin().0 <= i32::MAX
        &&& i32::MIN <= self.spec_surface_origin().1 <= i32::MAX
    }

    pub open spec fn spec_tiled(self) -> bool {
        self.state.status is Tiled
    }

    pub open spec fn spec_fullscreen(self) -> bool {
        self.state.fullscreen_or_maximized == FullscreenOrMaximized::Fullscreen
    }

    /// The point `(x, y)`, relative to the surface, lies in the input region.
    pub open spec fn spec_in_input_region(self, x: int, y: int) -> bool {
        exists|k: int| 0 <= k < self.input_region@.len() && #[trigger] self.input_region@[k].spec_contains_int(x, y)
    }

    pub fn is_in_input_region(&self, x: i64, y: i64) -> (r: bool)
        ensures
            r == self.spec_in_input_region(x as int, y as int),
    {
        let mut k: usize = 0;
        while k < self.input_region.len()
            invariant
                0 <= k <= self.input_region@.len(),
                forall|k2: int| 0 <= k2 < k ==> !#[trigger] self.input_region@[k2].spec_contains_int(x as int, y as int),
            decreases self.input_region@.len() - k,
        {
            if self.input_region[k].contains_at(x, y) {
                return true;
            }
            k += 1;
        }
        false
    }

    pub fn is_wayland(&self) -> (r: bool)
        ensures
            r == (self.kind == WindowKind::Wayland),
    {
        matches!(self.kind, WindowKind::Wayland)
    }

    pub fn is_x11(&self) -> (r: bool)
        ensures
            r == (self.kind == WindowKind::X11),
    {
        matches!(self.kind, WindowKind::X11)
    }

    pub fn is_x11_override_redirect(&self) -> (r: bool)
        ensures
            r == (self.kind == WindowKind::X11OverrideRedirect),
    {
        matches!(self.kind, WindowKind::X11OverrideRedirect)
    }

    pub fn is_tiled(&self) -> (r: bool)
        ensures
            r == self.spec_tiled(),
    {
        matches!(self.state.status, Status::Tiled(_))
    }

    pub fn is_fullscreen(&self) -> (r: bool)
        ensures
            r == self.spec_fullscreen(),
    {
        matches!(self.state.fullscreen_or_maximized, FullscreenOrMaximized::Fullscreen)
    }

    pub fn class(&self) -> (r: Option<String>)
        ensures
            r == self.class,
    {
        match &self.class {
            Some(c) => Some(c.clone()),
            None => None,
        }
    }

    pub fn title(&self) -> (r: Option<String>)
        ensures
            r == self.title,
    {
        match &self.title {
            Some(t) => Some(t.clone()),
            None => None,
        }
    }

    /// Whether `tag` is one of the window's tags. Tags are told apart by id,
    /// so a tag rebuilt with the same id counts as the same tag.
    pub fn has_tag(&self, tag: &Tag) -> (r: bool)
        ensures
            r == self.state.tags@.contains(tag@.id),
    {
        let id = tag.id();
        let mut k: usize = 0;
        while k < self.state.tags.len()
            invariant
                0 <= k <= self.state.tags@.len(),
                id == tag@.id,
                forall|k2: int| 0 <= k2 < k ==> self.state.tags@[k2] != id,
            decreases self.state.tags@.len() - k,
        {
            if self.state.tags[k] == id {
                assert(self.state.tags@[k as int] == id);
                return true;
            }
            k += 1;
        }
        false
    }

    /// Whether one of the window's tags is an active tag of one of `outputs`.
    pub fn is_on_active_tag(&self, outputs: &Vec<Output>) -> (r: bool)
        ensures
            r == self.spec_on_active_tag(outputs@),
    {
        let mut k: usize = 0;
        while k < self.state.tags.len()
            invariant
                0 <= k <= self.state.tags@.len(),
                forall|k2: int, o2: int|
                    0 <= k2 < k && 0 <= o2 < outputs@.len() ==> !#[trigger] outputs@[o2].shows_tag(
                        #[trigger] self.state.tags@[k2],
                    ),
            decreases self.state.tags@.len() - k,
        {
            let mut o: usize = 0;
            while o < outputs.len()
                invariant
                    0 <= k < self.state.tags@.len(),
                    0 <= o <= outputs@.len(),
                    forall|k2: int, o2: int|
                        0 <= k2 < k && 0 <= o2 < outputs@.len() ==> !#[trigger] outputs@[o2].shows_tag(
                            #[trigger] self.state.tags@[k2],
                        ),
                    forall|o2: int| 0 <= o2 < o ==> !#[trigger] outputs@[o2].shows_tag(self.state.tags@[k as int]),
                decreases outputs@.len() - o,
            {
                if outputs[o].has_active_tag(self.state.tags[k]) {
                    return true;
                }
                o += 1;
            }
            k += 1;
        }
        false
    }

    /// The index of the output the window is on: the first output that holds
    /// the window's first tag.
    pub fn output(&self, outputs: &Vec<Output>) -> (r: Option<usize>)
        ensures
            match r {
                Some(i) => {
                    &&& self.state.tags@.len() > 0
                    &&& i < outputs@.len()
                    &&& outputs@[i as int].holds_tag(self.state.tags@[0])
                    &&& forall|i2: int| 0 <= i2 < i ==> !outputs@[i2].holds_tag(self.state.tags@[0])
                },
                None => self.state.tags@.len() == 0 || forall|i2: int|
                    0 <= i2 < outputs@.len() ==> !outputs@[i2].holds_tag(self.state.tags@[0]),
            },
    {
        if self.state.tags.len() == 0 {
            return None;
        }
        let id = self.state.tags[0];
        let mut i: usize = 0;
        while i < outputs.len()
            invariant
                0 <= i <= outputs@.len(),
                self.state.tags@.len() > 0,
                id == self.state.tags@[0],
                forall|i2: int| 0 <= i2 < i ==> !outputs@[i2].holds_tag(id),
            decreases outputs@.len() - i,
        {
            if outputs[i].has_tag(id) {
                return Some(i);
            }
            i += 1;
        }
        None
    }

    /// Place this window on `output`, giving it the output's active tags, or
    /// its first tag if none is active, or no tag if it has none.
    pub fn place_on_output(&mut self, output: &Output)
        ensures
            final(self).state.tags@ == placement_tags(*output),
            final(self).same_surface(*old(self)),
            final(self).state.status == old(self).state.status,
            final(self).state.fullscreen_or_maximized == old(self).state.fullscreen_or_maximized,
            final(self).state.resize_state == old(self).state.resize_state,
            final(self).state.loc_request_state == old(self).state.loc_request_state,
            final(self).state.requested_size == old(self).state.requested_size,
            final(self).state.activated == old(self).state.activated,
    {
        let focused = output.focused_tags();
        if focused.len() > 0 {
            self.state.tags = focused;
        } else if output.tags.len() > 0 {
            let mut tags: Vec<TagId> = Vec::new();
            tags.push(output.tags[0].id());
            self.state.tags = tags;
            assert(self.state.tags@ =~= seq![output.tags@[0]@.id]);
        } else {
            self.state.tags = Vec::new();
            assert(self.state.tags@ =~= Seq::<TagId>::empty());
        }
    }

    /// Ask the window for new geometry: its size is requested of the surface
    /// (an override-redirect window is left alone) and its location is noted
    /// as sent.
    pub fn change_geometry(&mut self, new_geo: Rect)
        ensures
            final(self).same_surface(*old(self)),
            final(self).state.tags@ == old(self).state.tags@,
            final(self).state.status == old(self).state.status,
            final(self).state.fullscreen_or_maximized == old(self).state.fullscreen_or_maximized,
            final(self).state.resize_state == old(self).state.resize_state,
            final(self).state.loc_request_state == LocationRequestState::Sent(new_geo.loc),
            final(self).state.activated == old(self).state.activated,
            final(self).state.requested_size == if old(self).kind == WindowKind::X11OverrideRedirect {
                old(self).state.requested_size
            } else {
                Some(new_geo.size)
            },
    {
        if !self.is_x11_override_redirect() {
            self.state.requested_size = Some(new_geo.size);
        }
        self.state.loc_request_state = LocationRequestState::Sent(new_geo.loc);
    }
}

/// The ids of the tags that some output of `outputs` shows.
pub open spec fn active_tag_ids(outputs: Seq<Output>) -> Set<TagId> {
    Set::new(|id: TagId| exists|o: int| 0 <= o < outputs.len() && #[trigger] outputs[o].shows_tag(id))
}

/// A window is visible exactly when its tag set meets the set of tags that
/// the outputs show.
pub proof fn lemma_visible_iff_tags_meet(w: WindowElement, outputs: Seq<Output>)
    ensures
        w.spec_on_active_tag(outputs) <==> w.state.tags@.to_set().intersect(active_tag_ids(outputs))
            != Set::<TagId>::empty(),
{
    let both = w.state.tags@.to_set().intersect(active_tag_ids(outputs));
    if w.spec_on_active_tag(outputs) {
        let (k, o) = choose|k: int, o: int|
            0 <= k < w.state.tags@.len() && 0 <= o < outputs.len() && #[trigger] outputs[o].shows_tag(
                #[trigger] w.state.tags@[k],
            );
        let id = w.state.tags@[k];
        assert(w.state.tags@.contains(id));
        assert(both.contains(id));
        assert(!Set::<TagId>::empty().contains(id));
    } else {
        assert forall|id: TagId| !both.contains(id) by {
            if both.contains(id) {
                assert(w.state.tags@.contains(id));
                let k = choose|k: int| 0 <= k < w.state.tags@.len() && w.state.tags@[k] == id;
                let o = choose|o: int| 0 <= o < outputs.len() && #[trigger] outputs[o].shows_tag(id);
                assert(outputs[o].shows_tag(w.state.tags@[k]));
            }
        }
        assert(both =~= Set::<TagId>::empty());
    }
}

/// Across a reload that resets the id counter: the tag built `k`-th before
/// the reload (from a fresh counter) and the tag built `k`-th after it (from the
/// reset counter) both get id `k`, so a window tagged with the first is
/// tagged with the second.
pub proof fn lemma_reload_keeps_window_tags(
    w: WindowElement,
    before: TagView,
    after: TagView,
    k: nat,
)
    requires
        k <= u32::MAX,
        before.id == TagId::Id(counter_iter(0, k)),
        after.id == TagId::Id(counter_iter(0, k)),
    ensures
        before.id == TagId::Id(k as u32),
        after.id == before.id,
        w.state.tags@.contains(before.id) == w.state.tags@.contains(after.id),
{
    lemma_counter_from_zero(k);
}

/// Visibility follows the tags as they are now, never a cached answer: once
/// every output has tag `t` switched off (`Output::set_tag_active(t, false)`),
/// a window whose only tag is `t` is no longer visible.
pub proof fn lemma_hidden_once_tag_switched_off(
    w: WindowElement,
    before: Seq<Output>,
    after: Seq<Output>,
    t: TagId,
)
    requires
        w.state.tags@ == seq![t],
        after.len() == before.len(),
        forall|o: int|
            0 <= o < before.len() ==> {
                &&& (#[trigger] after[o]).tags@.len() == before[o].tags@.len()
                &&& forall|j: int|
                    0 <= j < before[o].tags@.len() ==> (#[trigger] after[o].tags@[j])@ == if before[o].tags@[j]@.id
                        == t {
                        TagView { active: false, ..before[o].tags@[j]@ }
                    } else {
                        before[o].tags@[j]@
                    }
            },
    ensures
        !w.spec_on_active_tag(after),
{
    if w.spec_on_active_tag(after) {
        let (k, o) = choose|k: int, o: int|
            0 <= k < w.state.tags@.len() && 0 <= o < after.len() && #[trigger] after[o].shows_tag(
                #[trigger] w.state.tags@[k],
            );
        assert(w.state.tags@[k] == t);
        let j = choose|j: int|
            0 <= j < after[o].tags@.len() && after[o].tags@[j]@.id == t && after[o].tags@[j]@.active;
        assert(after[o].tags@[j]@ == if before[o].tags@[j]@.id == t {
            TagView { active: false, ..before[o].tags@[j]@ }
        } else {
            before[o].tags@[j]@
        });
    }
}

} // verus!
