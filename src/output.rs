use vstd::prelude::*;

use crate::geometry::Rect;
use crate::search::last_below;
use crate::tag::{Tag, TagId, TagView};

verus! {

/// The shell layers, bottom to top.
#[derive(Debug, Clone, Copy, PartialEq, Eq, Structural)]
pub enum Layer {
    Background,
    Bottom,
    Top,
    Overlay,
}

/// A shell-layer surface (a panel, a launcher, a lock screen).
#[derive(Debug, Clone, Copy, PartialEq, Eq, Structural)]
pub struct LayerSurface {
    pub surface: u32,
    pub layer: Layer,
    /// Where it stands, relative to its output.
    pub geometry: Rect,
}

/// A display: where it sits in the global space, and its ordered tags. The tags
/// marked active are the ones whose windows it shows.
#[derive(Debug)]
pub struct Output {
    pub name: String,
    pub geometry: Rect,
    pub tags: Vec<Tag>,
    /// The output's layer surfaces, each layer's surfaces bottom to top.
    pub layers: Vec<LayerSurface>,
}

impl Output {
    /// Layer surface `k` is on `layer` and covers the output-relative point `(x, y)`.
    pub open spec fn layer_pred(self, layer: Layer, x: int, y: int) -> spec_fn(int) -> bool {
        |k: int| self.layers@[k].layer == layer && self.layers@[k].geometry.spec_contains_int(x, y)
    }

    /// The topmost surface on `layer` under the output-relative point `(x, y)`.
    pub open spec fn spec_layer_under(self, layer: Layer, x: int, y: int) -> Option<int> {
        last_below(self.layers@.len() as int, self.layer_pred(layer, x, y))
    }

    /// The topmost overlay surface under `(x, y)`; failing that, the topmost
    /// top-layer surface.
    pub open spec fn spec_upper_layer_under(self, x: int, y: int) -> Option<int> {
        match self.spec_layer_under(Layer::Overlay, x, y) {
            Some(k) => Some(k),
            None => self.spec_layer_under(Layer::Top, x, y),
        }
    }

    pub fn layer_under(&self, layer: Layer, x: i64, y: i64) -> (r: Option<usize>)
        ensures
            match r {
                Some(k) => self.spec_layer_under(layer, x as int, y as int) == Some(k as int),
                None => self.spec_layer_under(layer, x as int, y as int) is None,
            },
    {
        let ghost pred = self.layer_pred(layer, x as int, y as int);
        let mut k: usize = self.layers.len();
        while k > 0
            invariant
                k <= self.layers@.len(),
                pred == self.layer_pred(layer, x as int, y as int),
                last_below(self.layers@.len() as int, pred) == last_below(k as int, pred),
            decreases k,
        {
            let l = &self.layers[k - 1];
            if l.layer == layer && l.geometry.contains_at(x, y) {
                return Some(k - 1);
            }
            k -= 1;
        }
        None
    }

    /// The topmost overlay surface under `(x, y)`, relative to the output;
    /// failing that, the topmost top-layer surface.
    pub fn upper_layer_under(&self, x: i64, y: i64) -> (r: Option<usize>)
        ensures
            match r {
                Some(k) => self.spec_upper_layer_under(x as int, y as int) == Some(k as int),
                None => self.spec_upper_layer_under(x as int, y as int) is None,
            },
    {
        match self.layer_under(Layer::Overlay, x, y) {
            Some(k) => Some(k),
            None => self.layer_under(Layer::Top, x, y),
        }
    }

    /// The output's size is not negative, and its far edges fit in an `i32`.
    pub open spec fn extent_fits(self) -> bool {
        &&& self.geometry.size.w >= 0
        &&& self.geometry.size.h >= 0
        &&& self.geometry.loc.x + self.geometry.size.w <= i32::MAX
        &&& self.geometry.loc.y + self.geometry.size.h <= i32::MAX
    }

    /// Each layer surface's global location fits in an `i32`.
    pub open spec fn layers_fit(self) -> bool {
        forall|k: int|
            0 <= k < self.layers@.len() ==> {
                &&& i32::MIN <= self.geometry.loc.x + #[trigger] self.layers@[k].geometry.loc.x <= i32::MAX
                &&& i32::MIN <= self.geometry.loc.y + self.layers@[k].geometry.loc.y <= i32::MAX
            }
    }

    /// One of this output's tags has id `id`.
    pub open spec fn holds_tag(&self, id: TagId) -> bool {
        exists|j: int| 0 <= j < self.tags@.len() && self.tags@[j]@.id == id
    }

    /// One of this output's active tags has id `id`.
    pub open spec fn shows_tag(&self, id: TagId) -> bool {
        exists|j: int| 0 <= j < self.tags@.len() && self.tags@[j]@.id == id && self.tags@[j]@.active
    }

    /// The ids of the active tags, in the output's order.
    pub open spec fn spec_focused_tags(&self) -> Seq<TagId> {
        self.tags@.filter(|t: Tag| t@.active).map_values(|t: Tag| t@.id)
    }

    pub fn has_tag(&self, id: TagId) -> (r: bool)
        ensures
            r == self.holds_tag(id),
    {
        let mut j: usize = 0;
        while j < self.tags.len()
            invariant
                0 <= j <= self.tags@.len(),
                forall|j2: int| 0 <= j2 < j ==> self.tags@[j2]@.id != id,
            decreases self.tags@.len() - j,
        {
            if self.tags[j].id() == id {
                return true;
            }
            j += 1;
        }
        false
    }

    /// Whether tag `id` is one of this output's active tags.
    pub fn has_active_tag(&self, id: TagId) -> (r: bool)
        ensures
            r == self.shows_tag(id),
    {
        let mut j: usize = 0;
        while j < self.tags.len()
            invariant
                0 <= j <= self.tags@.len(),
                forall|j2: int| 0 <= j2 < j ==> !(self.tags@[j2]@.id == id && self.tags@[j2]@.active),
            decreases self.tags@.len() - j,
        {
            if self.tags[j].id() == id && self.tags[j].active() {
                return true;
            }
            j += 1;
        }
        false
    }

    /// Show or hide tag `id`.
    pub fn set_tag_active(&mut self, id: TagId, active: bool)
        ensures
            final(self).tags@.len() == old(self).tags@.len(),
            forall|j: int|
                0 <= j < old(self).tags@.len() ==> (#[trigger] final(self).tags@[j])@ == if old(
                    self,
                ).tags@[j]@.id == id {
                    TagView { active, ..old(self).tags@[j]@ }
                } else {
                    old(self).tags@[j]@
                },
            final(self).name@ == old(self).name@,
            final(self).geometry == old(self).geometry,
            final(self).layers@ == old(self).layers@,
    {
        let mut j: usize = 0;
        while j < self.tags.len()
            invariant
                0 <= j <= self.tags@.len(),
                self.tags@.len() == old(self).tags@.len(),
                self.name@ == old(self).name@,
                self.geometry == old(self).geometry,
                self.layers@ == old(self).layers@,
                forall|k: int|
                    0 <= k < j ==> (#[trigger] self.tags@[k])@ == if old(self).tags@[k]@.id == id {
                        TagView { active, ..old(self).tags@[k]@ }
                    } else {
                        old(self).tags@[k]@
                    },
                forall|k: int| j <= k < self.tags@.len() ==> self.tags@[k] == old(self).tags@[k],
            decreases self.tags@.len() - j,
        {
            if self.tags[j].id() == id {
                self.tags[j].set_active(active);
            }
            j += 1;
        }
    }

    /// Flip whether tag `id` is shown.
    pub fn toggle_tag(&mut self, id: TagId)
        ensures
            final(self).tags@.len() == old(self).tags@.len(),
            forall|j: int|
                0 <= j < old(self).tags@.len() ==> (#[trigger] final(self).tags@[j])@ == if old(
                    self,
                ).tags@[j]@.id == id {
                    TagView { active: !old(self).tags@[j]@.active, ..old(self).tags@[j]@ }
                } else {
                    old(self).tags@[j]@
                },
            final(self).name@ == old(self).name@,
            final(self).geometry == old(self).geometry,
            final(self).layers@ == old(self).layers@,
    {
        let mut j: usize = 0;
        while j < self.tags.len()
            invariant
                0 <= j <= self.tags@.len(),
                self.tags@.len() == old(self).tags@.len(),
                self.name@ == old(self).name@,
                self.geometry == old(self).geometry,
                self.layers@ == old(self).layers@,
                forall|k: int|
                    0 <= k < j ==> (#[trigger] self.tags@[k])@ == if old(self).tags@[k]@.id == id {
                        TagView { active: !old(self).tags@[k]@.active, ..old(self).tags@[k]@ }
                    } else {
                        old(self).tags@[k]@
                    },
                forall|k: int| j <= k < self.tags@.len() ==> self.tags@[k] == old(self).tags@[k],
            decreases self.tags@.len() - j,
        {
            if self.tags[j].id() == id {
                let active = self.tags[j].active();
                self.tags[j].set_active(!active);
            }
            j += 1;
        }
    }

    /// Show tag `id` alone: it becomes active and every other tag inactive.
    pub fn switch_to_tag(&mut self, id: TagId)
        ensures
            final(self).tags@.len() == old(self).tags@.len(),
            forall|j: int|
                0 <= j < old(self).tags@.len() ==> (#[trigger] final(self).tags@[j])@ == (TagView {
                    active: old(self).tags@[j]@.id == id,
                    ..old(self).tags@[j]@
                }),
            final(self).name@ == old(self).name@,
            final(self).geometry == old(self).geometry,
            final(self).layers@ == old(self).layers@,
    {
        let mut j: usize = 0;
        while j < self.tags.len()
            invariant
                0 <= j <= self.tags@.len(),
                self.tags@.len() == old(self).tags@.len(),
                self.name@ == old(self).name@,
                self.geometry == old(self).geometry,
                self.layers@ == old(self).layers@,
                forall|k: int|
                    0 <= k < j ==> (#[trigger] self.tags@[k])@ == (TagView {
                        active: old(self).tags@[k]@.id == id,
                        ..old(self).tags@[k]@
                    }),
                forall|k: int| j <= k < self.tags@.len() ==> self.tags@[k] == old(self).tags@[k],
            decreases self.tags@.len() - j,
        {
            let on = self.tags[j].id() == id;
            self.tags[j].set_active(on);
            j += 1;
        }
    }

    /// The ids of the active tags, in the output's order.
    pub fn focused_tags(&self) -> (r: Vec<TagId>)
        ensures
            r@ == self.spec_focused_tags(),
    {
        let mut r: Vec<TagId> = Vec::new();
        let mut j: usize = 0;
        while j < self.tags.len()
            invariant
                0 <= j <= self.tags@.len(),
                r@ == self.tags@.subrange(0, j as int).filter(|t: Tag| t@.active).map_values(
                    |t: Tag| t@.id,
                ),
            decreases self.tags@.len() - j,
        {
            proof {
                let s = self.tags@.subrange(0, j as int + 1);
                assert(s.drop_last() =~= self.tags@.subrange(0, j as int));
                reveal(Seq::filter);
            }
            if self.tags[j].active() {
                r.push(self.tags[j].id());
            }
            proof {
                let f = |t: Tag| t@.active;
                let g = |t: Tag| t@.id;
                let s = self.tags@.subrange(0, j as int + 1);
                assert(s.filter(f).map_values(g) =~= r@);
            }
            j += 1;
        }
        assert(self.tags@.subrange(0, self.tags@.len() as int) =~= self.tags@);
        r
    }
}

} // verus!
