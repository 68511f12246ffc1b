use vstd::prelude::*;

use crate::output::Output;

verus! {

/// The identity of a [`Tag`]. Windows and outputs refer to tags by id, so a tag
/// rebuilt with the same id after a reload is the same tag to them.
#[derive(Debug, Clone, Copy, PartialEq, Eq, Hash, Structural)]
pub enum TagId {
    /// The tag given was invalid or nonexistent.
    Invalid,
    Id(u32),
}

/// The source of fresh tag ids: a process-wide sequence that a configuration
/// reload resets, so that the tags it builds line up with the old ids.
#[derive(Debug)]
pub struct TagIdCounter {
    next: u32,
}

impl View for TagIdCounter {
    type V = u32;

    closed spec fn view(&self) -> u32 {
        self.next
    }
}

/// The value a counter holds after handing out `n`: the next `u32`, wrapping.
pub open spec fn counter_after(n: u32) -> u32 {
    if n == u32::MAX {
        0
    } else {
        (n + 1) as u32
    }
}

/// A counter that held `c`, after handing out `n` ids.
pub open spec fn counter_iter(c: u32, n: nat) -> u32
    decreases n,
{
    if n == 0 {
        c
    } else {
        counter_after(counter_iter(c, (n - 1) as nat))
    }
}

/// A fresh or reset counter has handed out `n` ids when it holds `n`.
pub proof fn lemma_counter_from_zero(n: nat)
    requires
        n <= u32::MAX,
    ensures
        counter_iter(0, n) == n,
    decreases n,
{
    if n > 0 {
        lemma_counter_from_zero((n - 1) as nat);
    }
}

impl TagIdCounter {
    pub fn new() -> (r: TagIdCounter)
        ensures
            r@ == 0,
    {
        TagIdCounter { next: 0 }
    }
}

impl TagId {
    /// Take the next available id from `counter`.
    pub fn next(counter: &mut TagIdCounter) -> (r: TagId)
        ensures
            r == TagId::Id(old(counter)@),
            final(counter)@ == counter_after(old(counter)@),
    {
        let id = counter.next;
        counter.next = counter.next.wrapping_add(1);
        TagId::Id(id)
    }

    /// Reset the counter, so that the next tag built gets id 0 again.
    pub fn reset(counter: &mut TagIdCounter)
        ensures
            final(counter)@ == 0,
    {
        counter.next = 0;
    }

    /// Get the tag with this id on any of `outputs`: the first one, taking the
    /// outputs in order and each output's tags in order.
    pub fn tag(&self, outputs: &Vec<Output>) -> (r: Option<Tag>)
        ensures
            match r {
                Some(t) => exists|i: int, j: int|
                    {
                        &&& has_tag_id_at(outputs@, i, j, *self)
                        &&& outputs@[i].tags@[j]@ == t@
                        &&& forall|i2: int, j2: int|
                            (i2 < i || (i2 == i && j2 < j)) ==> !has_tag_id_at(
                                outputs@,
                                i2,
                                j2,
                                *self,
                            )
                    },
                None => forall|i: int, j: int| !has_tag_id_at(outputs@, i, j, *self),
            },
    {
        let mut i: usize = 0;
        while i < outputs.len()
            invariant
                0 <= i <= outputs@.len(),
                forall|i2: int, j2: int| i2 < i ==> !has_tag_id_at(outputs@, i2, j2, *self),
            decreases outputs@.len() - i,
        {
            let tags = &outputs[i].tags;
            let mut j: usize = 0;
            while j < tags.len()
                invariant
                    0 <= i < outputs@.len(),
                    tags@ == outputs@[i as int].tags@,
                    0 <= j <= tags@.len(),
                    forall|i2: int, j2: int|
                        (i2 < i || (i2 == i && j2 < j)) ==> !has_tag_id_at(outputs@, i2, j2, *self),
                decreases tags@.len() - j,
            {
                if tags[j].id == *self {
                    let t = tags[j].duplicate();
                    assert(has_tag_id_at(outputs@, i as int, j as int, *self));
                    return Some(t);
                }
                j += 1;
            }
            i += 1;
        }
        None
    }
}

/// Output `i` of `outputs` holds, as its tag `j`, a tag with id `id`.
pub open spec fn has_tag_id_at(outputs: Seq<Output>, i: int, j: int, id: TagId) -> bool {
    &&& 0 <= i < outputs.len()
    &&& 0 <= j < outputs[i].tags@.len()
    &&& outputs[i].tags@[j]@.id == id
}

/// How a tag's windows are arranged on screen.
#[derive(Debug, Clone, Copy, PartialEq, Eq, Structural)]
pub enum Layout {
    MasterStack,
    Dwindle,
    Spiral,
    CornerTopLeft,
    CornerTopRight,
    CornerBottomLeft,
    CornerBottomRight,
}

/// What a tag holds, as plain values.
pub struct TagView {
    pub id: TagId,
    pub name: Seq<char>,
    pub active: bool,
    pub layout: Layout,
}

/// A marker for windows.
///
/// A window may have 0 or more tags, and each output displays the windows of
/// 0 or more of its tags at a time: those that are active.
#[derive(Debug)]
pub struct Tag {
    id: TagId,
    name: String,
    active: bool,
    layout: Layout,
}

impl View for Tag {
    type V = TagView;

    closed spec fn view(&self) -> TagView {
        TagView { id: self.id, name: self.name@, active: self.active, layout: self.layout }
    }
}

/// Two tags are the same tag when their ids are equal.
impl PartialEq for Tag {
    fn eq(&self, other: &Tag) -> (r: bool) {
        self.id == other.id
    }
}

impl vstd::std_specs::cmp::PartialEqSpecImpl for Tag {
    open spec fn obeys_eq_spec() -> bool {
        true
    }

    open spec fn eq_spec(&self, other: &Tag) -> bool {
        self@.id == other@.id
    }
}

impl Tag {
    /// Build a tag named `name` with the next id of `counter`, inactive and
    /// laid out master-stack.
    pub fn new(name: String, counter: &mut TagIdCounter) -> (r: Tag)
        ensures
            r@ == (TagView {
                id: TagId::Id(old(counter)@),
                name: name@,
                active: false,
                layout: Layout::MasterStack,
            }),
            final(counter)@ == counter_after(old(counter)@),
    {
        Tag { id: TagId::next(counter), name, active: false, layout: Layout::MasterStack }
    }

    /// A second tag record equal to this one in every field.
    pub fn duplicate(&self) -> (r: Tag)
        ensures
            r@ == self@,
    {
        Tag { id: self.id, name: self.name.clone(), active: self.active, layout: self.layout }
    }

    pub fn id(&self) -> (r: TagId)
        ensures
            r == self@.id,
    {
        self.id
    }

    pub fn name(&self) -> (r: String)
        ensures
            r@ == self@.name,
    {
        self.name.clone()
    }

    pub fn active(&self) -> (r: bool)
        ensures
            r == self@.active,
    {
        self.active
    }

    pub fn set_active(&mut self, active: bool)
        ensures
            final(self)@ == (TagView { active, ..old(self)@ }),
    {
        self.active = active;
    }

    pub fn layout(&self) -> (r: Layout)
        ensures
            r == self@.layout,
    {
        self.layout
    }

    pub fn set_layout(&mut self, layout: Layout)
        ensures
            final(self)@ == (TagView { layout, ..old(self)@ }),
    {
        self.layout = layout;
    }

    /// The index of the first of `outputs` that holds this tag.
    pub fn output(&self, outputs: &Vec<Output>) -> (r: Option<usize>)
        ensures
            match r {
                Some(i) => {
                    &&& i < outputs@.len()
                    &&& outputs@[i as int].holds_tag(self@.id)
                    &&& forall|i2: int| 0 <= i2 < i ==> !outputs@[i2].holds_tag(self@.id)
                },
                None => forall|i2: int| 0 <= i2 < outputs@.len() ==> !outputs@[i2].holds_tag(self@.id),
            },
    {
        let mut i: usize = 0;
        while i < outputs.len()
            invariant
                0 <= i <= outputs@.len(),
                forall|i2: int| 0 <= i2 < i ==> !outputs@[i2].holds_tag(self@.id),
            decreases outputs@.len() - i,
        {
            if outputs[i].has_tag(self.id) {
                return Some(i);
            }
            i += 1;
        }
        None
    }
}

} // verus!
