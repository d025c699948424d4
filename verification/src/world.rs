//! The scene: its optical objects and lights, which of them have changed since
//! the rays were last traced, and what the mouse holds.
use vstd::prelude::*;

use crate::lights::LightSourceEnum;
use crate::optical_objects::OpticalObjectEnum;
use crate::trace::Tracer;
use crate::vector::{same_position, vec2_equal};

verus! {

/// The number of bounce levels a new scene traces.
pub const DEPTH: u32 = 5;

/// The entity grabbed by the mouse, with the offset from the mouse to the
/// entity's position at the moment it was grabbed.
#[derive(Clone, Copy, Debug)]
pub enum SelectState {
    Empty,
    Object(usize, glam::Vec2),
    Light(usize, glam::Vec2),
}

impl SelectState {
    pub fn is_none(&self) -> (r: bool)
        ensures
            r == (*self is Empty),
    {
        match self {
            SelectState::Empty => true,
            _ => false,
        }
    }
}

/// The position of the first `true` in `flags` at or after `k`, or the
/// length of `flags` when there is none.
pub open spec fn first_set_from(flags: Seq<bool>, k: int) -> int
    decreases flags.len() - k,
{
    if k >= flags.len() {
        flags.len() as int
    } else if flags[k] {
        k
    } else {
        first_set_from(flags, k + 1)
    }
}

/// The position of the first `true` in `flags`, or its length when there is none.
pub open spec fn first_set(flags: Seq<bool>) -> int {
    first_set_from(flags, 0)
}

/// `flags` with its first `true` turned to `false`.
pub open spec fn clear_first(flags: Seq<bool>) -> Seq<bool> {
    if first_set(flags) < flags.len() {
        flags.update(first_set(flags), false)
    } else {
        flags
    }
}

/// How many of `flags` are `true`.
pub open spec fn count_set(flags: Seq<bool>) -> nat
    decreases flags.len(),
{
    if flags.len() == 0 {
        0
    } else {
        count_set(flags.drop_last()) + if flags.last() {
            1nat
        } else {
            0nat
        }
    }
}

/// The position of the first `Some` in `hits`, or its length when there is none.
pub open spec fn first_hit_from(hits: Seq<Option<glam::Vec2>>, k: int) -> int
    decreases hits.len() - k,
{
    if k >= hits.len() {
        hits.len() as int
    } else if hits[k] is Some {
        k
    } else {
        first_hit_from(hits, k + 1)
    }
}

pub open spec fn first_hit(hits: Seq<Option<glam::Vec2>>) -> int {
    first_hit_from(hits, 0)
}

/// What a mouse press on entities with these hits selects: the first object
/// under the mouse, else the first light under it, else nothing.
pub open spec fn pick(
    object_hits: Seq<Option<glam::Vec2>>,
    light_hits: Seq<Option<glam::Vec2>>,
) -> SelectState {
    let i = first_hit(object_hits);
    let j = first_hit(light_hits);
    if i < object_hits.len() {
        SelectState::Object(i as usize, object_hits[i]->0)
    } else if j < light_hits.len() {
        SelectState::Light(j as usize, light_hits[j]->0)
    } else {
        SelectState::Empty
    }
}

proof fn lemma_first_set_from(flags: Seq<bool>, k: int)
    requires
        0 <= k <= flags.len(),
    ensures
        k <= first_set_from(flags, k) <= flags.len(),
        first_set_from(flags, k) < flags.len() ==> flags[first_set_from(flags, k)],
        forall|j: int| k <= j < first_set_from(flags, k) ==> !flags[j],
    decreases flags.len() - k,
{
    if k < flags.len() && !flags[k] {
        lemma_first_set_from(flags, k + 1);
    }
}

proof fn lemma_first_hit_from(hits: Seq<Option<glam::Vec2>>, k: int)
    requires
        0 <= k <= hits.len(),
    ensures
        k <= first_hit_from(hits, k) <= hits.len(),
        first_hit_from(hits, k) < hits.len() ==> hits[first_hit_from(hits, k)] is Some,
        forall|j: int| k <= j < first_hit_from(hits, k) ==> hits[j] is None,
    decreases hits.len() - k,
{
    if k < hits.len() && hits[k] is None {
        lemma_first_hit_from(hits, k + 1);
    }
}

proof fn lemma_count_set_zero(flags: Seq<bool>)
    ensures
        count_set(flags) == 0 <==> forall|j: int| 0 <= j < flags.len() ==> !flags[j],
    decreases flags.len(),
{
    if flags.len() > 0 {
        lemma_count_set_zero(flags.drop_last());
        assert forall|j: int| 0 <= j < flags.len() - 1 implies flags.drop_last()[j] == flags[j] by {}
    }
}

proof fn lemma_count_set_update(flags: Seq<bool>, i: int)
    requires
        0 <= i < flags.len(),
        flags[i],
    ensures
        count_set(flags.update(i, false)) + 1 == count_set(flags),
    decreases flags.len(),
{
    let u = flags.update(i, false);
    if i == flags.len() - 1 {
        assert(u.drop_last() =~= flags.drop_last());
    } else {
        assert(u.drop_last() =~= flags.drop_last().update(i, false));
        lemma_count_set_update(flags.drop_last(), i);
    }
}

/// Turning the first `true` of some flags to `false` removes one from their
/// count; when none is `true`, the flags stay as they are.
pub proof fn lemma_clear_first(flags: Seq<bool>)
    ensures
        first_set(flags) < flags.len() <==> count_set(flags) > 0,
        first_set(flags) < flags.len() ==> count_set(clear_first(flags)) + 1 == count_set(flags),
        first_set(flags) == flags.len() ==> clear_first(flags) == flags,
{
    lemma_first_set_from(flags, 0);
    lemma_count_set_zero(flags);
    if first_set(flags) < flags.len() {
        lemma_count_set_update(flags, first_set(flags));
    }
}

/// The position of the first `Some` in `hits`, or its length when there is none.
fn first_hit_index(hits: &Vec<Option<glam::Vec2>>) -> (r: usize)
    ensures
        r == first_hit(hits@),
        r <= hits@.len(),
{
    let mut i: usize = 0;
    while i < hits.len()
        invariant
            i <= hits@.len(),
            forall|j: int| 0 <= j < i ==> hits@[j] is None,
        decreases hits@.len() - i,
    {
        if hits[i].is_some() {
            proof {
                lemma_first_hit_from(hits@, 0);
            }
            return i;
        }
        i = i + 1;
    }
    proof {
        lemma_first_hit_from(hits@, 0);
    }
    i
}

/// The scene that rays are traced through, and the state of the mouse over it.
pub struct World<M, LL, PL, S> {
    objects: Vec<OpticalObjectEnum<M>>,
    object_changed: Vec<bool>,
    lights: Vec<LightSourceEnum<LL, PL>>,
    light_changed: Vec<bool>,
    is_dirty: bool,
    select_state: SelectState,
    depth: u32,
    last_mouse_position: Option<glam::Vec2>,
    ray_paths: Vec<S>,
}

impl<M, LL, PL, S> World<M, LL, PL, S> {
    /// The optical objects, in the order they were added.
    pub closed spec fn objects_view(&self) -> Seq<OpticalObjectEnum<M>> {
        self.objects@
    }

    /// For each optical object, whether it has changed since the last check.
    pub closed spec fn object_flags(&self) -> Seq<bool> {
        self.object_changed@
    }

    /// The lights, in the order they were added.
    pub closed spec fn lights_view(&self) -> Seq<LightSourceEnum<LL, PL>> {
        self.lights@
    }

    /// For each light, whether it has changed since the last check.
    pub closed spec fn light_flags(&self) -> Seq<bool> {
        self.light_changed@
    }

    /// Whether the scene itself has changed since the last check (an entity
    /// added, moved or removed, the depth changed).
    pub closed spec fn scene_changed(&self) -> bool {
        self.is_dirty
    }

    pub closed spec fn selection(&self) -> SelectState {
        self.select_state
    }

    pub closed spec fn depth_view(&self) -> u32 {
        self.depth
    }

    pub closed spec fn last_mouse(&self) -> Option<glam::Vec2> {
        self.last_mouse_position
    }

    /// The path segments of the last finished trace, for drawing.
    pub closed spec fn paths_view(&self) -> Seq<S> {
        self.ray_paths@
    }

    /// The number of changes that checks will still report: one for the scene
    /// itself, one for each changed light and object.
    pub open spec fn pending_changes(&self) -> nat {
        (if self.scene_changed() {
            1nat
        } else {
            0nat
        }) + count_set(self.light_flags()) + count_set(self.object_flags())
    }

    /// Whether the mouse, now at `mouse_pos`, is where it was at its last
    /// movement (positions compared as `glam::Vec2` compares them).
    pub open spec fn mouse_unmoved(&self, mouse_pos: glam::Vec2) -> bool {
        match self.last_mouse() {
            Some(last) => vec2_equal(last, mouse_pos),
            None => false,
        }
    }

    /// The scene is consistent: each entity has its change flag, and the
    /// selection names an entity that exists.
    pub open spec fn wf(&self) -> bool {
        &&& self.object_flags().len() == self.objects_view().len()
        &&& self.light_flags().len() == self.lights_view().len()
        &&& match self.selection() {
            SelectState::Empty => true,
            SelectState::Object(i, _) => i < self.objects_view().len(),
            SelectState::Light(i, _) => i < self.lights_view().len(),
        }
    }

    /// Everything but the entities' change flags and the scene's own flag is
    /// the same in `self` and `other`.
    pub open spec fn same_but_flags(&self, other: &Self) -> bool {
        &&& self.objects_view() == other.objects_view()
        &&& self.lights_view() == other.lights_view()
        &&& self.selection() == other.selection()
        &&& self.depth_view() == other.depth_view()
        &&& self.last_mouse() == other.last_mouse()
    }

    /// A light or object marked as changed is a pending change: the next
    /// check reports it (see `check_and_clear_dirty`).
    pub proof fn lemma_marked_entity_is_pending(&self, light: bool, i: int)
        requires
            self.wf(),
            light ==> 0 <= i < self.light_flags().len() && self.light_flags()[i],
            !light ==> 0 <= i < self.object_flags().len() && self.object_flags()[i],
        ensures
            self.pending_changes() > 0,
    {
        lemma_first_set_from(self.light_flags(), 0);
        lemma_first_set_from(self.object_flags(), 0);
        lemma_clear_first(self.light_flags());
        lemma_clear_first(self.object_flags());
    }

    /// An empty scene, to be traced on the next update.
    pub fn new() -> (w: Self)
        ensures
            w.wf(),
            w.objects_view() == Seq::<OpticalObjectEnum<M>>::empty(),
            w.lights_view() == Seq::<LightSourceEnum<LL, PL>>::empty(),
            w.scene_changed(),
            w.selection() is Empty,
            w.depth_view() == DEPTH,
            w.last_mouse() is None,
            w.paths_view() == Seq::<S>::empty(),
    {
        World {
            objects: Vec::new(),
            object_changed: Vec::new(),
            lights: Vec::new(),
            light_changed: Vec::new(),
            is_dirty: true,
            select_state: SelectState::Empty,
            depth: DEPTH,
            last_mouse_position: None,
            ray_paths: Vec::new(),
        }
    }

    /// Adds an optical object; a new object counts as changed, and so does the scene.
    pub fn add_object(&mut self, object: OpticalObjectEnum<M>)
        requires
            old(self).wf(),
        ensures
            final(self).wf(),
            final(self).paths_view() == old(self).paths_view(),
            final(self).objects_view() == old(self).objects_view().push(object),
            final(self).object_flags() == old(self).object_flags().push(true),
            final(self).lights_view() == old(self).lights_view(),
            final(self).light_flags() == old(self).light_flags(),
            final(self).scene_changed(),
            final(self).selection() == old(self).selection(),
            final(self).depth_view() == old(self).depth_view(),
            final(self).last_mouse() == old(self).last_mouse(),
    {
        self.objects.push(object);
        self.object_changed.push(true);
        self.is_dirty = true;
    }

    /// Adds a light; a new light counts as changed, and so does the scene.
    pub fn add_light(&mut self, light: LightSourceEnum<LL, PL>)
        requires
            old(self).wf(),
        ensures
            final(self).wf(),
            final(self).paths_view() == old(self).paths_view(),
            final(self).lights_view() == old(self).lights_view().push(light),
            final(self).light_flags() == old(self).light_flags().push(true),
            final(self).objects_view() == old(self).objects_view(),
            final(self).object_flags() == old(self).object_flags(),
            final(self).scene_changed(),
            final(self).selection() == old(self).selection(),
            final(self).depth_view() == old(self).depth_view(),
            final(self).last_mouse() == old(self).last_mouse(),
    {
        self.lights.push(light);
        self.light_changed.push(true);
        self.is_dirty = true;
    }

    /// Reports whether anything changed since the last check, so that the rays
    /// must be traced again, and consumes one change: the scene's own, else
    /// that of the first changed light, else that of the first changed object.
    pub fn check_and_clear_dirty(&mut self) -> (r: bool)
        requires
            old(self).wf(),
        ensures
            final(self).wf(),
            final(self).paths_view() == old(self).paths_view(),
            final(self).same_but_flags(old(self)),
            r == (old(self).scene_changed() || first_set(old(self).light_flags()) < old(
                self,
            ).light_flags().len() || first_set(old(self).object_flags()) < old(
                self,
            ).object_flags().len()),
            !final(self).scene_changed(),
            old(self).scene_changed() ==> final(self).light_flags() == old(self).light_flags()
                && final(self).object_flags() == old(self).object_flags(),
            !old(self).scene_changed() ==> final(self).light_flags() == clear_first(
                old(self).light_flags(),
            ),
            !old(self).scene_changed() && first_set(old(self).light_flags()) < old(
                self,
            ).light_flags().len() ==> final(self).object_flags() == old(self).object_flags(),
            !old(self).scene_changed() && first_set(old(self).light_flags()) == old(
                self,
            ).light_flags().len() ==> final(self).object_flags() == clear_first(
                old(self).object_flags(),
            ),
            // a check reports a change exactly when one is pending, and consumes it
            r <==> old(self).pending_changes() > 0,
            r ==> final(self).pending_changes() + 1 == old(self).pending_changes(),
            !r ==> final(self).pending_changes() == 0,
    {
        proof {
            lemma_clear_first(old(self).light_flags());
            lemma_clear_first(old(self).object_flags());
        }
        if self.is_dirty {
            self.is_dirty = false;
            return true;
        }
        let ghost start = *self;
        proof {
            lemma_first_set_from(start.light_flags(), 0);
            lemma_first_set_from(start.object_flags(), 0);
        }
        // lights first, in order: the first that reports a change is cleared
        let n = self.lights.len();
        let mut i: usize = 0;
        while i < n
            invariant
                n == start.lights_view().len(),
                i <= n,
                self.wf(),
                start == *old(self),
                start.wf(),
                !start.scene_changed(),
                self.same_but_flags(&start),
                self.paths_view() == start.paths_view(),
                self.scene_changed() == start.scene_changed(),
                self.light_flags() == start.light_flags(),
                self.object_flags() == start.object_flags(),
                forall|j: int| 0 <= j < i ==> !start.light_flags()[j],
                first_set(start.light_flags()) < start.light_flags().len() ==> start.light_flags()[first_set(start.light_flags())],
                forall|j: int| 0 <= j < first_set(start.light_flags()) ==> !start.light_flags()[j],
                0 <= first_set(start.light_flags()) <= start.light_flags().len(),
            decreases n - i,
        {
            if self.check_and_clear_light_dirty(i) {
                assert(first_set(start.light_flags()) == i as int);
                proof {
                    lemma_clear_first(start.light_flags());
                    lemma_clear_first(start.object_flags());
                }
                return true;
            }
            i = i + 1;
        }
        // then the objects, in order
        let m = self.objects.len();
        let mut k: usize = 0;
        while k < m
            invariant
                m == start.objects_view().len(),
                k <= m,
                self.wf(),
                start == *old(self),
                start.wf(),
                !start.scene_changed(),
                first_set(start.light_flags()) == start.light_flags().len(),
                self.same_but_flags(&start),
                self.paths_view() == start.paths_view(),
                self.scene_changed() == start.scene_changed(),
                self.light_flags() == start.light_flags(),
                self.object_flags() == start.object_flags(),
                forall|j: int| 0 <= j < k ==> !start.object_flags()[j],
                first_set(start.object_flags()) < start.object_flags().len() ==> start.object_flags()[first_set(start.object_flags())],
                forall|j: int| 0 <= j < first_set(start.object_flags()) ==> !start.object_flags()[j],
                0 <= first_set(start.object_flags()) <= start.object_flags().len(),
            decreases m - k,
        {
            if self.check_and_clear_object_dirty(k) {
                assert(first_set(start.object_flags()) == k as int);
                proof {
                    lemma_clear_first(start.light_flags());
                    lemma_clear_first(start.object_flags());
                }
                return true;
            }
            k = k + 1;
        }
        false
    }

    /// Reports whether the light at `index` changed since its last check, and
    /// marks it unchanged.
    pub fn check_and_clear_light_dirty(&mut self, index: usize) -> (r: bool)
        requires
            old(self).wf(),
            index < old(self).lights_view().len(),
        ensures
            final(self).wf(),
            final(self).paths_view() == old(self).paths_view(),
            final(self).same_but_flags(old(self)),
            r == old(self).light_flags()[index as int],
            final(self).light_flags() == old(self).light_flags().update(index as int, false),
            !r ==> final(self).light_flags() == old(self).light_flags(),
            final(self).object_flags() == old(self).object_flags(),
            final(self).scene_changed() == old(self).scene_changed(),
    {
        let was_dirty = self.light_changed[index];
        self.light_changed.set(index, false);
        proof {
            if !was_dirty {
                assert(self.light_changed@ =~= old(self).light_changed@);
            }
        }
        was_dirty
    }

    /// Reports whether the object at `index` changed since its last check, and
    /// marks it unchanged.
    pub fn check_and_clear_object_dirty(&mut self, index: usize) -> (r: bool)
        requires
            old(self).wf(),
            index < old(self).objects_view().len(),
        ensures
            final(self).wf(),
            final(self).paths_view() == old(self).paths_view(),
            final(self).same_but_flags(old(self)),
            r == old(self).object_flags()[index as int],
            final(self).object_flags() == old(self).object_flags().update(index as int, false),
            !r ==> final(self).object_flags() == old(self).object_flags(),
            final(self).light_flags() == old(self).light_flags(),
            final(self).scene_changed() == old(self).scene_changed(),
    {
        let was_dirty = self.object_changed[index];
        self.object_changed.set(index, false);
        proof {
            if !was_dirty {
                assert(self.object_changed@ =~= old(self).object_changed@);
            }
        }
        was_dirty
    }

    /// Marks the scene as changed, so that the next check reports it.
    pub fn request_redraw(&mut self)
        requires
            old(self).wf(),
        ensures
            final(self).wf(),
            final(self).paths_view() == old(self).paths_view(),
            final(self).same_but_flags(old(self)),
            final(self).light_flags() == old(self).light_flags(),
            final(self).object_flags() == old(self).object_flags(),
            final(self).scene_changed(),
    {
        self.is_dirty = true;
    }

    /// Marks the object at `index` as changed (its properties were edited).
    pub fn mark_object_changed(&mut self, index: usize)
        requires
            old(self).wf(),
            index < old(self).objects_view().len(),
        ensures
            final(self).wf(),
            final(self).paths_view() == old(self).paths_view(),
            final(self).same_but_flags(old(self)),
            final(self).object_flags() == old(self).object_flags().update(index as int, true),
            final(self).light_flags() == old(self).light_flags(),
            final(self).scene_changed() == old(self).scene_changed(),
    {
        self.object_changed.set(index, true);
    }

    /// Marks the light at `index` as changed (its properties were edited).
    pub fn mark_light_changed(&mut self, index: usize)
        requires
            old(self).wf(),
            index < old(self).lights_view().len(),
        ensures
            final(self).wf(),
            final(self).paths_view() == old(self).paths_view(),
            final(self).same_but_flags(old(self)),
            final(self).light_flags() == old(self).light_flags().update(index as int, true),
            final(self).object_flags() == old(self).object_flags(),
            final(self).scene_changed() == old(self).scene_changed(),
    {
        self.light_changed.set(index, true);
    }

    /// Handles a press of the mouse button. `object_hits[k]` is, when the mouse
    /// is on object `k`, the offset from the mouse to that object's position,
    /// and `None` otherwise; `light_hits` is the same for the lights. The press
    /// grabs the first object under the mouse, else the first light under it,
    /// else nothing.
    pub fn mouse_pressed(
        &mut self,
        object_hits: &Vec<Option<glam::Vec2>>,
        light_hits: &Vec<Option<glam::Vec2>>,
    )
        requires
            old(self).wf(),
            object_hits@.len() == old(self).objects_view().len(),
            light_hits@.len() == old(self).lights_view().len(),
        ensures
            final(self).wf(),
            final(self).paths_view() == old(self).paths_view(),
            final(self).selection() == pick(object_hits@, light_hits@),
            // a grabbed object is under the mouse, with no object before it under the mouse
            final(self).selection() matches SelectState::Object(i, offset) ==> (object_hits@[i as int]
                == Some(offset) && forall|j: int| 0 <= j < i ==> object_hits@[j] is None),
            // a light is grabbed only when no object is under the mouse
            final(self).selection() matches SelectState::Light(i, offset) ==> (light_hits@[i as int]
                == Some(offset) && (forall|j: int| 0 <= j < i ==> light_hits@[j] is None) && (
            forall|j: int| 0 <= j < object_hits@.len() ==> object_hits@[j] is None)),
            // nothing is grabbed exactly when the mouse is on no entity
            final(self).selection() is Empty <==> ((forall|j: int|
                0 <= j < object_hits@.len() ==> object_hits@[j] is None) && (forall|j: int|
                0 <= j < light_hits@.len() ==> light_hits@[j] is None)),
            final(self).objects_view() == old(self).objects_view(),
            final(self).lights_view() == old(self).lights_view(),
            final(self).object_flags() == old(self).object_flags(),
            final(self).light_flags() == old(self).light_flags(),
            final(self).scene_changed() == old(self).scene_changed(),
            final(self).depth_view() == old(self).depth_view(),
            final(self).last_mouse() == old(self).last_mouse(),
    {
        proof {
            lemma_first_hit_from(object_hits@, 0);
            lemma_first_hit_from(light_hits@, 0);
        }
        let i = first_hit_index(object_hits);
        if i < object_hits.len() {
            match object_hits[i] {
                Some(offset) => {
                    self.select_state = SelectState::Object(i, offset);
                },
                None => {},
            }
            return;
        }
        let j = first_hit_index(light_hits);
        if j < light_hits.len() {
            match light_hits[j] {
                Some(offset) => {
                    self.select_state = SelectState::Light(j, offset);
                },
                None => {},
            }
            return;
        }
        self.select_state = SelectState::Empty;
    }

    /// Handles the mouse moving to `mouse_pos` with the button held, and
    /// returns the entity to move, with the offset to add to `mouse_pos` to get
    /// its new position; `Empty` when nothing is to move. Nothing happens when
    /// the mouse is where it was at the last movement.
    pub fn mouse_movement(&mut self, mouse_pos: glam::Vec2) -> (r: SelectState)
        requires
            old(self).wf(),
        ensures
            final(self).wf(),
            final(self).paths_view() == old(self).paths_view(),
            final(self).objects_view() == old(self).objects_view(),
            final(self).lights_view() == old(self).lights_view(),
            final(self).object_flags() == old(self).object_flags(),
            final(self).light_flags() == old(self).light_flags(),
            final(self).selection() == old(self).selection(),
            final(self).depth_view() == old(self).depth_view(),
            // the mouse is where it was at the last movement: nothing happens
            old(self).mouse_unmoved(mouse_pos) ==> {
                &&& r is Empty
                &&& final(self).last_mouse() == old(self).last_mouse()
                &&& final(self).scene_changed() == old(self).scene_changed()
            },
            // it has moved (or never moved before): the grabbed entity follows it
            !old(self).mouse_unmoved(mouse_pos) ==> {
                &&& r == old(self).selection()
                &&& final(self).last_mouse() == Some(mouse_pos)
                &&& final(self).scene_changed() == (old(self).scene_changed() || !(old(self).selection() is Empty))
            },
    {
        let unchanged = match self.last_mouse_position {
            Some(last) => same_position(&last, &mouse_pos),
            None => false,
        };
        self.apply_mouse_movement(mouse_pos, unchanged)
    }

    /// The decision part of `mouse_movement`, once it is known whether the
    /// mouse is still where it was at the last movement (`unchanged`): then
    /// nothing happens; else the grabbed entity, if any, is to move (and the
    /// scene changes), and the position is remembered.
    pub fn apply_mouse_movement(&mut self, mouse_pos: glam::Vec2, unchanged: bool) -> (r:
        SelectState)
        requires
            old(self).wf(),
        ensures
            final(self).wf(),
            final(self).paths_view() == old(self).paths_view(),
            final(self).objects_view() == old(self).objects_view(),
            final(self).lights_view() == old(self).lights_view(),
            final(self).object_flags() == old(self).object_flags(),
            final(self).light_flags() == old(self).light_flags(),
            final(self).selection() == old(self).selection(),
            final(self).depth_view() == old(self).depth_view(),
            unchanged ==> r is Empty && final(self).last_mouse() == old(self).last_mouse()
                && final(self).scene_changed() == old(self).scene_changed(),
            !unchanged ==> r == old(self).selection() && final(self).last_mouse() == Some(
                mouse_pos,
            ) && final(self).scene_changed() == (old(self).scene_changed() || !(
            old(self).selection() is Empty)),
    {
        if unchanged {
            return SelectState::Empty;
        }
        let target = self.select_state;
        match target {
            SelectState::Empty => {},
            _ => {
                self.is_dirty = true;
            },
        }
        self.last_mouse_position = Some(mouse_pos);
        target
    }

    /// Puts the mouse's grip on `state` (after adding an entity, the new one is
    /// grabbed).
    pub fn select(&mut self, state: SelectState)
        requires
            old(self).wf(),
            match state {
                SelectState::Empty => true,
                SelectState::Object(i, _) => i < old(self).objects_view().len(),
                SelectState::Light(i, _) => i < old(self).lights_view().len(),
            },
        ensures
            final(self).wf(),
            final(self).paths_view() == old(self).paths_view(),
            final(self).selection() == state,
            final(self).objects_view() == old(self).objects_view(),
            final(self).lights_view() == old(self).lights_view(),
            final(self).object_flags() == old(self).object_flags(),
            final(self).light_flags() == old(self).light_flags(),
            final(self).scene_changed() == old(self).scene_changed(),
            final(self).depth_view() == old(self).depth_view(),
            final(self).last_mouse() == old(self).last_mouse(),
    {
        self.select_state = state;
    }

    /// Sets the number of bounce levels to trace; the scene changes when the
    /// number does.
    pub fn set_depth(&mut self, depth: u32)
        requires
            old(self).wf(),
        ensures
            final(self).wf(),
            final(self).paths_view() == old(self).paths_view(),
            final(self).depth_view() == depth,
            final(self).scene_changed() == (old(self).scene_changed() || depth != old(
                self,
            ).depth_view()),
            final(self).objects_view() == old(self).objects_view(),
            final(self).lights_view() == old(self).lights_view(),
            final(self).object_flags() == old(self).object_flags(),
            final(self).light_flags() == old(self).light_flags(),
            final(self).selection() == old(self).selection(),
            final(self).last_mouse() == old(self).last_mouse(),
    {
        if depth != self.depth {
            self.depth = depth;
            self.is_dirty = true;
        }
    }

    /// Removes every object and light; nothing stays grabbed, and the scene changes.
    pub fn clear(&mut self)
        requires
            old(self).wf(),
        ensures
            final(self).wf(),
            final(self).paths_view() == old(self).paths_view(),
            final(self).objects_view() == Seq::<OpticalObjectEnum<M>>::empty(),
            final(self).lights_view() == Seq::<LightSourceEnum<LL, PL>>::empty(),
            final(self).selection() is Empty,
            final(self).scene_changed(),
            final(self).depth_view() == old(self).depth_view(),
            final(self).last_mouse() == old(self).last_mouse(),
    {
        self.objects.clear();
        self.object_changed.clear();
        self.lights.clear();
        self.light_changed.clear();
        self.select_state = SelectState::Empty;
        self.is_dirty = true;
    }

    /// Removes the grabbed entity, if any: the last entity of its kind takes its
    /// place, and the scene changes. Afterwards nothing is grabbed.
    pub fn remove_selected(&mut self)
        requires
            old(self).wf(),
        ensures
            final(self).wf(),
            final(self).paths_view() == old(self).paths_view(),
            final(self).selection() is Empty,
            final(self).depth_view() == old(self).depth_view(),
            final(self).last_mouse() == old(self).last_mouse(),
            match old(self).selection() {
                SelectState::Empty => {
                    &&& final(self).objects_view() == old(self).objects_view()
                    &&& final(self).lights_view() == old(self).lights_view()
                    &&& final(self).object_flags() == old(self).object_flags()
                    &&& final(self).light_flags() == old(self).light_flags()
                    &&& final(self).scene_changed() == old(self).scene_changed()
                },
                SelectState::Object(i, _) => {
                    &&& final(self).objects_view() == old(self).objects_view().update(
                        i as int,
                        old(self).objects_view().last(),
                    ).drop_last()
                    &&& final(self).object_flags() == old(self).object_flags().update(
                        i as int,
                        old(self).object_flags().last(),
                    ).drop_last()
                    &&& final(self).lights_view() == old(self).lights_view()
                    &&& final(self).light_flags() == old(self).light_flags()
                    &&& final(self).scene_changed()
                },
                SelectState::Light(i, _) => {
                    &&& final(self).lights_view() == old(self).lights_view().update(
                        i as int,
                        old(self).lights_view().last(),
                    ).drop_last()
                    &&& final(self).light_flags() == old(self).light_flags().update(
                        i as int,
                        old(self).light_flags().last(),
                    ).drop_last()
                    &&& final(self).objects_view() == old(self).objects_view()
                    &&& final(self).object_flags() == old(self).object_flags()
                    &&& final(self).scene_changed()
                },
            },
    {
        match self.select_state {
            SelectState::Object(index, _) => {
                self.objects.swap_remove(index);
                self.object_changed.swap_remove(index);
                self.is_dirty = true;
            },
            SelectState::Light(index, _) => {
                self.lights.swap_remove(index);
                self.light_changed.swap_remove(index);
                self.is_dirty = true;
            },
            SelectState::Empty => {},
        }
        self.select_state = SelectState::Empty;
    }

    /// The optical objects, in the order they were added.
    pub fn objects(&self) -> (r: &Vec<OpticalObjectEnum<M>>)
        ensures
            r@ == self.objects_view(),
    {
        &self.objects
    }

    /// The lights, in the order they were added.
    pub fn lights(&self) -> (r: &Vec<LightSourceEnum<LL, PL>>)
        ensures
            r@ == self.lights_view(),
    {
        &self.lights
    }

    /// What the mouse holds.
    pub fn select_state(&self) -> (r: SelectState)
        ensures
            r == self.selection(),
    {
        self.select_state
    }

    /// The number of bounce levels to trace.
    pub fn depth(&self) -> (r: u32)
        ensures
            r == self.depth_view(),
    {
        self.depth
    }

    /// Where the mouse was at its last movement.
    pub fn last_mouse_position(&self) -> (r: Option<glam::Vec2>)
        ensures
            r == self.last_mouse(),
    {
        self.last_mouse_position
    }

    /// The optical object at `index`, to edit or move it in place.
    pub fn object_mut(&mut self, index: usize) -> (r: &mut OpticalObjectEnum<M>)
        requires
            old(self).wf(),
            index < old(self).objects_view().len(),
        ensures
            *r == old(self).objects_view()[index as int],
            final(self).objects_view() == old(self).objects_view().update(index as int, *final(r)),
            final(self).wf(),
            final(self).paths_view() == old(self).paths_view(),
            final(self).lights_view() == old(self).lights_view(),
            final(self).object_flags() == old(self).object_flags(),
            final(self).light_flags() == old(self).light_flags(),
            final(self).scene_changed() == old(self).scene_changed(),
            final(self).selection() == old(self).selection(),
            final(self).depth_view() == old(self).depth_view(),
            final(self).last_mouse() == old(self).last_mouse(),
    {
        &mut self.objects[index]
    }

    /// The light at `index`, to edit or move it in place.
    pub fn light_mut(&mut self, index: usize) -> (r: &mut LightSourceEnum<LL, PL>)
        requires
            old(self).wf(),
            index < old(self).lights_view().len(),
        ensures
            *r == old(self).lights_view()[index as int],
            final(self).lights_view() == old(self).lights_view().update(index as int, *final(r)),
            final(self).wf(),
            final(self).paths_view() == old(self).paths_view(),
            final(self).objects_view() == old(self).objects_view(),
            final(self).object_flags() == old(self).object_flags(),
            final(self).light_flags() == old(self).light_flags(),
            final(self).scene_changed() == old(self).scene_changed(),
            final(self).selection() == old(self).selection(),
            final(self).depth_view() == old(self).depth_view(),
            final(self).last_mouse() == old(self).last_mouse(),
    {
        &mut self.lights[index]
    }

    /// Starts a trace, at the scene's depth, from the rays the lights emit.
    pub fn start_trace<R>(&self, rays: Vec<R>) -> (t: Tracer<R, S>)
        ensures
            t.wf(),
            t.depth() == self.depth_view(),
            t.initial_rays() == rays@,
            t.active_rays() == rays@,
            t.spawned_rays() == Seq::<R>::empty(),
            t.responses() == Seq::<Seq<R>>::empty(),
            t.cursor() == 0,
            t.bounce() == 0,
            t.paths() == Seq::<S>::empty(),
            t.finished() == (self.depth_view() == 0 || rays@.len() == 0),
    {
        Tracer::new(self.depth, rays)
    }

    /// Replaces the ray paths with those of a finished trace at the scene's
    /// depth, which holds one segment for each ray it traced since it started:
    /// no path from before survives.
    pub fn install_paths<R>(&mut self, tracer: Tracer<R, S>)
        requires
            old(self).wf(),
            tracer.finished(),
            tracer.depth() == old(self).depth_view(),
        ensures
            final(self).wf(),
            final(self).paths_view() == tracer.paths(),
            final(self).same_but_flags(old(self)),
            final(self).object_flags() == old(self).object_flags(),
            final(self).light_flags() == old(self).light_flags(),
            final(self).scene_changed() == old(self).scene_changed(),
    {
        self.ray_paths = tracer.into_paths();
    }

    /// The path segments of the last finished trace, for drawing.
    pub fn ray_paths(&self) -> (r: &Vec<S>)
        ensures
            r@ == self.paths_view(),
    {
        &self.ray_paths
    }
}

impl<M, LL, PL, S> Default for World<M, LL, PL, S> {
    fn default() -> (w: Self)
        ensures
            w.wf(),
            w.objects_view() == Seq::<OpticalObjectEnum<M>>::empty(),
            w.lights_view() == Seq::<LightSourceEnum<LL, PL>>::empty(),
            w.scene_changed(),
            w.selection() is Empty,
            w.depth_view() == DEPTH,
            w.last_mouse() is None,
            w.paths_view() == Seq::<S>::empty(),
    {
        Self::new()
    }
}

} // verus!
