//! Axis-aligned bounding boxes and the overlap test.
//!
//! A collider is local to its owning body: the world-space box is the
//! collider translated by the body's position. Two boxes collide only under
//! strict inequality on every side, so boxes that merely touch (one's max
//! equal to the other's min) do not collide; that is what lets an actor come
//! to rest flush against a solid.

use vstd::prelude::*;

use crate::math::{v2_add, v2_in_range, v2_sub, Vec2, Vec2i, COORD_LIMIT, POS_LIMIT};

verus! {

/// Mathematical box: the model of [`AABB`].
pub ghost struct Box2 {
    pub position: Vec2,
    pub half_size: Vec2,
}

/// Axis-aligned bounding box: a local offset from the owning body's position
/// and a half extent on each axis, both in whole grid units.
#[derive(Clone, Copy, PartialEq, Eq, Structural, Debug)]
pub struct AABB {
    pub position: Vec2i,
    pub half_size: Vec2i,
}

impl View for AABB {
    type V = Box2;

    open spec fn view(&self) -> Box2 {
        Box2 { position: self.position@, half_size: self.half_size@ }
    }
}

/// Record of one blocked unit step: the blocking solid's position and
/// collider.
#[derive(Clone, Copy, Debug)]
pub struct Collision {
    pub position: Vec2i,
    pub collider: AABB,
}

/// Mathematical contact record: the model of [`Collision`].
pub ghost struct ContactView {
    pub position: Vec2,
    pub collider: Box2,
}

impl View for Collision {
    type V = ContactView;

    open spec fn view(&self) -> ContactView {
        ContactView { position: self.position@, collider: self.collider@ }
    }
}

/// Single-tick mailbox attached to each actor after its sweep: at most one
/// contact per axis.
#[derive(Clone, Copy, Debug)]
pub struct CollisionResult {
    pub x_collision_body: Option<Collision>,
    pub y_collision_body: Option<Collision>,
}

/// Mathematical model of [`CollisionResult`].
pub ghost struct CollisionResultView {
    pub x_collision_body: Option<ContactView>,
    pub y_collision_body: Option<ContactView>,
}

/// The model of an optional contact.
pub open spec fn contact_view(o: Option<Collision>) -> Option<ContactView> {
    match o {
        Option::Some(c) => Option::Some(c@),
        Option::None => Option::None,
    }
}

impl View for CollisionResult {
    type V = CollisionResultView;

    open spec fn view(&self) -> CollisionResultView {
        CollisionResultView {
            x_collision_body: contact_view(self.x_collision_body),
            y_collision_body: contact_view(self.y_collision_body),
        }
    }
}

/// Smallest corner of a box.
pub open spec fn box_min(b: Box2) -> Vec2 {
    v2_sub(b.position, b.half_size)
}

/// Largest corner of a box.
pub open spec fn box_max(b: Box2) -> Vec2 {
    v2_add(b.position, b.half_size)
}

/// The box translated to sit at a body's world position.
pub open spec fn box_at(b: Box2, pos: Vec2) -> Box2 {
    Box2 { position: v2_add(b.position, pos), half_size: b.half_size }
}

/// Strict overlap on both axes; touching edges do not overlap.
pub open spec fn boxes_overlap(a: Box2, b: Box2) -> bool {
    &&& box_min(a).x < box_max(b).x
    &&& box_max(a).x > box_min(b).x
    &&& box_min(a).y < box_max(b).y
    &&& box_max(a).y > box_min(b).y
}

/// All coordinates of a box small enough that translating it and comparing
/// corners stays inside `i64`.
pub open spec fn box_in_range(b: Box2) -> bool {
    &&& v2_in_range(b.position, COORD_LIMIT as int)
    &&& v2_in_range(b.half_size, COORD_LIMIT as int)
}

/// The model of a solid snapshot entry: world position and collider.
pub open spec fn pair_view(p: (Vec2i, AABB)) -> (Vec2, Box2) {
    (p.0@, p.1@)
}

/// The model of a solid snapshot.
pub open spec fn pairs_view(s: Seq<(Vec2i, AABB)>) -> Seq<(Vec2, Box2)> {
    s.map_values(|p: (Vec2i, AABB)| pair_view(p))
}

/// Every snapshot entry within coordinate range.
pub open spec fn pairs_in_range(s: Seq<(Vec2, Box2)>) -> bool {
    forall|i: int|
        0 <= i < s.len() ==> v2_in_range(#[trigger] s[i].0, POS_LIMIT as int) && box_in_range(
            s[i].1,
        )
}

/// The first solid in snapshot order whose world box strictly overlaps the
/// collider placed at `pos`; earlier entries win ties.
pub open spec fn first_collision(
    collider: Box2,
    pos: Vec2,
    solids: Seq<(Vec2, Box2)>,
) -> Option<ContactView>
    decreases solids.len(),
{
    if solids.len() == 0 {
        Option::None
    } else if boxes_overlap(box_at(collider, pos), box_at(solids[0].1, solids[0].0)) {
        Option::Some(ContactView { position: solids[0].0, collider: solids[0].1 })
    } else {
        first_collision(collider, pos, solids.drop_first())
    }
}

/// The collider placed at `pos` overlaps no solid in the snapshot.
pub open spec fn clear_of_solids(collider: Box2, pos: Vec2, solids: Seq<(Vec2, Box2)>) -> bool {
    forall|i: int|
        0 <= i < solids.len() ==> !boxes_overlap(
            box_at(collider, pos),
            box_at(#[trigger] solids[i].1, solids[i].0),
        )
}

/// The scan returns nothing exactly when no solid overlaps.
pub proof fn lemma_first_collision_none(collider: Box2, pos: Vec2, solids: Seq<(Vec2, Box2)>)
    ensures
        first_collision(collider, pos, solids) is None <==> clear_of_solids(collider, pos, solids),
    decreases solids.len(),
{
    if solids.len() > 0 {
        lemma_first_collision_none(collider, pos, solids.drop_first());
        if first_collision(collider, pos, solids) is None {
            assert forall|i: int| 0 <= i < solids.len() implies !boxes_overlap(
                box_at(collider, pos),
                box_at(#[trigger] solids[i].1, solids[i].0),
            ) by {
                if i > 0 {
                    assert(solids.drop_first()[i - 1] == solids[i]);
                }
            }
        } else {
            if !boxes_overlap(box_at(collider, pos), box_at(solids[0].1, solids[0].0)) {
                let k = choose|i: int|
                    0 <= i < solids.drop_first().len() && boxes_overlap(
                        box_at(collider, pos),
                        box_at(#[trigger] solids.drop_first()[i].1, solids.drop_first()[i].0),
                    );
                assert(solids.drop_first()[k] == solids[k + 1]);
            }
        }
    }
}

/// Interface of types that can report strict overlap with another shape.
pub trait Intersection<T> {
    /// What overlap means for this pair of shapes.
    spec fn intersects_spec(a: &Self, b: &T) -> bool;

    /// When the executable test is allowed to run.
    spec fn intersects_req(a: &Self, b: &T) -> bool;

    /// Executable overlap test.
    fn interescts(a: &Self, b: &T) -> (r: bool)
        requires
            Self::intersects_req(a, b),
        ensures
            r == Self::intersects_spec(a, b),
    ;
}

impl AABB {
    /// Smallest corner of the box.
    pub fn min(&self) -> (r: Vec2i)
        requires
            box_in_range(self@),
        ensures
            r@ == box_min(self@),
    {
        self.position.minus(self.half_size)
    }

    /// Largest corner of the box.
    pub fn max(&self) -> (r: Vec2i)
        requires
            box_in_range(self@),
        ensures
            r@ == box_max(self@),
    {
        self.position.plus(self.half_size)
    }

    /// The box translated to a body's world position.
    pub fn adjusted_position(&self, pos: &Vec2i) -> (r: AABB)
        requires
            box_in_range(self@),
            v2_in_range(pos@, 2 * COORD_LIMIT as int),
        ensures
            r@ == box_at(self@, pos@),
    {
        AABB { position: self.position.plus(*pos), half_size: self.half_size }
    }

    /// Constructs a collider, rejecting negative half extents.
    pub fn new(position: Vec2i, half_size: Vec2i) -> (r: Option<AABB>)
        ensures
            r is Some <==> half_size@.x >= 0 && half_size@.y >= 0,
            r is Some ==> r->Some_0@ == (Box2 { position: position@, half_size: half_size@ }),
    {
        if half_size.x >= 0 && half_size.y >= 0 {
            Option::Some(AABB { position, half_size })
        } else {
            Option::None
        }
    }
}

impl Intersection<AABB> for AABB {
    open spec fn intersects_spec(a: &AABB, b: &AABB) -> bool {
        boxes_overlap(a@, b@)
    }

    open spec fn intersects_req(a: &AABB, b: &AABB) -> bool {
        &&& v2_in_range(a@.position, 4 * COORD_LIMIT as int)
        &&& v2_in_range(a@.half_size, COORD_LIMIT as int)
        &&& v2_in_range(b@.position, 4 * COORD_LIMIT as int)
        &&& v2_in_range(b@.half_size, COORD_LIMIT as int)
    }

    fn interescts(a: &AABB, b: &AABB) -> (r: bool) {
        let a_min = a.position.minus(a.half_size);
        let a_max = a.position.plus(a.half_size);
        let b_min = b.position.minus(b.half_size);
        let b_max = b.position.plus(b.half_size);
        a_min.x < b_max.x && a_max.x > b_min.x && a_min.y < b_max.y && a_max.y > b_min.y
    }
}

/// Scans the solid snapshot in order and returns the first entry whose world
/// box overlaps the collider placed at `position`; `None` when the position
/// is clear of every solid.
pub fn check_for_collision(
    collider: &AABB,
    position: &Vec2i,
    colliders: &Vec<(Vec2i, AABB)>,
) -> (r: Option<Collision>)
    requires
        box_in_range(collider@),
        v2_in_range(position@, 8 * POS_LIMIT as int),
        pairs_in_range(pairs_view(colliders@)),
    ensures
        contact_view(r) == first_collision(collider@, position@, pairs_view(colliders@)),
        r is None <==> clear_of_solids(collider@, position@, pairs_view(colliders@)),
{
    let ghost all = pairs_view(colliders@);
    proof {
        lemma_first_collision_none(collider@, position@, all);
        assert(all.skip(0) =~= all);
    }
    let placed = collider.adjusted_position(position);
    let mut i: usize = 0;
    while i < colliders.len()
        invariant
            0 <= i <= colliders.len(),
            all == pairs_view(colliders@),
            all.len() == colliders@.len(),
            placed@ == box_at(collider@, position@),
            box_in_range(collider@),
            v2_in_range(position@, 8 * POS_LIMIT as int),
            pairs_in_range(all),
            first_collision(collider@, position@, all) == first_collision(
                collider@,
                position@,
                all.skip(i as int),
            ),
        decreases colliders.len() - i,
    {
        let (other_position, other_collider) = colliders[i];
        let other_placed = other_collider.adjusted_position(&other_position);
        proof {
            assert(all[i as int] == pair_view(colliders@[i as int]));
            assert(all.skip(i as int)[0] == all[i as int]);
        }
        if AABB::interescts(&placed, &other_placed) {
            return Option::Some(Collision { position: other_position, collider: other_collider });
        }
        proof {
            assert(all.skip(i as int).drop_first() =~= all.skip(i as int + 1));
        }
        i = i + 1;
    }
    proof {
        assert(all.skip(colliders@.len() as int) =~= Seq::<(Vec2, Box2)>::empty());
    }
    Option::None
}

} // verus!
