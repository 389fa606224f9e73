//! The player's hitbox, the colliders of the scene, and the pick-up of
//! collectibles that the hitbox overlaps.

use vstd::prelude::*;
use crate::geometry::Rect;
use crate::motion::PlayerState;
use crate::units::{ARENA_BOTTOM, ARENA_LEFT, ARENA_RIGHT, ARENA_TOP};

verus! {

/// What a collider stands for.
#[derive(Clone, Copy, Debug, PartialEq, Eq, Structural)]
pub enum ColliderKind {
    /// Part of the player: found by the overlap test, never removed.
    Player,
    /// Something to pick up: removed for good once the hitbox overlaps it.
    Collectible,
}

/// A rectangle of the scene with its role. `id` is the caller's own handle
/// for it; the rules never read it.
#[derive(Clone, Copy, Debug, PartialEq, Eq, Structural)]
pub struct Collider {
    pub id: u64,
    pub kind: ColliderKind,
    pub rect: Rect,
}

/// The player's collision rectangle, which trails the player at a fixed
/// offset.
#[derive(Clone, Copy, Debug, PartialEq, Eq, Structural)]
pub struct Hitbox {
    pub offset_x: i64,
    pub offset_y: i64,
    /// Where the hitbox is in the world, and how large.
    pub rect: Rect,
}

impl Collider {
    /// Whether a hitbox at `hitbox` picks this collider up: it is a
    /// collectible and the two rectangles overlap.
    pub open spec fn collected_by(self, hitbox: Rect) -> bool {
        self.kind == ColliderKind::Collectible && hitbox.overlaps(self.rect)
    }

    /// The collider of the given role at `rect`.
    pub fn new(id: u64, kind: ColliderKind, rect: Rect) -> (c: Collider)
        ensures
            c == (Collider { id, kind, rect }),
    {
        Collider { id, kind, rect }
    }

    /// Whether a hitbox at `hitbox` picks this collider up.
    pub fn is_collected_by(&self, hitbox: &Rect) -> (hit: bool)
        ensures
            hit == self.collected_by(*hitbox),
    {
        match self.kind {
            ColliderKind::Player => false,
            ColliderKind::Collectible => hitbox.intersects(&self.rect),
        }
    }
}

/// The test that picks out what a hitbox at `hitbox` collects.
pub open spec fn picks(hitbox: Rect) -> spec_fn(Collider) -> bool {
    |c: Collider| c.collected_by(hitbox)
}

/// The test that picks out what a hitbox at `hitbox` leaves in place.
pub open spec fn spares(hitbox: Rect) -> spec_fn(Collider) -> bool {
    |c: Collider| !c.collected_by(hitbox)
}

/// The colliders that a hitbox at `hitbox` collects, in their order.
pub open spec fn collected(colliders: Seq<Collider>, hitbox: Rect) -> Seq<Collider> {
    colliders.filter(picks(hitbox))
}

/// The colliders that a hitbox at `hitbox` leaves in place, in their order.
pub open spec fn remaining(colliders: Seq<Collider>, hitbox: Rect) -> Seq<Collider> {
    colliders.filter(spares(hitbox))
}

impl Hitbox {
    /// The offset is small enough for the hitbox to follow the player to
    /// every point of the arena.
    pub open spec fn wf(self) -> bool {
        &&& i64::MIN <= ARENA_LEFT + self.offset_x
        &&& ARENA_RIGHT + self.offset_x <= i64::MAX
        &&& i64::MIN <= ARENA_BOTTOM + self.offset_y
        &&& ARENA_TOP + self.offset_y <= i64::MAX
    }

    /// The hitbox of a player at `player`.
    pub open spec fn trailing(self, player: PlayerState) -> Hitbox {
        Hitbox {
            rect: Rect {
                center_x: (player.x + self.offset_x) as i64,
                center_y: (player.y + self.offset_y) as i64,
                ..self.rect
            },
            ..self
        }
    }

    /// A hitbox of the given size for a player at the origin. `None` where
    /// an offset is too large for the hitbox to follow the player through
    /// the arena.
    pub fn new(offset_x: i64, offset_y: i64, width: i64, height: i64) -> (made: Option<Hitbox>)
        ensures
            made.is_some() <==> (Hitbox {
                offset_x,
                offset_y,
                rect: Rect { center_x: offset_x, center_y: offset_y, width, height },
            }).wf(),
            made matches Some(h) ==> h == (Hitbox {
                offset_x,
                offset_y,
                rect: Rect { center_x: offset_x, center_y: offset_y, width, height },
            }),
    {
        let h = Hitbox {
            offset_x,
            offset_y,
            rect: Rect { center_x: offset_x, center_y: offset_y, width, height },
        };
        if h.is_valid() {
            Some(h)
        } else {
            None
        }
    }

    /// Whether the hitbox is one the other methods accept.
    pub fn is_valid(&self) -> (ok: bool)
        ensures
            ok == self.wf(),
    {
        i64::MIN - ARENA_LEFT <= self.offset_x && self.offset_x <= i64::MAX - ARENA_RIGHT
            && i64::MIN - ARENA_BOTTOM <= self.offset_y && self.offset_y <= i64::MAX - ARENA_TOP
    }

    /// Moves the hitbox to the player's position plus the offset. Offset
    /// and size stay as they are.
    pub fn follow(&mut self, player: &PlayerState)
        requires
            old(self).wf(),
            player.wf(),
        ensures
            *final(self) == old(self).trailing(*player),
            final(self).rect.center_x == player.x + old(self).offset_x,
            final(self).rect.center_y == player.y + old(self).offset_y,
            final(self).wf(),
    {
        self.rect.center_x = player.x + self.offset_x;
        self.rect.center_y = player.y + self.offset_y;
    }
}

/// Removes from `colliders` every collectible that `hitbox` overlaps and
/// returns what was removed. Both lists keep the order the colliders had.
pub fn collect(colliders: &mut Vec<Collider>, hitbox: &Rect) -> (picked: Vec<Collider>)
    ensures
        final(colliders)@ == remaining(old(colliders)@, *hitbox),
        picked@ == collected(old(colliders)@, *hitbox),
{
    let mut kept: Vec<Collider> = Vec::new();
    let mut picked: Vec<Collider> = Vec::new();
    let n: usize = colliders.len();
    let mut i: usize = 0;
    proof {
        reveal(Seq::filter);
        assert(colliders@.take(0).len() == 0);
    }
    while i < n
        invariant
            i <= n,
            n == colliders@.len(),
            colliders@ == old(colliders)@,
            kept@ == remaining(colliders@.take(i as int), *hitbox),
            picked@ == collected(colliders@.take(i as int), *hitbox),
        decreases n - i,
    {
        let c: Collider = colliders[i];
        proof {
            let before = colliders@.take(i as int);
            assert(colliders@.take(i + 1) =~= before.push(c));
            before.lemma_filter_push(c, spares(*hitbox));
            before.lemma_filter_push(c, picks(*hitbox));
        }
        if c.is_collected_by(hitbox) {
            picked.push(c);
        } else {
            kept.push(c);
        }
        i = i + 1;
    }
    proof {
        assert(colliders@.take(n as int) =~= colliders@);
    }
    *colliders = kept;
    picked
}

/// After a pick-up nothing that the hitbox collects is left, and every
/// collider that is left was there before.
pub proof fn lemma_remaining_holds_nothing_collected(colliders: Seq<Collider>, hitbox: Rect)
    ensures
        forall|i: int|
            0 <= i < remaining(colliders, hitbox).len() ==> !(#[trigger] remaining(
                colliders,
                hitbox,
            )[i]).collected_by(hitbox),
        forall|i: int|
            0 <= i < remaining(colliders, hitbox).len() ==> colliders.contains(
                #[trigger] remaining(colliders, hitbox)[i],
            ),
        forall|i: int|
            0 <= i < collected(colliders, hitbox).len() ==> (#[trigger] collected(
                colliders,
                hitbox,
            )[i]).collected_by(hitbox),
    decreases colliders.len(),
{
    reveal(Seq::filter);
    if colliders.len() > 0 {
        let front = colliders.drop_last();
        lemma_remaining_holds_nothing_collected(front, hitbox);
        assert forall|i: int| 0 <= i < remaining(colliders, hitbox).len() implies colliders.contains(
            #[trigger] remaining(colliders, hitbox)[i],
        ) by {
            if i < remaining(front, hitbox).len() {
                let c = remaining(front, hitbox)[i];
                assert(front.contains(c));
                let j = choose|j: int| 0 <= j < front.len() && front[j] == c;
                assert(colliders[j] == c);
            } else {
                assert(colliders[colliders.len() - 1] == colliders.last());
            }
        }
    }
}

/// A collider that is no collectible, or that the hitbox does not overlap,
/// stays in the scene.
pub proof fn lemma_untouched_collider_remains(colliders: Seq<Collider>, hitbox: Rect, i: int)
    requires
        0 <= i < colliders.len(),
        !colliders[i].collected_by(hitbox),
    ensures
        remaining(colliders, hitbox).contains(colliders[i]),
        !collected(colliders, hitbox).contains(colliders[i]),
{
    colliders.lemma_filter_contains(spares(hitbox), i);
    lemma_remaining_holds_nothing_collected(colliders, hitbox);
}

/// Each collider goes exactly one way: what is taken and what is left make
/// up the old scene, item for item.
pub proof fn lemma_pickup_splits_scene(colliders: Seq<Collider>, hitbox: Rect)
    ensures
        collected(colliders, hitbox).len() + remaining(colliders, hitbox).len() == colliders.len(),
        collected(colliders, hitbox).to_multiset().add(remaining(colliders, hitbox).to_multiset())
            =~= colliders.to_multiset(),
    decreases colliders.len(),
{
    broadcast use vstd::seq_lib::group_to_multiset_ensures;

    reveal(Seq::filter);
    if colliders.len() > 0 {
        let front = colliders.drop_last();
        lemma_pickup_splits_scene(front, hitbox);
        assert(colliders =~= front.push(colliders.last()));
    } else {
        assert(colliders =~= Seq::<Collider>::empty());
    }
}

/// A collectible is removed once: a second pick-up with the same hitbox
/// takes nothing and leaves the scene as the first one left it.
pub proof fn lemma_second_pickup_takes_nothing(colliders: Seq<Collider>, hitbox: Rect)
    ensures
        collected(remaining(colliders, hitbox), hitbox) =~= Seq::<Collider>::empty(),
        remaining(remaining(colliders, hitbox), hitbox) =~= remaining(colliders, hitbox),
    decreases colliders.len(),
{
    reveal(Seq::filter);
    if colliders.len() > 0 {
        let front = colliders.drop_last();
        let c = colliders.last();
        lemma_second_pickup_takes_nothing(front, hitbox);
        if !c.collected_by(hitbox) {
            remaining(front, hitbox).lemma_filter_push(c, spares(hitbox));
            remaining(front, hitbox).lemma_filter_push(c, picks(hitbox));
        }
    }
}

} // verus!
