//! The whole game state and its two updates: one for the keys of a tick,
//! one for the time that passed in it.

use vstd::prelude::*;
use crate::animation::{next_frame, timer_fires, AnimationState};
use crate::collision::{
    collect, collected, lemma_remaining_holds_nothing_collected,
    lemma_second_pickup_takes_nothing, remaining, Collider, Hitbox,
};
use crate::motion::{DirectionKeys, PlayerState};

verus! {

/// The player with its sprite animation and hitbox, and the colliders that
/// are still in the scene.
#[derive(Clone, Debug, PartialEq, Eq)]
pub struct Scene {
    pub player: PlayerState,
    pub animation: AnimationState,
    pub hitbox: Hitbox,
    pub colliders: Vec<Collider>,
}

/// A scene as a mathematical value: the colliders are a sequence.
pub struct SceneView {
    pub player: PlayerState,
    pub animation: AnimationState,
    pub hitbox: Hitbox,
    pub colliders: Seq<Collider>,
}

impl View for Scene {
    type V = SceneView;

    open spec fn view(&self) -> SceneView {
        SceneView {
            player: self.player,
            animation: self.animation,
            hitbox: self.hitbox,
            colliders: self.colliders@,
        }
    }
}

impl SceneView {
    /// Player, animation and hitbox are each well formed.
    pub open spec fn wf(self) -> bool {
        self.player.wf() && self.animation.wf() && self.hitbox.wf()
    }

    /// The scene after the motion controller has seen `keys`: only the
    /// player changes.
    pub open spec fn steered(self, keys: DirectionKeys) -> SceneView {
        SceneView { player: self.player.steered(keys), ..self }
    }

    /// Whether `elapsed` more nanoseconds bring the next animation frame.
    pub open spec fn frame_due(self, elapsed: u64) -> bool {
        timer_fires(self.animation.frame_timer as int, elapsed as int)
    }

    /// The player after a frame: a player at rest stays, a moving one takes
    /// a step.
    pub open spec fn player_after_frame(self) -> PlayerState {
        if self.player.at_rest() {
            self.player
        } else {
            self.player.moved()
        }
    }

    /// The hitbox after a frame: it trails the player's new position.
    pub open spec fn hitbox_after_frame(self) -> Hitbox {
        self.hitbox.trailing(self.player_after_frame())
    }

    /// The animation after a frame: the sprite looks where the player
    /// looks, the frame index has entered the cycle of the motion state and
    /// moved one cell on, and the timer starts again.
    pub open spec fn animation_after_frame(self) -> AnimationState {
        AnimationState {
            frame_index: next_frame(
                self.animation.frame_index,
                self.player.at_rest(),
                self.animation.frame_count,
            ) as u32,
            frame_timer: 0,
            flip_x: self.player.facing_left,
            frame_count: self.animation.frame_count,
        }
    }

    /// The scene after `elapsed` nanoseconds. Until a frame is due only the
    /// timer runs. On a frame the player moves, the hitbox follows, the
    /// collectibles it then overlaps leave the scene and the animation
    /// moves on.
    pub open spec fn ticked(self, elapsed: u64) -> SceneView {
        if self.frame_due(elapsed) {
            SceneView {
                player: self.player_after_frame(),
                animation: self.animation_after_frame(),
                hitbox: self.hitbox_after_frame(),
                colliders: remaining(self.colliders, self.hitbox_after_frame().rect),
            }
        } else {
            SceneView {
                animation: AnimationState {
                    frame_timer: (self.animation.frame_timer + elapsed) as u64,
                    ..self.animation
                },
                ..self
            }
        }
    }

    /// The collectibles that leave the scene during `elapsed` nanoseconds.
    pub open spec fn picked_up(self, elapsed: u64) -> Seq<Collider> {
        if self.frame_due(elapsed) {
            collected(self.colliders, self.hitbox_after_frame().rect)
        } else {
            Seq::empty()
        }
    }
}

impl Scene {
    /// Whether the scene is one that `handle_keys` and `tick` accept.
    pub fn is_valid(&self) -> (ok: bool)
        ensures
            ok == self@.wf(),
    {
        self.player.is_valid() && self.animation.frame_count > 0 && self.hitbox.is_valid()
    }

    /// The motion controller's part of a tick.
    pub fn handle_keys(&mut self, keys: &DirectionKeys)
        requires
            old(self)@.wf(),
        ensures
            final(self)@ == old(self)@.steered(*keys),
            final(self)@.wf(),
    {
        self.player.apply_keys(keys);
    }

    /// The animation's part of a tick: lets `elapsed` nanoseconds pass and
    /// returns the collectibles that were picked up, which have left the
    /// scene.
    pub fn tick(&mut self, elapsed: u64) -> (picked: Vec<Collider>)
        requires
            old(self)@.wf(),
        ensures
            final(self)@ == old(self)@.ticked(elapsed),
            picked@ == old(self)@.picked_up(elapsed),
            final(self)@.wf(),
    {
        if !self.animation.advance_timer(elapsed) {
            return Vec::new();
        }
        self.animation.flip_x = self.player.facing_left;
        let idle: bool = self.player.is_idle();
        self.animation.enter_cycle(idle);
        if !idle {
            self.player.integrate();
        }
        self.hitbox.follow(&self.player);
        let area = self.hitbox.rect;
        let picked: Vec<Collider> = collect(&mut self.colliders, &area);
        self.animation.advance_frame();
        picked
    }
}

/// A well-formed scene stays well formed through keys and time: the
/// velocities stay within one step of the speed limit and the player stays
/// inside the arena.
pub proof fn lemma_updates_keep_scene_well_formed(
    scene: SceneView,
    keys: DirectionKeys,
    elapsed: u64,
)
    requires
        scene.wf(),
    ensures
        scene.steered(keys).wf(),
        scene.ticked(elapsed).wf(),
{
    let p = scene.player;
    crate::motion::lemma_speed_stays_bounded(
        p.vx as int,
        p.max_speed as int,
        p.acceleration as int,
        keys.left,
        keys.right,
        true,
    );
    crate::motion::lemma_speed_stays_bounded(
        p.vy as int,
        p.max_speed as int,
        p.acceleration as int,
        keys.down,
        keys.up,
        false,
    );
}

/// Time alone never changes the velocity, the facing or the configuration
/// of the player, and keys alone never change its position.
pub proof fn lemma_updates_touch_only_their_part(
    scene: SceneView,
    keys: DirectionKeys,
    elapsed: u64,
)
    requires
        scene.wf(),
    ensures
        scene.ticked(elapsed).player.vx == scene.player.vx,
        scene.ticked(elapsed).player.vy == scene.player.vy,
        scene.ticked(elapsed).player.facing_left == scene.player.facing_left,
        scene.ticked(elapsed).player.max_speed == scene.player.max_speed,
        scene.ticked(elapsed).player.acceleration == scene.player.acceleration,
        scene.steered(keys).player.x == scene.player.x,
        scene.steered(keys).player.y == scene.player.y,
        scene.steered(keys).animation == scene.animation,
        scene.steered(keys).hitbox == scene.hitbox,
        scene.steered(keys).colliders == scene.colliders,
{
}

/// Before a frame is due nothing but the timer changes, and nothing is
/// picked up.
pub proof fn lemma_between_frames_only_the_timer_runs(scene: SceneView, elapsed: u64)
    requires
        !scene.frame_due(elapsed),
    ensures
        scene.ticked(elapsed).player == scene.player,
        scene.ticked(elapsed).hitbox == scene.hitbox,
        scene.ticked(elapsed).colliders == scene.colliders,
        scene.ticked(elapsed).animation.frame_index == scene.animation.frame_index,
        scene.ticked(elapsed).animation.flip_x == scene.animation.flip_x,
        scene.ticked(elapsed).animation.frame_timer == scene.animation.frame_timer + elapsed,
        scene.picked_up(elapsed) == Seq::<Collider>::empty(),
{
}

/// After a frame no collectible that the hitbox overlaps is left in the
/// scene, and what is left was in the scene before.
pub proof fn lemma_frame_clears_what_the_hitbox_overlaps(scene: SceneView, elapsed: u64)
    requires
        scene.frame_due(elapsed),
    ensures
        forall|i: int|
            0 <= i < scene.ticked(elapsed).colliders.len() ==> !(
            #[trigger] scene.ticked(elapsed).colliders[i]).collected_by(
                scene.ticked(elapsed).hitbox.rect,
            ),
        forall|i: int|
            0 <= i < scene.ticked(elapsed).colliders.len() ==> scene.colliders.contains(
                #[trigger] scene.ticked(elapsed).colliders[i],
            ),
{
    lemma_remaining_holds_nothing_collected(scene.colliders, scene.hitbox_after_frame().rect);
}

/// A collectible is picked up once: where one frame follows another and
/// the hitbox has not moved between them, the second frame picks up
/// nothing and leaves the colliders as they were.
pub proof fn lemma_next_frame_in_place_picks_nothing(scene: SceneView, first: u64, second: u64)
    requires
        scene.wf(),
        scene.frame_due(first),
        scene.ticked(first).frame_due(second),
        scene.ticked(first).ticked(second).hitbox.rect == scene.ticked(first).hitbox.rect,
    ensures
        scene.ticked(first).picked_up(second) =~= Seq::<Collider>::empty(),
        scene.ticked(first).ticked(second).colliders =~= scene.ticked(first).colliders,
{
    lemma_second_pickup_takes_nothing(scene.colliders, scene.hitbox_after_frame().rect);
}

/// A player at rest does not move, so its hitbox stays in place from one
/// frame to the next.
pub proof fn lemma_hitbox_rests_with_player(scene: SceneView, first: u64, second: u64)
    requires
        scene.wf(),
        scene.player.at_rest(),
        scene.frame_due(first),
        scene.ticked(first).frame_due(second),
    ensures
        scene.ticked(first).player == scene.player,
        scene.ticked(first).ticked(second).hitbox.rect == scene.ticked(first).hitbox.rect,
{
}

} // verus!
