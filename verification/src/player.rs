//! Per-frame player movement.
//!
//! The mover consumes the movement intent of the frame: when it is absent it
//! changes nothing, and when it is present it advances the player's position
//! by `intent × SPEED × elapsed-time` and asks for a movement-sound instance
//! exactly when none is already active.

use crate::input::Actions;
use crate::math::{in_unit_range, FixedVec2, UNIT};
use vstd::arithmetic::div_mod::{
    lemma_div_is_ordered, lemma_div_multiples_vanish, lemma_div_pos_is_pos,
};
use vstd::prelude::*;

verus! {

/// Player speed, in world units per second.
pub const SPEED: i64 = 150;

/// Frame durations are counted in milliseconds.
pub const MS_PER_SECOND: i64 = 1000;

/// Largest position magnitude (in sub-units) the mover accepts.  It lies far
/// beyond any scene and keeps one frame's displacement from overflowing an
/// `i64`.
pub const POS_LIMIT: i64 = 1_000_000_000_000_000_000;

/// The single controllable sprite: a 2D fixed-point world position plus a
/// fixed depth layer.
#[derive(Clone, Copy, Debug, PartialEq, Eq, Structural)]
pub struct Player {
    pub position: FixedVec2,
    pub layer: i64,
}

/// Both position components are within the mover's accepted range.
pub open spec fn position_in_range(p: Player) -> bool {
    &&& -POS_LIMIT <= p.position.x <= POS_LIMIT
    &&& -POS_LIMIT <= p.position.y <= POS_LIMIT
}

/// Scene bootstrap for the player: it starts at the origin, one depth layer
/// above the background.
pub fn setup_player() -> (p: Player)
    ensures
        p.position.x == 0,
        p.position.y == 0,
        p.layer == 1,
        position_in_range(p),
{
    Player { position: FixedVec2 { x: 0, y: 0 }, layer: 1 }
}

/// One frame's displacement along one axis: the intent component scaled by
/// `SPEED` and by the elapsed milliseconds, divided by `MS_PER_SECOND`,
/// rounding toward zero.
pub open spec fn disp_spec(c: int, dt_ms: int) -> int {
    if c >= 0 {
        (c * SPEED * dt_ms) / (MS_PER_SECOND as int)
    } else {
        -(((-c) * SPEED * dt_ms) / (MS_PER_SECOND as int))
    }
}

/// A frame's displacement never exceeds `SPEED` sub-units per elapsed
/// millisecond, whatever the (unit-range) intent component.
pub proof fn lemma_disp_bounded(c: int, dt_ms: int)
    requires
        -UNIT <= c <= UNIT,
        0 <= dt_ms,
    ensures
        -(SPEED as int) * dt_ms <= disp_spec(c, dt_ms) <= (SPEED as int) * dt_ms,
{
    let a = if c >= 0 {
        c
    } else {
        -c
    };
    assert(0 <= a * 150 * dt_ms && a * 150 * dt_ms <= 1000 * (150 * dt_ms))
        by (nonlinear_arith)
        requires
            0 <= a <= 1000,
            0 <= dt_ms,
    ;
    lemma_div_is_ordered(a * 150 * dt_ms, 1000 * (150 * dt_ms), 1000);
    lemma_div_multiples_vanish(150 * dt_ms, 1000);
    lemma_div_pos_is_pos(a * 150 * dt_ms, 1000);
}

/// One frame's displacement along one axis.
fn displacement(c: i64, dt_ms: u32) -> (d: i64)
    requires
        -UNIT <= c <= UNIT,
    ensures
        d as int == disp_spec(c as int, dt_ms as int),
        -(SPEED as int) * (dt_ms as int) <= d as int <= (SPEED as int) * (dt_ms as int),
{
    proof {
        lemma_disp_bounded(c as int, dt_ms as int);
    }
    let a: u64 = if c < 0 {
        (-c) as u64
    } else {
        c as u64
    };
    assert(a as int * 150 * (dt_ms as int) <= 644_245_094_250_000) by (nonlinear_arith)
        requires
            0 <= a as int <= 1000,
            0 <= dt_ms as int <= 4_294_967_295,
    ;
    let prod: u64 = a * (SPEED as u64) * (dt_ms as u64);
    let q: u64 = prod / (MS_PER_SECOND as u64);
    let qi: i64 = q as i64;
    if c < 0 {
        -qi
    } else {
        qi
    }
}

/// One mover frame on the player alone: an absent intent leaves the player
/// unchanged; a present one advances the position by the frame's
/// displacement and keeps the depth layer.
pub open spec fn moved_spec(p: Player, intent: Option<FixedVec2>, dt_ms: int) -> Player {
    match intent {
        None => p,
        Some(v) => Player {
            position: FixedVec2 {
                x: (p.position.x + disp_spec(v.x as int, dt_ms)) as i64,
                y: (p.position.y + disp_spec(v.y as int, dt_ms)) as i64,
            },
            layer: p.layer,
        },
    }
}

/// Whether the mover starts a new movement-sound instance this frame: only
/// when movement is intended and no instance is already active.
pub open spec fn spawn_sound_spec(intent_present: bool, sound_active: bool) -> bool {
    intent_present && !sound_active
}

/// Per-frame player movement.  `dt_ms` is the elapsed frame time in
/// milliseconds and `sound_active` says whether a movement-sound instance is
/// currently playing.  Returns whether a new movement-sound instance must be
/// started, configured to remove itself when playback completes.
pub fn move_player(
    player: &mut Player,
    dt_ms: u32,
    actions: &Actions,
    sound_active: bool,
) -> (spawn_sound: bool)
    requires
        position_in_range(*old(player)),
        (actions.player_movement matches Some(v) ==> in_unit_range(v)),
    ensures
        *final(player) == moved_spec(*old(player), actions.player_movement, dt_ms as int),
        spawn_sound == spawn_sound_spec(actions.player_movement is Some, sound_active),
{
    match actions.player_movement {
        None => false,
        Some(v) => {
            let dx = displacement(v.x, dt_ms);
            let dy = displacement(v.y, dt_ms);
            player.position.x = player.position.x + dx;
            player.position.y = player.position.y + dy;
            !sound_active
        },
    }
}

/// One frame's worth of mover input: the resolved movement intent and the
/// frame duration in milliseconds.
pub struct FrameIntent {
    pub intent: Option<FixedVec2>,
    pub dt_ms: int,
}

/// The player after a whole sequence of mover frames.
pub open spec fn player_after_frames(p: Player, frames: Seq<FrameIntent>) -> Player
    decreases frames.len(),
{
    if frames.len() == 0 {
        p
    } else {
        moved_spec(
            player_after_frames(p, frames.drop_last()),
            frames.last().intent,
            frames.last().dt_ms,
        )
    }
}

/// Law: frames whose movement intent is absent never change the player,
/// however many of them pass.
pub proof fn lemma_idle_frames_fix_player(p: Player, frames: Seq<FrameIntent>)
    requires
        forall|i: int| 0 <= i < frames.len() ==> frames[i].intent is None,
    ensures
        player_after_frames(p, frames) == p,
    decreases frames.len(),
{
    if frames.len() > 0 {
        assert forall|i: int|
            0 <= i < frames.drop_last().len() implies frames.drop_last()[i].intent is None by {
            assert(frames.drop_last()[i] == frames[i]);
        }
        lemma_idle_frames_fix_player(p, frames.drop_last());
        assert(frames.last().intent is None);
    }
}

} // verus!
