//! Per-frame input resolution.
//!
//! Each frame the resolver reads the keyboard state and, when present, the
//! touch contact projected into world space, and produces the movement
//! intent: an absent value, or a fixed-point unit vector.

use crate::math::{
    diff, in_coord_range, in_norm_range, in_unit_range, is_zero, lemma_norm_spec_bounded,
    lemma_zero_sq_len, norm_spec, normalize, sq_len, FixedVec2, UNIT,
};
use vstd::prelude::*;

verus! {

/// Down/up state of the eight keys that drive the player: four logical
/// directions with two bindings each.
#[derive(Clone, Copy, Debug, PartialEq, Eq, Structural)]
pub struct KeyboardState {
    pub key_w: bool,
    pub arrow_up: bool,
    pub key_s: bool,
    pub arrow_down: bool,
    pub key_a: bool,
    pub arrow_left: bool,
    pub key_d: bool,
    pub arrow_right: bool,
}

/// The four logical direction controls.
pub enum GameControl {
    Up,
    Down,
    Left,
    Right,
}

impl GameControl {
    /// Either of the control's two key bindings is down.
    pub open spec fn pressed_spec(self, keyboard_input: KeyboardState) -> bool {
        match self {
            GameControl::Up => keyboard_input.key_w || keyboard_input.arrow_up,
            GameControl::Down => keyboard_input.key_s || keyboard_input.arrow_down,
            GameControl::Left => keyboard_input.key_a || keyboard_input.arrow_left,
            GameControl::Right => keyboard_input.key_d || keyboard_input.arrow_right,
        }
    }

    /// Whether either key binding of this control is currently down.
    pub fn pressed(&self, keyboard_input: &KeyboardState) -> (r: bool)
        ensures
            r == self.pressed_spec(*keyboard_input),
    {
        match self {
            GameControl::Up => keyboard_input.key_w || keyboard_input.arrow_up,
            GameControl::Down => keyboard_input.key_s || keyboard_input.arrow_down,
            GameControl::Left => keyboard_input.key_a || keyboard_input.arrow_left,
            GameControl::Right => keyboard_input.key_d || keyboard_input.arrow_right,
        }
    }
}

/// The contribution of one control to its axis: 1 when pressed, else 0.
pub open spec fn movement_weight(control: GameControl, input: KeyboardState) -> int {
    if control.pressed_spec(input) {
        1
    } else {
        0
    }
}

/// The contribution of one control to its axis: 1 when pressed, else 0.
pub fn get_movement(control: GameControl, input: &KeyboardState) -> (w: i64)
    ensures
        w as int == movement_weight(control, *input),
{
    if control.pressed(input) {
        1
    } else {
        0
    }
}

/// The raw keyboard vector `(right − left, up − down)`, scaled to fixed
/// point: each component is `-UNIT`, `0` or `UNIT`.
pub open spec fn raw_movement(input: KeyboardState) -> FixedVec2 {
    FixedVec2 {
        x: ((movement_weight(GameControl::Right, input) - movement_weight(
            GameControl::Left,
            input,
        )) * UNIT) as i64,
        y: ((movement_weight(GameControl::Up, input) - movement_weight(GameControl::Down, input))
            * UNIT) as i64,
    }
}

/// Touch-follow threshold: 5 world units, in sub-units.  A touch closer to
/// the player than this leaves the keyboard result in force.
pub const FOLLOW_EPSILON: i64 = 5 * UNIT;

/// The touch point is strictly farther from the player than the follow
/// threshold (compared on squared lengths, which is exact).
pub open spec fn touch_beyond_threshold(touch: FixedVec2, player: FixedVec2) -> bool {
    sq_len(diff(touch, player)) > FOLLOW_EPSILON * FOLLOW_EPSILON
}

/// The movement intent of one frame: the normalized raw keyboard vector,
/// fully overridden by the normalized player-to-touch direction when a touch
/// contact and a player position exist and the touch is beyond the follow
/// threshold; absent when the chosen vector is zero.
pub open spec fn resolve_spec(
    input: KeyboardState,
    touch: Option<FixedVec2>,
    player: Option<FixedVec2>,
) -> Option<FixedVec2> {
    let raw = raw_movement(input);
    let chosen = match (touch, player) {
        (Some(t), Some(p)) => if touch_beyond_threshold(t, p) {
            norm_spec(diff(t, p))
        } else {
            raw
        },
        _ => raw,
    };
    if !is_zero(chosen) {
        Some(norm_spec(chosen))
    } else {
        None
    }
}

/// The resolver output shared with the mover: the movement intent of the
/// current frame, overwritten once per frame.
pub struct Actions {
    pub player_movement: Option<FixedVec2>,
}

impl Default for Actions {
    /// Before the first frame no movement intent is present.
    fn default() -> (a: Actions)
        ensures
            a.player_movement is None,
    {
        Actions { player_movement: None }
    }
}

/// Per-frame input resolution: writes the movement intent resolved from the
/// keyboard state, the touch contact (already projected to world space) and
/// the player position into `actions`.  An absent touch, or an absent player
/// position, skips touch handling and leaves the keyboard result in force.
pub fn handle_touch(
    actions: &mut Actions,
    keyboard_input: &KeyboardState,
    touch_world: Option<FixedVec2>,
    player_pos: Option<FixedVec2>,
)
    requires
        (touch_world matches Some(t) ==> in_coord_range(t)),
        (player_pos matches Some(p) ==> in_coord_range(p)),
    ensures
        final(actions).player_movement == resolve_spec(*keyboard_input, touch_world, player_pos),
{
    let mx = get_movement(GameControl::Right, keyboard_input) - get_movement(
        GameControl::Left,
        keyboard_input,
    );
    let my = get_movement(GameControl::Up, keyboard_input) - get_movement(
        GameControl::Down,
        keyboard_input,
    );
    let mut player_movement = FixedVec2 { x: mx * UNIT, y: my * UNIT };
    if let Some(t) = touch_world {
        if let Some(p) = player_pos {
            let d = FixedVec2 { x: t.x - p.x, y: t.y - p.y };
            assert(d.x * d.x <= 4_000_000_000_000_000_000 && d.y * d.y
                <= 4_000_000_000_000_000_000 && d.x * d.x >= 0 && d.y * d.y >= 0)
                by (nonlinear_arith)
                requires
                    -2_000_000_000 <= d.x <= 2_000_000_000,
                    -2_000_000_000 <= d.y <= 2_000_000_000,
            ;
            if d.x * d.x + d.y * d.y > FOLLOW_EPSILON * FOLLOW_EPSILON {
                proof {
                    lemma_zero_sq_len(d);
                }
                player_movement = normalize(d);
            }
        }
    }
    if player_movement.x != 0 || player_movement.y != 0 {
        actions.player_movement = Some(normalize(player_movement));
    } else {
        actions.player_movement = None;
    }
}

/// Law: with no touch contact, a keyboard combination with a non-zero raw
/// vector resolves to the fixed-point unit vector of that raw vector, and
/// one with a zero raw vector resolves to no intent.
pub proof fn lemma_keyboard_only_intent(input: KeyboardState, player: Option<FixedVec2>)
    ensures
        !is_zero(raw_movement(input)) ==> resolve_spec(input, None, player) == Some(
            norm_spec(raw_movement(input)),
        ),
        is_zero(raw_movement(input)) ==> resolve_spec(input, None, player) is None,
{
}

/// Law: with no key held down and no touch contact, the movement intent is
/// absent.
pub proof fn lemma_no_input_no_intent(input: KeyboardState, player: Option<FixedVec2>)
    requires
        !GameControl::Up.pressed_spec(input),
        !GameControl::Down.pressed_spec(input),
        !GameControl::Left.pressed_spec(input),
        !GameControl::Right.pressed_spec(input),
    ensures
        resolve_spec(input, None, player) is None,
{
}

/// Law: a touch within the follow threshold leaves the keyboard result
/// unchanged, while a touch beyond it fully overrides the keyboard with the
/// normalized player-to-touch direction.
pub proof fn lemma_touch_threshold(input: KeyboardState, t: FixedVec2, p: FixedVec2)
    ensures
        !touch_beyond_threshold(t, p) ==> resolve_spec(input, Some(t), Some(p)) == resolve_spec(
            input,
            None,
            Some(p),
        ),
        touch_beyond_threshold(t, p) ==> resolve_spec(input, Some(t), Some(p)) == (if !is_zero(
            norm_spec(diff(t, p)),
        ) {
            Some(norm_spec(norm_spec(diff(t, p))))
        } else {
            Option::<FixedVec2>::None
        }),
{
}

/// Law: a present movement intent always has both components within `UNIT`
/// of zero — the fixed-point form of the invariant that the intent, when
/// present, is a unit vector.
pub proof fn lemma_resolved_intent_bounded(
    input: KeyboardState,
    touch: Option<FixedVec2>,
    player: Option<FixedVec2>,
)
    requires
        (touch matches Some(t) ==> in_coord_range(t)),
        (player matches Some(p) ==> in_coord_range(p)),
    ensures
        (resolve_spec(input, touch, player) matches Some(v) ==> in_unit_range(v)),
{
    let raw = raw_movement(input);
    if let (Some(t), Some(p)) = (touch, player) {
        if touch_beyond_threshold(t, p) {
            let d = diff(t, p);
            assert(in_norm_range(d));
            lemma_zero_sq_len(d);
            lemma_norm_spec_bounded(d);
            let chosen = norm_spec(d);
            if !is_zero(chosen) {
                lemma_norm_spec_bounded(chosen);
            }
        } else {
            if !is_zero(raw) {
                lemma_norm_spec_bounded(raw);
            }
        }
    } else {
        if !is_zero(raw) {
            lemma_norm_spec_bounded(raw);
        }
    }
}

} // verus!
