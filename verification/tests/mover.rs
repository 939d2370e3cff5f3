use hello_bevy::input::Actions;
use hello_bevy::math::FixedVec2;
use hello_bevy::player::{move_player, setup_player};

#[test]
fn setup_player_starts_at_origin_on_layer_one() {
    let player = setup_player();
    assert_eq!(player.position, FixedVec2 { x: 0, y: 0 });
    assert_eq!(player.layer, 1);
}

#[test]
fn absent_intent_never_moves_player() {
    let mut player = setup_player();
    let actions = Actions { player_movement: None };
    for frame in 0..50u32 {
        let spawn = move_player(&mut player, 16 + frame, &actions, false);
        assert!(!spawn);
    }
    assert_eq!(player.position, FixedVec2 { x: 0, y: 0 });
    assert_eq!(player.layer, 1);
}

#[test]
fn unit_right_for_a_tenth_second_advances_fifteen_units() {
    // intent (1, 0), 0.1 s elapsed: 150 × 1 × 0.1 = 15 world units.
    let mut player = setup_player();
    let actions = Actions { player_movement: Some(FixedVec2 { x: 1000, y: 0 }) };
    move_player(&mut player, 100, &actions, false);
    assert_eq!(player.position, FixedVec2 { x: 15000, y: 0 });
    assert_eq!(player.layer, 1);
}

#[test]
fn diagonal_intent_advances_both_axes() {
    let mut player = setup_player();
    let actions = Actions { player_movement: Some(FixedVec2 { x: 707, y: 707 }) };
    move_player(&mut player, 100, &actions, false);
    // 707 × 150 × 100 / 1000 = 10605 sub-units on each axis.
    assert_eq!(player.position, FixedVec2 { x: 10605, y: 10605 });
}

#[test]
fn displacement_truncates_toward_zero() {
    let mut player = setup_player();
    let actions = Actions { player_movement: Some(FixedVec2 { x: -707, y: 0 }) };
    move_player(&mut player, 1, &actions, false);
    // -707 × 150 × 1 / 1000 truncates from -106.05 to -106.
    assert_eq!(player.position, FixedVec2 { x: -106, y: 0 });
}

#[test]
fn movement_accumulates_over_frames() {
    let mut player = setup_player();
    let actions = Actions { player_movement: Some(FixedVec2 { x: 0, y: -1000 }) };
    for _ in 0..10 {
        move_player(&mut player, 20, &actions, true);
    }
    // 10 frames × (1000 × 150 × 20 / 1000) = 10 × 3000 sub-units downward.
    assert_eq!(player.position, FixedVec2 { x: 0, y: -30000 });
}

#[test]
fn zero_elapsed_time_moves_nothing_but_still_triggers_sound() {
    let mut player = setup_player();
    let actions = Actions { player_movement: Some(FixedVec2 { x: 1000, y: 0 }) };
    let spawn = move_player(&mut player, 0, &actions, false);
    assert_eq!(player.position, FixedVec2 { x: 0, y: 0 });
    assert!(spawn);
}

#[test]
fn no_intent_spawns_no_sound() {
    let mut player = setup_player();
    let actions = Actions { player_movement: None };
    assert!(!move_player(&mut player, 16, &actions, false));
}

#[test]
fn active_sound_is_not_restarted() {
    let mut player = setup_player();
    let actions = Actions { player_movement: Some(FixedVec2 { x: 1000, y: 0 }) };
    assert!(move_player(&mut player, 16, &actions, false));
    assert!(!move_player(&mut player, 16, &actions, true));
    assert!(!move_player(&mut player, 16, &actions, true));
}

#[test]
fn at_most_one_instance_over_many_moving_frames() {
    // Drive the mover as the frame loop would, counting live instances:
    // one is started only when none is live, so the count never passes 1.
    let mut player = setup_player();
    let actions = Actions { player_movement: Some(FixedVec2 { x: 1000, y: 0 }) };
    let mut live_instances: u32 = 0;
    for frame in 0..100u32 {
        // Playback finishes every seventh frame and the instance removes
        // itself before the mover runs.
        if frame % 7 == 3 && live_instances > 0 {
            live_instances -= 1;
        }
        let spawn = move_player(&mut player, 16, &actions, live_instances > 0);
        if spawn {
            live_instances += 1;
        }
        assert!(live_instances <= 1);
    }
}

#[test]
fn sound_restarts_after_playback_completes() {
    let mut player = setup_player();
    let actions = Actions { player_movement: Some(FixedVec2 { x: 1000, y: 0 }) };
    assert!(move_player(&mut player, 16, &actions, false));
    assert!(!move_player(&mut player, 16, &actions, true));
    // The instance finished and removed itself; the next moving frame
    // starts a fresh one.
    assert!(move_player(&mut player, 16, &actions, false));
}
