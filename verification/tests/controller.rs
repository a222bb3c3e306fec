//! Scenario tests for the character decision systems and the composed
//! controller tick.

use platformer_core::body::{Body, BodyMode};
use platformer_core::character::Character;
use platformer_core::game::GameConfig;
use platformer_core::input::{CharacterInput2D, KeyInput, TickEvents};
use platformer_core::math::Vec2;
use platformer_core::states::GameState;
use platformer_core::systems::character::{
    character_grounded_system, character_gravity_multiplier, character_jump, character_movement,
    controller_tick, ground_ray, CHARACTER_LAYER, GROUND_RAY_LENGTH, WORLD_LAYER,
};
use platformer_core::world::WorldBounds2D;

fn wide_bounds() -> WorldBounds2D {
    WorldBounds2D {
        min: Vec2 { x: -100_000, y: -100_000 },
        max: Vec2 { x: 100_000, y: 100_000 },
    }
}

fn character(speed: u64, air: u64, jump_y: i64, grounded: bool) -> Character {
    Character {
        speed,
        air_control_factor: air,
        jump_force: Vec2 { x: 0, y: jump_y },
        grounded,
    }
}

fn right() -> CharacterInput2D {
    CharacterInput2D {
        direction: Vec2 { x: 1, y: 0 },
    }
}

#[test]
fn scenario_grounded_full_speed() {
    let c = character(10, 1000, 0, true);
    let mut vel = Vec2 { x: 0, y: 0 };
    character_movement(&right(), &wide_bounds(), &c, 500, 0, false, &mut vel);
    assert_eq!(vel.x, 10);
    assert_eq!(vel.y, 0);
}

#[test]
fn scenario_airborne_half_air_control() {
    let c = character(10, 500, 0, false);
    let mut vel = Vec2 { x: 0, y: 0 };
    character_movement(&right(), &wide_bounds(), &c, 500, 0, false, &mut vel);
    assert_eq!(vel.x, 5);
}

#[test]
fn air_control_truncates_toward_zero() {
    let c = character(10, 333, 0, false);
    let mut vel = Vec2 { x: 0, y: 0 };
    character_movement(&right(), &wide_bounds(), &c, 500, 0, false, &mut vel);
    assert_eq!(vel.x, 3);
}

#[test]
fn opposite_keys_cancel_to_no_movement() {
    let keys = KeyInput {
        left_held: true,
        right_held: true,
        jump_just_pressed: false,
        pause_just_pressed: false,
    };
    let mut input = CharacterInput2D {
        direction: Vec2 { x: 7, y: 7 },
    };
    platformer_core::input::platformer_2d_keyboard_input(&keys, &mut input);
    assert_eq!(input.direction.x, 0);
    assert_eq!(input.direction.y, 0);

    let c = character(10, 1000, 0, true);
    let mut vel = Vec2 { x: 4, y: 0 };
    character_movement(&input, &wide_bounds(), &c, 500, 0, false, &mut vel);
    assert_eq!(vel.x, 0);
}

#[test]
fn scenario_at_right_edge_velocity_zeroed() {
    let c = character(10, 1000, 0, true);
    let bounds = wide_bounds();
    let mut vel = Vec2 { x: 9, y: 0 };
    // x = max.x - half_width, still pushing right
    character_movement(&right(), &bounds, &c, 500, 99_500, false, &mut vel);
    assert_eq!(vel.x, 0);
}

#[test]
fn at_left_edge_pushing_left_velocity_zeroed() {
    let c = character(10, 1000, 0, true);
    let input = CharacterInput2D {
        direction: Vec2 { x: -1, y: 0 },
    };
    let mut vel = Vec2 { x: -9, y: 0 };
    character_movement(&input, &wide_bounds(), &c, 500, -99_500, false, &mut vel);
    assert_eq!(vel.x, 0);
}

#[test]
fn at_edge_pushing_inward_moves() {
    let c = character(10, 1000, 0, true);
    // at the right edge but pushing left
    let input = CharacterInput2D {
        direction: Vec2 { x: -1, y: 0 },
    };
    let mut vel = Vec2 { x: 0, y: 0 };
    character_movement(&input, &wide_bounds(), &c, 500, 99_500, false, &mut vel);
    assert_eq!(vel.x, -10);
}

#[test]
fn paused_movement_leaves_velocity_untouched() {
    let c = character(10, 1000, 0, true);
    let mut vel = Vec2 { x: 42, y: -3 };
    character_movement(&right(), &wide_bounds(), &c, 500, 0, true, &mut vel);
    assert_eq!(vel, Vec2 { x: 42, y: -3 });
}

#[test]
fn scenario_grounded_jump_applies_impulse_once() {
    let c = character(10, 1000, 1500, true);
    let mut events = TickEvents { jump: 1, pause: 0 };
    let mut impulse = Vec2 { x: 0, y: 0 };
    character_jump(&c, false, &mut events, &mut impulse);
    assert_eq!(impulse, Vec2 { x: 0, y: 1500 });
    assert_eq!(events.jump, 0);
}

#[test]
fn scenario_airborne_jump_consumed_without_impulse() {
    let c = character(10, 1000, 1500, false);
    let mut events = TickEvents { jump: 1, pause: 0 };
    let mut impulse = Vec2 { x: 0, y: 0 };
    character_jump(&c, false, &mut events, &mut impulse);
    assert_eq!(impulse, Vec2 { x: 0, y: 0 });
    assert_eq!(events.jump, 0);
    assert!(!c.grounded);
}

#[test]
fn zero_jump_events_change_nothing() {
    let c = character(10, 1000, 1500, true);
    let mut events = TickEvents { jump: 0, pause: 3 };
    let mut impulse = Vec2 { x: 11, y: 22 };
    character_jump(&c, false, &mut events, &mut impulse);
    assert_eq!(impulse, Vec2 { x: 11, y: 22 });
    assert_eq!(events.jump, 0);
    assert_eq!(events.pause, 3);
}

#[test]
fn two_queued_jump_events_apply_twice() {
    let c = character(10, 1000, 1500, true);
    let mut events = TickEvents { jump: 2, pause: 0 };
    let mut impulse = Vec2 { x: 0, y: 0 };
    character_jump(&c, false, &mut events, &mut impulse);
    assert_eq!(impulse, Vec2 { x: 0, y: 3000 });
}

#[test]
fn paused_jump_drains_events_without_impulse() {
    let c = character(10, 1000, 1500, true);
    let mut events = TickEvents { jump: 1, pause: 0 };
    let mut impulse = Vec2 { x: 0, y: 0 };
    character_jump(&c, true, &mut events, &mut impulse);
    assert_eq!(impulse, Vec2 { x: 0, y: 0 });
    assert_eq!(events.jump, 0);
}

#[test]
fn grounded_system_follows_the_ray_outcome() {
    let mut c = character(10, 1000, 1500, false);
    character_grounded_system(&mut c, true);
    assert!(c.grounded);
    character_grounded_system(&mut c, false);
    assert!(!c.grounded);
    assert_eq!(c.speed, 10);
    assert_eq!(c.jump_force.y, 1500);
}

#[test]
fn ground_ray_starts_at_bottom_centre() {
    let ray = ground_ray(&Vec2 { x: 250, y: 4000 }, 1000);
    assert_eq!(ray.origin.x, 250);
    assert_eq!(ray.origin.y, 3000);
    assert_eq!(ray.length, GROUND_RAY_LENGTH);
    assert_eq!(ray.length, 100);
    assert_eq!(ray.memberships, CHARACTER_LAYER);
    assert_eq!(ray.filter, WORLD_LAYER);
}

#[test]
fn gravity_multiplier_applies_only_airborne() {
    let config = GameConfig {
        character_gravity: Vec2 { x: 0, y: -50 },
    };
    let airborne = character(10, 1000, 0, false);
    let mut force = Vec2 { x: 1, y: 2 };
    character_gravity_multiplier(&config, &airborne, &mut force);
    assert_eq!(force, Vec2 { x: 1, y: -48 });

    let grounded = character(10, 1000, 0, true);
    character_gravity_multiplier(&config, &grounded, &mut force);
    assert_eq!(force, Vec2 { x: 1, y: -48 });
}

fn running_body() -> Body {
    Body {
        position: Vec2 { x: 0, y: 0 },
        velocity: Vec2 { x: 3, y: 4 },
        force: Vec2 { x: 0, y: 0 },
        impulse: Vec2 { x: 0, y: 0 },
        mode: BodyMode::Dynamic,
    }
}

#[test]
fn scenario_pause_and_jump_in_same_tick() {
    // pause-toggle fires while grounded and a jump is queued: the pause
    // flag flips, the jump event is consumed, and no impulse is applied
    let keys = KeyInput {
        left_held: false,
        right_held: false,
        jump_just_pressed: true,
        pause_just_pressed: true,
    };
    let mut state = GameState::Game;
    let mut c = character(10, 1000, 1500, false);
    let mut body = running_body();
    let config = GameConfig {
        character_gravity: Vec2 { x: 0, y: -50 },
    };
    controller_tick(
        &mut state,
        &mut c,
        &mut body,
        &wide_bounds(),
        &config,
        &keys,
        true,
        500,
    );
    assert_eq!(state, GameState::Paused);
    assert_eq!(body.mode, BodyMode::Fixed);
    assert!(c.grounded);
    assert_eq!(body.impulse, Vec2 { x: 0, y: 0 });
    assert_eq!(body.velocity, Vec2 { x: 3, y: 4 });
    assert_eq!(body.force, Vec2 { x: 0, y: 0 });
}

#[test]
fn paused_tick_issues_no_commands() {
    // while paused, no velocity command and no impulse, whatever the input
    let keys = KeyInput {
        left_held: false,
        right_held: true,
        jump_just_pressed: true,
        pause_just_pressed: false,
    };
    let mut state = GameState::Paused;
    let mut c = character(10, 1000, 1500, true);
    let mut body = running_body();
    body.mode = BodyMode::Fixed;
    let config = GameConfig {
        character_gravity: Vec2 { x: 0, y: -50 },
    };
    controller_tick(
        &mut state,
        &mut c,
        &mut body,
        &wide_bounds(),
        &config,
        &keys,
        true,
        500,
    );
    assert_eq!(state, GameState::Paused);
    assert_eq!(body.velocity, Vec2 { x: 3, y: 4 });
    assert_eq!(body.impulse, Vec2 { x: 0, y: 0 });
    assert_eq!(body.force, Vec2 { x: 0, y: 0 });
    assert_eq!(body.position, Vec2 { x: 0, y: 0 });
}

#[test]
fn running_tick_issues_movement_and_jump() {
    let keys = KeyInput {
        left_held: false,
        right_held: true,
        jump_just_pressed: true,
        pause_just_pressed: false,
    };
    let mut state = GameState::Game;
    let mut c = character(10, 1000, 1500, false);
    let mut body = running_body();
    let config = GameConfig {
        character_gravity: Vec2 { x: 0, y: -50 },
    };
    controller_tick(
        &mut state,
        &mut c,
        &mut body,
        &wide_bounds(),
        &config,
        &keys,
        true,
        500,
    );
    assert_eq!(state, GameState::Game);
    assert_eq!(body.mode, BodyMode::Dynamic);
    assert!(c.grounded);
    assert_eq!(body.velocity.x, 10);
    assert_eq!(body.impulse, Vec2 { x: 0, y: 1500 });
    // grounded, so no extra character gravity
    assert_eq!(body.force, Vec2 { x: 0, y: 0 });
}

#[test]
fn airborne_tick_adds_character_gravity() {
    let keys = KeyInput {
        left_held: false,
        right_held: false,
        jump_just_pressed: false,
        pause_just_pressed: false,
    };
    let mut state = GameState::Game;
    let mut c = character(10, 1000, 1500, true);
    let mut body = running_body();
    let config = GameConfig {
        character_gravity: Vec2 { x: 0, y: -50 },
    };
    controller_tick(
        &mut state,
        &mut c,
        &mut body,
        &wide_bounds(),
        &config,
        &keys,
        false,
        500,
    );
    assert!(!c.grounded);
    assert_eq!(body.force, Vec2 { x: 0, y: -50 });
    assert_eq!(body.velocity.x, 0);
}

#[test]
fn pause_round_trip_restores_state_and_mode() {
    // two pause toggles in immediate succession return the pause flag and
    // the body simulation mode to their original values
    let keys_pause = KeyInput {
        left_held: false,
        right_held: false,
        jump_just_pressed: false,
        pause_just_pressed: true,
    };
    let mut state = GameState::Game;
    let mut c = character(10, 1000, 1500, true);
    let mut body = running_body();
    let config = GameConfig {
        character_gravity: Vec2 { x: 0, y: 0 },
    };
    let bounds = wide_bounds();
    controller_tick(&mut state, &mut c, &mut body, &bounds, &config, &keys_pause, true, 500);
    assert_eq!(state, GameState::Paused);
    assert_eq!(body.mode, BodyMode::Fixed);
    controller_tick(&mut state, &mut c, &mut body, &bounds, &config, &keys_pause, true, 500);
    assert_eq!(state, GameState::Game);
    assert_eq!(body.mode, BodyMode::Dynamic);
}

#[test]
fn unpausing_tick_resumes_movement() {
    let keys = KeyInput {
        left_held: false,
        right_held: true,
        jump_just_pressed: false,
        pause_just_pressed: true,
    };
    let mut state = GameState::Paused;
    let mut c = character(10, 1000, 1500, true);
    let mut body = running_body();
    body.mode = BodyMode::Fixed;
    let config = GameConfig {
        character_gravity: Vec2 { x: 0, y: 0 },
    };
    controller_tick(
        &mut state,
        &mut c,
        &mut body,
        &wide_bounds(),
        &config,
        &keys,
        true,
        500,
    );
    assert_eq!(state, GameState::Game);
    assert_eq!(body.mode, BodyMode::Dynamic);
    assert_eq!(body.velocity.x, 10);
}
