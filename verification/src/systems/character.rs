//! Character decision systems: ground check, horizontal movement, jumping,
//! extra gravity, and the composed per-tick controller.

use vstd::prelude::*;
use crate::body::Body;
use crate::character::{lemma_effective_speed_bounds, Character};
use crate::game::GameConfig;
use crate::input::{
    jump_input, key_direction, pause_input, platformer_2d_keyboard_input, CharacterInput2D,
    KeyInput, TickEvents,
};
use crate::math::{
    clamp, clamp_i64, lemma_partial_sum_between, sum_fits, Vec2, AIR_CONTROL_ONE, MAX_TICK_MS,
    MAX_UNITS, MS_PER_SECOND,
};
use crate::states::GameState;
use crate::systems::{pause, pause_consistent, pause_toggled, unpause};
use crate::world::WorldBounds2D;

verus! {

/// Collision-filter group of world geometry.
pub const WORLD_LAYER: u32 = 0b01;

/// Collision-filter group of characters.
pub const CHARACTER_LAYER: u32 = 0b10;

/// How far below the character the ground check reaches, in milliunits
/// (0.1 world units).
pub const GROUND_RAY_LENGTH: i64 = 100;

/// The ground-check query the physics collaborator is asked to run: a ray
/// cast straight down, filtered to world geometry.
#[derive(Clone, Copy, Debug)]
pub struct GroundRay {
    /// Where the ray starts.
    pub origin: Vec2,
    /// How far down it reaches, in milliunits.
    pub length: i64,
    /// Collision group the ray belongs to.
    pub memberships: u32,
    /// Collision groups the ray may hit.
    pub filter: u32,
}

/// Builds this tick's ground-check ray: cast straight down from the bottom
/// centre of the character's collision shape, reaching
/// `GROUND_RAY_LENGTH` below it, hitting only world-layer geometry.
pub fn ground_ray(position: &Vec2, half_height: i64) -> (ray: GroundRay)
    requires
        position.bounded(),
        0 <= half_height <= MAX_UNITS,
    ensures
        ray.origin.x == position.x,
        ray.origin.y == position.y - half_height,
        ray.length == GROUND_RAY_LENGTH,
        ray.memberships == CHARACTER_LAYER,
        ray.filter == WORLD_LAYER,
{
    GroundRay {
        origin: Vec2 { x: position.x, y: position.y - half_height },
        length: GROUND_RAY_LENGTH,
        memberships: CHARACTER_LAYER,
        filter: WORLD_LAYER,
    }
}

/// Records the outcome of this tick's ground query: a hit grounds the
/// character at once, a miss clears the flag at once, with no hysteresis.
pub fn character_grounded_system(c: &mut Character, hit: bool)
    ensures
        *final(c) == (Character { grounded: hit, ..*old(c) }),
{
    c.grounded = hit;
}

/// The character, at `position_x`, is at a world edge and still pushing
/// outward in `direction`.
pub open spec fn pushing_out_of_bounds(
    position_x: int,
    half_width: int,
    direction: int,
    bounds: WorldBounds2D,
) -> bool {
    ||| direction < 0 && position_x - half_width <= bounds.min.x
    ||| direction > 0 && position_x + half_width >= bounds.max.x
}

/// The horizontal velocity command the movement system issues: zero when
/// pushing out of the world, otherwise the effective speed signed by the
/// requested direction.
pub open spec fn movement_velocity_x(
    c: Character,
    direction: int,
    position_x: int,
    half_width: int,
    bounds: WorldBounds2D,
) -> int {
    if pushing_out_of_bounds(position_x, half_width, direction, bounds) {
        0
    } else {
        direction * c.effective_speed()
    }
}

/// Handles player character movement: sets the horizontal velocity from
/// the sampled direction and the character's effective speed, zeroing it
/// at a world edge that the character still pushes against. While the
/// session is paused no command is issued and the velocity is left
/// untouched.
pub fn character_movement(
    input: &CharacterInput2D,
    bounds: &WorldBounds2D,
    c: &Character,
    half_width: i64,
    position_x: i64,
    paused: bool,
    velocity: &mut Vec2,
)
    requires
        input.wf(),
        bounds.wf(),
        c.wf(),
        0 <= half_width <= MAX_UNITS,
        -MAX_UNITS <= position_x <= MAX_UNITS,
    ensures
        paused ==> *final(velocity) == *old(velocity),
        !paused ==> final(velocity).x == movement_velocity_x(
            *c,
            input.direction.x as int,
            position_x as int,
            half_width as int,
            *bounds,
        ),
        !paused ==> final(velocity).y == old(velocity).y,
        !paused ==> -MAX_UNITS <= final(velocity).x <= MAX_UNITS,
        old(velocity).bounded() ==> final(velocity).bounded(),
{
    if paused {
        return ;
    }
    let direction = input.direction.x;
    let mut speed = c.speed;
    if (position_x - half_width <= bounds.min.x && direction < 0) || (position_x + half_width
        >= bounds.max.x && direction > 0) {
        speed = 0;
    } else if !c.grounded {
        proof {
            assert(c.speed * c.air_control_factor <= MAX_UNITS * (AIR_CONTROL_ONE as int))
                by (nonlinear_arith)
                requires
                    c.speed <= MAX_UNITS,
                    c.air_control_factor <= AIR_CONTROL_ONE,
            ;
        }
        speed = speed * c.air_control_factor / AIR_CONTROL_ONE;
    }
    proof {
        lemma_effective_speed_bounds(*c);
        assert(-MAX_UNITS <= direction * speed <= MAX_UNITS) by (nonlinear_arith)
            requires
                -1 <= direction <= 1,
                0 <= speed <= MAX_UNITS,
        ;
    }
    velocity.x = direction * (speed as i64);
}

/// The impulse accumulator still fits in `i64` after `n` jump impulses of
/// `force` are added to it.
pub open spec fn jump_accumulation_fits(impulse: Vec2, force: Vec2, n: int) -> bool {
    &&& i64::MIN <= impulse.x + n * force.x <= i64::MAX
    &&& i64::MIN <= impulse.y + n * force.y <= i64::MAX
}

/// Handles player character jump events: every queued jump-requested event
/// is consumed; if the session is paused or the character is airborne the
/// events have no effect, otherwise each event applies the configured jump
/// impulse once.
pub fn character_jump(c: &Character, paused: bool, events: &mut TickEvents, impulse: &mut Vec2)
    requires
        !paused && c.grounded ==> jump_accumulation_fits(
            *old(impulse),
            c.jump_force,
            old(events).jump as int,
        ),
    ensures
        final(events).jump == 0,
        final(events).pause == old(events).pause,
        paused || !c.grounded ==> *final(impulse) == *old(impulse),
        !paused && c.grounded ==> {
            &&& final(impulse).x == old(impulse).x + old(events).jump * c.jump_force.x
            &&& final(impulse).y == old(impulse).y + old(events).jump * c.jump_force.y
        },
        // a tick with zero queued jump events never changes the impulse
        old(events).jump == 0 ==> *final(impulse) == *old(impulse),
{
    let n = events.jump;
    events.jump = 0;
    if paused || !c.grounded {
        return ;
    }
    let ghost base = *impulse;
    let mut i: u32 = 0;
    while i < n
        invariant
            i <= n,
            impulse.x == base.x + i * c.jump_force.x,
            impulse.y == base.y + i * c.jump_force.y,
            jump_accumulation_fits(base, c.jump_force, n as int),
        decreases n - i,
    {
        proof {
            lemma_partial_sum_between(base.x as int, c.jump_force.x as int, i + 1, n as int);
            lemma_partial_sum_between(base.y as int, c.jump_force.y as int, i + 1, n as int);
            assert((i + 1) * c.jump_force.x == i * c.jump_force.x + c.jump_force.x)
                by (nonlinear_arith);
            assert((i + 1) * c.jump_force.y == i * c.jump_force.y + c.jump_force.y)
                by (nonlinear_arith);
        }
        impulse.x = impulse.x + c.jump_force.x;
        impulse.y = impulse.y + c.jump_force.y;
        i = i + 1;
    }
}

/// Where one position-driven keyboard step puts the character: the held
/// keys' direction times the distance covered at the character's effective
/// speed (air control included) over `dt_ms`, added to the position and
/// clamped so the character's horizontal extent stays inside the world.
pub open spec fn keyboard_step_x(
    c: Character,
    keys: KeyInput,
    dt_ms: int,
    position_x: int,
    half_width: int,
    bounds: WorldBounds2D,
) -> int {
    let travel = c.effective_speed() * dt_ms / (MS_PER_SECOND as int);
    clamp(
        position_x + key_direction(keys) * travel,
        bounds.min.x + half_width,
        bounds.max.x - half_width,
    )
}

/// Handles keyboard input for a position-driven character: moves the
/// character's horizontal position directly by the held keys' direction at
/// the character's effective speed — the air-control share of it while
/// airborne — clamping the result so the character cannot leave the world,
/// and applies the jump impulse when the jump key is pressed while
/// grounded. While the session is paused no command is issued and the body
/// is left untouched.
pub fn character_input_2d_keyboard_system(
    dt_ms: u64,
    world_bounds: &WorldBounds2D,
    keys: &KeyInput,
    c: &Character,
    half_width: i64,
    paused: bool,
    body: &mut Body,
)
    requires
        world_bounds.wf(),
        c.wf(),
        old(body).wf(),
        0 <= half_width,
        world_bounds.admits_half_width(half_width as int),
        dt_ms <= MAX_TICK_MS,
        !paused && c.grounded && keys.jump_just_pressed ==> sum_fits(
            old(body).impulse,
            c.jump_force,
        ),
    ensures
        paused ==> *final(body) == *old(body),
        !paused ==> final(body).position.x == keyboard_step_x(
            *c,
            *keys,
            dt_ms as int,
            old(body).position.x as int,
            half_width as int,
            *world_bounds,
        ),
        !paused ==> world_bounds.min.x + half_width <= final(body).position.x
            <= world_bounds.max.x - half_width,
        final(body).position.y == old(body).position.y,
        !paused && c.grounded && keys.jump_just_pressed ==> {
            &&& final(body).impulse.x == old(body).impulse.x + c.jump_force.x
            &&& final(body).impulse.y == old(body).impulse.y + c.jump_force.y
        },
        !(!paused && c.grounded && keys.jump_just_pressed) ==> final(body).impulse == old(
            body,
        ).impulse,
        final(body).velocity == old(body).velocity,
        final(body).force == old(body).force,
        final(body).mode == old(body).mode,
        final(body).wf(),
{
    if paused {
        return ;
    }
    let mut direction: i64 = 0;
    if keys.right_held {
        direction = direction + 1;
    }
    if keys.left_held {
        direction = direction - 1;
    }
    proof {
        lemma_effective_speed_bounds(*c);
        if !c.grounded {
            assert(c.speed * c.air_control_factor <= MAX_UNITS * (AIR_CONTROL_ONE as int))
                by (nonlinear_arith)
                requires
                    c.speed <= MAX_UNITS,
                    c.air_control_factor <= AIR_CONTROL_ONE,
            ;
        }
    }
    let speed: u64 = if c.grounded {
        c.speed
    } else {
        c.speed * c.air_control_factor / AIR_CONTROL_ONE
    };
    proof {
        assert(speed * dt_ms <= MAX_UNITS * (MAX_TICK_MS as int)) by (nonlinear_arith)
            requires
                speed <= MAX_UNITS,
                dt_ms <= MAX_TICK_MS,
        ;
        vstd::arithmetic::div_mod::lemma_div_is_ordered(
            (speed * dt_ms) as int,
            MAX_UNITS * (MAX_TICK_MS as int),
            MS_PER_SECOND as int,
        );
        vstd::arithmetic::div_mod::lemma_div_pos_is_pos(
            (speed * dt_ms) as int,
            MS_PER_SECOND as int,
        );
    }
    let travel: u64 = speed * dt_ms / MS_PER_SECOND;
    let step: i64 = if direction > 0 {
        travel as i64
    } else if direction < 0 {
        -(travel as i64)
    } else {
        0
    };
    proof {
        assert(direction * travel == if direction > 0 {
            travel as int
        } else if direction < 0 {
            -(travel as int)
        } else {
            0int
        }) by (nonlinear_arith)
            requires
                -1 <= direction <= 1,
        ;
    }
    let lo = world_bounds.min.x + half_width;
    let hi = world_bounds.max.x - half_width;
    body.position.x = clamp_i64(body.position.x + step, lo, hi);
    if c.grounded && keys.jump_just_pressed {
        body.impulse.x = body.impulse.x + c.jump_force.x;
        body.impulse.y = body.impulse.y + c.jump_force.y;
    }
}

/// Where the position-driven controller ends up after a whole sequence of
/// keyboard steps, each with its own time delta and key state.
pub open spec fn keyboard_run_x(
    c: Character,
    bounds: WorldBounds2D,
    half_width: int,
    position_x: int,
    steps: Seq<(int, KeyInput)>,
) -> int
    decreases steps.len(),
{
    if steps.len() == 0 {
        position_x
    } else {
        let next = keyboard_step_x(c, steps[0].1, steps[0].0, position_x, half_width, bounds);
        keyboard_run_x(c, bounds, half_width, next, steps.drop_first())
    }
}

/// Law: for any sequence of keyboard inputs, the position-driven
/// controller keeps the character's horizontal position within
/// `[min.x + half_width, max.x - half_width]`, provided it starts there
/// and the world admits the character's width.
pub proof fn lemma_keyboard_run_stays_in_bounds(
    c: Character,
    bounds: WorldBounds2D,
    half_width: int,
    position_x: int,
    steps: Seq<(int, KeyInput)>,
)
    requires
        bounds.admits_half_width(half_width),
        bounds.min.x + half_width <= position_x <= bounds.max.x - half_width,
    ensures
        bounds.min.x + half_width <= keyboard_run_x(c, bounds, half_width, position_x, steps)
            <= bounds.max.x - half_width,
    decreases steps.len(),
{
    if steps.len() > 0 {
        let next = keyboard_step_x(c, steps[0].1, steps[0].0, position_x, half_width, bounds);
        lemma_keyboard_run_stays_in_bounds(c, bounds, half_width, next, steps.drop_first());
    }
}

/// Characters fall faster for better mechanics, without affecting the
/// gravity of everything else: while airborne, the configured character
/// gravity is added to the body's force accumulator once per tick.
pub fn character_gravity_multiplier(config: &GameConfig, c: &Character, force: &mut Vec2)
    requires
        !c.grounded ==> sum_fits(*old(force), config.character_gravity),
    ensures
        !c.grounded ==> {
            &&& final(force).x == old(force).x + config.character_gravity.x
            &&& final(force).y == old(force).y + config.character_gravity.y
        },
        c.grounded ==> *final(force) == *old(force),
{
    if !c.grounded {
        force.x = force.x + config.character_gravity.x;
        force.y = force.y + config.character_gravity.y;
    }
}

/// One whole controller tick over one player character, in a fixed order:
/// the ground flag is recomputed from this tick's ray query, the keyboard
/// is sampled into a direction and edge events, pause toggles are applied,
/// and then — against the freshly toggled pause state, so that a pause
/// entered on this tick already suppresses them — movement, jump and the
/// extra character gravity run.
///
/// The caller performs the actual ray cast (see [`ground_ray`]) and hands
/// in its outcome; everything the tick decides is stated below.
pub fn controller_tick(
    state: &mut GameState,
    c: &mut Character,
    body: &mut Body,
    bounds: &WorldBounds2D,
    config: &GameConfig,
    keys: &KeyInput,
    ground_hit: bool,
    half_width: i64,
)
    requires
        *old(state) is Game || *old(state) is Paused,
        old(c).wf(),
        old(body).wf(),
        bounds.wf(),
        0 <= half_width <= MAX_UNITS,
        ({
            let now_paused = (if keys.pause_just_pressed {
                pause_toggled(*old(state), old(body).mode).0
            } else {
                *old(state)
            }).paused();
            &&& !now_paused && ground_hit && keys.jump_just_pressed ==> sum_fits(
                old(body).impulse,
                old(c).jump_force,
            )
            &&& !now_paused && !ground_hit ==> sum_fits(old(body).force, config.character_gravity)
        }),
    ensures
        ({
            let after = if keys.pause_just_pressed {
                pause_toggled(*old(state), old(body).mode)
            } else {
                (*old(state), old(body).mode)
            };
            let now_paused = after.0.paused();
            let c1 = Character { grounded: ground_hit, ..*old(c) };
            &&& *final(c) == c1
            &&& *final(state) == after.0
            &&& final(body).mode == after.1
            &&& final(body).position == old(body).position
            &&& now_paused ==> final(body).velocity == old(body).velocity
                && final(body).impulse == old(body).impulse && final(body).force == old(
                body,
            ).force
            &&& !now_paused ==> final(body).velocity.x == movement_velocity_x(
                c1,
                key_direction(*keys),
                old(body).position.x as int,
                half_width as int,
                *bounds,
            ) && final(body).velocity.y == old(body).velocity.y
            &&& !now_paused && ground_hit && keys.jump_just_pressed ==> final(body).impulse.x
                == old(body).impulse.x + old(c).jump_force.x && final(body).impulse.y == old(
                body,
            ).impulse.y + old(c).jump_force.y
            &&& !now_paused && !(ground_hit && keys.jump_just_pressed) ==> final(body).impulse
                == old(body).impulse
            &&& !now_paused && !ground_hit ==> final(body).force.x == old(body).force.x
                + config.character_gravity.x && final(body).force.y == old(body).force.y
                + config.character_gravity.y
            &&& !now_paused && ground_hit ==> final(body).force == old(body).force
            &&& pause_consistent(*old(state), old(body).mode) ==> pause_consistent(
                *final(state),
                final(body).mode,
            )
            &&& final(body).wf()
        }),
{
    // ground check: recomputed before any movement or jump decision
    character_grounded_system(c, ground_hit);
    let character_now = *c;
    // input sampling: one per-tick direction and one per-tick event list
    let mut sampled_keys = *keys;
    let mut events = TickEvents::new();
    jump_input(&sampled_keys, &mut events);
    let mut input = CharacterInput2D::default();
    platformer_2d_keyboard_input(&sampled_keys, &mut input);
    pause_input(&mut sampled_keys, &mut events);
    // pause toggles, so that a pause entered this tick suppresses the rest
    match *state {
        GameState::Game => pause(&mut events, state, body),
        GameState::Paused => unpause(&mut events, state, body),
        GameState::Menu | GameState::GameOver => {
            proof {
                assert(false);
            }
        },
    }
    let now_paused = *state == GameState::Paused;
    // horizontal movement
    let mut velocity = body.velocity;
    character_movement(
        &input,
        bounds,
        &character_now,
        half_width,
        body.position.x,
        now_paused,
        &mut velocity,
    );
    body.velocity = velocity;
    // jump events
    let mut impulse = body.impulse;
    character_jump(&character_now, now_paused, &mut events, &mut impulse);
    body.impulse = impulse;
    // extra character gravity, suppressed like the rest while paused
    if !now_paused {
        let mut force = body.force;
        character_gravity_multiplier(config, &character_now, &mut force);
        body.force = force;
    }
}

} // verus!
