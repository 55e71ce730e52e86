//! The player: where it stands, which way it faces, and the animation that
//! shows it.

use crate::input::MovementInput;
use crate::timer::{AnimationTimer, Cooldown};
use crate::{AnimationIndices, Creature, Position};
use vstd::prelude::*;

verus! {

/// The nanoseconds that must pass between two steps of a walking player.
pub const STEP_COOLDOWN_NS: u64 = 1_000_000_000;

/// The way the player looks.
#[derive(Clone, Copy, Debug, PartialEq, Eq, Structural)]
pub enum FacingDirection {
    North,
    South,
    East,
    West,
}

impl Default for FacingDirection {
    fn default() -> (facing: Self)
        ensures
            facing == FacingDirection::South,
    {
        FacingDirection::South
    }
}

impl FacingDirection {
    /// The step along the x axis that a walk in this direction takes.
    pub open spec fn spec_dx(self) -> int {
        match self {
            FacingDirection::East => 1,
            FacingDirection::West => -1,
            _ => 0,
        }
    }

    /// The step along the y axis that a walk in this direction takes.
    pub open spec fn spec_dy(self) -> int {
        match self {
            FacingDirection::North => 1,
            FacingDirection::South => -1,
            _ => 0,
        }
    }
}

/// One frame range for each way of facing, idle and walking.
#[derive(Clone, Copy, Debug, PartialEq, Eq, Structural)]
pub struct PlayerAnimationIndices {
    pub idle_south: AnimationIndices,
    pub walking_south: AnimationIndices,
    pub idle_north: AnimationIndices,
    pub walking_north: AnimationIndices,
    pub idle_east: AnimationIndices,
    pub walking_east: AnimationIndices,
    pub idle_west: AnimationIndices,
    pub walking_west: AnimationIndices,
}

impl PlayerAnimationIndices {
    /// The frame range that shows the player facing `facing`, walking or
    /// idle.
    pub open spec fn spec_range(self, facing: FacingDirection, walking: bool) -> AnimationIndices {
        match facing {
            FacingDirection::South => if walking { self.walking_south } else { self.idle_south },
            FacingDirection::North => if walking { self.walking_north } else { self.idle_north },
            FacingDirection::East => if walking { self.walking_east } else { self.idle_east },
            FacingDirection::West => if walking { self.walking_west } else { self.idle_west },
        }
    }

    /// The frame ranges of the player's sprite sheet.
    pub open spec fn spec_sheet() -> PlayerAnimationIndices {
        PlayerAnimationIndices {
            idle_south: AnimationIndices { first: 0, last: 11 },
            walking_south: AnimationIndices { first: 12, last: 19 },
            idle_north: AnimationIndices { first: 20, last: 31 },
            walking_north: AnimationIndices { first: 32, last: 39 },
            idle_east: AnimationIndices { first: 40, last: 51 },
            walking_east: AnimationIndices { first: 52, last: 59 },
            idle_west: AnimationIndices { first: 60, last: 71 },
            walking_west: AnimationIndices { first: 72, last: 79 },
        }
    }

    /// Every range holds at least one frame.
    pub open spec fn wf(self) -> bool {
        forall|facing: FacingDirection, walking: bool| #[trigger] self.spec_range(facing, walking).wf()
    }

    /// No two of the eight ranges share a frame.
    pub open spec fn spec_disjoint(self) -> bool {
        forall|facing: FacingDirection, walking: bool, other: FacingDirection, other_walking: bool|
            #![trigger self.spec_range(facing, walking), self.spec_range(other, other_walking)]
            facing != other || walking != other_walking ==> self.spec_range(facing, walking).spec_apart(
                self.spec_range(other, other_walking),
            )
    }

    /// Looks up the frame range for a way of facing and a motion.
    pub fn range(&self, facing: FacingDirection, walking: bool) -> (range: AnimationIndices)
        ensures
            range == self.spec_range(facing, walking),
    {
        match (facing, walking) {
            (FacingDirection::East, true) => self.walking_east,
            (FacingDirection::East, false) => self.idle_east,
            (FacingDirection::West, true) => self.walking_west,
            (FacingDirection::West, false) => self.idle_west,
            (FacingDirection::North, true) => self.walking_north,
            (FacingDirection::North, false) => self.idle_north,
            (FacingDirection::South, true) => self.walking_south,
            (FacingDirection::South, false) => self.idle_south,
        }
    }
}

impl Default for PlayerAnimationIndices {
    fn default() -> (r: Self)
        ensures
            forall|facing: FacingDirection, walking: bool| #[trigger]
                r.spec_range(facing, walking) == (AnimationIndices { first: 0, last: 0 }),
    {
        let zero = AnimationIndices { first: 0, last: 0 };
        PlayerAnimationIndices {
            idle_south: zero,
            walking_south: zero,
            idle_north: zero,
            walking_north: zero,
            idle_east: zero,
            walking_east: zero,
            idle_west: zero,
            walking_west: zero,
        }
    }
}

/// The player.
#[derive(Clone, Copy, Debug, PartialEq, Eq, Structural)]
pub struct Player {
    pub level: u16,
    /// Units per second, a whole number.
    pub speed: u32,
    pub facing_direction: FacingDirection,
    pub life_points: u32,
    pub position: Position,
    pub animations: PlayerAnimationIndices,
    pub is_walking: bool,
    pub current_animation_index: AnimationIndices,
    /// Runs from one step to the moment the next may be taken.
    pub keyboard_last_action: Cooldown,
}

impl Default for Player {
    /// A blank player: everything at zero, facing south, with a cooldown of
    /// no time.
    fn default() -> (player: Self)
        ensures
            player == (Player {
                level: 0,
                speed: 0,
                facing_direction: FacingDirection::South,
                life_points: 0,
                position: Position { x: 0, y: 0 },
                animations: player.animations,
                is_walking: false,
                current_animation_index: AnimationIndices { first: 0, last: 0 },
                keyboard_last_action: Cooldown { duration_ns: 0, elapsed_ns: 0, finished: false },
            }),
            forall|facing: FacingDirection, walking: bool| #[trigger]
                player.animations.spec_range(facing, walking) == (AnimationIndices { first: 0, last: 0 }),
            player.wf(),
    {
        Player {
            level: 0,
            speed: 0,
            facing_direction: FacingDirection::South,
            life_points: 0,
            position: Position { x: 0, y: 0 },
            animations: PlayerAnimationIndices::default(),
            is_walking: false,
            current_animation_index: AnimationIndices { first: 0, last: 0 },
            keyboard_last_action: Cooldown::new(0),
        }
    }
}

/// What the player's sprite shows: the frame on screen and the range that
/// the animation runs through.
#[derive(Clone, Copy, Debug, PartialEq, Eq, Structural)]
pub struct PlayerSprite {
    pub index: usize,
    pub indices: AnimationIndices,
}

impl PlayerSprite {
    /// The sprite at the start of `range`.
    pub open spec fn spec_at_start(range: AnimationIndices) -> PlayerSprite {
        PlayerSprite { index: range.first, indices: range }
    }

    /// The sprite one animation step later.
    pub open spec fn spec_advance(self) -> PlayerSprite {
        PlayerSprite { index: self.indices.spec_next_frame(self.index) as usize, indices: self.indices }
    }
}

impl Creature for Player {
    open spec fn spec_life_points(&self) -> u32 {
        self.life_points
    }

    open spec fn spec_position(&self) -> Position {
        self.position
    }

    fn get_current_life_points(&self) -> (points: u32) {
        self.life_points
    }

    fn get_current_position(&self) -> (position: Position) {
        self.position
    }
}

impl Player {
    /// The player's invariant: the step cooldown is in order.
    pub open spec fn wf(self) -> bool {
        self.keyboard_last_action.wf()
    }

    /// The player as the game starts: level 1, 100 life points, at the
    /// origin, facing south and idle.
    pub open spec fn spec_new() -> Player {
        Player {
            level: 1,
            speed: 10,
            facing_direction: FacingDirection::South,
            life_points: 100,
            position: Position { x: 0, y: 0 },
            animations: PlayerAnimationIndices::spec_sheet(),
            is_walking: false,
            current_animation_index: PlayerAnimationIndices::spec_sheet().idle_south,
            keyboard_last_action: Cooldown { duration_ns: STEP_COOLDOWN_NS, elapsed_ns: 0, finished: false },
        }
    }

    /// Whether a step towards `facing` stays within the coordinates that an
    /// `i64` holds.
    pub open spec fn spec_has_room(self, facing: FacingDirection) -> bool {
        &&& i64::MIN <= self.position.x + facing.spec_dx() <= i64::MAX
        &&& i64::MIN <= self.position.y + facing.spec_dy() <= i64::MAX
    }

    /// The player after turning to `facing` and, if `is_walking`, taking one
    /// step that way.
    pub open spec fn spec_walk(self, facing: FacingDirection, is_walking: bool) -> Player {
        Player {
            facing_direction: facing,
            is_walking,
            position: if is_walking {
                Position {
                    x: (self.position.x + facing.spec_dx()) as i64,
                    y: (self.position.y + facing.spec_dy()) as i64,
                }
            } else {
                self.position
            },
            current_animation_index: self.animations.spec_range(facing, is_walking),
            ..self
        }
    }

    /// Creates the player as the game starts.
    pub fn new() -> (player: Player)
        ensures
            player == Self::spec_new(),
            player.wf(),
            player.animations.wf(),
            player.animations.spec_disjoint(),
    {
        let mut player = Player {
            speed: 10,
            level: 1,
            facing_direction: FacingDirection::South,
            life_points: 100,
            position: Position { x: 0, y: 0 },
            animations: PlayerAnimationIndices::default(),
            is_walking: false,
            current_animation_index: AnimationIndices::default(),
            keyboard_last_action: Cooldown::new(STEP_COOLDOWN_NS),
        };
        player.setup_animations();
        player.current_animation_index = player.animations.idle_south;
        player
    }

    /// Sets the frame ranges of the player's sprite sheet: twelve frames for
    /// each idle state and eight for each walking state, one after the
    /// other, so that no frame shows two states.
    pub fn setup_animations(&mut self)
        ensures
            *final(self) == (Player { animations: PlayerAnimationIndices::spec_sheet(), ..*old(self) }),
            final(self).animations.wf(),
            final(self).animations.spec_disjoint(),
    {
        self.animations = PlayerAnimationIndices {
            idle_south: AnimationIndices { first: 0, last: 11 },
            walking_south: AnimationIndices { first: 12, last: 19 },
            idle_north: AnimationIndices { first: 20, last: 31 },
            walking_north: AnimationIndices { first: 32, last: 39 },
            idle_east: AnimationIndices { first: 40, last: 51 },
            walking_east: AnimationIndices { first: 52, last: 59 },
            idle_west: AnimationIndices { first: 60, last: 71 },
            walking_west: AnimationIndices { first: 72, last: 79 },
        }
    }

    /// Turns the player to `facing_direction`, sets its motion and, when
    /// walking, moves it one unit that way. Returns the frame range that now
    /// shows the player.
    pub fn walk(&mut self, facing_direction: FacingDirection, is_walking: bool) -> (range: AnimationIndices)
        requires
            is_walking ==> old(self).spec_has_room(facing_direction),
        ensures
            *final(self) == old(self).spec_walk(facing_direction, is_walking),
            range == final(self).current_animation_index,
    {
        self.facing_direction = facing_direction;
        self.is_walking = is_walking;
        self.current_animation_index = match (facing_direction, is_walking) {
            (FacingDirection::East, true) => {
                self.position.x = self.position.x + 1;
                self.animations.walking_east
            },
            (FacingDirection::East, false) => self.animations.idle_east,
            (FacingDirection::West, true) => {
                self.position.x = self.position.x - 1;
                self.animations.walking_west
            },
            (FacingDirection::West, false) => self.animations.idle_west,
            (FacingDirection::North, true) => {
                self.position.y = self.position.y + 1;
                self.animations.walking_north
            },
            (FacingDirection::North, false) => self.animations.idle_north,
            (FacingDirection::South, true) => {
                self.position.y = self.position.y - 1;
                self.animations.walking_south
            },
            (FacingDirection::South, false) => self.animations.idle_south,
        };
        self.current_animation_index
    }
}

/// Whether the frame falls within the pause between two steps: the player
/// is walking and the cooldown has not run out once `delta_ns` more
/// nanoseconds have passed.
pub open spec fn spec_debounced(player: Player, delta_ns: u64) -> bool {
    &&& player.is_walking
    &&& !player.keyboard_last_action.spec_tick(delta_ns).finished
}

/// Whether the frame is one in which the player may step: no key was let
/// go and the frame is not debounced.
pub open spec fn spec_takes_step(player: Player, input: MovementInput, delta_ns: u64) -> bool {
    &&& !input.released
    &&& !spec_debounced(player, delta_ns)
}

/// Whether the held keys leave the player within the coordinates that an
/// `i64` holds, whatever is done with them.
pub open spec fn spec_has_room_for(player: Player, input: MovementInput) -> bool {
    &&& input.south ==> player.position.y > i64::MIN
    &&& input.north ==> player.position.y < i64::MAX
    &&& input.west ==> player.position.x > i64::MIN
    &&& input.east ==> player.position.x < i64::MAX
}

/// The player and its sprite after one frame in which `delta_ns`
/// nanoseconds have passed and the keyboard asks `input`.
///
/// The cooldown advances first. Then exactly one of three things happens.
/// If a key was let go, the player goes idle, facing as before, and the
/// sprite shows the start of the idle range; keys that are still held wait
/// for the next frame. Else, if the frame is debounced, nothing more
/// changes. Else the cooldown starts anew and, if a key is held, the player
/// walks: each held direction moves it one unit, the last of south, north,
/// east, west that is held decides the facing, and the sprite starts at the
/// walking range of that facing.
pub open spec fn spec_move_player(
    player: Player,
    sprite: PlayerSprite,
    input: MovementInput,
    delta_ns: u64,
) -> (Player, PlayerSprite) {
    let ticked = Player { keyboard_last_action: player.keyboard_last_action.spec_tick(delta_ns), ..player };
    if input.released {
        let idle = ticked.animations.spec_range(ticked.facing_direction, false);
        (Player { is_walking: false, current_animation_index: idle, ..ticked }, PlayerSprite::spec_at_start(idle))
    } else if spec_debounced(player, delta_ns) {
        (ticked, sprite)
    } else {
        let rearmed = Player { keyboard_last_action: ticked.keyboard_last_action.spec_reset(), ..ticked };
        match input.spec_facing() {
            None => (rearmed, sprite),
            Some(facing) => {
                let walking = rearmed.animations.spec_range(facing, true);
                (
                    Player {
                        facing_direction: facing,
                        is_walking: true,
                        position: Position {
                            x: (rearmed.position.x + input.spec_dx()) as i64,
                            y: (rearmed.position.y + input.spec_dy()) as i64,
                        },
                        current_animation_index: walking,
                        ..rearmed
                    },
                    PlayerSprite::spec_at_start(walking),
                )
            },
        }
    }
}

/// Tells whether `move_player` may be called for this frame: the cooldown
/// is in order and, if the player may step, the held keys have room.
pub fn can_move_player(player: &Player, input: &MovementInput, delta_ns: u64) -> (ok: bool)
    ensures
        ok == (player.wf() && (spec_takes_step(*player, *input, delta_ns) ==> spec_has_room_for(
            *player,
            *input,
        ))),
{
    let mut cooldown = player.keyboard_last_action;
    if !cooldown.is_wf() {
        return false;
    }
    cooldown.tick(delta_ns);
    if input.released || (player.is_walking && !cooldown.finished()) {
        return true;
    }
    let at = player.position;
    !(input.south && at.y == i64::MIN) && !(input.north && at.y == i64::MAX) && !(input.west && at.x
        == i64::MIN) && !(input.east && at.x == i64::MAX)
}

/// Runs one frame of the player's movement: advances the step cooldown by
/// `delta_ns` nanoseconds and updates the player and its sprite from the
/// keyboard. Room for the held keys is asked for only in a frame in which
/// the player may step.
pub fn move_player(player: &mut Player, sprite: &mut PlayerSprite, input: &MovementInput, delta_ns: u64)
    requires
        old(player).wf(),
        spec_takes_step(*old(player), *input, delta_ns) ==> spec_has_room_for(*old(player), *input),
    ensures
        (*final(player), *final(sprite)) == spec_move_player(*old(player), *old(sprite), *input, delta_ns),
        final(player).wf(),
{
    player.keyboard_last_action.tick(delta_ns);

    if input.released {
        let facing = player.facing_direction;
        sprite.indices = player.walk(facing, false);
        sprite.index = player.current_animation_index.first;
        return ;
    }

    if player.is_walking && !player.keyboard_last_action.finished() {
        return ;
    }

    player.keyboard_last_action.reset();

    if input.south {
        sprite.indices = player.walk(FacingDirection::South, true);
        sprite.index = player.current_animation_index.first;
    }

    if input.north {
        sprite.indices = player.walk(FacingDirection::North, true);
        sprite.index = player.current_animation_index.first;
    }

    if input.east {
        sprite.indices = player.walk(FacingDirection::East, true);
        sprite.index = player.current_animation_index.first;
    }

    if input.west {
        sprite.indices = player.walk(FacingDirection::West, true);
        sprite.index = player.current_animation_index.first;
    }
}

/// The sprite and its timer after `delta_ns` more nanoseconds: the frame
/// advances by one if the timer has just finished, that is, if the 32-bit
/// count of the periods that ended within the tick is not zero, however
/// many ended.
pub open spec fn spec_animate_player(sprite: PlayerSprite, timer: AnimationTimer, delta_ns: u64) -> (
    PlayerSprite,
    AnimationTimer,
) {
    let ticked = timer.spec_tick(delta_ns);
    (if ticked.just_finished { sprite.spec_advance() } else { sprite }, ticked)
}

/// Tells whether `animate_player` may be called for this frame: if the
/// timer will have just finished in it, the frame index can advance.
pub fn can_animate_player(sprite: &PlayerSprite, timer: &AnimationTimer, delta_ns: u64) -> (ok: bool)
    ensures
        ok == (timer.spec_tick(delta_ns).just_finished ==> (sprite.index == sprite.indices.last
            || sprite.index < usize::MAX)),
{
    let mut ahead = *timer;
    ahead.tick(delta_ns);
    !ahead.just_finished() || sprite.index == sprite.indices.last || sprite.index < usize::MAX
}

/// Runs one frame of the player's animation: advances the timer by
/// `delta_ns` nanoseconds and, when the timer has just finished (the 32-bit
/// count of the periods that ended within the tick is not zero), shows the
/// next frame of the sprite's range, going back to the first after the
/// last. That the frame index can advance is asked for only then.
pub fn animate_player(sprite: &mut PlayerSprite, timer: &mut AnimationTimer, delta_ns: u64)
    requires
        old(timer).spec_tick(delta_ns).just_finished ==> (old(sprite).index == old(sprite).indices.last
            || old(sprite).index < usize::MAX),
    ensures
        (*final(sprite), *final(timer)) == spec_animate_player(*old(sprite), *old(timer), delta_ns),
        old(sprite).indices.wf() && old(sprite).indices.contains(old(sprite).index)
            ==> final(sprite).indices.contains(final(sprite).index),
{
    timer.tick(delta_ns);
    if timer.just_finished() {
        sprite.index = sprite.indices.next_frame(sprite.index);
    }
}

/// Holding the keys of one direction alone, in a frame in which the player
/// may step, turns the player that way, sets it walking and shows the start
/// of that direction's walking range; and where the coordinates have room
/// for the step, it moves the player exactly one unit along that
/// direction's axis.
pub proof fn lemma_single_direction_step(
    player: Player,
    sprite: PlayerSprite,
    input: MovementInput,
    delta_ns: u64,
    facing: FacingDirection,
)
    requires
        input.holds_only(facing),
        spec_takes_step(player, input, delta_ns),
    ensures
        ({
            let (after, shown) = spec_move_player(player, sprite, input, delta_ns);
            &&& after.facing_direction == facing
            &&& after.is_walking
            &&& after.current_animation_index == player.animations.spec_range(facing, true)
            &&& shown == PlayerSprite::spec_at_start(player.animations.spec_range(facing, true))
            &&& player.spec_has_room(facing) ==> {
                &&& after.position.x == player.position.x + facing.spec_dx()
                &&& after.position.y == player.position.y + facing.spec_dy()
            }
        }),
{
    assert(input.holds(FacingDirection::South) == (FacingDirection::South == facing));
    assert(input.holds(FacingDirection::North) == (FacingDirection::North == facing));
    assert(input.holds(FacingDirection::East) == (FacingDirection::East == facing));
    assert(input.holds(FacingDirection::West) == (FacingDirection::West == facing));
}

/// Letting go of a movement key leaves the player idle where it stands,
/// facing as it last did, and shows the first frame of that facing's idle
/// range, whatever keys are still held; the cooldown only advances.
pub proof fn lemma_release_goes_idle(player: Player, sprite: PlayerSprite, input: MovementInput, delta_ns: u64)
    requires
        input.released,
    ensures
        ({
            let (after, shown) = spec_move_player(player, sprite, input, delta_ns);
            let idle = player.animations.spec_range(player.facing_direction, false);
            &&& !after.is_walking
            &&& after.facing_direction == player.facing_direction
            &&& after.position == player.position
            &&& after.current_animation_index == idle
            &&& shown.indices == idle
            &&& shown.index == idle.first
            &&& after.keyboard_last_action == player.keyboard_last_action.spec_tick(delta_ns)
        }),
{
}

/// A debounced frame in which no key is let go changes nothing but the
/// cooldown, which advances and is not reset, whatever keys are held.
pub proof fn lemma_debounced_frame_only_ticks(
    player: Player,
    sprite: PlayerSprite,
    input: MovementInput,
    delta_ns: u64,
)
    requires
        !input.released,
        spec_debounced(player, delta_ns),
    ensures
        spec_move_player(player, sprite, input, delta_ns) == (
            Player { keyboard_last_action: player.keyboard_last_action.spec_tick(delta_ns), ..player },
            sprite,
        ),
{
}

/// With ranges that share no frame, a frame shows one state only: if it
/// lies in the ranges of two states, they are the same state.
pub proof fn lemma_frame_shows_one_state(
    sheet: PlayerAnimationIndices,
    index: usize,
    facing: FacingDirection,
    walking: bool,
    other: FacingDirection,
    other_walking: bool,
)
    requires
        sheet.spec_disjoint(),
        sheet.spec_range(facing, walking).contains(index),
        sheet.spec_range(other, other_walking).contains(index),
    ensures
        facing == other,
        walking == other_walking,
{
    if facing != other || walking != other_walking {
        assert(sheet.spec_range(facing, walking).spec_apart(sheet.spec_range(other, other_walking)));
    }
}

/// While the sprite's range stays the same, animation keeps the frame within
/// the range: it never passes `last`, and the frame after `last` is `first`.
pub proof fn lemma_frame_stays_in_range(sprite: PlayerSprite, timer: AnimationTimer, delta_ns: u64)
    requires
        sprite.indices.wf(),
        sprite.indices.contains(sprite.index),
    ensures
        ({
            let (shown, ticked) = spec_animate_player(sprite, timer, delta_ns);
            &&& shown.indices == sprite.indices
            &&& shown.indices.contains(shown.index)
            &&& ticked.just_finished && sprite.index == sprite.indices.last ==> shown.index
                == sprite.indices.first
            &&& ticked.just_finished && sprite.index != sprite.indices.last ==> shown.index
                == sprite.index + 1
            &&& !ticked.just_finished ==> shown.index == sprite.index
        }),
{
}

/// A frame of movement either leaves the sprite as it was or puts it at
/// the first frame of the player's new current range.
pub proof fn lemma_range_change_starts_at_first(
    player: Player,
    sprite: PlayerSprite,
    input: MovementInput,
    delta_ns: u64,
)
    ensures
        ({
            let (after, shown) = spec_move_player(player, sprite, input, delta_ns);
            shown == sprite || shown == PlayerSprite::spec_at_start(after.current_animation_index)
        }),
{
}

/// Movement always leaves the sprite within its range when the frame
/// ranges are in order: a change of range starts at the range's first frame.
pub proof fn lemma_move_keeps_frame_in_range(
    player: Player,
    sprite: PlayerSprite,
    input: MovementInput,
    delta_ns: u64,
)
    requires
        player.animations.wf(),
        sprite.indices.wf(),
        sprite.indices.contains(sprite.index),
    ensures
        ({
            let (after, shown) = spec_move_player(player, sprite, input, delta_ns);
            shown.indices.wf() && shown.indices.contains(shown.index)
        }),
{
    assert(player.animations.spec_range(player.facing_direction, false).wf());
    if let Some(facing) = input.spec_facing() {
        assert(player.animations.spec_range(facing, true).wf());
    }
}

/// The sprite keeps running through the player's current frame range: if
/// it did before a frame of movement, it does after it.
pub proof fn lemma_sprite_follows_player(
    player: Player,
    sprite: PlayerSprite,
    input: MovementInput,
    delta_ns: u64,
)
    requires
        sprite.indices == player.current_animation_index,
    ensures
        ({
            let (after, shown) = spec_move_player(player, sprite, input, delta_ns);
            shown.indices == after.current_animation_index
        }),
{
}

/// Debounce: a frame that follows a step, in which the time passed since
/// the step is still short of the cooldown, leaves the player where the
/// step put it and facing as the step left it, whatever keys are held or
/// let go; if no key is let go, the player keeps walking and the sprite is
/// left alone.
pub proof fn lemma_debounce_holds_position(
    player: Player,
    sprite: PlayerSprite,
    first: MovementInput,
    first_delta_ns: u64,
    second: MovementInput,
    second_delta_ns: u64,
)
    requires
        first.holds_any(),
        spec_takes_step(player, first, first_delta_ns),
        second_delta_ns < player.keyboard_last_action.duration_ns,
    ensures
        ({
            let (stepped, shown) = spec_move_player(player, sprite, first, first_delta_ns);
            let (after, shown_after) = spec_move_player(stepped, shown, second, second_delta_ns);
            &&& after.position == stepped.position
            &&& after.facing_direction == stepped.facing_direction
            &&& !second.released ==> after.is_walking && shown_after == shown
        }),
{
}

/// Once the cooldown has run out, a frame with a key held and none let go
/// takes the next step: the player walks on and, where the coordinates have
/// room, moves again by what the held keys add up to.
pub proof fn lemma_step_after_cooldown(
    player: Player,
    sprite: PlayerSprite,
    first: MovementInput,
    first_delta_ns: u64,
    second: MovementInput,
    second_delta_ns: u64,
)
    requires
        first.holds_any(),
        spec_takes_step(player, first, first_delta_ns),
        !second.released,
        second.holds_any(),
        second_delta_ns >= player.keyboard_last_action.duration_ns,
    ensures
        ({
            let (stepped, shown) = spec_move_player(player, sprite, first, first_delta_ns);
            let (after, shown_after) = spec_move_player(stepped, shown, second, second_delta_ns);
            &&& after.is_walking
            &&& after.keyboard_last_action == stepped.keyboard_last_action
            &&& spec_has_room_for(stepped, second) ==> {
                &&& after.position.x == stepped.position.x + second.spec_dx()
                &&& after.position.y == stepped.position.y + second.spec_dy()
            }
        }),
{
}

} // verus!
