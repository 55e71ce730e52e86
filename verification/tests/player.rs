use my_game::input::{MoveKey, MovementInput};
use my_game::player::{
    animate_player, can_animate_player, can_move_player, move_player, FacingDirection, Player, PlayerAnimationIndices, PlayerSprite,
    STEP_COOLDOWN_NS,
};
use my_game::timer::AnimationTimer;
use my_game::{AnimationIndices, Creature, Position};

const MS: u64 = 1_000_000;

fn idle() -> MovementInput {
    MovementInput { released: false, south: false, north: false, east: false, west: false }
}

fn start() -> (Player, PlayerSprite) {
    let player = Player::new();
    let sprite = PlayerSprite { index: 0, indices: player.current_animation_index };
    (player, sprite)
}

fn range(first: usize, last: usize) -> AnimationIndices {
    AnimationIndices { first, last }
}

#[test]
fn new_player_stands_idle_at_the_origin() {
    let player = Player::new();
    assert_eq!(player.level, 1);
    assert_eq!(player.speed, 10);
    assert_eq!(player.life_points, 100);
    assert_eq!(player.facing_direction, FacingDirection::South);
    assert_eq!(player.position, Position { x: 0, y: 0 });
    assert!(!player.is_walking);
    assert_eq!(player.current_animation_index, range(0, 11));
    assert_eq!(player.keyboard_last_action.duration_ns, 1_000_000_000);
    assert_eq!(player.keyboard_last_action.duration_ns, STEP_COOLDOWN_NS);
    assert_eq!(player.keyboard_last_action.elapsed_ns, 0);
    assert!(!player.keyboard_last_action.finished);
}

#[test]
fn sprite_sheet_ranges() {
    let sheet = Player::new().animations;
    assert_eq!(sheet.idle_south, range(0, 11));
    assert_eq!(sheet.walking_south, range(12, 19));
    assert_eq!(sheet.idle_north, range(20, 31));
    assert_eq!(sheet.walking_north, range(32, 39));
    assert_eq!(sheet.idle_east, range(40, 51));
    assert_eq!(sheet.walking_east, range(52, 59));
    assert_eq!(sheet.idle_west, range(60, 71));
    assert_eq!(sheet.walking_west, range(72, 79));
    assert_eq!(sheet.range(FacingDirection::East, true), range(52, 59));
    assert_eq!(sheet.range(FacingDirection::North, false), range(20, 31));
}

#[test]
fn default_ranges_are_empty_at_zero() {
    let sheet = PlayerAnimationIndices::default();
    assert_eq!(sheet.range(FacingDirection::West, true), range(0, 0));
    assert_eq!(AnimationIndices::default(), range(0, 0));
    assert_eq!(FacingDirection::default(), FacingDirection::South);
}

#[test]
fn setup_animations_keeps_the_rest() {
    let mut player = Player::new();
    player.animations = PlayerAnimationIndices::default();
    player.life_points = 7;
    player.setup_animations();
    assert_eq!(player.animations, Player::new().animations);
    assert_eq!(player.life_points, 7);
}

#[test]
fn creature_reads_life_and_position() {
    let mut player = Player::new();
    player.walk(FacingDirection::East, true);
    assert_eq!(player.get_current_life_points(), 100);
    assert_eq!(player.get_current_position(), Position { x: 1, y: 0 });
}

#[test]
fn walk_moves_one_unit_each_way() {
    let mut player = Player::new();
    assert_eq!(player.walk(FacingDirection::East, true), range(52, 59));
    assert_eq!(player.position, Position { x: 1, y: 0 });
    assert_eq!(player.walk(FacingDirection::North, true), range(32, 39));
    assert_eq!(player.position, Position { x: 1, y: 1 });
    assert_eq!(player.walk(FacingDirection::West, true), range(72, 79));
    assert_eq!(player.position, Position { x: 0, y: 1 });
    assert_eq!(player.walk(FacingDirection::South, true), range(12, 19));
    assert_eq!(player.position, Position { x: 0, y: 0 });
    assert!(player.is_walking);
    assert_eq!(player.facing_direction, FacingDirection::South);
}

#[test]
fn walk_idle_turns_without_moving() {
    let mut player = Player::new();
    assert_eq!(player.walk(FacingDirection::West, false), range(60, 71));
    assert_eq!(player.position, Position { x: 0, y: 0 });
    assert_eq!(player.facing_direction, FacingDirection::West);
    assert!(!player.is_walking);
    assert_eq!(player.current_animation_index, range(60, 71));
}

fn step_alone(input: MovementInput) -> (Player, PlayerSprite) {
    let (mut player, mut sprite) = start();
    sprite.index = 5;
    move_player(&mut player, &mut sprite, &input, 16 * MS);
    (player, sprite)
}

#[test]
fn holding_south_steps_down() {
    let (player, sprite) = step_alone(MovementInput { south: true, ..idle() });
    assert_eq!(player.position, Position { x: 0, y: -1 });
    assert_eq!(player.facing_direction, FacingDirection::South);
    assert!(player.is_walking);
    assert_eq!(player.current_animation_index, range(12, 19));
    assert_eq!(sprite, PlayerSprite { index: 12, indices: range(12, 19) });
}

#[test]
fn holding_north_steps_up() {
    let (player, sprite) = step_alone(MovementInput { north: true, ..idle() });
    assert_eq!(player.position, Position { x: 0, y: 1 });
    assert_eq!(player.facing_direction, FacingDirection::North);
    assert_eq!(sprite, PlayerSprite { index: 32, indices: range(32, 39) });
}

#[test]
fn holding_east_steps_right() {
    let (player, sprite) = step_alone(MovementInput { east: true, ..idle() });
    assert_eq!(player.position, Position { x: 1, y: 0 });
    assert_eq!(player.facing_direction, FacingDirection::East);
    assert_eq!(sprite, PlayerSprite { index: 52, indices: range(52, 59) });
}

#[test]
fn holding_west_steps_left() {
    let (player, sprite) = step_alone(MovementInput { west: true, ..idle() });
    assert_eq!(player.position, Position { x: -1, y: 0 });
    assert_eq!(player.facing_direction, FacingDirection::West);
    assert_eq!(sprite, PlayerSprite { index: 72, indices: range(72, 79) });
}

#[test]
fn later_direction_wins_when_several_are_held() {
    let (player, sprite) = step_alone(MovementInput { south: true, north: true, ..idle() });
    assert_eq!(player.position, Position { x: 0, y: 0 });
    assert_eq!(player.facing_direction, FacingDirection::North);
    assert_eq!(sprite.indices, range(32, 39));

    let all = MovementInput { released: false, south: true, north: true, east: true, west: true };
    let (player, sprite) = step_alone(all);
    assert_eq!(player.position, Position { x: 0, y: 0 });
    assert_eq!(player.facing_direction, FacingDirection::West);
    assert_eq!(sprite, PlayerSprite { index: 72, indices: range(72, 79) });

    let (player, _) = step_alone(MovementInput { south: true, east: true, ..idle() });
    assert_eq!(player.position, Position { x: 1, y: -1 });
    assert_eq!(player.facing_direction, FacingDirection::East);
}

#[test]
fn no_key_leaves_the_player_alone() {
    let (mut player, mut sprite) = start();
    sprite.index = 4;
    move_player(&mut player, &mut sprite, &idle(), 300 * MS);
    assert_eq!(player.position, Position { x: 0, y: 0 });
    assert!(!player.is_walking);
    assert_eq!(sprite, PlayerSprite { index: 4, indices: range(0, 11) });
    assert_eq!(player.keyboard_last_action.elapsed_ns, 0);
    assert!(!player.keyboard_last_action.finished);
}

#[test]
fn release_goes_idle_facing_as_before() {
    let (mut player, mut sprite) = step_alone(MovementInput { east: true, ..idle() });
    sprite.index = 55;
    let released = MovementInput { released: true, ..idle() };
    move_player(&mut player, &mut sprite, &released, 16 * MS);
    assert!(!player.is_walking);
    assert_eq!(player.facing_direction, FacingDirection::East);
    assert_eq!(player.position, Position { x: 1, y: 0 });
    assert_eq!(player.current_animation_index, range(40, 51));
    assert_eq!(sprite, PlayerSprite { index: 40, indices: range(40, 51) });
}

#[test]
fn release_with_another_key_held_only_goes_idle() {
    let (mut player, mut sprite) = step_alone(MovementInput { east: true, ..idle() });
    let input = MovementInput { released: true, north: true, ..idle() };
    move_player(&mut player, &mut sprite, &input, 16 * MS);
    assert!(!player.is_walking);
    assert_eq!(player.facing_direction, FacingDirection::East);
    assert_eq!(player.position, Position { x: 1, y: 0 });
    assert_eq!(player.current_animation_index, range(40, 51));
    assert_eq!(sprite, PlayerSprite { index: 40, indices: range(40, 51) });
    assert_eq!(player.keyboard_last_action.elapsed_ns, 16 * MS);
    assert!(!player.keyboard_last_action.finished);

    let held = MovementInput { north: true, ..idle() };
    move_player(&mut player, &mut sprite, &held, 16 * MS);
    assert!(player.is_walking);
    assert_eq!(player.facing_direction, FacingDirection::North);
    assert_eq!(player.position, Position { x: 1, y: 1 });
    assert_eq!(sprite, PlayerSprite { index: 32, indices: range(32, 39) });
    assert_eq!(player.keyboard_last_action.elapsed_ns, 0);
}

#[test]
fn release_does_not_reset_the_cooldown() {
    let (mut player, mut sprite) = step_alone(MovementInput { west: true, ..idle() });
    move_player(&mut player, &mut sprite, &MovementInput { west: true, ..idle() }, 300 * MS);
    let released = MovementInput { released: true, ..idle() };
    move_player(&mut player, &mut sprite, &released, 200 * MS);
    assert_eq!(player.keyboard_last_action.elapsed_ns, 500 * MS);
    assert_eq!(player.position, Position { x: -1, y: 0 });
    assert_eq!(sprite, PlayerSprite { index: 60, indices: range(60, 71) });
}

#[test]
fn debounced_frame_at_the_edge_of_the_world_only_ticks() {
    let (mut player, mut sprite) = start();
    player.position = Position { x: i64::MAX, y: i64::MIN };
    player.is_walking = true;
    let held = MovementInput { south: true, east: true, ..idle() };
    move_player(&mut player, &mut sprite, &held, 400 * MS);
    assert_eq!(player.position, Position { x: i64::MAX, y: i64::MIN });
    assert_eq!(player.keyboard_last_action.elapsed_ns, 400 * MS);
    assert_eq!(sprite, PlayerSprite { index: 0, indices: range(0, 11) });
    let released = MovementInput { released: true, south: true, east: true, ..idle() };
    move_player(&mut player, &mut sprite, &released, 700 * MS);
    assert_eq!(player.position, Position { x: i64::MAX, y: i64::MIN });
    assert!(!player.is_walking);
}

#[test]
fn animation_between_periods_leaves_any_frame_alone() {
    let mut sprite = PlayerSprite { index: usize::MAX, indices: range(0, 11) };
    let mut timer = AnimationTimer::new(100 * MS);
    animate_player(&mut sprite, &mut timer, 30 * MS);
    assert_eq!(sprite.index, usize::MAX);
    assert_eq!(timer.elapsed_ns, 30 * MS);
}

#[test]
fn debounce_allows_one_step_per_cooldown() {
    let held = MovementInput { east: true, ..idle() };
    let (mut player, mut sprite) = start();
    move_player(&mut player, &mut sprite, &held, 16 * MS);
    assert_eq!(player.position, Position { x: 1, y: 0 });
    assert_eq!(player.keyboard_last_action.elapsed_ns, 0);

    sprite.index = 54;
    move_player(&mut player, &mut sprite, &held, 500 * MS);
    assert_eq!(player.position, Position { x: 1, y: 0 });
    assert_eq!(player.keyboard_last_action.elapsed_ns, 500 * MS);
    assert_eq!(sprite.index, 54);

    move_player(&mut player, &mut sprite, &held, 499 * MS);
    assert_eq!(player.position, Position { x: 1, y: 0 });
    assert_eq!(player.keyboard_last_action.elapsed_ns, 999 * MS);
    assert!(!player.keyboard_last_action.finished);

    move_player(&mut player, &mut sprite, &held, MS);
    assert_eq!(player.position, Position { x: 2, y: 0 });
    assert_eq!(player.keyboard_last_action.elapsed_ns, 0);
    assert!(!player.keyboard_last_action.finished);
    assert_eq!(sprite.index, 52);
}

#[test]
fn press_after_the_cooldown_steps_again() {
    let held = MovementInput { south: true, ..idle() };
    let (mut player, mut sprite) = start();
    move_player(&mut player, &mut sprite, &held, 16 * MS);
    move_player(&mut player, &mut sprite, &held, 1_500 * MS);
    assert_eq!(player.position, Position { x: 0, y: -2 });
}

#[test]
fn frame_advances_and_wraps() {
    let indices = range(12, 19);
    assert_eq!(indices.next_frame(12), 13);
    assert_eq!(indices.next_frame(18), 19);
    assert_eq!(indices.next_frame(19), 12);
    assert_eq!(range(3, 3).next_frame(3), 3);
    assert_eq!(range(0, usize::MAX).next_frame(usize::MAX), 0);
}

#[test]
fn animation_ticks_every_tenth_of_a_second() {
    let mut sprite = PlayerSprite { index: 18, indices: range(12, 19) };
    let mut timer = AnimationTimer::new(100 * MS);
    animate_player(&mut sprite, &mut timer, 60 * MS);
    assert_eq!(sprite.index, 18);
    assert_eq!(timer.elapsed_ns, 60 * MS);
    animate_player(&mut sprite, &mut timer, 60 * MS);
    assert_eq!(sprite.index, 19);
    assert_eq!(timer.elapsed_ns, 20 * MS);
    assert!(timer.just_finished());
    animate_player(&mut sprite, &mut timer, 10 * MS);
    assert_eq!(sprite.index, 19);
    assert!(!timer.just_finished());
    animate_player(&mut sprite, &mut timer, 350 * MS);
    assert_eq!(sprite.index, 12);
    assert_eq!(timer.elapsed_ns, 80 * MS);
    assert_eq!(sprite.indices, range(12, 19));
}

#[test]
fn keys_are_bound_to_directions() {
    assert_eq!(MoveKey::Down.facing(), FacingDirection::South);
    assert_eq!(MoveKey::S.facing(), FacingDirection::South);
    assert_eq!(MoveKey::Up.facing(), FacingDirection::North);
    assert_eq!(MoveKey::W.facing(), FacingDirection::North);
    assert_eq!(MoveKey::Right.facing(), FacingDirection::East);
    assert_eq!(MoveKey::D.facing(), FacingDirection::East);
    assert_eq!(MoveKey::Left.facing(), FacingDirection::West);
    assert_eq!(MoveKey::A.facing(), FacingDirection::West);
}

#[test]
fn input_is_gathered_from_key_lists() {
    assert_eq!(MovementInput::from_keys(&vec![], &vec![]), idle());
    assert_eq!(
        MovementInput::from_keys(&vec![MoveKey::W, MoveKey::Right, MoveKey::Up], &vec![]),
        MovementInput { north: true, east: true, ..idle() }
    );
    assert_eq!(
        MovementInput::from_keys(&vec![MoveKey::A], &vec![MoveKey::S]),
        MovementInput { released: true, west: true, ..idle() }
    );
    assert_eq!(
        MovementInput::from_keys(&vec![MoveKey::Down], &vec![]),
        MovementInput { south: true, ..idle() }
    );
}

#[test]
fn default_player_is_blank() {
    let player = Player::default();
    assert_eq!(player.level, 0);
    assert_eq!(player.speed, 0);
    assert_eq!(player.life_points, 0);
    assert_eq!(player.facing_direction, FacingDirection::South);
    assert_eq!(player.position, Position { x: 0, y: 0 });
    assert_eq!(player.animations, PlayerAnimationIndices::default());
    assert!(!player.is_walking);
    assert_eq!(player.current_animation_index, range(0, 0));
    assert_eq!(player.keyboard_last_action.duration_ns, 0);
}

#[test]
fn room_is_asked_for_only_when_the_player_may_step() {
    let (mut player, _) = start();
    player.position = Position { x: i64::MAX, y: 0 };
    let east = MovementInput { east: true, ..idle() };
    assert!(!can_move_player(&player, &east, 16 * MS));
    assert!(can_move_player(&player, &MovementInput { west: true, ..idle() }, 16 * MS));
    assert!(can_move_player(&player, &MovementInput { released: true, ..east }, 16 * MS));
    player.is_walking = true;
    assert!(can_move_player(&player, &east, 999 * MS));
    assert!(!can_move_player(&player, &east, 1_000 * MS));
    player.keyboard_last_action.finished = true;
    assert!(!can_move_player(&player, &idle(), 16 * MS));
}

#[test]
fn frame_index_must_advance_only_when_a_period_ends() {
    let stuck = PlayerSprite { index: usize::MAX, indices: range(0, 11) };
    let timer = AnimationTimer::new(100 * MS);
    assert!(can_animate_player(&stuck, &timer, 99 * MS));
    assert!(!can_animate_player(&stuck, &timer, 100 * MS));
    let last = PlayerSprite { index: usize::MAX, indices: range(0, usize::MAX) };
    assert!(can_animate_player(&last, &timer, 100 * MS));
}

#[test]
fn no_frame_shows_two_states() {
    let sheet = Player::new().animations;
    let states = [
        (FacingDirection::South, false),
        (FacingDirection::South, true),
        (FacingDirection::North, false),
        (FacingDirection::North, true),
        (FacingDirection::East, false),
        (FacingDirection::East, true),
        (FacingDirection::West, false),
        (FacingDirection::West, true),
    ];
    for frame in 0..80usize {
        let shown: Vec<_> = states
            .iter()
            .filter(|&&(facing, walking)| {
                let range = sheet.range(facing, walking);
                range.first <= frame && frame <= range.last
            })
            .collect();
        assert_eq!(shown.len(), 1);
    }
    for &(facing, walking) in states.iter() {
        let range = sheet.range(facing, walking);
        assert_eq!(range.last - range.first + 1, if walking { 8 } else { 12 });
    }
}
