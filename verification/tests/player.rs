use cave_story::constants::{
    GROUND_Y, JUMP_SPEED, JUMP_TIME, MAX_SPEED, MAX_SPEED_Y, WALKING_ACCELERATION,
};
use cave_story::graphics::{Blit, DrawCommand, Graphics, ImageHandle};
use cave_story::player::{
    create_sprite_map, displacement_of, velocity_x_after, velocity_y_after, DrawError,
    HorizontalFacing, Jump, MotionType, Player, SpriteState, VerticalFacing, Visual,
};
use cave_story::sprite::Rect;
use cave_story::units::Milliseconds;

fn ms(value: u32) -> Milliseconds {
    Milliseconds::new(value)
}

fn grounded_player() -> Player {
    let mut graphics = Graphics::new();
    Player::new(&mut graphics, 320, GROUND_Y)
}

fn drawn(player: &Player) -> (Result<(), DrawError>, Vec<DrawCommand>) {
    let mut graphics = Graphics::new();
    let result = player.draw(&mut graphics);
    (result, graphics.take_commands())
}

#[test]
fn sprite_state_constructors() {
    assert_eq!(
        SpriteState::default(),
        SpriteState::new(MotionType::Standing, HorizontalFacing::Left, VerticalFacing::Forward)
    );
    let state = SpriteState::new(MotionType::Falling, HorizontalFacing::Right, VerticalFacing::Down);
    assert_eq!(state.motion_type, MotionType::Falling);
    assert_eq!(state.horizontal_facing, HorizontalFacing::Right);
    assert_eq!(state.vertical_facing, VerticalFacing::Down);
}

#[test]
fn every_sprite_state_has_its_own_slot() {
    let motions =
        [MotionType::Standing, MotionType::Walking, MotionType::Jumping, MotionType::Falling];
    let facings = [HorizontalFacing::Left, HorizontalFacing::Right];
    let looks = [VerticalFacing::Up, VerticalFacing::Forward, VerticalFacing::Down];
    let mut seen = [false; 24];
    for motion in motions {
        for facing in facings {
            for look in looks {
                let slot = SpriteState::new(motion, facing, look).slot();
                assert!(slot < 24);
                assert!(!seen[slot]);
                seen[slot] = true;
            }
        }
    }
    assert!(seen.iter().all(|s| *s));
}

#[test]
fn jump_counts_down_and_ends_at_zero() {
    let mut jump = Jump::new();
    assert!(!jump.active());
    jump.update(ms(10));
    assert_eq!(jump, Jump { time_remaining: ms(0), active: false });

    jump.reset();
    assert_eq!(jump, Jump { time_remaining: ms(JUMP_TIME), active: true });
    jump.update(ms(100));
    assert_eq!(jump, Jump { time_remaining: ms(175), active: true });
    jump.update(ms(0));
    assert_eq!(jump, Jump { time_remaining: ms(175), active: true });
    jump.update(ms(175));
    assert_eq!(jump, Jump { time_remaining: ms(0), active: false });
    jump.update(ms(50));
    assert_eq!(jump, Jump { time_remaining: ms(0), active: false });
    jump.reactivate();
    assert!(!jump.active());
    jump.reset();
    assert!(jump.active());
}

#[test]
fn jump_overshoot_is_clamped() {
    let mut jump = Jump::new();
    jump.reset();
    jump.update(ms(u32::MAX));
    assert_eq!(jump, Jump { time_remaining: ms(0), active: false });
}

#[test]
fn a_deactivated_jump_can_be_taken_up_again() {
    let mut jump = Jump::new();
    jump.reset();
    jump.update(ms(75));
    jump.deactivate();
    assert_eq!(jump, Jump { time_remaining: ms(200), active: false });
    jump.update(ms(500));
    assert_eq!(jump, Jump { time_remaining: ms(200), active: false });
    jump.reactivate();
    assert_eq!(jump, Jump { time_remaining: ms(200), active: true });
}

#[test]
fn displacement_rounds_to_the_nearest_pixel() {
    assert_eq!(displacement_of(0, 16), 0);
    assert_eq!(displacement_of(325_000, 16), 5);
    assert_eq!(displacement_of(-325_000, 16), -5);
    assert_eq!(displacement_of(250_000, 2), 1);
    assert_eq!(displacement_of(-250_000, 2), -1);
    assert_eq!(displacement_of(249_999, 2), 0);
    assert_eq!(displacement_of(-249_999, 2), 0);
    assert_eq!(displacement_of(325_000, 0), 0);
    assert_eq!(displacement_of(325_000, u32::MAX), 1_395_864_371);
    assert_eq!(displacement_of(-325_000, u32::MAX), -1_395_864_371);
}

#[test]
fn horizontal_velocity_follows_the_acceleration() {
    assert_eq!(velocity_x_after(0, WALKING_ACCELERATION, true, 16), 19_200);
    assert_eq!(velocity_x_after(0, -WALKING_ACCELERATION, false, 16), -19_200);
    assert_eq!(velocity_x_after(320_000, WALKING_ACCELERATION, true, 16), MAX_SPEED);
    assert_eq!(velocity_x_after(-320_000, -WALKING_ACCELERATION, true, 16), -MAX_SPEED);
    assert_eq!(velocity_x_after(MAX_SPEED, -WALKING_ACCELERATION, true, u32::MAX), -MAX_SPEED);
    assert_eq!(velocity_x_after(-MAX_SPEED, WALKING_ACCELERATION, true, u32::MAX), MAX_SPEED);
    assert_eq!(velocity_x_after(100_000, 0, true, 16), 80_000);
    assert_eq!(velocity_x_after(-100_000, 0, true, 16), -80_000);
    assert_eq!(velocity_x_after(100_000, 0, false, 16), 100_000);
    assert_eq!(velocity_x_after(1, 0, true, 16), 0);
    assert_eq!(velocity_x_after(-1, 0, true, 16), 0);
    assert_eq!(velocity_x_after(100_000, 0, true, 0), 80_000);
}

#[test]
fn gravity_pulls_up_to_the_largest_falling_speed() {
    assert_eq!(velocity_y_after(0, false, 16), 19_200);
    assert_eq!(velocity_y_after(-JUMP_SPEED, false, 16), -305_800);
    assert_eq!(velocity_y_after(-JUMP_SPEED, true, 16), -JUMP_SPEED);
    assert_eq!(velocity_y_after(320_000, false, 16), MAX_SPEED_Y);
    assert_eq!(velocity_y_after(0, false, u32::MAX), MAX_SPEED_Y);
    assert_eq!(velocity_y_after(MAX_SPEED_Y, false, 1000), MAX_SPEED_Y);
}

#[test]
fn a_new_player_rests_where_it_was_put() {
    let mut graphics = Graphics::new();
    let player = Player::new(&mut graphics, 320, 240);
    assert_eq!(player.x, 320);
    assert_eq!(player.y, 240);
    assert_eq!(player.velocity_x, 0);
    assert_eq!(player.velocity_y, 0);
    assert_eq!(player.acceleration_x, 0);
    assert!(player.on_ground());
    assert_eq!(player.jump, Jump { time_remaining: ms(0), active: false });
    assert_eq!(player.sprite_state, SpriteState::default());
    assert_eq!(graphics.image_count(), 1);
    assert_eq!(graphics.image_path(ImageHandle(0)), Some("content/MyChar.bmp".to_string()));
}

#[test]
fn the_sprite_table_covers_every_state() {
    let mut graphics = Graphics::new();
    let table = create_sprite_map(&mut graphics);
    assert_eq!(table.len(), 24);
    assert!(table.iter().all(|entry| entry.is_some()));

    let standing_left =
        SpriteState::new(MotionType::Standing, HorizontalFacing::Left, VerticalFacing::Forward);
    match table[standing_left.slot()] {
        Some(Visual::Static(sprite)) => {
            assert_eq!(sprite.source_rect, Rect::new(0, 640, 32, 32));
            assert_eq!(sprite.sprite_sheet, ImageHandle(0));
        }
        _ => panic!("standing is a static sprite"),
    }
    let falling_right_down =
        SpriteState::new(MotionType::Falling, HorizontalFacing::Right, VerticalFacing::Down);
    match table[falling_right_down.slot()] {
        Some(Visual::Static(sprite)) => {
            assert_eq!(sprite.source_rect, Rect::new(256, 672, 32, 32));
        }
        _ => panic!("falling is a static sprite"),
    }
    let jumping_left_up =
        SpriteState::new(MotionType::Jumping, HorizontalFacing::Left, VerticalFacing::Up);
    match table[jumping_left_up.slot()] {
        Some(Visual::Static(sprite)) => {
            assert_eq!(sprite.source_rect, Rect::new(128, 640, 32, 32));
        }
        _ => panic!("jumping is a static sprite"),
    }
    let walking_right =
        SpriteState::new(MotionType::Walking, HorizontalFacing::Right, VerticalFacing::Forward);
    match table[walking_right.slot()] {
        Some(Visual::Animated(sprite)) => {
            assert_eq!(sprite.source_rect, Rect::new(0, 672, 32, 32));
            assert_eq!(sprite.frame_time, ms(100));
            assert_eq!(sprite.num_frames, 3);
            assert_eq!(sprite.current_frame, 0);
        }
        _ => panic!("walking is an animated sprite"),
    }
}

#[test]
fn walking_right_speeds_up_to_the_limit_and_slows_down_after() {
    let mut player = grounded_player();
    player.start_moving_right();
    assert_eq!(player.acceleration_x, WALKING_ACCELERATION);
    let mut last = player.velocity_x;
    let mut elapsed = 0;
    while elapsed < 1000 {
        assert!(player.can_update(ms(16)));
        player.update(ms(16));
        elapsed += 16;
        assert!(player.velocity_x >= last);
        assert!(player.velocity_x <= MAX_SPEED);
        assert!(player.on_ground());
        assert_eq!(player.y, GROUND_Y);
        assert_eq!(player.sprite_state.motion_type, MotionType::Walking);
        assert_eq!(player.sprite_state.horizontal_facing, HorizontalFacing::Right);
        last = player.velocity_x;
    }
    assert_eq!(player.velocity_x, MAX_SPEED);
    assert!(player.x > 320);

    player.stop_moving();
    let expected: [i64; 6] = [260_000, 208_000, 166_400, 133_120, 106_496, 85_196];
    for value in expected {
        player.update(ms(16));
        assert_eq!(player.velocity_x, value);
        assert_eq!(player.sprite_state.motion_type, MotionType::Standing);
        assert_eq!(player.sprite_state.horizontal_facing, HorizontalFacing::Right);
    }
    for _ in 0..200 {
        let before = player.velocity_x;
        player.update(ms(16));
        assert!(player.velocity_x >= 0);
        assert!(player.velocity_x <= before);
    }
    assert_eq!(player.velocity_x, 0);
}

#[test]
fn first_ticks_of_a_walk() {
    let mut player = grounded_player();
    player.start_moving_left();
    player.update(ms(16));
    assert_eq!(player.x, 320);
    assert_eq!(player.velocity_x, -19_200);
    player.update(ms(16));
    assert_eq!(player.x, 320);
    assert_eq!(player.velocity_x, -38_400);
    player.update(ms(16));
    assert_eq!(player.x, 319);
    assert_eq!(player.velocity_x, -57_600);
    assert_eq!(player.sprite_state.horizontal_facing, HorizontalFacing::Left);
    assert_eq!(player.sprite_state.motion_type, MotionType::Walking);
}

#[test]
fn a_jump_from_the_ground() {
    let mut player = grounded_player();
    player.start_jump();
    assert_eq!(player.velocity_y, -JUMP_SPEED);
    assert_eq!(player.jump, Jump { time_remaining: ms(JUMP_TIME), active: true });
    assert!(player.on_ground());

    player.update(ms(16));
    assert!(!player.on_ground());
    assert_eq!(player.y, GROUND_Y - 5);
    assert_eq!(player.velocity_y, -JUMP_SPEED);
    assert_eq!(player.jump, Jump { time_remaining: ms(259), active: true });
    assert_eq!(player.sprite_state.motion_type, MotionType::Jumping);

    player.update(ms(259));
    assert_eq!(player.jump, Jump { time_remaining: ms(0), active: false });
    assert_eq!(player.y, GROUND_Y - 5 - 84);
    assert_eq!(player.velocity_y, -JUMP_SPEED + 259 * 1_200);
    assert_eq!(player.sprite_state.motion_type, MotionType::Jumping);

    let mut ticks = 0;
    while !player.on_ground() {
        let rising = player.velocity_y < 0;
        player.update(ms(16));
        ticks += 1;
        assert!(player.velocity_y <= MAX_SPEED_Y);
        assert!(player.y <= GROUND_Y);
        if !player.on_ground() {
            if player.velocity_y < 0 {
                assert!(rising);
                assert_eq!(player.sprite_state.motion_type, MotionType::Jumping);
            } else if player.velocity_y > 0 {
                assert_eq!(player.sprite_state.motion_type, MotionType::Falling);
            }
        }
        assert!(ticks < 1000);
    }
    assert_eq!(player.y, GROUND_Y);
    assert_eq!(player.velocity_y, 0);
    assert_eq!(player.sprite_state.motion_type, MotionType::Standing);
}

#[test]
fn releasing_the_jump_key_lets_gravity_in() {
    let mut player = grounded_player();
    player.start_jump();
    player.update(ms(16));
    player.stop_jump();
    assert_eq!(player.jump, Jump { time_remaining: ms(259), active: false });
    player.update(ms(16));
    assert_eq!(player.velocity_y, -JUMP_SPEED + 19_200);
    assert_eq!(player.jump, Jump { time_remaining: ms(259), active: false });
    player.start_jump();
    assert_eq!(player.jump, Jump { time_remaining: ms(259), active: true });
    assert_eq!(player.velocity_y, -JUMP_SPEED + 19_200);
}

#[test]
fn jumping_while_falling_does_nothing() {
    let mut player = grounded_player();
    player.y = 100;
    player.is_on_ground = false;
    player.velocity_y = 50_000;
    player.jump = Jump { time_remaining: ms(100), active: false };
    player.start_jump();
    assert_eq!(player.jump, Jump { time_remaining: ms(100), active: false });
    assert_eq!(player.velocity_y, 50_000);
    player.velocity_y = 0;
    player.start_jump();
    assert_eq!(player.jump, Jump { time_remaining: ms(100), active: false });
    assert_eq!(player.velocity_y, 0);
}

#[test]
fn landing_clamps_to_the_ground_line() {
    let mut player = grounded_player();
    player.y = 318;
    player.is_on_ground = false;
    player.velocity_y = 200_000;
    player.update(ms(16));
    assert_eq!(player.y, GROUND_Y);
    assert_eq!(player.velocity_y, 0);
    assert!(player.on_ground());
    assert_eq!(player.sprite_state.motion_type, MotionType::Standing);

    let mut walker = grounded_player();
    walker.y = 318;
    walker.is_on_ground = false;
    walker.velocity_y = 200_000;
    walker.start_moving_right();
    walker.update(ms(16));
    assert_eq!(walker.y, GROUND_Y);
    assert_eq!(walker.velocity_y, 0);
    assert!(walker.on_ground());
    assert_eq!(walker.sprite_state.motion_type, MotionType::Walking);
}

#[test]
fn a_player_in_the_air_falls() {
    let mut graphics = Graphics::new();
    let mut player = Player::new(&mut graphics, 320, 240);
    player.update(ms(16));
    assert_eq!(player.y, 240);
    assert!(!player.on_ground());
    assert_eq!(player.velocity_y, 19_200);
    assert_eq!(player.sprite_state.motion_type, MotionType::Falling);
    player.update(ms(16));
    assert_eq!(player.y, 240);
    assert_eq!(player.velocity_y, 38_400);
    player.update(ms(16));
    assert_eq!(player.y, 241);
}

#[test]
fn hanging_in_the_air_keeps_the_ground_motion() {
    let mut player = grounded_player();
    player.y = 100;
    player.velocity_y = 0;
    player.jump = Jump { time_remaining: ms(100), active: true };
    player.update(ms(16));
    assert!(!player.on_ground());
    assert_eq!(player.velocity_y, 0);
    assert_eq!(player.sprite_state.motion_type, MotionType::Standing);
}

#[test]
fn looking_is_independent_of_motion() {
    let mut player = grounded_player();
    player.look_up();
    assert_eq!(player.sprite_state.vertical_facing, VerticalFacing::Up);
    player.start_moving_right();
    player.update(ms(16));
    assert_eq!(
        player.sprite_state,
        SpriteState::new(MotionType::Walking, HorizontalFacing::Right, VerticalFacing::Up)
    );
    player.look_down();
    assert_eq!(player.sprite_state.vertical_facing, VerticalFacing::Down);
    assert_eq!(player.sprite_state.motion_type, MotionType::Walking);
    player.look_horizontal();
    assert_eq!(player.sprite_state.vertical_facing, VerticalFacing::Forward);
}

#[test]
fn the_walking_visual_advances_with_the_player() {
    let mut player = grounded_player();
    player.start_moving_right();
    player.update(ms(16));
    let slot = player.sprite_state.slot();
    match player.sprites[slot] {
        Some(Visual::Animated(sprite)) => assert_eq!(sprite.elapsed_time, ms(16)),
        _ => panic!("walking is an animated sprite"),
    }
    player.update(ms(100));
    match player.sprites[slot] {
        Some(Visual::Animated(sprite)) => {
            assert_eq!(sprite.current_frame, 1);
            assert_eq!(sprite.elapsed_time, ms(16));
            assert_eq!(sprite.source_rect, Rect::new(32, 672, 32, 32));
        }
        _ => panic!("walking is an animated sprite"),
    }
    assert_eq!(
        drawn(&player),
        (
            Ok(()),
            vec![DrawCommand::Copy(Blit {
                image: ImageHandle(0),
                source: Rect::new(32, 672, 32, 32),
                destination: Rect::new(player.x, GROUND_Y, 32, 32),
            })]
        )
    );
}

#[test]
fn drawing_shows_the_visual_of_the_current_state() {
    let player = grounded_player();
    assert_eq!(
        drawn(&player),
        (
            Ok(()),
            vec![DrawCommand::Copy(Blit {
                image: ImageHandle(0),
                source: Rect::new(0, 640, 32, 32),
                destination: Rect::new(320, GROUND_Y, 32, 32),
            })]
        )
    );
}

#[test]
fn drawing_a_state_without_a_visual_fails() {
    let mut player = grounded_player();
    let slot = player.sprite_state.slot();
    player.sprites[slot] = None;
    assert_eq!(
        drawn(&player),
        (Err(DrawError::MissingVisualAsset(SpriteState::default())), Vec::new())
    );
    player.update(ms(16));
    assert_eq!(
        drawn(&player),
        (Err(DrawError::MissingVisualAsset(SpriteState::default())), Vec::new())
    );
    player.start_moving_right();
    player.update(ms(16));
    assert!(drawn(&player).0.is_ok());
    assert_eq!(drawn(&player).1.len(), 1);
}

#[test]
fn update_is_refused_where_the_position_would_not_fit() {
    let mut player = grounded_player();
    player.x = i32::MAX;
    player.velocity_x = MAX_SPEED;
    assert!(!player.can_update(ms(16)));
    assert!(player.can_update(ms(0)));
    player.velocity_x = -MAX_SPEED;
    assert!(player.can_update(ms(16)));
    player.y = i32::MIN;
    player.velocity_y = -JUMP_SPEED;
    assert!(!player.can_update(ms(16)));
}
