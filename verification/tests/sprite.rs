use cave_story::graphics::{Blit, DrawCommand, Graphics, ImageHandle};
use cave_story::sprite::{AnimatedSprite, Drawable, Rect, Sprite, Updatable};
use cave_story::units::Milliseconds;

#[test]
fn load_image_gives_each_path_one_handle() {
    let mut graphics = Graphics::new();
    assert_eq!(graphics.image_count(), 0);
    let a = graphics.load_image("a.bmp");
    let b = graphics.load_image("b.bmp");
    let a_again = graphics.load_image("a.bmp");
    assert_eq!(a, ImageHandle(0));
    assert_eq!(b, ImageHandle(1));
    assert_eq!(a_again, a);
    assert_eq!(graphics.image_count(), 2);
    assert_eq!(graphics.image_path(a), Some("a.bmp".to_string()));
    assert_eq!(graphics.image_path(b), Some("b.bmp".to_string()));
    assert_eq!(graphics.image_path(ImageHandle(2)), None);
}

#[test]
fn a_static_sprite_draws_its_region_and_ignores_time() {
    let mut graphics = Graphics::new();
    let mut sprite = Sprite::new(&mut graphics, "sheet.bmp", 64, 96, 32, 16);
    assert_eq!(sprite.source_rect, Rect::new(64, 96, 32, 16));
    let before = sprite;
    sprite.update(Milliseconds::new(1000));
    assert_eq!(sprite, before);
    sprite.draw(&mut graphics, 10, -20);
    assert_eq!(
        graphics.take_commands(),
        vec![DrawCommand::Copy(Blit {
            image: ImageHandle(0),
            source: Rect { x: 64, y: 96, width: 32, height: 16 },
            destination: Rect { x: 10, y: -20, width: 32, height: 16 },
        })]
    );
    assert_eq!(graphics.take_commands(), Vec::new());
}

#[test]
fn draw_commands_queue_up_in_order() {
    let mut graphics = Graphics::new();
    graphics.clear();
    graphics.blit_surface(ImageHandle(3), Rect::new(1, 2, 3, 4), Rect::new(5, 6, 7, 8));
    graphics.present();
    graphics.clear();
    assert_eq!(
        graphics.take_commands(),
        vec![
            DrawCommand::Clear,
            DrawCommand::Copy(Blit {
                image: ImageHandle(3),
                source: Rect::new(1, 2, 3, 4),
                destination: Rect::new(5, 6, 7, 8),
            }),
            DrawCommand::Present,
            DrawCommand::Clear,
        ]
    );
    assert_eq!(graphics.take_commands(), Vec::new());
    assert_eq!(graphics.image_count(), 0);
}

fn walking(graphics: &mut Graphics) -> AnimatedSprite {
    AnimatedSprite::new(graphics, "sheet.bmp", 0, 640, 32, 32, 10, 3)
}

#[test]
fn an_animated_sprite_starts_at_its_first_frame() {
    let mut graphics = Graphics::new();
    let sprite = walking(&mut graphics);
    assert_eq!(sprite.frame_time, Milliseconds::new(100));
    assert_eq!(sprite.elapsed_time, Milliseconds::new(0));
    assert_eq!(sprite.num_frames, 3);
    assert_eq!(sprite.current_frame, 0);
    assert_eq!(sprite.source_rect, Rect::new(0, 640, 32, 32));
    sprite.draw(&mut graphics, 5, 6);
    assert_eq!(
        graphics.take_commands(),
        vec![DrawCommand::Copy(Blit {
            image: ImageHandle(0),
            source: Rect::new(0, 640, 32, 32),
            destination: Rect::new(5, 6, 32, 32),
        })]
    );
}

#[test]
fn a_frame_changes_only_when_its_time_is_exceeded() {
    let mut graphics = Graphics::new();
    let mut sprite = walking(&mut graphics);
    sprite.update(Milliseconds::new(100));
    assert_eq!(sprite.current_frame, 0);
    assert_eq!(sprite.elapsed_time, Milliseconds::new(100));
    sprite.update(Milliseconds::new(1));
    assert_eq!(sprite.current_frame, 1);
    assert_eq!(sprite.elapsed_time, Milliseconds::new(1));
    assert_eq!(sprite.source_rect.x, 32);
    sprite.update(Milliseconds::new(100));
    assert_eq!(sprite.current_frame, 2);
    assert_eq!(sprite.source_rect.x, 64);
    sprite.update(Milliseconds::new(100));
    assert_eq!(sprite.current_frame, 0);
    assert_eq!(sprite.source_rect.x, 0);
    assert_eq!(sprite.elapsed_time, Milliseconds::new(1));
}

#[test]
fn a_long_tick_moves_on_by_several_frames() {
    let mut graphics = Graphics::new();
    let mut sprite = walking(&mut graphics);
    sprite.update(Milliseconds::new(250));
    assert_eq!(sprite.current_frame, 2);
    assert_eq!(sprite.elapsed_time, Milliseconds::new(50));
    assert_eq!(sprite.source_rect.x, 64);
    sprite.update(Milliseconds::new(1000));
    assert_eq!(sprite.current_frame, 0);
    assert_eq!(sprite.elapsed_time, Milliseconds::new(50));
    assert_eq!(sprite.source_rect.x, 0);
}

#[test]
fn a_full_cycle_brings_back_the_same_frame() {
    let mut graphics = Graphics::new();
    let mut sprite = walking(&mut graphics);
    sprite.update(Milliseconds::new(130));
    let before = sprite;
    assert_eq!(before.current_frame, 1);
    sprite.update(Milliseconds::new(300));
    assert_eq!(sprite, before);
    for _ in 0..3 {
        sprite.update(Milliseconds::new(100));
        assert!(sprite.current_frame < sprite.num_frames);
    }
    assert_eq!(sprite, before);
}

#[test]
fn a_fresh_sprite_is_one_frame_short_after_a_full_cycle() {
    let mut graphics = Graphics::new();
    let mut sprite = walking(&mut graphics);
    sprite.update(Milliseconds::new(300));
    assert_eq!(sprite.current_frame, 2);
    assert_eq!(sprite.elapsed_time, Milliseconds::new(100));
}

#[test]
fn the_frame_rate_sets_the_frame_time() {
    let mut graphics = Graphics::new();
    let sprite = AnimatedSprite::new(&mut graphics, "sheet.bmp", 0, 0, 32, 32, 60, 1);
    assert_eq!(sprite.frame_time, Milliseconds::new(16));
    let mut single = sprite;
    single.update(Milliseconds::new(1000));
    assert_eq!(single.current_frame, 0);
    assert_eq!(single.source_rect.x, 0);
    let slow = AnimatedSprite::new(&mut graphics, "sheet.bmp", 0, 0, 32, 32, 1000, 2);
    assert_eq!(slow.frame_time, Milliseconds::new(1));
    assert_eq!(graphics.image_count(), 1);
}

#[test]
fn a_very_long_tick_is_worked_off_at_once() {
    let mut graphics = Graphics::new();
    let mut sprite = walking(&mut graphics);
    sprite.update(Milliseconds::new(u32::MAX));
    assert_eq!(sprite.current_frame, 1);
    assert_eq!(sprite.elapsed_time, Milliseconds::new(95));
    assert_eq!(sprite.source_rect, Rect::new(32, 640, 32, 32));
    sprite.update(Milliseconds::new(u32::MAX));
    assert_eq!(sprite.current_frame, 0);
    assert_eq!(sprite.elapsed_time, Milliseconds::new(90));
    assert_eq!(sprite.source_rect, Rect::new(0, 640, 32, 32));
}
