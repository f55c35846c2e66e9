use sprite_animation::sprite::{Position, Rect, SpriteAnimation, Texture};

fn sheet() -> Texture {
    Texture { handle: 7, width: 256, height: 32 }
}

fn run(a: &mut SpriteAnimation, ticks: u32) {
    for _ in 0..ticks {
        a.animate();
    }
}

#[test]
fn new_animation_starts_on_first_frame() {
    let a = SpriteAnimation::new(sheet(), 8, 20);
    assert_eq!(a.frame_width, 32);
    assert_eq!(a.num_frames, 8);
    assert_eq!(a.current_frame, 0);
    assert_eq!(a.frames_counter, 0);
    assert_eq!(a.anim_speed, 20);
    assert_eq!(a.texture, sheet());
}

#[test]
fn frame_advances_every_third_tick_at_speed_twenty() {
    let mut a = SpriteAnimation::new(sheet(), 8, 20);
    run(&mut a, 2);
    assert_eq!(a.current_frame, 0);
    assert_eq!(a.frames_counter, 2);
    run(&mut a, 1);
    assert_eq!(a.current_frame, 1);
    assert_eq!(a.frames_counter, 0);
}

#[test]
fn frame_matches_closed_form_for_many_ticks() {
    let mut a = SpriteAnimation::new(sheet(), 8, 20);
    for n in 1..=500u32 {
        a.animate();
        assert_eq!(a.current_frame, (n / 3) % 8);
        assert_eq!(a.frames_counter, n % 3);
    }
}

#[test]
fn twenty_four_ticks_make_one_full_cycle() {
    let mut a = SpriteAnimation::new(sheet(), 8, 20);
    run(&mut a, 21);
    assert_eq!(a.current_frame, 7);
    run(&mut a, 3);
    assert_eq!(a.current_frame, 0);
}

#[test]
fn one_hundred_eighty_ticks_give_sixty_frame_advances() {
    let mut a = SpriteAnimation::new(sheet(), 8, 20);
    run(&mut a, 180);
    assert_eq!(a.current_frame, 60 % 8);
    assert_eq!(a.frames_counter, 0);
}

#[test]
fn speed_above_sixty_advances_every_tick() {
    let mut a = SpriteAnimation::new(sheet(), 4, 100);
    run(&mut a, 1);
    assert_eq!(a.current_frame, 1);
    run(&mut a, 3);
    assert_eq!(a.current_frame, 0);
}

#[test]
fn speed_sixty_advances_every_tick() {
    let mut a = SpriteAnimation::new(sheet(), 8, 60);
    run(&mut a, 5);
    assert_eq!(a.current_frame, 5);
}

#[test]
fn single_frame_animation_stays_on_frame_zero() {
    let mut a = SpriteAnimation::new(sheet(), 1, 20);
    run(&mut a, 10);
    assert_eq!(a.current_frame, 0);
    assert_eq!(a.frame_width, 256);
}

#[test]
fn source_rect_stays_inside_texture_for_every_frame() {
    let mut a = SpriteAnimation::new(Texture { handle: 1, width: 100, height: 20 }, 3, 60);
    for f in 0..3i64 {
        let r = a.source_rect();
        assert_eq!(r, Rect { x: f * 33, y: 0, width: 33, height: 20 });
        assert!(r.x + r.width <= 100);
        a.animate();
    }
    assert_eq!(a.current_frame, 0);
}

#[test]
fn draw_places_current_frame_at_position() {
    let mut a = SpriteAnimation::new(sheet(), 8, 20);
    run(&mut a, 6);
    let b = a.draw(Position { x: -5, y: 11 });
    assert_eq!(b.texture, 7);
    assert_eq!(b.source, Rect { x: 64, y: 0, width: 32, height: 32 });
    assert_eq!(b.dest, Rect { x: -5, y: 11, width: 32, height: 32 });
}

#[test]
fn cycle_returns_to_any_start_state() {
    let mut a = SpriteAnimation::new(sheet(), 8, 20);
    run(&mut a, 13);
    let (c, f) = (a.frames_counter, a.current_frame);
    assert_eq!((c, f), (1, 4));
    run(&mut a, 3 * 8);
    assert_eq!((a.frames_counter, a.current_frame), (c, f));
}
