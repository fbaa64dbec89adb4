use scene2d::engine::{Engine, GRAVITY, JUMP_VELOCITY};
use scene2d::input::Key;
use scene2d::sprite::{GPUCamera, GPUSprite, Region, SpriteRender, Texture, COORD_SCALE};

fn px(v: i64) -> i64 {
    v * COORD_SCALE
}

fn region(x: i64, y: i64, w: i64, h: i64) -> Region {
    Region { x: px(x), y: px(y), w: px(w), h: px(h) }
}

fn sprite_at(x: i64, y: i64, w: i64, h: i64) -> GPUSprite {
    GPUSprite {
        screen_region: region(x, y, w, h),
        sheet_region: Region { x: 0, y: 0, w: COORD_SCALE, h: COORD_SCALE },
    }
}

fn camera() -> GPUCamera {
    GPUCamera {
        screen_pos_x: 0,
        screen_pos_y: 0,
        screen_size_x: px(1024),
        screen_size_y: px(768),
    }
}

fn tex(id: u64) -> Texture {
    Texture { id, width: 64, height: 64 }
}

/// A scene of the shape the frame loop expects, with the platforms and the
/// power-up parked far away from the players.
fn test_scene() -> SpriteRender {
    let mut r = SpriteRender::new();
    // 0: gameplay background
    r.add_sprite_group(tex(0), vec![sprite_at(0, 0, 1024, 768)], camera());
    // 1: the four platforms, far above the action
    r.add_sprite_group(
        tex(1),
        vec![
            sprite_at(400, 2000, 64, 64),
            sprite_at(464, 2000, 64, 64),
            sprite_at(528, 2000, 64, 64),
            sprite_at(892, 2000, 64, 64),
        ],
        camera(),
    );
    // 2: left player, 3: right player
    r.add_sprite_group(tex(2), vec![sprite_at(32, 85, 64, 64)], camera());
    r.add_sprite_group(tex(2), vec![sprite_at(750, 85, 64, 64)], camera());
    // 4: score overlay, last three sprites are the digits
    r.add_sprite_group(tex(3), vec![sprite_at(2, 728, 32, 32); 9], camera());
    // 5: power-up, far away
    r.add_sprite_group(tex(2), vec![sprite_at(560, 3000, 64, 64)], camera());
    // 6: title background
    r.add_sprite_group(tex(4), vec![sprite_at(0, 0, 1024, 768)], camera());
    // 7: game name, 8: OPTIONS, 9: PLAY
    r.add_sprite_group(tex(3), vec![sprite_at(200, 600, 64, 64); 10], camera());
    r.add_sprite_group(tex(3), vec![sprite_at(234, 500, 32, 32); 7], camera());
    r.add_sprite_group(tex(3), vec![sprite_at(234, 400, 32, 32); 4], camera());
    // 10: menu cursor, parked on OPTIONS
    r.add_sprite_group(tex(3), vec![sprite_at(200, 500, 32, 32)], camera());
    // 11-13: static obstacle decorations (hidden)
    r.add_sprite_group(tex(4), vec![sprite_at(300, 0, 0, 0), sprite_at(800, 0, 0, 0)], camera());
    r.add_sprite_group(tex(2), vec![sprite_at(400, 200, 0, 0); 3], camera());
    r.add_sprite_group(tex(2), vec![sprite_at(150, 72, 0, 0); 4], camera());
    // 14: options overlay background (hidden until opened)
    r.add_sprite_group(tex(5), vec![sprite_at(0, 0, 0, 0)], camera());
    // 15: the three option indicator icons (hidden)
    r.add_sprite_group(tex(3), vec![sprite_at(40, 425, 0, 0); 3], camera());
    r
}

fn test_engine() -> Engine {
    Engine::new(test_scene())
}

#[test]
fn engine_new_has_the_documented_defaults() {
    let e = test_engine();
    assert!(!e.is_jumping);
    assert!(!e.leftis_jumping);
    assert_eq!(e.velocity_y, 0);
    assert_eq!(e.leftvelocity_y, 0);
    assert_eq!(e.gravity, GRAVITY);
    assert_eq!(e.score, 0);
    assert_eq!(e.sub_score, 0);
    assert!(!e.single_player);
    assert!(!e.audio_cues);
    assert!(!e.left_keyboard);
    assert!(!e.high_contrast);
    assert!(!e.options_shown);
    assert_eq!(e.p1_speed, 3 * COORD_SCALE);
    assert_eq!(e.p2_speed, 3 * COORD_SCALE);
    assert_eq!(e.frames, 0);
    assert_eq!(e.keyboard.up, Key::Up);
    assert!(e.frame_ready());
}

#[test]
fn menu_confirm_opens_options_and_cancel_closes_them() {
    let mut e = test_engine();
    // Confirm with the cursor on OPTIONS (no second player committed).
    e.input.handle_key_event(Key::Return, true);
    assert!(e.frame_ready());
    e.frame();
    assert!(e.options_shown);
    assert!(!e.single_player);
    // The overlay background now takes the whole screen.
    assert_eq!(e.sprites.groups[14].sprites[0].screen_region.w, px(1024));
    assert_eq!(e.sprites.groups[14].sprites[0].screen_region.h, px(768));
    // Cancel: the overlay and the indicator icons are hidden again.
    e.input.handle_key_event(Key::Return, false);
    e.input.handle_key_event(Key::Escape, true);
    assert!(e.frame_ready());
    e.frame();
    assert!(!e.options_shown);
    assert_eq!(e.sprites.groups[14].sprites[0].screen_region.w, 0);
    for i in 0..3 {
        assert_eq!(e.sprites.groups[15].sprites[i].screen_region.w, 0);
        assert_eq!(e.sprites.groups[15].sprites[i].screen_region.h, 0);
    }
}

#[test]
fn contrast_toggle_shows_and_hides_its_indicator() {
    let mut e = test_engine();
    e.input.handle_key_event(Key::Return, true);
    e.frame();
    assert!(e.options_shown);
    e.input.handle_key_event(Key::Return, false);
    e.input.handle_key_event(Key::Key1, true);
    e.frame();
    assert!(e.high_contrast);
    assert_eq!(e.sprites.groups[15].sprites[0].screen_region.w, px(32));
    // Release, press again: the toggle flips back and hides the icon.
    e.input.handle_key_event(Key::Key1, false);
    e.frame();
    e.input.handle_key_event(Key::Key1, true);
    e.frame();
    assert!(!e.high_contrast);
    assert_eq!(e.sprites.groups[15].sprites[0].screen_region.w, 0);
}

#[test]
fn keyboard_toggle_switches_the_control_scheme() {
    let mut e = test_engine();
    e.input.handle_key_event(Key::Return, true);
    e.frame();
    e.input.handle_key_event(Key::Return, false);
    e.input.handle_key_event(Key::Key3, true);
    e.frame();
    assert!(e.left_keyboard);
    assert_eq!(e.keyboard.up, Key::W);
    assert_eq!(e.keyboard.left, Key::A);
}

#[test]
fn jump_is_deterministic_and_returns_to_ground() {
    let mut e = test_engine();
    let mut twin = test_engine();
    let ground = px(85);
    // Press the jump key for one frame.
    e.input.handle_key_event(Key::Up, true);
    twin.input.handle_key_event(Key::Up, true);
    assert!(e.frame_ready());
    let ev = e.frame();
    twin.frame();
    assert!(ev.jumped);
    assert!(e.is_jumping);
    assert_eq!(e.velocity_y, JUMP_VELOCITY + GRAVITY);
    e.input.handle_key_event(Key::Up, false);
    twin.input.handle_key_event(Key::Up, false);
    let mut heights = vec![e.sprites.groups[3].sprites[0].screen_region.y];
    let mut frames_until_grounded = None;
    for k in 0..60 {
        assert!(e.frame_ready());
        e.frame();
        twin.frame();
        let y = e.sprites.groups[3].sprites[0].screen_region.y;
        // Determinism: the twin runs through exactly the same heights.
        assert_eq!(y, twin.sprites.groups[3].sprites[0].screen_region.y);
        heights.push(y);
        if !e.is_jumping && frames_until_grounded.is_none() {
            frames_until_grounded = Some(k);
        }
    }
    // The jump ended, back at ground level, within the bounded frame count.
    assert!(frames_until_grounded.is_some());
    assert!(frames_until_grounded.unwrap() < 55);
    assert_eq!(e.sprites.groups[3].sprites[0].screen_region.y, ground);
    // The arc went up before it came down.
    assert!(heights.iter().max().unwrap() > &ground);
}

#[test]
fn powerup_timer_expiry_resets_speeds_and_respawns() {
    let mut e = test_engine();
    e.p1_speed = 7 * COORD_SCALE;
    e.p2_speed = 7 * COORD_SCALE;
    e.frames = 421;
    e.sprites.delete_sprite(5, 0);
    assert!(e.frame_ready());
    e.frame();
    assert_eq!(e.p1_speed, 3 * COORD_SCALE);
    assert_eq!(e.p2_speed, 3 * COORD_SCALE);
    assert_eq!(e.sprites.groups[5].sprites[0].screen_region.w, px(64));
    // The counter restarted from zero and advanced by this frame.
    assert_eq!(e.frames, 1);
}

#[test]
fn powerup_pickup_boosts_the_left_player() {
    let mut e = test_engine();
    // Park the power-up on the left player.
    e.sprites.update_position(region(0, 50, 200, 200), 5);
    assert!(e.frame_ready());
    e.frame();
    assert_eq!(e.p1_speed, 7 * COORD_SCALE);
    assert_eq!(e.p2_speed, 3 * COORD_SCALE);
    // The power-up taken is hidden.
    assert_eq!(e.sprites.groups[5].sprites[0].screen_region.w, 0);
}

#[test]
fn player_touch_scores_and_updates_the_digit_sprites() {
    let mut e = test_engine();
    e.sprites.update_position(region(100, 85, 64, 64), 2);
    e.sprites.update_position(region(101, 85, 64, 64), 3);
    assert!(e.frame_ready());
    let ev = e.frame();
    assert!(!ev.exit);
    assert_eq!(e.score, 5);
    // The units digit shows 5.
    assert_eq!(
        e.sprites.groups[4].sprites[8].sheet_region,
        Region { x: 352000, y: 432000, w: 88000, h: 72000 },
    );
    // The hundreds and tens digits show 0.
    assert_eq!(
        e.sprites.groups[4].sprites[6].sheet_region,
        Region { x: 704000, y: 360000, w: 88000, h: 72000 },
    );
}

#[test]
fn run_ends_only_past_the_winning_score() {
    let mut e = test_engine();
    e.sprites.update_position(region(100, 85, 64, 64), 2);
    e.sprites.update_position(region(101, 85, 64, 64), 3);
    e.score = 101;
    assert!(e.frame_ready());
    let ev = e.frame();
    assert!(ev.exit);
    assert_eq!(e.score, 106);
}

#[test]
fn frame_ready_rejects_a_malformed_scene() {
    let e = Engine::new(SpriteRender::new());
    assert!(!e.frame_ready());
}

#[test]
fn moving_right_walks_the_right_player() {
    let mut e = test_engine();
    let before = e.sprites.groups[3].sprites[0].screen_region.x;
    e.input.handle_key_event(Key::Right, true);
    assert!(e.frame_ready());
    e.frame();
    assert_eq!(e.sprites.groups[3].sprites[0].screen_region.x, before + 3 * COORD_SCALE);
    // Releasing the key restores the standing pose.
    e.input.handle_key_event(Key::Right, false);
    e.frame();
    assert_eq!(
        e.sprites.groups[3].sprites[0].sheet_region,
        Region { x: 396000, y: 198000, w: 198000, h: 198000 },
    );
}

#[test]
fn moving_left_stops_at_the_left_bound() {
    let mut e = test_engine();
    e.sprites.update_position(region(-4, 85, 64, 64), 3);
    e.input.handle_key_event(Key::Left, true);
    assert!(e.frame_ready());
    e.frame();
    // A move to x = -7 pixels would leave the screen; it is rejected.
    assert_eq!(e.sprites.groups[3].sprites[0].screen_region.x, px(-4));
}

#[test]
fn input_edges_reflect_only_one_frame() {
    let mut e = test_engine();
    e.input.handle_key_event(Key::Key1, true);
    assert!(e.input.is_key_pressed(Key::Key1));
    e.input.next_frame();
    assert!(e.input.is_key_down(Key::Key1));
    assert!(!e.input.is_key_pressed(Key::Key1));
    e.input.handle_key_event(Key::Key1, false);
    assert!(e.input.is_key_released(Key::Key1));
    e.input.next_frame();
    assert!(!e.input.is_key_released(Key::Key1));
}
