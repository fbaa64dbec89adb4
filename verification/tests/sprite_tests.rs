use scene2d::sprite::{
    GPUCamera, GPUSprite, Region, SpriteRender, Texture, COORD_SCALE, POWERUP_SIZE,
};

fn px(v: i64) -> i64 {
    v * COORD_SCALE
}

fn region(x: i64, y: i64, w: i64, h: i64) -> Region {
    Region { x: px(x), y: px(y), w: px(w), h: px(h) }
}

fn sprite_at(x: i64, y: i64, w: i64, h: i64) -> GPUSprite {
    GPUSprite {
        screen_region: region(x, y, w, h),
        sheet_region: Region { x: 0, y: 0, w: COORD_SCALE, h: COORD_SCALE },
    }
}

fn camera() -> GPUCamera {
    GPUCamera {
        screen_pos_x: 0,
        screen_pos_y: 0,
        screen_size_x: px(1024),
        screen_size_y: px(768),
    }
}

fn tex(id: u64) -> Texture {
    Texture { id, width: 64, height: 64 }
}

/// The atlas cell showing decimal digit `d`, as the engine's lookup defines
/// it.
fn cell(d: usize) -> Region {
    if (1..=9).contains(&d) {
        Region { x: (d as i64 - 1) * 88000, y: 432000, w: 88000, h: 72000 }
    } else {
        Region { x: 704000, y: 360000, w: 88000, h: 72000 }
    }
}

fn cell_to_digit(r: Region) -> usize {
    for d in 1..=9 {
        if r == cell(d) {
            return d;
        }
    }
    assert!(r == cell(0), "not a digit cell");
    0
}

#[test]
fn add_sprite_group_returns_consecutive_indices() {
    let mut r = SpriteRender::new();
    let a = r.add_sprite_group(tex(1), vec![sprite_at(0, 0, 10, 10)], camera());
    let b = r.add_sprite_group(tex(2), vec![sprite_at(5, 5, 10, 10)], camera());
    let c = r.add_sprite_group(tex(3), vec![], camera());
    assert_eq!(a, 0);
    assert_eq!(b, 1);
    assert_eq!(c, 2);
    assert_eq!(r.group_size(0), 1);
    assert_eq!(r.group_size(2), 0);
}

#[test]
fn group_indices_stay_stable_across_adds() {
    let mut r = SpriteRender::new();
    let first = sprite_at(1, 2, 3, 4);
    r.add_sprite_group(tex(1), vec![first], camera());
    for i in 0..10 {
        r.add_sprite_group(tex(10 + i), vec![sprite_at(i as i64, 0, 1, 1)], camera());
        assert_eq!(r.get_sprites(0)[0], first);
        assert_eq!(r.get_sprites(0).len(), 1);
    }
}

#[test]
fn refresh_brings_gpu_mirror_up_to_date() {
    let mut r = SpriteRender::new();
    r.add_sprite_group(
        tex(1),
        vec![sprite_at(0, 0, 8, 8), sprite_at(10, 0, 8, 8), sprite_at(20, 0, 8, 8)],
        camera(),
    );
    let moved = region(50, 60, 8, 8);
    r.get_sprite_mut(0, 1).screen_region = moved;
    // The mirror is stale until the range covering index 1 is refreshed.
    assert_ne!(r.groups[0].gpu_sprites[1].screen_region, moved);
    r.refresh_sprites(0, 0, 3);
    assert_eq!(r.groups[0].gpu_sprites[1].screen_region, moved);
    assert_eq!(r.groups[0].gpu_sprites[0], r.groups[0].sprites[0]);
    assert_eq!(r.groups[0].gpu_sprites[2], r.groups[0].sprites[2]);
}

#[test]
fn refresh_leaves_uncovered_range_stale() {
    let mut r = SpriteRender::new();
    r.add_sprite_group(tex(1), vec![sprite_at(0, 0, 8, 8), sprite_at(10, 0, 8, 8)], camera());
    let moved = region(50, 60, 8, 8);
    r.get_sprite_mut(0, 1).screen_region = moved;
    r.refresh_sprites(0, 0, 1);
    assert_ne!(r.groups[0].gpu_sprites[1].screen_region, moved);
}

#[test]
fn update_score_zero_shows_three_zero_cells() {
    let mut r = SpriteRender::new();
    let cells = r.update_score(0);
    assert_eq!(cells.0, cell(0));
    assert_eq!(cells.1, cell(0));
    assert_eq!(cells.2, cell(0));
}

#[test]
fn update_score_seven_shows_zero_zero_seven() {
    let mut r = SpriteRender::new();
    let cells = r.update_score(7);
    assert_eq!(cells.0, cell(0));
    assert_eq!(cells.1, cell(0));
    assert_eq!(cells.2, cell(7));
}

#[test]
fn update_score_max_shows_three_nines() {
    let mut r = SpriteRender::new();
    let cells = r.update_score(999);
    assert_eq!(cells.0, cell(9));
    assert_eq!(cells.1, cell(9));
    assert_eq!(cells.2, cell(9));
}

#[test]
fn update_score_cells_decode_to_decimal_digits() {
    let mut r = SpriteRender::new();
    for s in 0..=999usize {
        let cells = r.update_score(s);
        assert_eq!(cell_to_digit(cells.0), s / 100);
        assert_eq!(cell_to_digit(cells.1), s / 10 % 10);
        assert_eq!(cell_to_digit(cells.2), s % 10);
    }
}

#[test]
fn check_collisions_full_overlap_hides_exactly_one() {
    let mut r = SpriteRender::new();
    // Unit-box entity fully inside the second candidate.
    r.add_sprite_group(tex(1), vec![sprite_at(50, 50, 1, 1)], camera());
    r.add_sprite_group(
        tex(2),
        vec![sprite_at(200, 200, 10, 10), sprite_at(40, 40, 30, 30), sprite_at(45, 45, 20, 20)],
        camera(),
    );
    assert!(r.check_collisions(0, 1));
    // Exactly the first matching candidate is hidden; the others keep their
    // extents.
    assert_eq!(r.get_sprites(1)[1].screen_region.w, 0);
    assert_eq!(r.get_sprites(1)[1].screen_region.h, 0);
    assert_eq!(r.get_sprites(1)[0].screen_region.w, px(10));
    assert_eq!(r.get_sprites(1)[2].screen_region.w, px(20));
    // The hidden sprite keeps its position.
    assert_eq!(r.get_sprites(1)[1].screen_region.x, px(40));
    assert_eq!(r.get_sprites(1)[1].screen_region.y, px(40));
}

#[test]
fn check_collisions_edge_touch_is_no_hit() {
    // Entity's left edge exactly on the candidate's right edge.
    let mut r = SpriteRender::new();
    r.add_sprite_group(tex(1), vec![sprite_at(50, 50, 1, 1)], camera());
    r.add_sprite_group(tex(2), vec![sprite_at(40, 50, 10, 10)], camera());
    assert!(!r.check_collisions(0, 1));
    assert_eq!(r.get_sprites(1)[0].screen_region.w, px(10));

    // Entity's top edge exactly on the candidate's bottom edge.
    let mut r2 = SpriteRender::new();
    r2.add_sprite_group(tex(1), vec![sprite_at(50, 40, 1, 10)], camera());
    r2.add_sprite_group(tex(2), vec![sprite_at(45, 50, 10, 10)], camera());
    assert!(!r2.check_collisions(0, 1));

    // Moving either box one pixel inward turns the touch into a hit.
    let mut r3 = SpriteRender::new();
    r3.add_sprite_group(tex(1), vec![sprite_at(49, 50, 1, 1)], camera());
    r3.add_sprite_group(tex(2), vec![sprite_at(40, 50, 10, 10)], camera());
    assert!(r3.check_collisions(0, 1));
}

#[test]
fn check_collisions_ignores_deleted_candidates() {
    let mut r = SpriteRender::new();
    r.add_sprite_group(tex(1), vec![sprite_at(50, 50, 1, 1)], camera());
    r.add_sprite_group(tex(2), vec![sprite_at(40, 40, 30, 30)], camera());
    assert!(r.check_collisions(0, 1));
    // The candidate is now hidden; a second pass finds nothing.
    assert!(!r.check_collisions(0, 1));
}

#[test]
fn delete_sprite_is_idempotent() {
    let mut r = SpriteRender::new();
    r.add_sprite_group(tex(1), vec![sprite_at(30, 40, 50, 60)], camera());
    r.delete_sprite(0, 0);
    assert_eq!(r.get_sprites(0)[0].screen_region, region(30, 40, 0, 0));
    r.delete_sprite(0, 0);
    assert_eq!(r.get_sprites(0)[0].screen_region, region(30, 40, 0, 0));
}

#[test]
fn respawn_powerup_restores_only_hidden_sprites() {
    let mut r = SpriteRender::new();
    r.add_sprite_group(
        tex(1),
        vec![sprite_at(10, 10, 20, 20), sprite_at(100, 100, 64, 64)],
        camera(),
    );
    r.delete_sprite(0, 0);
    r.respawn_powerup(0);
    assert_eq!(r.get_sprites(0)[0].screen_region.w, POWERUP_SIZE);
    assert_eq!(r.get_sprites(0)[0].screen_region.h, POWERUP_SIZE);
    assert_eq!(r.get_sprites(0)[0].screen_region.x, px(10));
    // The sprite that was never hidden is untouched.
    assert_eq!(r.get_sprites(0)[1].screen_region, region(100, 100, 64, 64));
    // A second pass changes nothing.
    r.respawn_powerup(0);
    assert_eq!(r.get_sprites(0)[0].screen_region.w, POWERUP_SIZE);
    assert_eq!(r.get_sprites(0)[1].screen_region, region(100, 100, 64, 64));
}

#[test]
fn render_emits_one_call_per_group_in_order() {
    let mut r = SpriteRender::new();
    r.add_sprite_group(tex(1), vec![sprite_at(0, 0, 1, 1); 3], camera());
    r.add_sprite_group(tex(2), vec![], camera());
    r.add_sprite_group(tex(3), vec![sprite_at(0, 0, 1, 1); 5], camera());
    let calls = r.render();
    assert_eq!(calls.len(), 3);
    for (i, c) in calls.iter().enumerate() {
        assert_eq!(c.group_index, i);
        assert_eq!(c.vertex_count, 6);
    }
    assert_eq!(calls[0].instance_count, 3);
    assert_eq!(calls[1].instance_count, 0);
    assert_eq!(calls[2].instance_count, 5);
}

#[test]
fn set_camera_updates_one_group_and_its_uniform() {
    let mut r = SpriteRender::new();
    r.add_sprite_group(tex(1), vec![], camera());
    r.add_sprite_group(tex(2), vec![], camera());
    let moved = GPUCamera { screen_pos_x: px(5), screen_pos_y: px(6), ..camera() };
    r.set_camera(1, moved);
    assert_eq!(r.groups[1].camera, moved);
    assert_eq!(r.groups[1].gpu_camera, moved);
    assert_eq!(r.groups[0].camera, camera());
}

#[test]
fn set_camera_all_updates_every_group() {
    let mut r = SpriteRender::new();
    r.add_sprite_group(tex(1), vec![], camera());
    r.add_sprite_group(tex(2), vec![], camera());
    let moved = GPUCamera { screen_pos_x: px(9), ..camera() };
    r.set_camera_all(moved);
    assert_eq!(r.groups[0].camera, moved);
    assert_eq!(r.groups[1].gpu_camera, moved);
}

#[test]
fn player_collision_uses_the_inset_margin() {
    let mut r = SpriteRender::new();
    r.add_sprite_group(tex(0), vec![], camera());
    r.add_sprite_group(tex(1), vec![], camera());
    // Two 64-pixel players 32 pixels apart: without the 60-pixel inset they
    // would overlap, with it they do not.
    r.add_sprite_group(tex(2), vec![sprite_at(100, 85, 64, 64)], camera());
    r.add_sprite_group(tex(3), vec![sprite_at(132, 85, 64, 64)], camera());
    assert!(!r.player_collision());
    // Nearly coincident players do touch: the inset leaves a 4-pixel band.
    r.update_position(region(130, 85, 64, 64), 2);
    assert!(r.player_collision());
}

#[test]
fn update_position_and_sprite_target_sprite_zero() {
    let mut r = SpriteRender::new();
    r.add_sprite_group(tex(1), vec![sprite_at(0, 0, 8, 8), sprite_at(9, 9, 8, 8)], camera());
    r.update_position(region(70, 80, 8, 8), 0);
    assert_eq!(r.get_sprites(0)[0].screen_region, region(70, 80, 8, 8));
    assert_eq!(r.get_sprites(0)[1].screen_region, region(9, 9, 8, 8));
    let pose = Region { x: 198000, y: 198000, w: 198000, h: 198000 };
    r.update_sprite(pose, 0);
    assert_eq!(r.get_sprites(0)[0].sheet_region, pose);
}

#[test]
fn update_sprite_score_targets_the_given_index() {
    let mut r = SpriteRender::new();
    r.add_sprite_group(tex(1), vec![sprite_at(0, 0, 8, 8); 9], camera());
    r.update_sprite_score(cell(4), 0, 7);
    assert_eq!(r.get_sprites(0)[7].sheet_region, cell(4));
    assert_ne!(r.get_sprites(0)[6].sheet_region, cell(4));
}

#[test]
fn set_screen_size_and_zero_sprite_change_only_the_extent() {
    let mut r = SpriteRender::new();
    r.add_sprite_group(tex(1), vec![sprite_at(11, 22, 33, 44)], camera());
    r.set_screen_size_sprite(0, 0, px(5), px(6));
    assert_eq!(r.get_sprites(0)[0].screen_region, region(11, 22, 5, 6));
    let at = r.get_sprites(0)[0].screen_region;
    r.zero_sprite(at, 0, 0);
    assert_eq!(r.get_sprites(0)[0].screen_region, region(11, 22, 0, 0));
}

#[test]
fn platform_move_shifts_every_platform_sheet() {
    let mut r = SpriteRender::new();
    r.add_sprite_group(tex(0), vec![], camera());
    r.add_sprite_group(tex(1), vec![], camera());
    r.add_sprite_group(tex(2), vec![sprite_at(0, 0, 8, 8), sprite_at(9, 9, 8, 8)], camera());
    let before: Vec<i64> = r.get_sprites(2).iter().map(|s| s.sheet_region.x).collect();
    r.platform_move();
    for (i, s) in r.get_sprites(2).iter().enumerate() {
        assert_eq!(s.sheet_region.x, before[i] + 32 * COORD_SCALE);
    }
}
