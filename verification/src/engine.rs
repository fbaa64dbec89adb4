//! The per-frame game-state machine built on top of the sprite batcher.
//!
//! An [`Engine`] carries the whole simulation state across frames: the sprite
//! scene, the keyboard, the physics state of the two jumping players, the
//! score counters, the feature toggles of the options overlay and the
//! power-up speed boosts.  One call of [`Engine::frame`] performs everything
//! a rendered frame performs, in order: expire power-ups, apply option
//! toggles, drive the menu state machine, integrate jump physics with
//! obstacle vetoes, move the players, clamp to the floor, refresh every GPU
//! mirror, resolve collisions and scoring, and advance the input edges.  The
//! caller then issues the draw list and presents.
//!
//! Every step has a transition function on the engine's mathematical model,
//! and the executable step is proved to perform exactly that transition.

use vstd::prelude::*;

use crate::input::Input;
use crate::input::InputModel;
use crate::input::Key;
use crate::input::KEY_COUNT;
use crate::input::key_down;
use crate::input::key_pressed;
use crate::input::key_released;
use crate::sprite::COORD_LIMIT;
use crate::sprite::COORD_SCALE;
use crate::sprite::GPUSprite;
use crate::sprite::GroupModel;
use crate::sprite::Region;
use crate::sprite::SpriteRender;
use crate::sprite::deleted_scene;
use crate::sprite::first_hit;
use crate::sprite::hidden;
use crate::sprite::players_overlap;
use crate::sprite::respawned;
use crate::sprite::score_cells;
use crate::sprite::upd_sprite;
use crate::sprite::with_screen;
use crate::sprite::with_sheet;

verus! {

// ---------------------------------------------------------------------------
// Fixed-point constants of the frame loop (see `COORD_SCALE`): pixel values
// carry a factor of the scale.
// ---------------------------------------------------------------------------
/// Gravity added to a vertical velocity once per frame while jumping:
/// -0.8 pixels per frame.
pub const GRAVITY: i64 = -633600;

/// Upward velocity at the start of a jump: 20 pixels per frame.
pub const JUMP_VELOCITY: i64 = 20 * COORD_SCALE;

/// Ground level for both players: 85 pixels.
pub const GROUND_Y: i64 = 85 * COORD_SCALE;

/// Walking speed, and the speed a power-up boost decays back to: 3 pixels
/// per frame.
pub const BASE_SPEED: i64 = 3 * COORD_SCALE;

/// Walking speed while a power-up boost is active: 7 pixels per frame.
pub const BOOST_SPEED: i64 = 7 * COORD_SCALE;

/// Frames a power-up boost lasts before the timer resets the speeds and
/// respawns the power-up sprites.
pub const POWERUP_FRAMES: u64 = 420;

/// Horizontal margin taken off a player's box in every obstacle veto:
/// 5 pixels.
pub const EDGE_INSET: i64 = 5 * COORD_SCALE;

/// Landing tolerance around a platform top: 1 pixel.
pub const LAND_TOL: i64 = COORD_SCALE;

/// Wider landing tolerance the left player gets on the first platform:
/// 3 pixels.
pub const LAND_TOL_WIDE: i64 = 3 * COORD_SCALE;

/// Below this height a grounded player is snapped back to the ground:
/// 260 pixels.
pub const SNAP_HEIGHT: i64 = 260 * COORD_SCALE;

/// The right player may not move right of this right edge: 1030 pixels.
pub const RIGHT_LIMIT: i64 = 1030 * COORD_SCALE;

/// The right player may not move left of this left edge: -5 pixels.
pub const LEFT_LIMIT: i64 = -5 * COORD_SCALE;

/// Left edge of the first static obstacle column: 150 pixels.
pub const COLUMN_ONE_X: i64 = 150 * COORD_SCALE;

/// Left edge of the second static obstacle column: 850 pixels.
pub const COLUMN_TWO_X: i64 = 850 * COORD_SCALE;

/// Width of a static obstacle column: 64 pixels.
pub const COLUMN_W: i64 = 64 * COORD_SCALE;

/// Top of a static obstacle column: 194 pixels.
pub const COLUMN_TOP: i64 = 194 * COORD_SCALE;

/// Edge length of a player sprite: 64 pixels.
pub const PLAYER_SIZE: i64 = 64 * COORD_SCALE;

/// Where the right player is parked when single-player play begins:
/// 150 pixels.
pub const PLAYER_RESET_X: i64 = 150 * COORD_SCALE;

/// Width the scrolling background keeps once gameplay begins: 0.75 of the
/// sheet.
pub const BG_WIDTH: i64 = 594000;

/// The background scroll wraps when its atlas origin passes one full sheet.
pub const SHEET_WRAP: i64 = COORD_SCALE;

/// The background scroll advances by the walking speed divided by this.
pub const SCROLL_DIVISOR: i64 = 3000;

/// A platform that scrolled past this left edge is recycled: -64 pixels.
pub const PLATFORM_EXIT_X: i64 = -64 * COORD_SCALE;

/// Where a recycled platform reappears: 1084 pixels.
pub const PLATFORM_RECYCLE_X: i64 = 1084 * COORD_SCALE;

/// Edge length of an options indicator icon: 32 pixels.
pub const INDICATOR_SIZE: i64 = 32 * COORD_SCALE;

/// Width of the options overlay, the full screen: 1024 pixels.
pub const OVERLAY_W: i64 = 1024 * COORD_SCALE;

/// Height of the options overlay, the full screen: 768 pixels.
pub const OVERLAY_H: i64 = 768 * COORD_SCALE;

/// Horizontal position of the menu cursor: 200 pixels.
pub const CURSOR_X: i64 = 200 * COORD_SCALE;

/// Cursor height that selects PLAY (and single-player mode): 400 pixels.
pub const CURSOR_PLAY_Y: i64 = 400 * COORD_SCALE;

/// Cursor height that selects OPTIONS: 500 pixels.
pub const CURSOR_OPTIONS_Y: i64 = 500 * COORD_SCALE;

/// Right-presses per score point in single-player play.
pub const SCORE_TICKS: usize = 5;

/// Points each player-versus-player touch is worth.
pub const TOUCH_SCORE: usize = 5;

/// Past this score a player-versus-player touch ends the run.
pub const WIN_SCORE: usize = 100;

/// Bound the frame step asks of every coordinate it computes with; wide
/// enough that the sums inside one step stay far from `i64` overflow.
pub const STEP_LIMIT: i64 = 8000000000000000;

// ---------------------------------------------------------------------------
// Group indices of the scene, fixed at scene construction time.
// ---------------------------------------------------------------------------
/// The scrolling gameplay background.
pub const BACKGROUND_GROUP: usize = 0;

/// The four moving platforms.
pub const OBSTACLE_GROUP: usize = 1;

/// The left player (one sprite).
pub const LEFT_PLAYER_GROUP: usize = 2;

/// The right player (one sprite).
pub const RIGHT_PLAYER_GROUP: usize = 3;

/// The score overlay; its last three sprites are the score digits.
pub const SCORE_GROUP: usize = 4;

/// The power-up sprites.
pub const POWERUP_GROUP: usize = 5;

/// The title-screen background.
pub const TITLE_GROUP: usize = 6;

/// The game-name lettering (ten sprites).
pub const NAME_GROUP: usize = 7;

/// The OPTIONS lettering (seven sprites).
pub const OPTIONS_TEXT_GROUP: usize = 8;

/// The PLAY lettering (four sprites).
pub const PLAY_TEXT_GROUP: usize = 9;

/// The menu cursor (one sprite).
pub const CURSOR_GROUP: usize = 10;

/// The options overlay background.
pub const OVERLAY_GROUP: usize = 14;

/// The three option indicator icons.
pub const INDICATOR_GROUP: usize = 15;

/// Number of groups the scene holds.
pub const GROUP_COUNT: usize = 16;

/// Sprite index of the hundreds digit inside the score group.
pub const SCORE_HUNDREDS: usize = 6;

/// Sprite index of the tens digit inside the score group.
pub const SCORE_TENS: usize = 7;

/// Sprite index of the units digit inside the score group.
pub const SCORE_UNITS: usize = 8;

/// Which physical keys stand for the four directions.
#[derive(Clone, Copy, PartialEq, Eq, Structural, Debug)]
pub struct Keyboard {
    pub left: Key,
    pub right: Key,
    pub up: Key,
    pub down: Key,
}

/// Events of one frame that the caller acts on: `exit` ends the run,
/// `jumped` and `landed` are the audio cues of the right player's jump arc.
#[derive(Clone, Copy, PartialEq, Eq, Structural, Debug)]
pub struct FrameEvents {
    pub exit: bool,
    pub jumped: bool,
    pub landed: bool,
}

/// The mathematical model of the whole engine state.
#[verifier::ext_equal]
pub struct EngineModel {
    pub groups: Seq<GroupModel>,
    pub input: InputModel,
    pub is_jumping: bool,
    pub leftis_jumping: bool,
    pub velocity_y: int,
    pub leftvelocity_y: int,
    pub gravity: int,
    pub score: int,
    pub sub_score: int,
    pub single_player: bool,
    pub audio_cues: bool,
    pub left_keyboard: bool,
    pub high_contrast: bool,
    pub options_shown: bool,
    pub already_removed_multi: bool,
    pub p1_speed: int,
    pub p2_speed: int,
    pub frames: int,
    pub keyboard: Keyboard,
}

/// The engine: the sprite scene plus all state carried across frames.
pub struct Engine {
    pub sprites: SpriteRender,
    pub input: Input,
    pub is_jumping: bool,
    pub leftis_jumping: bool,
    pub velocity_y: i64,
    pub leftvelocity_y: i64,
    pub gravity: i64,
    pub score: usize,
    pub single_player: bool,
    pub sub_score: usize,
    pub audio_cues: bool,
    pub left_keyboard: bool,
    pub high_contrast: bool,
    pub options_shown: bool,
    pub already_removed_multi: bool,
    pub p1_speed: i64,
    pub p2_speed: i64,
    pub frames: u64,
    pub keyboard: Keyboard,
}

impl View for Engine {
    type V = EngineModel;

    open spec fn view(&self) -> EngineModel {
        EngineModel {
            groups: self.sprites@,
            input: self.input@,
            is_jumping: self.is_jumping,
            leftis_jumping: self.leftis_jumping,
            velocity_y: self.velocity_y as int,
            leftvelocity_y: self.leftvelocity_y as int,
            gravity: self.gravity as int,
            score: self.score as int,
            sub_score: self.sub_score as int,
            single_player: self.single_player,
            audio_cues: self.audio_cues,
            left_keyboard: self.left_keyboard,
            high_contrast: self.high_contrast,
            options_shown: self.options_shown,
            already_removed_multi: self.already_removed_multi,
            p1_speed: self.p1_speed as int,
            p2_speed: self.p2_speed as int,
            frames: self.frames as int,
            keyboard: self.keyboard,
        }
    }
}

/// The arrow-key control scheme.
pub open spec fn arrow_keyboard() -> Keyboard {
    Keyboard { left: Key::Left, right: Key::Right, up: Key::Up, down: Key::Down }
}

/// The left-hand control scheme.
pub open spec fn wasd_keyboard() -> Keyboard {
    Keyboard { left: Key::A, right: Key::D, up: Key::W, down: Key::S }
}

/// The scene has the shape the frame loop was built for: all sixteen groups
/// exist, each group the loop addresses by index holds enough sprites, every
/// GPU mirror has the length of its CPU array, and the input tables cover
/// every key.
pub open spec fn scene_ready(m: EngineModel) -> bool {
    &&& m.groups.len() == GROUP_COUNT
    &&& m.groups[BACKGROUND_GROUP as int].sprites.len() >= 1
    &&& m.groups[OBSTACLE_GROUP as int].sprites.len() >= 4
    &&& m.groups[LEFT_PLAYER_GROUP as int].sprites.len() >= 1
    &&& m.groups[RIGHT_PLAYER_GROUP as int].sprites.len() >= 1
    &&& m.groups[SCORE_GROUP as int].sprites.len() >= 9
    &&& m.groups[POWERUP_GROUP as int].sprites.len() >= 1
    &&& m.groups[TITLE_GROUP as int].sprites.len() >= 1
    &&& m.groups[NAME_GROUP as int].sprites.len() >= 10
    &&& m.groups[OPTIONS_TEXT_GROUP as int].sprites.len() >= 7
    &&& m.groups[PLAY_TEXT_GROUP as int].sprites.len() >= 4
    &&& m.groups[CURSOR_GROUP as int].sprites.len() >= 1
    &&& m.groups[OVERLAY_GROUP as int].sprites.len() >= 1
    &&& m.groups[INDICATOR_GROUP as int].sprites.len() >= 3
    &&& forall|g: int|
        0 <= g < m.groups.len() ==> (#[trigger] m.groups[g]).gpu.len() == m.groups[g].sprites.len()
    &&& m.input.now.len() == KEY_COUNT
    &&& m.input.prev.len() == KEY_COUNT
}

/// Every coordinate of the rectangle is within `b`.
pub open spec fn region_within(r: Region, b: int) -> bool {
    &&& -b <= r.x <= b
    &&& -b <= r.y <= b
    &&& -b <= r.w <= b
    &&& -b <= r.h <= b
}

/// Floor under the bound parameter of [`core_bounded`]: above every
/// coordinate constant the frame loop writes.
pub const BOUND_FLOOR: i64 = 1000000000000;

/// Bound the frame loop starts from; the amplification of a whole frame
/// stays well under the limits the steps compute with.
pub const FRAME_LIMIT: i64 = 10000000000000;

/// Largest score and press counter the frame accepts.
pub const SCORE_CAP: usize = 900000000;

/// Largest frame counter the frame accepts.
pub const FRAME_CAP: u64 = 1000000000000000;

/// Every coordinate the frame loop computes with is within `b`: the
/// background's atlas origin, the platform boxes, the two player boxes, the
/// power-up boxes, both velocities, the gravity and both speeds (speeds also
/// non-negative).
pub open spec fn core_bounded(m: EngineModel, b: int) -> bool {
    &&& region_within(m.groups[BACKGROUND_GROUP as int].sprites[0].sheet_region, b)
    &&& forall|i: int|
        0 <= i < 4 ==> region_within(
            (#[trigger] m.groups[OBSTACLE_GROUP as int].sprites[i]).screen_region,
            b,
        )
    &&& region_within(m.groups[LEFT_PLAYER_GROUP as int].sprites[0].screen_region, b)
    &&& region_within(m.groups[RIGHT_PLAYER_GROUP as int].sprites[0].screen_region, b)
    &&& forall|i: int|
        0 <= i < m.groups[POWERUP_GROUP as int].sprites.len() ==> region_within(
            (#[trigger] m.groups[POWERUP_GROUP as int].sprites[i]).screen_region,
            b,
        )
    &&& -b <= m.velocity_y <= b
    &&& -b <= m.leftvelocity_y <= b
    &&& -b <= m.gravity <= b
    &&& 0 <= m.p1_speed <= b
    &&& 0 <= m.p2_speed <= b
}

/// `s` with its screen extent replaced, position kept.
pub open spec fn sized(s: GPUSprite, w: i64, h: i64) -> GPUSprite {
    with_screen(s, Region { x: s.screen_region.x, y: s.screen_region.y, w: w, h: h })
}

/// The scene with the first `count` sprites of group `g` hidden at the
/// position of `at` (the zero-area convention keeps `at`'s origin).
pub open spec fn hide_prefix(groups: Seq<GroupModel>, g: int, count: int, at: Region) -> Seq<
    GroupModel,
> {
    groups.update(
        g,
        GroupModel {
            sprites: Seq::new(
                groups[g].sprites.len(),
                |i: int|
                    if i < count {
                        with_screen(groups[g].sprites[i], hidden(at))
                    } else {
                        groups[g].sprites[i]
                    },
            ),
            ..groups[g]
        },
    )
}

// ---------------------------------------------------------------------------
// The transition functions of the frame steps, in frame order.
// ---------------------------------------------------------------------------
/// Power-up expiry: once the frame counter passes the power-up lifetime,
/// reset it, decay both speeds to the walking speed and respawn every hidden
/// power-up sprite.
pub open spec fn powerup_timer_spec(m: EngineModel) -> EngineModel {
    if m.frames > POWERUP_FRAMES {
        EngineModel {
            frames: 0,
            p1_speed: BASE_SPEED as int,
            p2_speed: BASE_SPEED as int,
            groups: m.groups.update(
                POWERUP_GROUP as int,
                GroupModel {
                    sprites: Seq::new(
                        m.groups[POWERUP_GROUP as int].sprites.len(),
                        |i: int| respawned(m.groups[POWERUP_GROUP as int].sprites[i]),
                    ),
                    ..m.groups[POWERUP_GROUP as int]
                },
            ),
            ..m
        }
    } else {
        m
    }
}

/// High-contrast toggle: while the options overlay is shown, the first
/// option key flips the flag and shows or hides the first indicator icon.
pub open spec fn toggle_contrast_spec(m: EngineModel) -> EngineModel {
    if key_pressed(m.input, Key::Key1) && m.options_shown {
        if !m.high_contrast {
            EngineModel {
                high_contrast: true,
                groups: upd_sprite(
                    m.groups,
                    INDICATOR_GROUP as int,
                    0,
                    sized(m.groups[INDICATOR_GROUP as int].sprites[0], INDICATOR_SIZE, INDICATOR_SIZE),
                ),
                ..m
            }
        } else {
            EngineModel {
                high_contrast: false,
                groups: upd_sprite(
                    m.groups,
                    INDICATOR_GROUP as int,
                    0,
                    with_screen(
                        m.groups[INDICATOR_GROUP as int].sprites[0],
                        hidden(m.groups[INDICATOR_GROUP as int].sprites[0].screen_region),
                    ),
                ),
                ..m
            }
        }
    } else {
        m
    }
}

/// Audio-cues toggle: the second option key, the second indicator icon.
pub open spec fn toggle_audio_spec(m: EngineModel) -> EngineModel {
    if key_pressed(m.input, Key::Key2) && m.options_shown {
        if !m.audio_cues {
            EngineModel {
                audio_cues: true,
                groups: upd_sprite(
                    m.groups,
                    INDICATOR_GROUP as int,
                    1,
                    sized(m.groups[INDICATOR_GROUP as int].sprites[1], INDICATOR_SIZE, INDICATOR_SIZE),
                ),
                ..m
            }
        } else {
            EngineModel {
                audio_cues: false,
                groups: upd_sprite(
                    m.groups,
                    INDICATOR_GROUP as int,
                    1,
                    with_screen(
                        m.groups[INDICATOR_GROUP as int].sprites[1],
                        hidden(m.groups[INDICATOR_GROUP as int].sprites[1].screen_region),
                    ),
                ),
                ..m
            }
        }
    } else {
        m
    }
}

/// Control-scheme toggle: the third option key, the third indicator icon,
/// and the keyboard mapping switches between the two schemes.
pub open spec fn toggle_keyboard_spec(m: EngineModel) -> EngineModel {
    if key_pressed(m.input, Key::Key3) && m.options_shown {
        if !m.left_keyboard {
            EngineModel {
                left_keyboard: true,
                keyboard: wasd_keyboard(),
                groups: upd_sprite(
                    m.groups,
                    INDICATOR_GROUP as int,
                    2,
                    sized(m.groups[INDICATOR_GROUP as int].sprites[2], INDICATOR_SIZE, INDICATOR_SIZE),
                ),
                ..m
            }
        } else {
            EngineModel {
                left_keyboard: false,
                keyboard: arrow_keyboard(),
                groups: upd_sprite(
                    m.groups,
                    INDICATOR_GROUP as int,
                    2,
                    with_screen(
                        m.groups[INDICATOR_GROUP as int].sprites[2],
                        hidden(m.groups[INDICATOR_GROUP as int].sprites[2].screen_region),
                    ),
                ),
                ..m
            }
        }
    } else {
        m
    }
}

/// Confirm: while the cursor stands on PLAY the engine commits to
/// single-player mode.  Then, still outside single-player mode, a confirm
/// opens the options overlay (full-screen background, plus an indicator icon
/// for every toggle already on); in single-player mode it tears the menu
/// down — title, lettering, cursor and the left player are hidden at the
/// title background's position, and once only, the background is narrowed
/// for scrolling, the right player is parked at the start position and the
/// power-up sprite's atlas region is cleared.
/// `b` has the same group count and per-group sprite and mirror counts as
/// `a`: nothing changed shape.
pub open spec fn same_shape(a: Seq<GroupModel>, b: Seq<GroupModel>) -> bool {
    &&& b.len() == a.len()
    &&& forall|g: int|
        0 <= g < a.len() ==> {
            &&& (#[trigger] b[g]).sprites.len() == a[g].sprites.len()
            &&& b[g].gpu.len() == a[g].gpu.len()
        }
}

/// The scene once the options overlay opens: the overlay background takes
/// the whole screen, and each toggle already switched on shows its
/// indicator icon.
pub open spec fn open_overlay_groups(
    groups: Seq<GroupModel>,
    hc: bool,
    ac: bool,
    lk: bool,
) -> Seq<GroupModel> {
    let g_overlay = upd_sprite(
        groups,
        OVERLAY_GROUP as int,
        0,
        sized(groups[OVERLAY_GROUP as int].sprites[0], OVERLAY_W, OVERLAY_H),
    );
    let g_c = if hc {
        upd_sprite(
            g_overlay,
            INDICATOR_GROUP as int,
            0,
            sized(g_overlay[INDICATOR_GROUP as int].sprites[0], INDICATOR_SIZE, INDICATOR_SIZE),
        )
    } else {
        g_overlay
    };
    let g_a = if ac {
        upd_sprite(
            g_c,
            INDICATOR_GROUP as int,
            1,
            sized(g_c[INDICATOR_GROUP as int].sprites[1], INDICATOR_SIZE, INDICATOR_SIZE),
        )
    } else {
        g_c
    };
    if lk {
        upd_sprite(
            g_a,
            INDICATOR_GROUP as int,
            2,
            sized(g_a[INDICATOR_GROUP as int].sprites[2], INDICATOR_SIZE, INDICATOR_SIZE),
        )
    } else {
        g_a
    }
}

/// The scene once gameplay is committed: title background, the lettering of
/// the game name, OPTIONS and PLAY, and the cursor are all hidden at the
/// title background's position.
pub open spec fn teardown_groups(groups: Seq<GroupModel>) -> Seq<GroupModel> {
    let at = groups[TITLE_GROUP as int].sprites[0].screen_region;
    let g_title = upd_sprite(
        groups,
        TITLE_GROUP as int,
        0,
        with_screen(groups[TITLE_GROUP as int].sprites[0], hidden(at)),
    );
    let g_name = hide_prefix(g_title, NAME_GROUP as int, 10, at);
    let g_opts = hide_prefix(g_name, OPTIONS_TEXT_GROUP as int, 7, at);
    let g_play = hide_prefix(g_opts, PLAY_TEXT_GROUP as int, 4, at);
    upd_sprite(
        g_play,
        CURSOR_GROUP as int,
        0,
        with_screen(g_play[CURSOR_GROUP as int].sprites[0], hidden(at)),
    )
}

/// The once-only part of the gameplay commit: the left player is hidden
/// behind the first platform's position, the background is narrowed for
/// scrolling, the right player is parked at the start position, and the
/// power-up sprite's atlas region is cleared.
pub open spec fn teardown_once_groups(groups: Seq<GroupModel>) -> Seq<GroupModel> {
    let behind = groups[OBSTACLE_GROUP as int].sprites[0].screen_region;
    let g_left = upd_sprite(
        groups,
        LEFT_PLAYER_GROUP as int,
        0,
        with_screen(groups[LEFT_PLAYER_GROUP as int].sprites[0], hidden(behind)),
    );
    let sh = g_left[BACKGROUND_GROUP as int].sprites[0].sheet_region;
    let g_bg = upd_sprite(
        g_left,
        BACKGROUND_GROUP as int,
        0,
        with_sheet(
            g_left[BACKGROUND_GROUP as int].sprites[0],
            Region { x: sh.x, y: sh.y, w: BG_WIDTH, h: sh.h },
        ),
    );
    let g_park = upd_sprite(
        g_bg,
        RIGHT_PLAYER_GROUP as int,
        0,
        with_screen(
            g_bg[RIGHT_PLAYER_GROUP as int].sprites[0],
            Region { x: PLAYER_RESET_X, y: GROUND_Y, w: PLAYER_SIZE, h: PLAYER_SIZE },
        ),
    );
    upd_sprite(
        g_park,
        POWERUP_GROUP as int,
        0,
        with_sheet(g_park[POWERUP_GROUP as int].sprites[0], Region { x: 0, y: 0, w: 0, h: 0 }),
    )
}

pub open spec fn confirm_spec(m: EngineModel) -> EngineModel {
    if key_down(m.input, Key::Return) {
        let single = if m.groups[CURSOR_GROUP as int].sprites[0].screen_region.y == CURSOR_PLAY_Y {
            true
        } else {
            m.single_player
        };
        let m1 = EngineModel { single_player: single, ..m };
        if !single {
            if !m1.options_shown {
                EngineModel {
                    groups: open_overlay_groups(
                        m1.groups,
                        m1.high_contrast,
                        m1.audio_cues,
                        m1.left_keyboard,
                    ),
                    options_shown: true,
                    ..m1
                }
            } else {
                m1
            }
        } else {
            let g_cursor = teardown_groups(m1.groups);
            if !m1.already_removed_multi {
                EngineModel {
                    groups: teardown_once_groups(g_cursor),
                    already_removed_multi: true,
                    ..m1
                }
            } else {
                EngineModel { groups: g_cursor, ..m1 }
            }
        }
    } else {
        m
    }
}

/// Cancel: while the options overlay is shown, the escape key hides the
/// overlay background and the three indicator icons (each at its own
/// position) and closes the overlay.
pub open spec fn cancel_spec(m: EngineModel) -> EngineModel {
    if key_down(m.input, Key::Escape) && m.options_shown {
        let g_overlay = upd_sprite(
            m.groups,
            OVERLAY_GROUP as int,
            0,
            with_screen(
                m.groups[OVERLAY_GROUP as int].sprites[0],
                hidden(m.groups[OVERLAY_GROUP as int].sprites[0].screen_region),
            ),
        );
        let g_icons = upd_group_sprites(
            g_overlay,
            INDICATOR_GROUP as int,
            Seq::new(
                g_overlay[INDICATOR_GROUP as int].sprites.len(),
                |i: int|
                    if i < 3 {
                        with_screen(
                            g_overlay[INDICATOR_GROUP as int].sprites[i],
                            hidden(
                                g_overlay[INDICATOR_GROUP as int].sprites[i].screen_region,
                            ),
                        )
                    } else {
                        g_overlay[INDICATOR_GROUP as int].sprites[i]
                    },
            ),
        );
        EngineModel { groups: g_icons, options_shown: false, ..m }
    } else {
        m
    }
}

/// The scene with group `g`'s CPU records replaced.
pub open spec fn upd_group_sprites(
    groups: Seq<GroupModel>,
    g: int,
    sprites: Seq<GPUSprite>,
) -> Seq<GroupModel> {
    groups.update(g, GroupModel { sprites: sprites, ..groups[g] })
}

/// Menu cursor: the down key parks the cursor on PLAY, the up key on
/// OPTIONS (the up key also starts a jump, below — both happen).
pub open spec fn cursor_spec(m: EngineModel) -> EngineModel {
    let m1 = if key_down(m.input, m.keyboard.down) {
        EngineModel {
            groups: upd_sprite(
                m.groups,
                CURSOR_GROUP as int,
                0,
                with_screen(
                    m.groups[CURSOR_GROUP as int].sprites[0],
                    Region {
                        x: CURSOR_X,
                        y: CURSOR_PLAY_Y,
                        w: m.groups[CURSOR_GROUP as int].sprites[0].screen_region.w,
                        h: m.groups[CURSOR_GROUP as int].sprites[0].screen_region.h,
                    },
                ),
            ),
            ..m
        }
    } else {
        m
    };
    if key_down(m1.input, m1.keyboard.up) {
        EngineModel {
            groups: upd_sprite(
                m1.groups,
                CURSOR_GROUP as int,
                0,
                with_screen(
                    m1.groups[CURSOR_GROUP as int].sprites[0],
                    Region {
                        x: CURSOR_X,
                        y: CURSOR_OPTIONS_Y,
                        w: m1.groups[CURSOR_GROUP as int].sprites[0].screen_region.w,
                        h: m1.groups[CURSOR_GROUP as int].sprites[0].screen_region.h,
                    },
                ),
            ),
            ..m1
        }
    } else {
        m1
    }
}

/// Jump start: the up key puts the right player into the air with the fixed
/// initial upward velocity — only if it is not already jumping.
pub open spec fn jump_start_spec(m: EngineModel) -> EngineModel {
    if key_down(m.input, m.keyboard.up) && !m.is_jumping {
        EngineModel { is_jumping: true, velocity_y: JUMP_VELOCITY as int, ..m }
    } else {
        m
    }
}

/// Bound the movement helpers ask of the proposed box edges; sums of such a
/// value with two step-bounded coordinates stay far from `i64` overflow.
pub const SUM_LIMIT: i64 = 36000000000000000;

/// Does platform `i` veto a move of a box with edges `sx..sxw` and
/// `sy..syh`?  The horizontal test shrinks the box by the fixed inset.
pub open spec fn platform_blocks(
    groups: Seq<GroupModel>,
    i: int,
    sx: int,
    sxw: int,
    sy: int,
    syh: int,
) -> bool {
    let p = groups[OBSTACLE_GROUP as int].sprites[i].screen_region;
    &&& sxw - EDGE_INSET > p.x
    &&& sx + EDGE_INSET < p.x + p.w
    &&& syh > p.y
    &&& sy < p.y + p.h
}

/// Does the static obstacle column starting at `x0` veto the move?
pub open spec fn column_blocks(x0: int, sx: int, sxw: int, sy: int) -> bool {
    &&& sxw - EDGE_INSET > x0
    &&& sx + EDGE_INSET < x0 + COLUMN_W
    &&& sy < COLUMN_TOP
}

/// The whole obstacle veto: any of the four platforms, or — outside
/// single-player mode — either static column.
pub open spec fn move_blocked(
    groups: Seq<GroupModel>,
    sx: int,
    sxw: int,
    sy: int,
    syh: int,
    single: bool,
) -> bool {
    ||| exists|i: int| 0 <= i < 4 && platform_blocks(groups, i, sx, sxw, sy, syh)
    ||| (!single && column_blocks(COLUMN_ONE_X as int, sx, sxw, sy))
    ||| (!single && column_blocks(COLUMN_TWO_X as int, sx, sxw, sy))
}

/// Is the box bottom `syh` within `tol` of platform `i`'s top?
pub open spec fn near_top(groups: Seq<GroupModel>, i: int, syh: int, tol: int) -> bool {
    let py = groups[OBSTACLE_GROUP as int].sprites[i].screen_region.y;
    py - tol < syh < py + tol
}

/// The landing condition: the proposed height reached the ground, or the
/// box bottom is within the tolerance band of a platform top (the first
/// platform's band is `tol0`, the others use the narrow tolerance).
pub open spec fn landing(groups: Seq<GroupModel>, new_y: int, syh: int, tol0: int) -> bool {
    ||| new_y <= GROUND_Y
    ||| near_top(groups, 0, syh, tol0)
    ||| near_top(groups, 1, syh, LAND_TOL as int)
    ||| near_top(groups, 2, syh, LAND_TOL as int)
    ||| near_top(groups, 3, syh, LAND_TOL as int)
}

/// One player's vertical integration: while jumping, gravity is added to
/// the velocity, the new height is proposed, the move is committed only if
/// no obstacle vetoes it, and the landing condition grounds the player and
/// zeroes the velocity.  `player` selects the sprite group; the caller maps
/// the velocity and flag fields.
pub open spec fn vertical_groups(
    groups: Seq<GroupModel>,
    player: int,
    new_y: int,
    blocked: bool,
) -> Seq<GroupModel> {
    if !blocked {
        upd_sprite(
            groups,
            player,
            0,
            with_screen(
                groups[player].sprites[0],
                Region {
                    x: groups[player].sprites[0].screen_region.x,
                    y: new_y as i64,
                    w: groups[player].sprites[0].screen_region.w,
                    h: groups[player].sprites[0].screen_region.h,
                },
            ),
        )
    } else {
        groups
    }
}

/// The left player's vertical step.
pub open spec fn left_vertical_spec(m: EngineModel) -> EngineModel {
    if m.leftis_jumping {
        let old_r = m.groups[LEFT_PLAYER_GROUP as int].sprites[0].screen_region;
        let v = m.leftvelocity_y + m.gravity;
        let new_y = old_r.y + v;
        let syh = new_y + old_r.h;
        let blocked = move_blocked(
            m.groups,
            old_r.x as int,
            old_r.x + old_r.w,
            new_y,
            syh,
            m.single_player,
        );
        let groups2 = vertical_groups(m.groups, LEFT_PLAYER_GROUP as int, new_y, blocked);
        if landing(m.groups, new_y, syh, LAND_TOL_WIDE as int) {
            EngineModel { groups: groups2, leftis_jumping: false, leftvelocity_y: 0, ..m }
        } else {
            EngineModel { groups: groups2, leftvelocity_y: v, ..m }
        }
    } else {
        m
    }
}

/// The right player's vertical step.
pub open spec fn right_vertical_spec(m: EngineModel) -> EngineModel {
    if m.is_jumping {
        let old_r = m.groups[RIGHT_PLAYER_GROUP as int].sprites[0].screen_region;
        let v = m.velocity_y + m.gravity;
        let new_y = old_r.y + v;
        let syh = new_y + old_r.h;
        let blocked = move_blocked(
            m.groups,
            old_r.x as int,
            old_r.x + old_r.w,
            new_y,
            syh,
            m.single_player,
        );
        let groups2 = vertical_groups(m.groups, RIGHT_PLAYER_GROUP as int, new_y, blocked);
        if landing(m.groups, new_y, syh, LAND_TOL as int) {
            EngineModel { groups: groups2, is_jumping: false, velocity_y: 0, ..m }
        } else {
            EngineModel { groups: groups2, velocity_y: v, ..m }
        }
    } else {
        m
    }
}

/// Atlas cell of the right player's run-right pose.
pub open spec fn run_right_pose() -> Region {
    Region { x: 0, y: 198000, w: 198000, h: 198000 }
}

/// Atlas cell of the right player's run-left pose.
pub open spec fn run_left_pose() -> Region {
    Region { x: 198000, y: 198000, w: 198000, h: 198000 }
}

/// Atlas cell of the right player's standing pose.
pub open spec fn stand_pose() -> Region {
    Region { x: 396000, y: 198000, w: 198000, h: 198000 }
}

/// The scene with the three score-digit sprites re-pointed at the given
/// cells (hundreds, tens, units).
pub open spec fn write_score_cells(
    groups: Seq<GroupModel>,
    cells: (Region, Region, Region),
) -> Seq<GroupModel> {
    let g1 = upd_sprite(
        groups,
        SCORE_GROUP as int,
        SCORE_HUNDREDS as int,
        with_sheet(groups[SCORE_GROUP as int].sprites[SCORE_HUNDREDS as int], cells.0),
    );
    let g2 = upd_sprite(
        g1,
        SCORE_GROUP as int,
        SCORE_TENS as int,
        with_sheet(g1[SCORE_GROUP as int].sprites[SCORE_TENS as int], cells.1),
    );
    upd_sprite(
        g2,
        SCORE_GROUP as int,
        SCORE_UNITS as int,
        with_sheet(g2[SCORE_GROUP as int].sprites[SCORE_UNITS as int], cells.2),
    )
}

/// The four platforms shifted left by the walking speed, each recycled to
/// the right edge once it scrolls past the exit edge.
pub open spec fn platforms_scrolled_left(groups: Seq<GroupModel>, p2: int) -> Seq<GroupModel> {
    groups.update(
        OBSTACLE_GROUP as int,
        GroupModel {
            sprites: Seq::new(
                groups[OBSTACLE_GROUP as int].sprites.len(),
                |i: int|
                    if i < 4 {
                        let cur = groups[OBSTACLE_GROUP as int].sprites[i].screen_region;
                        if cur.x - p2 < PLATFORM_EXIT_X {
                            with_screen(
                                groups[OBSTACLE_GROUP as int].sprites[i],
                                Region { x: PLATFORM_RECYCLE_X, y: cur.y, w: cur.w, h: cur.h },
                            )
                        } else {
                            with_screen(
                                groups[OBSTACLE_GROUP as int].sprites[i],
                                Region { x: (cur.x - p2) as i64, y: cur.y, w: cur.w, h: cur.h },
                            )
                        }
                    } else {
                        groups[OBSTACLE_GROUP as int].sprites[i]
                    },
            ),
            ..groups[OBSTACLE_GROUP as int]
        },
    )
}

/// The four platforms shifted right by the walking speed; no recycling on
/// this side.
pub open spec fn platforms_scrolled_right(groups: Seq<GroupModel>, p2: int) -> Seq<GroupModel> {
    groups.update(
        OBSTACLE_GROUP as int,
        GroupModel {
            sprites: Seq::new(
                groups[OBSTACLE_GROUP as int].sprites.len(),
                |i: int|
                    if i < 4 {
                        let cur = groups[OBSTACLE_GROUP as int].sprites[i].screen_region;
                        with_screen(
                            groups[OBSTACLE_GROUP as int].sprites[i],
                            Region { x: (cur.x + p2) as i64, y: cur.y, w: cur.w, h: cur.h },
                        )
                    } else {
                        groups[OBSTACLE_GROUP as int].sprites[i]
                    },
            ),
            ..groups[OBSTACLE_GROUP as int]
        },
    )
}

/// The world scroll of a right move: the background's atlas origin advances
/// (wrapping to the far left once it passes one sheet), its width is pinned
/// to the scroll width, and the platforms move the opposite way with
/// recycling.
pub open spec fn bg_scrolled_right(groups: Seq<GroupModel>, p2: int) -> Seq<GroupModel> {
    let delta = p2 / SCROLL_DIVISOR as int;
    let sh = groups[BACKGROUND_GROUP as int].sprites[0].sheet_region;
    let g_bg1 = upd_sprite(
        groups,
        BACKGROUND_GROUP as int,
        0,
        with_sheet(
            groups[BACKGROUND_GROUP as int].sprites[0],
            Region { x: (sh.x + delta) as i64, y: sh.y, w: BG_WIDTH, h: sh.h },
        ),
    );
    if sh.x + delta > SHEET_WRAP {
        upd_sprite(
            g_bg1,
            BACKGROUND_GROUP as int,
            0,
            with_sheet(
                g_bg1[BACKGROUND_GROUP as int].sprites[0],
                Region { x: ((-792000) as i64), y: sh.y, w: BG_WIDTH, h: sh.h },
            ),
        )
    } else {
        g_bg1
    }
}

pub open spec fn scroll_right_groups(groups: Seq<GroupModel>, p2: int) -> Seq<GroupModel> {
    platforms_scrolled_left(bg_scrolled_right(groups, p2), p2)
}

/// The first world-scroll block of a left move: the background's atlas
/// origin retreats (the wrap test keeps its historical form, adding the
/// delta), and the platforms move right without recycling.
pub open spec fn bg_scrolled_left(groups: Seq<GroupModel>, p2: int) -> Seq<GroupModel> {
    let delta = p2 / SCROLL_DIVISOR as int;
    let sh = groups[BACKGROUND_GROUP as int].sprites[0].sheet_region;
    let g_bg1 = upd_sprite(
        groups,
        BACKGROUND_GROUP as int,
        0,
        with_sheet(
            groups[BACKGROUND_GROUP as int].sprites[0],
            Region { x: (sh.x - delta) as i64, y: sh.y, w: BG_WIDTH, h: sh.h },
        ),
    );
    if sh.x + delta < -SHEET_WRAP {
        upd_sprite(
            g_bg1,
            BACKGROUND_GROUP as int,
            0,
            with_sheet(
                g_bg1[BACKGROUND_GROUP as int].sprites[0],
                Region { x: SHEET_WRAP, y: sh.y, w: BG_WIDTH, h: sh.h },
            ),
        )
    } else {
        g_bg1
    }
}

pub open spec fn scroll_left_groups(groups: Seq<GroupModel>, p2: int) -> Seq<GroupModel> {
    platforms_scrolled_right(bg_scrolled_left(groups, p2), p2)
}

/// The second, unconditional world-scroll block of a left move: one more
/// background retreat without a wrap test, and one more platform shift.
pub open spec fn bg_scrolled_tail(groups: Seq<GroupModel>, p2: int) -> Seq<GroupModel> {
    let delta = p2 / SCROLL_DIVISOR as int;
    let sh = groups[BACKGROUND_GROUP as int].sprites[0].sheet_region;
    upd_sprite(
        groups,
        BACKGROUND_GROUP as int,
        0,
        with_sheet(
            groups[BACKGROUND_GROUP as int].sprites[0],
            Region { x: (sh.x - delta) as i64, y: sh.y, w: BG_WIDTH, h: sh.h },
        ),
    )
}

pub open spec fn scroll_left_tail_groups(groups: Seq<GroupModel>, p2: int) -> Seq<GroupModel> {
    platforms_scrolled_right(bg_scrolled_tail(groups, p2), p2)
}

/// A right move.  In single-player mode it scores (every fifth held frame
/// adds a point and rewrites the digit sprites), sets the run-right pose and
/// — unless a platform vetoes the player's current box — scrolls the world;
/// a veto instead cancels the jump.  Outside single-player mode the player
/// itself moves right, subject to the obstacle veto and the right screen
/// bound.
pub open spec fn move_right_spec(m: EngineModel) -> EngineModel {
    if key_down(m.input, m.keyboard.right) {
        let m1 = if m.single_player {
            if m.sub_score + 1 == SCORE_TICKS {
                let sc = m.score + 1;
                EngineModel {
                    score: sc,
                    sub_score: 0,
                    groups: write_score_cells(m.groups, score_cells(sc)),
                    ..m
                }
            } else {
                EngineModel { sub_score: m.sub_score + 1, ..m }
            }
        } else {
            m
        };
        let m2 = EngineModel {
            groups: upd_sprite(
                m1.groups,
                RIGHT_PLAYER_GROUP as int,
                0,
                with_sheet(m1.groups[RIGHT_PLAYER_GROUP as int].sprites[0], run_right_pose()),
            ),
            ..m1
        };
        if m2.single_player {
            let r = m2.groups[RIGHT_PLAYER_GROUP as int].sprites[0].screen_region;
            let blocked = move_blocked(
                m2.groups,
                r.x as int,
                r.x + r.w,
                r.y as int,
                r.y + r.h,
                true,
            );
            if !blocked {
                EngineModel { groups: scroll_right_groups(m2.groups, m2.p2_speed), ..m2 }
            } else {
                EngineModel { is_jumping: false, ..m2 }
            }
        } else {
            let old_r = m2.groups[RIGHT_PLAYER_GROUP as int].sprites[0].screen_region;
            let nx = old_r.x + m2.p2_speed;
            let blocked = move_blocked(
                m2.groups,
                nx,
                nx + old_r.w,
                old_r.y as int,
                old_r.y + old_r.h,
                false,
            );
            if nx + old_r.w < RIGHT_LIMIT && !blocked {
                EngineModel {
                    groups: upd_sprite(
                        m2.groups,
                        RIGHT_PLAYER_GROUP as int,
                        0,
                        with_screen(
                            m2.groups[RIGHT_PLAYER_GROUP as int].sprites[0],
                            Region { x: nx as i64, y: old_r.y, w: old_r.w, h: old_r.h },
                        ),
                    ),
                    ..m2
                }
            } else {
                m2
            }
        }
    } else {
        m
    }
}

/// Releasing either walk key puts the right player back into the standing
/// pose.
pub open spec fn release_pose_spec(m: EngineModel) -> EngineModel {
    let m1 = if key_released(m.input, m.keyboard.right) {
        EngineModel {
            groups: upd_sprite(
                m.groups,
                RIGHT_PLAYER_GROUP as int,
                0,
                with_sheet(m.groups[RIGHT_PLAYER_GROUP as int].sprites[0], stand_pose()),
            ),
            ..m
        }
    } else {
        m
    };
    if key_released(m1.input, m1.keyboard.left) {
        EngineModel {
            groups: upd_sprite(
                m1.groups,
                RIGHT_PLAYER_GROUP as int,
                0,
                with_sheet(m1.groups[RIGHT_PLAYER_GROUP as int].sprites[0], stand_pose()),
            ),
            ..m1
        }
    } else {
        m1
    }
}

/// A left move.  The run-left pose is set; in single-player mode a veto by
/// a platform cancels the left player's jump, otherwise the world scrolls —
/// and then one more unconditional scroll block runs, keeping the engine's
/// historical double shift.  Outside single-player mode the player itself
/// moves left, subject to the veto and the left screen bound.
pub open spec fn move_left_spec(m: EngineModel) -> EngineModel {
    if key_down(m.input, m.keyboard.left) {
        let m2 = EngineModel {
            groups: upd_sprite(
                m.groups,
                RIGHT_PLAYER_GROUP as int,
                0,
                with_sheet(m.groups[RIGHT_PLAYER_GROUP as int].sprites[0], run_left_pose()),
            ),
            ..m
        };
        if m2.single_player {
            let r = m2.groups[RIGHT_PLAYER_GROUP as int].sprites[0].screen_region;
            let blocked = move_blocked(
                m2.groups,
                r.x as int,
                r.x + r.w,
                r.y as int,
                r.y + r.h,
                true,
            );
            let m3 = if !blocked {
                EngineModel { groups: scroll_left_groups(m2.groups, m2.p2_speed), ..m2 }
            } else {
                EngineModel { leftis_jumping: false, ..m2 }
            };
            EngineModel { groups: scroll_left_tail_groups(m3.groups, m3.p2_speed), ..m3 }
        } else {
            let old_r = m2.groups[RIGHT_PLAYER_GROUP as int].sprites[0].screen_region;
            let nx = old_r.x - m2.p2_speed;
            let blocked = move_blocked(
                m2.groups,
                nx,
                nx + old_r.w,
                old_r.y as int,
                old_r.y + old_r.h,
                false,
            );
            if nx > LEFT_LIMIT && !blocked {
                EngineModel {
                    groups: upd_sprite(
                        m2.groups,
                        RIGHT_PLAYER_GROUP as int,
                        0,
                        with_screen(
                            m2.groups[RIGHT_PLAYER_GROUP as int].sprites[0],
                            Region { x: nx as i64, y: old_r.y, w: old_r.w, h: old_r.h },
                        ),
                    ),
                    ..m2
                }
            } else {
                m2
            }
        }
    } else {
        m
    }
}

/// A group with its GPU mirror brought fully up to date.
pub open spec fn refreshed_full(gm: GroupModel) -> GroupModel {
    GroupModel { gpu: gm.sprites, ..gm }
}

/// A group with the first `k` records of its GPU mirror brought up to date.
pub open spec fn refreshed_prefix(gm: GroupModel, k: int) -> GroupModel {
    GroupModel {
        gpu: Seq::new(
            gm.gpu.len(),
            |i: int|
                if 0 <= i < k {
                    gm.sprites[i]
                } else {
                    gm.gpu[i]
                },
        ),
        ..gm
    }
}

/// The batch refresh of the frame: every gameplay and menu group is
/// re-uploaded in full, the overlay group's first record and the indicator
/// group's first three records are re-uploaded, and the background group is
/// left to its owner.
pub open spec fn refresh_all_groups(groups: Seq<GroupModel>) -> Seq<GroupModel> {
    Seq::new(
        groups.len(),
        |g: int|
            if 1 <= g <= 13 {
                refreshed_full(groups[g])
            } else if g == OVERLAY_GROUP {
                refreshed_prefix(groups[g], 1)
            } else if g == INDICATOR_GROUP {
                refreshed_prefix(groups[g], 3)
            } else {
                groups[g]
            },
    )
}

/// The refresh step on the whole engine state.
pub open spec fn refresh_all_spec(m: EngineModel) -> EngineModel {
    EngineModel { groups: refresh_all_groups(m.groups), ..m }
}

/// The left player's power-up pickup: if the player's sprite hits any
/// power-up sprite, the first one hit is logically deleted and the left
/// player's speed is boosted.
pub open spec fn pickup_left_spec(m: EngineModel) -> EngineModel {
    let p = m.groups[LEFT_PLAYER_GROUP as int].sprites[0];
    let fh = first_hit(m.groups[POWERUP_GROUP as int].sprites, p);
    if fh < m.groups[POWERUP_GROUP as int].sprites.len() {
        EngineModel {
            groups: deleted_scene(m.groups, POWERUP_GROUP as int, fh),
            p1_speed: BOOST_SPEED as int,
            ..m
        }
    } else {
        m
    }
}

/// The right player's power-up pickup.
pub open spec fn pickup_right_spec(m: EngineModel) -> EngineModel {
    let p = m.groups[RIGHT_PLAYER_GROUP as int].sprites[0];
    let fh = first_hit(m.groups[POWERUP_GROUP as int].sprites, p);
    if fh < m.groups[POWERUP_GROUP as int].sprites.len() {
        EngineModel {
            groups: deleted_scene(m.groups, POWERUP_GROUP as int, fh),
            p2_speed: BOOST_SPEED as int,
            ..m
        }
    } else {
        m
    }
}

/// Both pickups, left player first.
pub open spec fn pickups_spec(m: EngineModel) -> EngineModel {
    pickup_right_spec(pickup_left_spec(m))
}

/// The input edge advance: from the next frame on, "just pressed" and
/// "just released" are measured against this frame's key states.
pub open spec fn input_advance_spec(m: EngineModel) -> EngineModel {
    EngineModel { input: InputModel { now: m.input.now, prev: m.input.now }, ..m }
}

/// The player-versus-player touch: when the two players' inset boxes
/// overlap, the touch score is added and the score digit sprites are
/// rewritten.  (Whether the touch also ends the run is judged against the
/// score before the addition.)
pub open spec fn pvp_spec(m: EngineModel) -> EngineModel {
    if players_overlap(
        m.groups[LEFT_PLAYER_GROUP as int].sprites[0],
        m.groups[RIGHT_PLAYER_GROUP as int].sprites[0],
    ) {
        let sc = m.score + TOUCH_SCORE;
        EngineModel { score: sc, groups: write_score_cells(m.groups, score_cells(sc)), ..m }
    } else {
        m
    }
}

/// Is the player's horizontal span over the column starting at `x0`?
pub open spec fn over_column(x0: int, sx: int, sxw: int) -> bool {
    sxw - EDGE_INSET > x0 && sx + EDGE_INSET < x0 + COLUMN_W
}

/// One player's floor clamp at `player`: below the ground the sprite is
/// raised to the ground; below the snap height a player that is not jumping
/// snaps to the ground as well — in single-player mode always, otherwise
/// only while not over either obstacle column.
pub open spec fn clamp_groups(
    groups: Seq<GroupModel>,
    player: int,
    jumping: bool,
    single: bool,
) -> Seq<GroupModel> {
    let r = groups[player].sprites[0].screen_region;
    let g1 = if r.y < GROUND_Y {
        upd_sprite(
            groups,
            player,
            0,
            with_screen(
                groups[player].sprites[0],
                Region { x: r.x, y: GROUND_Y, w: r.w, h: r.h },
            ),
        )
    } else {
        groups
    };
    let r2 = g1[player].sprites[0].screen_region;
    if r2.y < SNAP_HEIGHT && !jumping {
        if single {
            upd_sprite(
                g1,
                player,
                0,
                with_screen(
                    g1[player].sprites[0],
                    Region { x: r2.x, y: GROUND_Y, w: r2.w, h: r2.h },
                ),
            )
        } else {
            if !over_column(COLUMN_ONE_X as int, r2.x as int, r2.x + r2.w) && !over_column(
                COLUMN_TWO_X as int,
                r2.x as int,
                r2.x + r2.w,
            ) {
                upd_sprite(
                    g1,
                    player,
                    0,
                    with_screen(
                        g1[player].sprites[0],
                        Region { x: r2.x, y: GROUND_Y, w: r2.w, h: r2.h },
                    ),
                )
            } else {
                g1
            }
        }
    } else {
        g1
    }
}

/// The floor-clamp step: the right player, then the left player.
pub open spec fn floor_clamp_spec(m: EngineModel) -> EngineModel {
    let g1 = clamp_groups(m.groups, RIGHT_PLAYER_GROUP as int, m.is_jumping, m.single_player);
    let g2 = clamp_groups(g1, LEFT_PLAYER_GROUP as int, m.leftis_jumping, m.single_player);
    EngineModel { groups: g2, ..m }
}

/// Bound the frame step asks of the score and press counters, far from any
/// `usize` overflow.
pub const CTR_LIMIT: usize = 1000000000;

/// The scroll delta of one walking step: the speed divided (exactly, by
/// integer division) by the scroll divisor.
fn walk_delta(p2: i64) -> (d: i64)
    requires
        0 <= p2,
    ensures
        d == p2 as int / SCROLL_DIVISOR as int,
        0 <= d <= p2,
{
    ((p2 as u64) / 3000u64) as i64
}

/// Writes the three score cells into the score-digit sprites.
fn write_score(sprites: &mut SpriteRender, cells: (Region, Region, Region))
    requires
        old(sprites)@.len() > SCORE_GROUP,
        old(sprites)@[SCORE_GROUP as int].sprites.len() >= 9,
    ensures
        final(sprites)@ == write_score_cells(old(sprites)@, cells),
        same_shape(old(sprites)@, final(sprites)@),
{
    sprites.update_sprite_score(cells.0, SCORE_GROUP, SCORE_HUNDREDS);
    sprites.update_sprite_score(cells.1, SCORE_GROUP, SCORE_TENS);
    sprites.update_sprite_score(cells.2, SCORE_GROUP, SCORE_UNITS);
    proof {
        assert(sprites@ =~~= write_score_cells(old(sprites)@, cells));
    }
}

/// Shifts the four platforms left by `p2`, recycling any that scroll past
/// the exit edge.
fn platforms_left_run(sprites: &mut SpriteRender, p2: i64)
    requires
        old(sprites)@.len() > OBSTACLE_GROUP,
        old(sprites)@[OBSTACLE_GROUP as int].sprites.len() >= 4,
        forall|i: int|
            0 <= i < 4 ==> region_within(
                (#[trigger] old(sprites)@[OBSTACLE_GROUP as int].sprites[i]).screen_region,
                SUM_LIMIT as int,
            ),
        0 <= p2 <= STEP_LIMIT,
    ensures
        final(sprites)@ == platforms_scrolled_left(old(sprites)@, p2 as int),
        same_shape(old(sprites)@, final(sprites)@),
{
    let mut i: usize = 0;
    while i < 4
        invariant
            old(sprites)@.len() > OBSTACLE_GROUP,
            old(sprites)@[OBSTACLE_GROUP as int].sprites.len() >= 4,
            forall|j: int|
                0 <= j < 4 ==> region_within(
                    (#[trigger] old(sprites)@[OBSTACLE_GROUP as int].sprites[j]).screen_region,
                    SUM_LIMIT as int,
                ),
            0 <= p2 <= STEP_LIMIT,
            i <= 4,
            sprites@.len() == old(sprites)@.len(),
            forall|g: int|
                0 <= g < sprites@.len() && g != OBSTACLE_GROUP ==> #[trigger] sprites@[g] == old(
                    sprites,
                )@[g],
            sprites@[OBSTACLE_GROUP as int].sprites.len() == old(
                sprites,
            )@[OBSTACLE_GROUP as int].sprites.len(),
            sprites@[OBSTACLE_GROUP as int].gpu == old(sprites)@[OBSTACLE_GROUP as int].gpu,
            sprites@[OBSTACLE_GROUP as int].camera == old(sprites)@[OBSTACLE_GROUP as int].camera,
            sprites@[OBSTACLE_GROUP as int].gpu_camera == old(
                sprites,
            )@[OBSTACLE_GROUP as int].gpu_camera,
            sprites@[OBSTACLE_GROUP as int].tex == old(sprites)@[OBSTACLE_GROUP as int].tex,
            forall|j: int|
                0 <= j < sprites@[OBSTACLE_GROUP as int].sprites.len()
                    ==> #[trigger] sprites@[OBSTACLE_GROUP as int].sprites[j] == (if j < i {
                    platforms_scrolled_left(
                        old(sprites)@,
                        p2 as int,
                    )[OBSTACLE_GROUP as int].sprites[j]
                } else {
                    old(sprites)@[OBSTACLE_GROUP as int].sprites[j]
                }),
        decreases 4 - i,
    {
        let current: Region = sprites.get_sprites(OBSTACLE_GROUP)[i].screen_region;
        let block: &mut GPUSprite = sprites.get_sprite_mut(OBSTACLE_GROUP, i);
        if current.x - p2 < PLATFORM_EXIT_X {
            block.screen_region = Region {
                x: PLATFORM_RECYCLE_X,
                y: current.y,
                w: current.w,
                h: current.h,
            };
        } else {
            block.screen_region = Region {
                x: current.x - p2,
                y: current.y,
                w: current.w,
                h: current.h,
            };
        }
        i = i + 1;
    }
    proof {
        assert(sprites@[OBSTACLE_GROUP as int].sprites =~= platforms_scrolled_left(
            old(sprites)@,
            p2 as int,
        )[OBSTACLE_GROUP as int].sprites);
        assert(sprites@ =~~= platforms_scrolled_left(old(sprites)@, p2 as int));
    }
}

/// Shifts the four platforms right by `p2`; no recycling on this side.
fn platforms_right_run(sprites: &mut SpriteRender, p2: i64)
    requires
        old(sprites)@.len() > OBSTACLE_GROUP,
        old(sprites)@[OBSTACLE_GROUP as int].sprites.len() >= 4,
        forall|i: int|
            0 <= i < 4 ==> region_within(
                (#[trigger] old(sprites)@[OBSTACLE_GROUP as int].sprites[i]).screen_region,
                SUM_LIMIT as int,
            ),
        0 <= p2 <= STEP_LIMIT,
    ensures
        final(sprites)@ == platforms_scrolled_right(old(sprites)@, p2 as int),
        same_shape(old(sprites)@, final(sprites)@),
{
    let mut i: usize = 0;
    while i < 4
        invariant
            old(sprites)@.len() > OBSTACLE_GROUP,
            old(sprites)@[OBSTACLE_GROUP as int].sprites.len() >= 4,
            forall|j: int|
                0 <= j < 4 ==> region_within(
                    (#[trigger] old(sprites)@[OBSTACLE_GROUP as int].sprites[j]).screen_region,
                    SUM_LIMIT as int,
                ),
            0 <= p2 <= STEP_LIMIT,
            i <= 4,
            sprites@.len() == old(sprites)@.len(),
            forall|g: int|
                0 <= g < sprites@.len() && g != OBSTACLE_GROUP ==> #[trigger] sprites@[g] == old(
                    sprites,
                )@[g],
            sprites@[OBSTACLE_GROUP as int].sprites.len() == old(
                sprites,
            )@[OBSTACLE_GROUP as int].sprites.len(),
            sprites@[OBSTACLE_GROUP as int].gpu == old(sprites)@[OBSTACLE_GROUP as int].gpu,
            sprites@[OBSTACLE_GROUP as int].camera == old(sprites)@[OBSTACLE_GROUP as int].camera,
            sprites@[OBSTACLE_GROUP as int].gpu_camera == old(
                sprites,
            )@[OBSTACLE_GROUP as int].gpu_camera,
            sprites@[OBSTACLE_GROUP as int].tex == old(sprites)@[OBSTACLE_GROUP as int].tex,
            forall|j: int|
                0 <= j < sprites@[OBSTACLE_GROUP as int].sprites.len()
                    ==> #[trigger] sprites@[OBSTACLE_GROUP as int].sprites[j] == (if j < i {
                    platforms_scrolled_right(
                        old(sprites)@,
                        p2 as int,
                    )[OBSTACLE_GROUP as int].sprites[j]
                } else {
                    old(sprites)@[OBSTACLE_GROUP as int].sprites[j]
                }),
        decreases 4 - i,
    {
        let current: Region = sprites.get_sprites(OBSTACLE_GROUP)[i].screen_region;
        let block: &mut GPUSprite = sprites.get_sprite_mut(OBSTACLE_GROUP, i);
        block.screen_region = Region {
            x: current.x + p2,
            y: current.y,
            w: current.w,
            h: current.h,
        };
        i = i + 1;
    }
    proof {
        assert(sprites@[OBSTACLE_GROUP as int].sprites =~= platforms_scrolled_right(
            old(sprites)@,
            p2 as int,
        )[OBSTACLE_GROUP as int].sprites);
        assert(sprites@ =~~= platforms_scrolled_right(old(sprites)@, p2 as int));
    }
}

/// The world scroll of a right move.
fn scroll_right_run(sprites: &mut SpriteRender, p2: i64)
    requires
        old(sprites)@.len() > OBSTACLE_GROUP,
        old(sprites)@[BACKGROUND_GROUP as int].sprites.len() >= 1,
        old(sprites)@[OBSTACLE_GROUP as int].sprites.len() >= 4,
        region_within(
            old(sprites)@[BACKGROUND_GROUP as int].sprites[0].sheet_region,
            SUM_LIMIT as int,
        ),
        forall|i: int|
            0 <= i < 4 ==> region_within(
                (#[trigger] old(sprites)@[OBSTACLE_GROUP as int].sprites[i]).screen_region,
                SUM_LIMIT as int,
            ),
        0 <= p2 <= STEP_LIMIT,
    ensures
        final(sprites)@ == scroll_right_groups(old(sprites)@, p2 as int),
        same_shape(old(sprites)@, final(sprites)@),
{
    let delta: i64 = walk_delta(p2);
    let old_sheet_pos: Region = sprites.get_sprites(BACKGROUND_GROUP)[0].sheet_region;
    sprites.update_sprite(
        Region { x: old_sheet_pos.x + delta, y: old_sheet_pos.y, w: BG_WIDTH, h: old_sheet_pos.h },
        BACKGROUND_GROUP,
    );
    if old_sheet_pos.x + delta > SHEET_WRAP {
        sprites.update_sprite(
            Region { x: -SHEET_WRAP, y: old_sheet_pos.y, w: BG_WIDTH, h: old_sheet_pos.h },
            BACKGROUND_GROUP,
        );
    }
    proof {
        assert(sprites@ =~~= bg_scrolled_right(old(sprites)@, p2 as int));
    }
    platforms_left_run(sprites, p2);
}

/// The first world-scroll block of a left move.
fn scroll_left_run(sprites: &mut SpriteRender, p2: i64)
    requires
        old(sprites)@.len() > OBSTACLE_GROUP,
        old(sprites)@[BACKGROUND_GROUP as int].sprites.len() >= 1,
        old(sprites)@[OBSTACLE_GROUP as int].sprites.len() >= 4,
        region_within(
            old(sprites)@[BACKGROUND_GROUP as int].sprites[0].sheet_region,
            SUM_LIMIT as int,
        ),
        forall|i: int|
            0 <= i < 4 ==> region_within(
                (#[trigger] old(sprites)@[OBSTACLE_GROUP as int].sprites[i]).screen_region,
                SUM_LIMIT as int,
            ),
        0 <= p2 <= STEP_LIMIT,
    ensures
        final(sprites)@ == scroll_left_groups(old(sprites)@, p2 as int),
        same_shape(old(sprites)@, final(sprites)@),
{
    let delta: i64 = walk_delta(p2);
    let old_sheet_pos: Region = sprites.get_sprites(BACKGROUND_GROUP)[0].sheet_region;
    sprites.update_sprite(
        Region { x: old_sheet_pos.x - delta, y: old_sheet_pos.y, w: BG_WIDTH, h: old_sheet_pos.h },
        BACKGROUND_GROUP,
    );
    if old_sheet_pos.x + delta < -SHEET_WRAP {
        sprites.update_sprite(
            Region { x: SHEET_WRAP, y: old_sheet_pos.y, w: BG_WIDTH, h: old_sheet_pos.h },
            BACKGROUND_GROUP,
        );
    }
    proof {
        assert(sprites@ =~~= bg_scrolled_left(old(sprites)@, p2 as int));
    }
    platforms_right_run(sprites, p2);
}

/// The second, unconditional world-scroll block of a left move.
fn scroll_left_tail_run(sprites: &mut SpriteRender, p2: i64)
    requires
        old(sprites)@.len() > OBSTACLE_GROUP,
        old(sprites)@[BACKGROUND_GROUP as int].sprites.len() >= 1,
        old(sprites)@[OBSTACLE_GROUP as int].sprites.len() >= 4,
        region_within(
            old(sprites)@[BACKGROUND_GROUP as int].sprites[0].sheet_region,
            SUM_LIMIT as int,
        ),
        forall|i: int|
            0 <= i < 4 ==> region_within(
                (#[trigger] old(sprites)@[OBSTACLE_GROUP as int].sprites[i]).screen_region,
                SUM_LIMIT as int,
            ),
        0 <= p2 <= STEP_LIMIT,
    ensures
        final(sprites)@ == scroll_left_tail_groups(old(sprites)@, p2 as int),
        same_shape(old(sprites)@, final(sprites)@),
{
    let delta: i64 = walk_delta(p2);
    let old_sheet_pos: Region = sprites.get_sprites(BACKGROUND_GROUP)[0].sheet_region;
    sprites.update_sprite(
        Region { x: old_sheet_pos.x - delta, y: old_sheet_pos.y, w: BG_WIDTH, h: old_sheet_pos.h },
        BACKGROUND_GROUP,
    );
    proof {
        assert(sprites@ =~~= bg_scrolled_tail(old(sprites)@, p2 as int));
    }
    platforms_right_run(sprites, p2);
}

/// The batch refresh of every group the frame touches.
fn refresh_groups_run(sprites: &mut SpriteRender)
    requires
        old(sprites)@.len() == GROUP_COUNT,
        forall|g: int|
            0 <= g < old(sprites)@.len() ==> (#[trigger] old(sprites)@[g]).gpu.len() == old(
                sprites,
            )@[g].sprites.len(),
        old(sprites)@[OVERLAY_GROUP as int].sprites.len() >= 1,
        old(sprites)@[INDICATOR_GROUP as int].sprites.len() >= 3,
    ensures
        final(sprites)@ == refresh_all_groups(old(sprites)@),
        same_shape(old(sprites)@, final(sprites)@),
{
    let mut g: usize = 1;
    while g <= 13
        invariant
            old(sprites)@.len() == GROUP_COUNT,
            forall|k: int|
                0 <= k < old(sprites)@.len() ==> (#[trigger] old(sprites)@[k]).gpu.len() == old(
                    sprites,
                )@[k].sprites.len(),
            1 <= g <= 14,
            sprites@.len() == GROUP_COUNT,
            forall|k: int|
                0 <= k < sprites@.len() ==> #[trigger] sprites@[k] == (if 1 <= k < g {
                    refreshed_full(old(sprites)@[k])
                } else {
                    old(sprites)@[k]
                }),
        decreases 14 - g,
    {
        let len: usize = sprites.group_size(g);
        sprites.refresh_sprites(g, 0, len);
        proof {
            assert(sprites@[g as int].gpu =~= refreshed_full(old(sprites)@[g as int]).gpu);
            assert(sprites@[g as int] =~~= refreshed_full(old(sprites)@[g as int]));
        }
        g = g + 1;
    }
    sprites.refresh_sprites(OVERLAY_GROUP, 0, 1);
    sprites.refresh_sprites(INDICATOR_GROUP, 0, 3);
    proof {
        assert(sprites@[OVERLAY_GROUP as int].gpu =~= refreshed_prefix(
            old(sprites)@[OVERLAY_GROUP as int],
            1,
        ).gpu);
        assert(sprites@[OVERLAY_GROUP as int] =~~= refreshed_prefix(
            old(sprites)@[OVERLAY_GROUP as int],
            1,
        ));
        assert(sprites@[INDICATOR_GROUP as int].gpu =~= refreshed_prefix(
            old(sprites)@[INDICATOR_GROUP as int],
            3,
        ).gpu);
        assert(sprites@[INDICATOR_GROUP as int] =~~= refreshed_prefix(
            old(sprites)@[INDICATOR_GROUP as int],
            3,
        ));
        assert(sprites@ =~~= refresh_all_groups(old(sprites)@));
    }
}

/// The floor clamp of one player.
fn clamp_player(sprites: &mut SpriteRender, player: usize, jumping: bool, single: bool)
    requires
        player < old(sprites)@.len(),
        old(sprites)@[player as int].sprites.len() >= 1,
        region_within(old(sprites)@[player as int].sprites[0].screen_region, SUM_LIMIT as int),
    ensures
        final(sprites)@ == clamp_groups(old(sprites)@, player as int, jumping, single),
        same_shape(old(sprites)@, final(sprites)@),
{
    if sprites.get_sprites(player)[0].screen_region.y < GROUND_Y {
        let old_region: Region = sprites.get_sprites(player)[0].screen_region;
        sprites.update_position(
            Region { x: old_region.x, y: GROUND_Y, w: old_region.w, h: old_region.h },
            player,
        );
    }
    if sprites.get_sprites(player)[0].screen_region.y < SNAP_HEIGHT && !jumping {
        let old_region: Region = sprites.get_sprites(player)[0].screen_region;
        if single {
            sprites.update_position(
                Region { x: old_region.x, y: GROUND_Y, w: old_region.w, h: old_region.h },
                player,
            );
        } else {
            let sprite_x: i64 = old_region.x;
            let sprite_xw: i64 = old_region.x + old_region.w;
            if !(sprite_xw - EDGE_INSET > COLUMN_ONE_X && sprite_x + EDGE_INSET < COLUMN_ONE_X
                + COLUMN_W) && !(sprite_xw - EDGE_INSET > COLUMN_TWO_X && sprite_x + EDGE_INSET
                < COLUMN_TWO_X + COLUMN_W) {
                sprites.update_position(
                    Region { x: old_region.x, y: GROUND_Y, w: old_region.w, h: old_region.h },
                    player,
                );
            }
        }
    }
    proof {
        assert(sprites@ =~~= clamp_groups(old(sprites)@, player as int, jumping, single));
    }
}

/// Runs the obstacle veto of [`move_blocked`] against the scene.
fn vetoed_move(
    sprites: &SpriteRender,
    single: bool,
    sx: i64,
    sxw: i64,
    sy: i64,
    syh: i64,
) -> (blocked: bool)
    requires
        sprites@.len() > OBSTACLE_GROUP,
        sprites@[OBSTACLE_GROUP as int].sprites.len() >= 4,
        forall|i: int|
            0 <= i < 4 ==> region_within(
                (#[trigger] sprites@[OBSTACLE_GROUP as int].sprites[i]).screen_region,
                STEP_LIMIT as int,
            ),
        -SUM_LIMIT <= sx <= SUM_LIMIT,
        -SUM_LIMIT <= sxw <= SUM_LIMIT,
        -SUM_LIMIT <= sy <= SUM_LIMIT,
        -SUM_LIMIT <= syh <= SUM_LIMIT,
    ensures
        blocked == move_blocked(sprites@, sx as int, sxw as int, sy as int, syh as int, single),
{
    let mut the_move: bool = true;
    let mut i: usize = 0;
    while i < 4
        invariant
            sprites@.len() > OBSTACLE_GROUP,
            sprites@[OBSTACLE_GROUP as int].sprites.len() >= 4,
            forall|j: int|
                0 <= j < 4 ==> region_within(
                    (#[trigger] sprites@[OBSTACLE_GROUP as int].sprites[j]).screen_region,
                    STEP_LIMIT as int,
                ),
            -SUM_LIMIT <= sx <= SUM_LIMIT,
            -SUM_LIMIT <= sxw <= SUM_LIMIT,
            -SUM_LIMIT <= sy <= SUM_LIMIT,
            -SUM_LIMIT <= syh <= SUM_LIMIT,
            i <= 4,
            the_move == !(exists|j: int|
                0 <= j < i && platform_blocks(
                    sprites@,
                    j,
                    sx as int,
                    sxw as int,
                    sy as int,
                    syh as int,
                )),
        decreases 4 - i,
    {
        let p: Region = sprites.get_sprites(OBSTACLE_GROUP)[i].screen_region;
        if sxw - EDGE_INSET > p.x && sx + EDGE_INSET < p.x + p.w && syh > p.y && sy < p.y + p.h {
            the_move = false;
            proof {
                assert(platform_blocks(sprites@, i as int, sx as int, sxw as int, sy as int, syh as int));
            }
        }
        i = i + 1;
    }
    if !single {
        if sxw - EDGE_INSET > COLUMN_ONE_X && sx + EDGE_INSET < COLUMN_ONE_X + COLUMN_W
            && sy < COLUMN_TOP {
            the_move = false;
        }
        if sxw - EDGE_INSET > COLUMN_TWO_X && sx + EDGE_INSET < COLUMN_TWO_X + COLUMN_W
            && sy < COLUMN_TOP {
            the_move = false;
        }
    }
    !the_move
}

/// Runs the landing condition of [`landing`] against the scene.
fn landed_check(sprites: &SpriteRender, new_y: i64, syh: i64, tol0: i64) -> (l: bool)
    requires
        sprites@.len() > OBSTACLE_GROUP,
        sprites@[OBSTACLE_GROUP as int].sprites.len() >= 4,
        forall|i: int|
            0 <= i < 4 ==> region_within(
                (#[trigger] sprites@[OBSTACLE_GROUP as int].sprites[i]).screen_region,
                STEP_LIMIT as int,
            ),
        -SUM_LIMIT <= syh <= SUM_LIMIT,
        0 <= tol0 <= STEP_LIMIT,
    ensures
        l == landing(sprites@, new_y as int, syh as int, tol0 as int),
{
    let p0: Region = sprites.get_sprites(OBSTACLE_GROUP)[0].screen_region;
    let p1: Region = sprites.get_sprites(OBSTACLE_GROUP)[1].screen_region;
    let p2: Region = sprites.get_sprites(OBSTACLE_GROUP)[2].screen_region;
    let p3: Region = sprites.get_sprites(OBSTACLE_GROUP)[3].screen_region;
    new_y <= GROUND_Y || (syh > p0.y - tol0 && syh < p0.y + tol0) || (syh > p1.y - LAND_TOL && syh
        < p1.y + LAND_TOL) || (syh > p2.y - LAND_TOL && syh < p2.y + LAND_TOL) || (syh > p3.y
        - LAND_TOL && syh < p3.y + LAND_TOL)
}

/// Hides the first `count` sprites of one group at the position of `at`,
/// one logical delete per sprite.
fn hide_group_prefix(sprites: &mut SpriteRender, which: usize, count: usize, at: Region)
    requires
        which < old(sprites)@.len(),
        count <= old(sprites)@[which as int].sprites.len(),
    ensures
        final(sprites)@ == hide_prefix(old(sprites)@, which as int, count as int, at),
{
    let mut i: usize = 0;
    while i < count
        invariant
            which < old(sprites)@.len(),
            count <= old(sprites)@[which as int].sprites.len(),
            i <= count,
            sprites@.len() == old(sprites)@.len(),
            forall|g: int|
                0 <= g < sprites@.len() && g != which ==> #[trigger] sprites@[g] == old(
                    sprites,
                )@[g],
            sprites@[which as int].sprites.len() == old(sprites)@[which as int].sprites.len(),
            sprites@[which as int].gpu == old(sprites)@[which as int].gpu,
            sprites@[which as int].camera == old(sprites)@[which as int].camera,
            sprites@[which as int].gpu_camera == old(sprites)@[which as int].gpu_camera,
            sprites@[which as int].tex == old(sprites)@[which as int].tex,
            forall|j: int|
                0 <= j < sprites@[which as int].sprites.len()
                    ==> #[trigger] sprites@[which as int].sprites[j] == (if j < i {
                    with_screen(old(sprites)@[which as int].sprites[j], hidden(at))
                } else {
                    old(sprites)@[which as int].sprites[j]
                }),
        decreases count - i,
    {
        sprites.zero_sprite(at, which, i);
        i = i + 1;
    }
    proof {
        assert(sprites@[which as int].sprites =~= hide_prefix(
            old(sprites)@,
            which as int,
            count as int,
            at,
        )[which as int].sprites);
        assert(sprites@ =~~= hide_prefix(old(sprites)@, which as int, count as int, at));
    }
}

/// Opens the options overlay: full-screen overlay background plus an
/// indicator icon for every toggle already on.
fn open_overlay(sprites: &mut SpriteRender, hc: bool, ac: bool, lk: bool)
    requires
        old(sprites)@.len() > INDICATOR_GROUP,
        old(sprites)@[OVERLAY_GROUP as int].sprites.len() >= 1,
        old(sprites)@[INDICATOR_GROUP as int].sprites.len() >= 3,
    ensures
        final(sprites)@ == open_overlay_groups(old(sprites)@, hc, ac, lk),
        same_shape(old(sprites)@, final(sprites)@),
{
    sprites.set_screen_size_sprite(OVERLAY_GROUP, 0, OVERLAY_W, OVERLAY_H);
    if hc {
        sprites.set_screen_size_sprite(INDICATOR_GROUP, 0, INDICATOR_SIZE, INDICATOR_SIZE);
    }
    if ac {
        sprites.set_screen_size_sprite(INDICATOR_GROUP, 1, INDICATOR_SIZE, INDICATOR_SIZE);
    }
    if lk {
        sprites.set_screen_size_sprite(INDICATOR_GROUP, 2, INDICATOR_SIZE, INDICATOR_SIZE);
    }
    proof {
        assert(sprites@ =~~= open_overlay_groups(old(sprites)@, hc, ac, lk));
    }
}

/// Hides the whole menu decoration at the title background's position.
fn teardown_menu(sprites: &mut SpriteRender)
    requires
        old(sprites)@.len() > OVERLAY_GROUP,
        old(sprites)@[TITLE_GROUP as int].sprites.len() >= 1,
        old(sprites)@[NAME_GROUP as int].sprites.len() >= 10,
        old(sprites)@[OPTIONS_TEXT_GROUP as int].sprites.len() >= 7,
        old(sprites)@[PLAY_TEXT_GROUP as int].sprites.len() >= 4,
        old(sprites)@[CURSOR_GROUP as int].sprites.len() >= 1,
    ensures
        final(sprites)@ == teardown_groups(old(sprites)@),
        same_shape(old(sprites)@, final(sprites)@),
{
    let at: Region = sprites.get_sprites(TITLE_GROUP)[0].screen_region;
    sprites.zero_sprite(at, TITLE_GROUP, 0);
    hide_group_prefix(sprites, NAME_GROUP, 10, at);
    hide_group_prefix(sprites, OPTIONS_TEXT_GROUP, 7, at);
    hide_group_prefix(sprites, PLAY_TEXT_GROUP, 4, at);
    sprites.zero_sprite(at, CURSOR_GROUP, 0);
    proof {
        assert(sprites@ =~~= teardown_groups(old(sprites)@));
    }
}

/// The once-only scene changes of the gameplay commit.
fn teardown_once(sprites: &mut SpriteRender)
    requires
        old(sprites)@.len() > POWERUP_GROUP,
        old(sprites)@[OBSTACLE_GROUP as int].sprites.len() >= 1,
        old(sprites)@[LEFT_PLAYER_GROUP as int].sprites.len() >= 1,
        old(sprites)@[BACKGROUND_GROUP as int].sprites.len() >= 1,
        old(sprites)@[RIGHT_PLAYER_GROUP as int].sprites.len() >= 1,
        old(sprites)@[POWERUP_GROUP as int].sprites.len() >= 1,
    ensures
        final(sprites)@ == teardown_once_groups(old(sprites)@),
        same_shape(old(sprites)@, final(sprites)@),
{
    let behind: Region = sprites.get_sprites(OBSTACLE_GROUP)[0].screen_region;
    sprites.zero_sprite(behind, LEFT_PLAYER_GROUP, 0);
    let sh: Region = sprites.get_sprites(BACKGROUND_GROUP)[0].sheet_region;
    sprites.update_sprite(Region { x: sh.x, y: sh.y, w: BG_WIDTH, h: sh.h }, BACKGROUND_GROUP);
    sprites.update_position(
        Region { x: PLAYER_RESET_X, y: GROUND_Y, w: PLAYER_SIZE, h: PLAYER_SIZE },
        RIGHT_PLAYER_GROUP,
    );
    sprites.update_sprite(Region { x: 0, y: 0, w: 0, h: 0 }, POWERUP_GROUP);
    proof {
        assert(sprites@ =~~= teardown_once_groups(old(sprites)@));
    }
}

// ---------------------------------------------------------------------------
// The whole frame, and the bound bookkeeping that lets its steps compose.
// ---------------------------------------------------------------------------
/// The frame state after the menu phase: power-up expiry, the three
/// toggles, confirm, cancel and the cursor.
pub open spec fn frame_prefix7(m: EngineModel) -> EngineModel {
    cursor_spec(
        cancel_spec(
            confirm_spec(
                toggle_keyboard_spec(toggle_audio_spec(toggle_contrast_spec(powerup_timer_spec(m)))),
            ),
        ),
    )
}

/// The frame state once the left player's physics ran.
pub open spec fn frame_prefix9(m: EngineModel) -> EngineModel {
    left_vertical_spec(jump_start_spec(frame_prefix7(m)))
}

/// The frame state once both players' physics ran.
pub open spec fn frame_prefix10(m: EngineModel) -> EngineModel {
    right_vertical_spec(frame_prefix9(m))
}

/// The frame state just before the player-versus-player test.
pub open spec fn frame_prefix18(m: EngineModel) -> EngineModel {
    input_advance_spec(
        pickups_spec(
            refresh_all_spec(
                floor_clamp_spec(
                    move_left_spec(release_pose_spec(move_right_spec(frame_prefix10(m)))),
                ),
            ),
        ),
    )
}

/// The back half of a frame, taken from the state both physics steps left:
/// the moves, the pose resets, the clamps, the refresh, the pickups, the
/// input advance, the touch test and the frame count.
pub open spec fn frame_back_spec(m: EngineModel) -> EngineModel {
    let m19 = pvp_spec(
        input_advance_spec(
            pickups_spec(
                refresh_all_spec(
                    floor_clamp_spec(move_left_spec(release_pose_spec(move_right_spec(m)))),
                ),
            ),
        ),
    );
    EngineModel { frames: m19.frames + 1, ..m19 }
}

/// One whole frame of the game-state machine, in the fixed step order, with
/// the frame counter advanced at the end.
pub open spec fn frame_spec(m: EngineModel) -> EngineModel {
    let m19 = pvp_spec(frame_prefix18(m));
    EngineModel { frames: m19.frames + 1, ..m19 }
}

/// Did this frame start the right player's jump (the jump audio cue)?
pub open spec fn jumped_event(m: EngineModel) -> bool {
    let m7 = frame_prefix7(m);
    key_down(m7.input, m7.keyboard.up) && !m7.is_jumping
}

/// The right player's landing condition in a given state.
pub open spec fn landed_cond(m9: EngineModel) -> bool {
    m9.is_jumping && landing(
        m9.groups,
        m9.groups[RIGHT_PLAYER_GROUP as int].sprites[0].screen_region.y + m9.velocity_y
            + m9.gravity,
        m9.groups[RIGHT_PLAYER_GROUP as int].sprites[0].screen_region.y + m9.velocity_y + m9.gravity
            + m9.groups[RIGHT_PLAYER_GROUP as int].sprites[0].screen_region.h,
        LAND_TOL as int,
    )
}

/// Did the right player land this frame (the landing audio cue)?
pub open spec fn landed_event(m: EngineModel) -> bool {
    landed_cond(frame_prefix9(m))
}

/// The physics phase: the jump start and both players' vertical steps.
pub open spec fn frame_physics_spec(m: EngineModel) -> EngineModel {
    right_vertical_spec(left_vertical_spec(jump_start_spec(m)))
}

/// Does this frame end the run (a touch while the score is already past the
/// winning threshold)?
pub open spec fn exit_event(m: EngineModel) -> bool {
    let m18 = frame_prefix18(m);
    players_overlap(
        m18.groups[LEFT_PLAYER_GROUP as int].sprites[0],
        m18.groups[RIGHT_PLAYER_GROUP as int].sprites[0],
    ) && m18.score > WIN_SCORE
}

/// What [`Engine::frame`] asks of the state it is handed; checked at run
/// time by [`Engine::frame_ready`].
pub open spec fn frame_requires(m: EngineModel) -> bool {
    &&& scene_ready(m)
    &&& core_bounded(m, FRAME_LIMIT as int)
    &&& 0 <= m.score <= SCORE_CAP as int
    &&& 0 <= m.sub_score <= SCORE_CAP as int
    &&& 0 <= m.frames <= FRAME_CAP as int
}

/// The power-up timer writes only fixed extents and speeds: bounds carry
/// over.
pub proof fn lemma_powerup_timer_bounded(m: EngineModel, b: int)
    requires
        BOUND_FLOOR as int <= b,
        scene_ready(m),
        core_bounded(m, b),
    ensures
        core_bounded(powerup_timer_spec(m), b),
{
}

/// The contrast toggle touches only the indicator group.
pub proof fn lemma_toggle_contrast_bounded(m: EngineModel, b: int)
    requires
        BOUND_FLOOR as int <= b,
        scene_ready(m),
        core_bounded(m, b),
    ensures
        core_bounded(toggle_contrast_spec(m), b),
{
}

/// The audio toggle touches only the indicator group.
pub proof fn lemma_toggle_audio_bounded(m: EngineModel, b: int)
    requires
        BOUND_FLOOR as int <= b,
        scene_ready(m),
        core_bounded(m, b),
    ensures
        core_bounded(toggle_audio_spec(m), b),
{
}

/// The keyboard toggle touches only the indicator group.
pub proof fn lemma_toggle_keyboard_bounded(m: EngineModel, b: int)
    requires
        BOUND_FLOOR as int <= b,
        scene_ready(m),
        core_bounded(m, b),
    ensures
        core_bounded(toggle_keyboard_spec(m), b),
{
}

/// The confirm transition writes fixed extents, positions taken from
/// already-bounded sprites, and menu groups outside the core set.
pub proof fn lemma_confirm_bounded(m: EngineModel, b: int)
    requires
        BOUND_FLOOR as int <= b,
        scene_ready(m),
        core_bounded(m, b),
    ensures
        core_bounded(confirm_spec(m), b),
{
}

/// The cancel transition touches only the overlay and indicator groups.
pub proof fn lemma_cancel_bounded(m: EngineModel, b: int)
    requires
        BOUND_FLOOR as int <= b,
        scene_ready(m),
        core_bounded(m, b),
    ensures
        core_bounded(cancel_spec(m), b),
{
}

/// The cursor moves only the cursor group.
pub proof fn lemma_cursor_bounded(m: EngineModel, b: int)
    requires
        BOUND_FLOOR as int <= b,
        scene_ready(m),
        core_bounded(m, b),
    ensures
        core_bounded(cursor_spec(m), b),
{
}

/// A jump start writes only the fixed initial velocity.
pub proof fn lemma_jump_start_bounded(m: EngineModel, b: int)
    requires
        BOUND_FLOOR as int <= b,
        scene_ready(m),
        core_bounded(m, b),
    ensures
        core_bounded(jump_start_spec(m), b),
{
}

/// A vertical step adds at most two bounded values to a bounded height.
pub proof fn lemma_left_vertical_bounded(m: EngineModel, b: int)
    requires
        BOUND_FLOOR as int <= b,
        scene_ready(m),
        core_bounded(m, b),
    ensures
        core_bounded(left_vertical_spec(m), 3 * b),
{
}

/// A vertical step adds at most two bounded values to a bounded height.
pub proof fn lemma_right_vertical_bounded(m: EngineModel, b: int)
    requires
        BOUND_FLOOR as int <= b,
        scene_ready(m),
        core_bounded(m, b),
    ensures
        core_bounded(right_vertical_spec(m), 3 * b),
{
}

/// A right move shifts bounded coordinates by the bounded speed once.
pub proof fn lemma_move_right_bounded(m: EngineModel, b: int)
    requires
        BOUND_FLOOR as int <= b,
        scene_ready(m),
        core_bounded(m, b),
    ensures
        core_bounded(move_right_spec(m), 2 * b),
{
}

/// The pose reset touches only an atlas region.
pub proof fn lemma_release_pose_bounded(m: EngineModel, b: int)
    requires
        BOUND_FLOOR as int <= b,
        scene_ready(m),
        core_bounded(m, b),
    ensures
        core_bounded(release_pose_spec(m), b),
{
}

/// A left move shifts bounded coordinates by the bounded speed at most
/// twice.
pub proof fn lemma_move_left_bounded(m: EngineModel, b: int)
    requires
        BOUND_FLOOR as int <= b,
        scene_ready(m),
        core_bounded(m, b),
    ensures
        core_bounded(move_left_spec(m), 3 * b),
{
}

/// The floor clamp writes only the fixed ground height.
pub proof fn lemma_floor_clamp_bounded(m: EngineModel, b: int)
    requires
        BOUND_FLOOR as int <= b,
        scene_ready(m),
        core_bounded(m, b),
    ensures
        core_bounded(floor_clamp_spec(m), b),
{
}

/// The refresh touches only the GPU mirrors.
pub proof fn lemma_refresh_all_bounded(m: EngineModel, b: int)
    requires
        BOUND_FLOOR as int <= b,
        scene_ready(m),
        core_bounded(m, b),
    ensures
        core_bounded(refresh_all_spec(m), b),
{
}

/// A pickup zeroes an extent and writes a fixed speed.
pub proof fn lemma_pickups_bounded(m: EngineModel, b: int)
    requires
        BOUND_FLOOR as int <= b,
        scene_ready(m),
        core_bounded(m, b),
    ensures
        core_bounded(pickups_spec(m), b),
{
    crate::sprite::lemma_first_hit_bounds(
        m.groups[POWERUP_GROUP as int].sprites,
        m.groups[LEFT_PLAYER_GROUP as int].sprites[0],
    );
    crate::sprite::lemma_first_hit_bounds(
        pickup_left_spec(m).groups[POWERUP_GROUP as int].sprites,
        pickup_left_spec(m).groups[RIGHT_PLAYER_GROUP as int].sprites[0],
    );
}

/// The input advance leaves the scene untouched.
pub proof fn lemma_input_advance_bounded(m: EngineModel, b: int)
    requires
        BOUND_FLOOR as int <= b,
        scene_ready(m),
        core_bounded(m, b),
    ensures
        core_bounded(input_advance_spec(m), b),
{
}

// ---------------------------------------------------------------------------
// The jump arc in the absence of obstacles.
// ---------------------------------------------------------------------------
/// Vertical velocity after `k` gravity steps from the jump-start velocity.
pub open spec fn jump_vel(k: nat) -> int
    decreases k,
{
    if k == 0 {
        JUMP_VELOCITY as int
    } else {
        jump_vel((k - 1) as nat) + GRAVITY as int
    }
}

/// Height proposed after `k` free-fall steps from the ground (each step
/// first applies gravity to the velocity, then adds the velocity to the
/// height, as the vertical step does).
pub open spec fn jump_pos(k: nat) -> int
    decreases k,
{
    if k == 0 {
        GROUND_Y as int
    } else {
        jump_pos((k - 1) as nat) + jump_vel(k)
    }
}

/// The velocity of the jump arc falls linearly.
pub proof fn lemma_jump_vel_closed(k: nat)
    ensures
        jump_vel(k) == JUMP_VELOCITY + k * GRAVITY,
    decreases k,
{
    if k > 0 {
        lemma_jump_vel_closed((k - 1) as nat);
        assert((k - 1) * GRAVITY as int + GRAVITY == k * GRAVITY) by (nonlinear_arith);
    }
}

/// The height of the jump arc is the usual quadratic (doubled, to stay in
/// integers).
pub proof fn lemma_jump_pos_closed(k: nat)
    ensures
        2 * jump_pos(k) == 2 * GROUND_Y + 2 * k * JUMP_VELOCITY + k * (k + 1) * GRAVITY,
    decreases k,
{
    if k == 0 {
        assert(k * (k + 1) * GRAVITY as int == 0) by (nonlinear_arith)
            requires
                k == 0,
        ;
        assert(2 * k * JUMP_VELOCITY as int == 0) by (nonlinear_arith)
            requires
                k == 0,
        ;
    } else {
        let km1: nat = (k - 1) as nat;
        lemma_jump_pos_closed(km1);
        lemma_jump_vel_closed(k);
        assert(km1 + 1 == k);
        assert(2 * jump_pos(k) == 2 * jump_pos(km1) + 2 * jump_vel(k));
        assert(2 * GROUND_Y + 2 * km1 * JUMP_VELOCITY as int + km1 * (km1 + 1) * GRAVITY as int + 2
            * (JUMP_VELOCITY + k * GRAVITY) == 2 * GROUND_Y + 2 * k * JUMP_VELOCITY + k * (k + 1)
            * GRAVITY) by (nonlinear_arith)
            requires
                km1 + 1 == k,
        ;
    }
}

/// Law: jump physics is deterministic and bounded.  One vertical step of a
/// jumping player that neither an obstacle vetoes nor a landing ends moves
/// it exactly along the free-fall recurrence: gravity joins the velocity,
/// the velocity joins the height.  The next state is a function of the
/// current one, so two runs from equal states follow equal arcs.
pub proof fn lemma_vertical_free_step(m: EngineModel)
    requires
        scene_ready(m),
        m.is_jumping,
        !move_blocked(
            m.groups,
            m.groups[RIGHT_PLAYER_GROUP as int].sprites[0].screen_region.x as int,
            m.groups[RIGHT_PLAYER_GROUP as int].sprites[0].screen_region.x
                + m.groups[RIGHT_PLAYER_GROUP as int].sprites[0].screen_region.w,
            m.groups[RIGHT_PLAYER_GROUP as int].sprites[0].screen_region.y + m.velocity_y
                + m.gravity,
            m.groups[RIGHT_PLAYER_GROUP as int].sprites[0].screen_region.y + m.velocity_y
                + m.gravity + m.groups[RIGHT_PLAYER_GROUP as int].sprites[0].screen_region.h,
            m.single_player,
        ),
        !landing(
            m.groups,
            m.groups[RIGHT_PLAYER_GROUP as int].sprites[0].screen_region.y + m.velocity_y
                + m.gravity,
            m.groups[RIGHT_PLAYER_GROUP as int].sprites[0].screen_region.y + m.velocity_y
                + m.gravity + m.groups[RIGHT_PLAYER_GROUP as int].sprites[0].screen_region.h,
            LAND_TOL as int,
        ),
        -COORD_LIMIT <= m.groups[RIGHT_PLAYER_GROUP as int].sprites[0].screen_region.y
            + m.velocity_y + m.gravity <= COORD_LIMIT,
    ensures
        right_vertical_spec(m).groups[RIGHT_PLAYER_GROUP as int].sprites[0].screen_region.y
            == m.groups[RIGHT_PLAYER_GROUP as int].sprites[0].screen_region.y + m.velocity_y
            + m.gravity,
        right_vertical_spec(m).velocity_y == m.velocity_y + m.gravity,
        right_vertical_spec(m).is_jumping,
{
}

/// Law: for the fixed gravity and the fixed initial upward velocity, the
/// free jump arc descends strictly once past its apex and is back at ground
/// level within fifty frames.
pub proof fn lemma_jump_returns_to_ground()
    ensures
        forall|k: nat| 25 <= k < 50 ==> #[trigger] jump_pos((k + 1) as nat) < jump_pos(k),
        jump_pos(50) <= GROUND_Y as int,
{
    assert forall|k: nat| 25 <= k < 50 implies #[trigger] jump_pos((k + 1) as nat) < jump_pos(k) by {
        lemma_jump_vel_closed((k + 1) as nat);
        assert(jump_vel((k + 1) as nat) < 0) by (nonlinear_arith)
            requires
                jump_vel((k + 1) as nat) == JUMP_VELOCITY + (k + 1) * GRAVITY,
                k >= 25,
        ;
    }
    lemma_jump_pos_closed(50);
}

impl Engine {
    /// A fresh engine around a scene: both players grounded, no score, all
    /// toggles off, walking speed, the arrow-key scheme, and no key held.
    pub fn new(sprites: SpriteRender) -> (e: Engine)
        ensures
            e@.groups == sprites@,
            e.input.wf(),
            forall|k: Key| !crate::input::key_down(#[trigger] e@.input, k),
            forall|k: Key| !(#[trigger] e@.input.prev[crate::input::key_index(k)]),
            !e@.is_jumping,
            !e@.leftis_jumping,
            e@.velocity_y == 0,
            e@.leftvelocity_y == 0,
            e@.gravity == GRAVITY as int,
            e@.score == 0,
            e@.sub_score == 0,
            !e@.single_player,
            !e@.audio_cues,
            !e@.left_keyboard,
            !e@.high_contrast,
            !e@.options_shown,
            !e@.already_removed_multi,
            e@.p1_speed == BASE_SPEED as int,
            e@.p2_speed == BASE_SPEED as int,
            e@.frames == 0,
            e@.keyboard == arrow_keyboard(),
    {
        Engine {
            sprites,
            input: Input::new(),
            is_jumping: false,
            leftis_jumping: false,
            velocity_y: 0,
            leftvelocity_y: 0,
            gravity: GRAVITY,
            score: 0,
            single_player: false,
            sub_score: 0,
            audio_cues: false,
            left_keyboard: false,
            high_contrast: false,
            options_shown: false,
            already_removed_multi: false,
            p1_speed: BASE_SPEED,
            p2_speed: BASE_SPEED,
            frames: 0,
            keyboard: Keyboard { left: Key::Left, right: Key::Right, up: Key::Up, down: Key::Down },
        }
    }

    /// Step: power-up expiry on the fixed frame-count timer.
    pub fn powerup_timer_step(&mut self)
        requires
            scene_ready(old(self)@),
        ensures
            final(self)@ == powerup_timer_spec(old(self)@),
            scene_ready(final(self)@),
            final(self)@.score == old(self)@.score,
            final(self)@.sub_score == old(self)@.sub_score,
            0 <= final(self)@.frames <= old(self)@.frames,
    {
        if self.frames > POWERUP_FRAMES {
            self.frames = 0;
            self.p1_speed = BASE_SPEED;
            self.p2_speed = BASE_SPEED;
            self.sprites.respawn_powerup(POWERUP_GROUP);
        }
        proof {
            assert(self@ =~~= powerup_timer_spec(old(self)@));
        }
    }

    /// Step: the high-contrast toggle.
    pub fn toggle_contrast_step(&mut self)
        requires
            scene_ready(old(self)@),
        ensures
            final(self)@ == toggle_contrast_spec(old(self)@),
            scene_ready(final(self)@),
            final(self)@.score == old(self)@.score,
            final(self)@.sub_score == old(self)@.sub_score,
            final(self)@.frames == old(self)@.frames,
    {
        if self.input.is_key_pressed(Key::Key1) && self.options_shown {
            self.high_contrast = !self.high_contrast;
            if self.high_contrast {
                self.sprites.set_screen_size_sprite(INDICATOR_GROUP, 0, INDICATOR_SIZE, INDICATOR_SIZE);
            } else {
                let old_region: Region = self.sprites.get_sprites(INDICATOR_GROUP)[0].screen_region;
                self.sprites.zero_sprite(old_region, INDICATOR_GROUP, 0);
            }
        }
        proof {
            assert(self@ =~~= toggle_contrast_spec(old(self)@));
        }
    }

    /// Step: the audio-cues toggle.
    pub fn toggle_audio_step(&mut self)
        requires
            scene_ready(old(self)@),
        ensures
            final(self)@ == toggle_audio_spec(old(self)@),
            scene_ready(final(self)@),
            final(self)@.score == old(self)@.score,
            final(self)@.sub_score == old(self)@.sub_score,
            final(self)@.frames == old(self)@.frames,
    {
        if self.input.is_key_pressed(Key::Key2) && self.options_shown {
            self.audio_cues = !self.audio_cues;
            if self.audio_cues {
                self.sprites.set_screen_size_sprite(INDICATOR_GROUP, 1, INDICATOR_SIZE, INDICATOR_SIZE);
            } else {
                let old_region: Region = self.sprites.get_sprites(INDICATOR_GROUP)[1].screen_region;
                self.sprites.zero_sprite(old_region, INDICATOR_GROUP, 1);
            }
        }
        proof {
            assert(self@ =~~= toggle_audio_spec(old(self)@));
        }
    }

    /// Step: the control-scheme toggle.
    pub fn toggle_keyboard_step(&mut self)
        requires
            scene_ready(old(self)@),
        ensures
            final(self)@ == toggle_keyboard_spec(old(self)@),
            scene_ready(final(self)@),
            final(self)@.score == old(self)@.score,
            final(self)@.sub_score == old(self)@.sub_score,
            final(self)@.frames == old(self)@.frames,
    {
        if self.input.is_key_pressed(Key::Key3) && self.options_shown {
            self.left_keyboard = !self.left_keyboard;
            if self.left_keyboard {
                self.sprites.set_screen_size_sprite(INDICATOR_GROUP, 2, INDICATOR_SIZE, INDICATOR_SIZE);
                self.keyboard = Keyboard { left: Key::A, right: Key::D, up: Key::W, down: Key::S };
            } else {
                let old_region: Region = self.sprites.get_sprites(INDICATOR_GROUP)[2].screen_region;
                self.sprites.zero_sprite(old_region, INDICATOR_GROUP, 2);
                self.keyboard = Keyboard { left: Key::Left, right: Key::Right, up: Key::Up, down: Key::Down };
            }
        }
        proof {
            assert(self@ =~~= toggle_keyboard_spec(old(self)@));
        }
    }

    /// Step: the confirm key's three-way menu transition.
    #[verifier::rlimit(100)]
    pub fn confirm_step(&mut self)
        requires
            scene_ready(old(self)@),
        ensures
            final(self)@ == confirm_spec(old(self)@),
            scene_ready(final(self)@),
            final(self)@.score == old(self)@.score,
            final(self)@.sub_score == old(self)@.sub_score,
            final(self)@.frames == old(self)@.frames,
    {
        if self.input.is_key_down(Key::Return) {
            if self.sprites.get_sprites(CURSOR_GROUP)[0].screen_region.y == CURSOR_PLAY_Y {
                self.single_player = true;
            }
            if !self.single_player {
                if !self.options_shown {
                    open_overlay(
                        &mut self.sprites,
                        self.high_contrast,
                        self.audio_cues,
                        self.left_keyboard,
                    );
                    self.options_shown = true;
                    proof {
                        assert(self@ =~~= confirm_spec(old(self)@));
                    }
                } else {
                    proof {
                        assert(self@ =~~= confirm_spec(old(self)@));
                    }
                }
            } else {
                teardown_menu(&mut self.sprites);
                if !self.already_removed_multi {
                    teardown_once(&mut self.sprites);
                    self.already_removed_multi = true;
                    proof {
                        assert(self@ =~~= confirm_spec(old(self)@));
                    }
                } else {
                    proof {
                        assert(self@ =~~= confirm_spec(old(self)@));
                    }
                }
            }
        } else {
            proof {
                assert(self@ =~~= confirm_spec(old(self)@));
            }
        }
    }

    /// Step: the cancel key closes the options overlay.
    pub fn cancel_step(&mut self)
        requires
            scene_ready(old(self)@),
        ensures
            final(self)@ == cancel_spec(old(self)@),
            scene_ready(final(self)@),
            final(self)@.score == old(self)@.score,
            final(self)@.sub_score == old(self)@.sub_score,
            final(self)@.frames == old(self)@.frames,
    {
        if self.input.is_key_down(Key::Escape) && self.options_shown {
            let mut old_region: Region = self.sprites.get_sprites(OVERLAY_GROUP)[0].screen_region;
            self.sprites.zero_sprite(old_region, OVERLAY_GROUP, 0);
            let mut i: usize = 0;
            while i < 3
                invariant
                    scene_ready(old(self)@),
                    i <= 3,
                    self.input == old(self).input,
                    self.is_jumping == old(self).is_jumping,
                    self.leftis_jumping == old(self).leftis_jumping,
                    self.velocity_y == old(self).velocity_y,
                    self.leftvelocity_y == old(self).leftvelocity_y,
                    self.gravity == old(self).gravity,
                    self.score == old(self).score,
                    self.sub_score == old(self).sub_score,
                    self.single_player == old(self).single_player,
                    self.audio_cues == old(self).audio_cues,
                    self.left_keyboard == old(self).left_keyboard,
                    self.high_contrast == old(self).high_contrast,
                    self.options_shown == old(self).options_shown,
                    self.already_removed_multi == old(self).already_removed_multi,
                    self.p1_speed == old(self).p1_speed,
                    self.p2_speed == old(self).p2_speed,
                    self.frames == old(self).frames,
                    self.keyboard == old(self).keyboard,
                    self.sprites@.len() == old(self)@.groups.len(),
                    forall|g: int|
                        0 <= g < self.sprites@.len() && g != OVERLAY_GROUP && g != INDICATOR_GROUP
                            ==> #[trigger] self.sprites@[g] == old(self)@.groups[g],
                    self.sprites@[OVERLAY_GROUP as int] == upd_sprite(
                        old(self)@.groups,
                        OVERLAY_GROUP as int,
                        0,
                        with_screen(
                            old(self)@.groups[OVERLAY_GROUP as int].sprites[0],
                            hidden(old(self)@.groups[OVERLAY_GROUP as int].sprites[0].screen_region),
                        ),
                    )[OVERLAY_GROUP as int],
                    self.sprites@[INDICATOR_GROUP as int].sprites.len() == old(
                        self,
                    )@.groups[INDICATOR_GROUP as int].sprites.len(),
                    self.sprites@[INDICATOR_GROUP as int].gpu == old(
                        self,
                    )@.groups[INDICATOR_GROUP as int].gpu,
                    self.sprites@[INDICATOR_GROUP as int].camera == old(
                        self,
                    )@.groups[INDICATOR_GROUP as int].camera,
                    self.sprites@[INDICATOR_GROUP as int].gpu_camera == old(
                        self,
                    )@.groups[INDICATOR_GROUP as int].gpu_camera,
                    self.sprites@[INDICATOR_GROUP as int].tex == old(
                        self,
                    )@.groups[INDICATOR_GROUP as int].tex,
                    forall|j: int|
                        0 <= j < self.sprites@[INDICATOR_GROUP as int].sprites.len()
                            ==> #[trigger] self.sprites@[INDICATOR_GROUP as int].sprites[j] == (
                        if j < i {
                            with_screen(
                                old(self)@.groups[INDICATOR_GROUP as int].sprites[j],
                                hidden(
                                    old(
                                        self,
                                    )@.groups[INDICATOR_GROUP as int].sprites[j].screen_region,
                                ),
                            )
                        } else {
                            old(self)@.groups[INDICATOR_GROUP as int].sprites[j]
                        }),
                decreases 3 - i,
            {
                old_region = self.sprites.get_sprites(INDICATOR_GROUP)[i].screen_region;
                self.sprites.zero_sprite(old_region, INDICATOR_GROUP, i);
                i = i + 1;
            }
            self.options_shown = false;
        }
        proof {
            assert(self@ =~~= cancel_spec(old(self)@));
        }
    }

    /// Step: the menu cursor moves.
    pub fn cursor_step(&mut self)
        requires
            scene_ready(old(self)@),
        ensures
            final(self)@ == cursor_spec(old(self)@),
            scene_ready(final(self)@),
            final(self)@.score == old(self)@.score,
            final(self)@.sub_score == old(self)@.sub_score,
            final(self)@.frames == old(self)@.frames,
    {
        if self.input.is_key_down(self.keyboard.down) {
            let old_position: Region = self.sprites.get_sprites(CURSOR_GROUP)[0].screen_region;
            self.sprites.update_position(
                Region { x: CURSOR_X, y: CURSOR_PLAY_Y, w: old_position.w, h: old_position.h },
                CURSOR_GROUP,
            );
        }
        if self.input.is_key_down(self.keyboard.up) {
            let old_position: Region = self.sprites.get_sprites(CURSOR_GROUP)[0].screen_region;
            self.sprites.update_position(
                Region { x: CURSOR_X, y: CURSOR_OPTIONS_Y, w: old_position.w, h: old_position.h },
                CURSOR_GROUP,
            );
        }
        proof {
            assert(self@ =~~= cursor_spec(old(self)@));
        }
    }

    /// Step: the jump key starts the right player's jump.
    pub fn jump_start_step(&mut self) -> (jumped: bool)
        requires
            scene_ready(old(self)@),
        ensures
            final(self)@ == jump_start_spec(old(self)@),
            scene_ready(final(self)@),
            final(self)@.score == old(self)@.score,
            final(self)@.sub_score == old(self)@.sub_score,
            final(self)@.frames == old(self)@.frames,
            jumped == (key_down(old(self)@.input, old(self)@.keyboard.up) && !old(self)@.is_jumping),
    {
        if self.input.is_key_down(self.keyboard.up) && !self.is_jumping {
            self.is_jumping = true;
            self.velocity_y = JUMP_VELOCITY;
            proof {
                assert(self@ =~~= jump_start_spec(old(self)@));
            }
            true
        } else {
            proof {
                assert(self@ =~~= jump_start_spec(old(self)@));
            }
            false
        }
    }

    /// Step: the left player's gravity integration, obstacle veto and
    /// landing check.
    pub fn left_vertical_step(&mut self)
        requires
            scene_ready(old(self)@),
            region_within(
                old(self)@.groups[LEFT_PLAYER_GROUP as int].sprites[0].screen_region,
                STEP_LIMIT as int,
            ),
            forall|i: int|
                0 <= i < 4 ==> region_within(
                    (#[trigger] old(self)@.groups[OBSTACLE_GROUP as int].sprites[i]).screen_region,
                    STEP_LIMIT as int,
                ),
            -STEP_LIMIT <= old(self)@.leftvelocity_y <= STEP_LIMIT,
            -STEP_LIMIT <= old(self)@.gravity <= STEP_LIMIT,
        ensures
            final(self)@ == left_vertical_spec(old(self)@),
            scene_ready(final(self)@),
            final(self)@.score == old(self)@.score,
            final(self)@.sub_score == old(self)@.sub_score,
            final(self)@.frames == old(self)@.frames,
    {
        if self.leftis_jumping {
            let old_region: Region = self.sprites.get_sprites(LEFT_PLAYER_GROUP)[0].screen_region;
            self.leftvelocity_y = self.leftvelocity_y + self.gravity;
            let new_y: i64 = old_region.y + self.leftvelocity_y;
            let sprite_x: i64 = old_region.x;
            let sprite_xw: i64 = old_region.x + old_region.w;
            let sprite_yh: i64 = new_y + old_region.h;
            let blocked: bool = vetoed_move(
                &self.sprites,
                self.single_player,
                sprite_x,
                sprite_xw,
                new_y,
                sprite_yh,
            );
            let land: bool = landed_check(&self.sprites, new_y, sprite_yh, LAND_TOL_WIDE);
            if !blocked {
                self.sprites.update_position(
                    Region { x: old_region.x, y: new_y, w: old_region.w, h: old_region.h },
                    LEFT_PLAYER_GROUP,
                );
            }
            if land {
                self.leftis_jumping = false;
                self.leftvelocity_y = 0;
            }
            proof {
                assert(self@ =~~= left_vertical_spec(old(self)@));
            }
        } else {
            proof {
                assert(self@ =~~= left_vertical_spec(old(self)@));
            }
        }
    }

    /// Step: the right player's gravity integration, obstacle veto and
    /// landing check.  Reports whether the player landed this frame.
    pub fn right_vertical_step(&mut self) -> (landed: bool)
        requires
            scene_ready(old(self)@),
            region_within(
                old(self)@.groups[RIGHT_PLAYER_GROUP as int].sprites[0].screen_region,
                STEP_LIMIT as int,
            ),
            forall|i: int|
                0 <= i < 4 ==> region_within(
                    (#[trigger] old(self)@.groups[OBSTACLE_GROUP as int].sprites[i]).screen_region,
                    STEP_LIMIT as int,
                ),
            -STEP_LIMIT <= old(self)@.velocity_y <= STEP_LIMIT,
            -STEP_LIMIT <= old(self)@.gravity <= STEP_LIMIT,
        ensures
            final(self)@ == right_vertical_spec(old(self)@),
            scene_ready(final(self)@),
            final(self)@.score == old(self)@.score,
            final(self)@.sub_score == old(self)@.sub_score,
            final(self)@.frames == old(self)@.frames,
            landed == (old(self)@.is_jumping && landing(
                old(self)@.groups,
                old(self)@.groups[RIGHT_PLAYER_GROUP as int].sprites[0].screen_region.y
                    + old(self)@.velocity_y + old(self)@.gravity,
                old(self)@.groups[RIGHT_PLAYER_GROUP as int].sprites[0].screen_region.y
                    + old(self)@.velocity_y + old(self)@.gravity
                    + old(self)@.groups[RIGHT_PLAYER_GROUP as int].sprites[0].screen_region.h,
                LAND_TOL as int,
            )),
    {
        if self.is_jumping {
            let old_region: Region = self.sprites.get_sprites(RIGHT_PLAYER_GROUP)[0].screen_region;
            self.velocity_y = self.velocity_y + self.gravity;
            let new_y: i64 = old_region.y + self.velocity_y;
            let sprite_x: i64 = old_region.x;
            let sprite_xw: i64 = old_region.x + old_region.w;
            let sprite_yh: i64 = new_y + old_region.h;
            let blocked: bool = vetoed_move(
                &self.sprites,
                self.single_player,
                sprite_x,
                sprite_xw,
                new_y,
                sprite_yh,
            );
            let land: bool = landed_check(&self.sprites, new_y, sprite_yh, LAND_TOL);
            if !blocked {
                self.sprites.update_position(
                    Region { x: old_region.x, y: new_y, w: old_region.w, h: old_region.h },
                    RIGHT_PLAYER_GROUP,
                );
            }
            if land {
                self.is_jumping = false;
                self.velocity_y = 0;
            }
            proof {
                assert(self@ =~~= right_vertical_spec(old(self)@));
            }
            land
        } else {
            proof {
                assert(self@ =~~= right_vertical_spec(old(self)@));
            }
            false
        }
    }

    /// Step: a held right key — scoring, the run pose, and either the world
    /// scroll (single-player) or the player's own move.
    #[verifier::rlimit(100)]
    pub fn move_right_step(&mut self)
        requires
            scene_ready(old(self)@),
            region_within(
                old(self)@.groups[RIGHT_PLAYER_GROUP as int].sprites[0].screen_region,
                STEP_LIMIT as int,
            ),
            region_within(
                old(self)@.groups[BACKGROUND_GROUP as int].sprites[0].sheet_region,
                STEP_LIMIT as int,
            ),
            forall|i: int|
                0 <= i < 4 ==> region_within(
                    (#[trigger] old(self)@.groups[OBSTACLE_GROUP as int].sprites[i]).screen_region,
                    STEP_LIMIT as int,
                ),
            0 <= old(self)@.p2_speed <= STEP_LIMIT,
            0 <= old(self)@.score < CTR_LIMIT,
            0 <= old(self)@.sub_score < CTR_LIMIT,
        ensures
            final(self)@ == move_right_spec(old(self)@),
            scene_ready(final(self)@),
            old(self)@.score <= final(self)@.score <= old(self)@.score + 1,
            0 <= final(self)@.sub_score <= old(self)@.sub_score + 1,
            final(self)@.frames == old(self)@.frames,
    {
        if self.input.is_key_down(self.keyboard.right) {
            if self.single_player {
                self.sub_score = self.sub_score + 1;
                if self.sub_score == SCORE_TICKS {
                    self.score = self.score + 1;
                    let score_digits: (Region, Region, Region) = self.sprites.update_score(
                        self.score,
                    );
                    write_score(&mut self.sprites, score_digits);
                    self.sub_score = 0;
                }
            }
            self.sprites.update_sprite(
                Region { x: 0, y: 198000, w: 198000, h: 198000 },
                RIGHT_PLAYER_GROUP,
            );
            if self.single_player {
                let new_region: Region = self.sprites.get_sprites(
                    RIGHT_PLAYER_GROUP,
                )[0].screen_region;
                let blocked: bool = vetoed_move(
                    &self.sprites,
                    true,
                    new_region.x,
                    new_region.x + new_region.w,
                    new_region.y,
                    new_region.y + new_region.h,
                );
                if !blocked {
                    scroll_right_run(&mut self.sprites, self.p2_speed);
                } else {
                    self.is_jumping = false;
                }
                proof {
                    assert(self@ =~~= move_right_spec(old(self)@));
                }
            } else {
                let old_region: Region = self.sprites.get_sprites(
                    RIGHT_PLAYER_GROUP,
                )[0].screen_region;
                let nx: i64 = old_region.x + self.p2_speed;
                let blocked: bool = vetoed_move(
                    &self.sprites,
                    false,
                    nx,
                    nx + old_region.w,
                    old_region.y,
                    old_region.y + old_region.h,
                );
                if nx + old_region.w < RIGHT_LIMIT && !blocked {
                    self.sprites.update_position(
                        Region { x: nx, y: old_region.y, w: old_region.w, h: old_region.h },
                        RIGHT_PLAYER_GROUP,
                    );
                }
                proof {
                    assert(self@ =~~= move_right_spec(old(self)@));
                }
            }
        } else {
            proof {
                assert(self@ =~~= move_right_spec(old(self)@));
            }
        }
    }

    /// Step: releasing a walk key restores the standing pose.
    pub fn release_pose_step(&mut self)
        requires
            scene_ready(old(self)@),
        ensures
            final(self)@ == release_pose_spec(old(self)@),
            scene_ready(final(self)@),
            final(self)@.score == old(self)@.score,
            final(self)@.sub_score == old(self)@.sub_score,
            final(self)@.frames == old(self)@.frames,
    {
        if self.input.is_key_released(self.keyboard.right) {
            self.sprites.update_sprite(
                Region { x: 396000, y: 198000, w: 198000, h: 198000 },
                RIGHT_PLAYER_GROUP,
            );
        }
        if self.input.is_key_released(self.keyboard.left) {
            self.sprites.update_sprite(
                Region { x: 396000, y: 198000, w: 198000, h: 198000 },
                RIGHT_PLAYER_GROUP,
            );
        }
        proof {
            assert(self@ =~~= release_pose_spec(old(self)@));
        }
    }

    /// Step: a held left key — the run pose, and either the double world
    /// scroll (single-player) or the player's own move.
    pub fn move_left_step(&mut self)
        requires
            scene_ready(old(self)@),
            region_within(
                old(self)@.groups[RIGHT_PLAYER_GROUP as int].sprites[0].screen_region,
                STEP_LIMIT as int,
            ),
            region_within(
                old(self)@.groups[BACKGROUND_GROUP as int].sprites[0].sheet_region,
                STEP_LIMIT as int,
            ),
            forall|i: int|
                0 <= i < 4 ==> region_within(
                    (#[trigger] old(self)@.groups[OBSTACLE_GROUP as int].sprites[i]).screen_region,
                    STEP_LIMIT as int,
                ),
            0 <= old(self)@.p2_speed <= STEP_LIMIT,
        ensures
            final(self)@ == move_left_spec(old(self)@),
            scene_ready(final(self)@),
            final(self)@.score == old(self)@.score,
            final(self)@.sub_score == old(self)@.sub_score,
            final(self)@.frames == old(self)@.frames,
    {
        if self.input.is_key_down(self.keyboard.left) {
            self.sprites.update_sprite(
                Region { x: 198000, y: 198000, w: 198000, h: 198000 },
                RIGHT_PLAYER_GROUP,
            );
            if self.single_player {
                let new_region: Region = self.sprites.get_sprites(
                    RIGHT_PLAYER_GROUP,
                )[0].screen_region;
                let blocked: bool = vetoed_move(
                    &self.sprites,
                    true,
                    new_region.x,
                    new_region.x + new_region.w,
                    new_region.y,
                    new_region.y + new_region.h,
                );
                if !blocked {
                    scroll_left_run(&mut self.sprites, self.p2_speed);
                } else {
                    self.leftis_jumping = false;
                }
                proof {
                    assert(forall|i: int|
                        0 <= i < 4 ==> region_within(
                            (#[trigger] self.sprites@[OBSTACLE_GROUP as int].sprites[i]).screen_region,
                            SUM_LIMIT as int,
                        ));
                    assert(region_within(
                        self.sprites@[BACKGROUND_GROUP as int].sprites[0].sheet_region,
                        SUM_LIMIT as int,
                    ));
                }
                scroll_left_tail_run(&mut self.sprites, self.p2_speed);
                proof {
                    assert(self@ =~~= move_left_spec(old(self)@));
                }
            } else {
                let old_region: Region = self.sprites.get_sprites(
                    RIGHT_PLAYER_GROUP,
                )[0].screen_region;
                let nx: i64 = old_region.x - self.p2_speed;
                let blocked: bool = vetoed_move(
                    &self.sprites,
                    false,
                    nx,
                    nx + old_region.w,
                    old_region.y,
                    old_region.y + old_region.h,
                );
                if nx > LEFT_LIMIT && !blocked {
                    self.sprites.update_position(
                        Region { x: nx, y: old_region.y, w: old_region.w, h: old_region.h },
                        RIGHT_PLAYER_GROUP,
                    );
                }
                proof {
                    assert(self@ =~~= move_left_spec(old(self)@));
                }
            }
        } else {
            proof {
                assert(self@ =~~= move_left_spec(old(self)@));
            }
        }
    }

    /// Step: both players' floor clamps.
    pub fn floor_clamp_step(&mut self)
        requires
            scene_ready(old(self)@),
            region_within(
                old(self)@.groups[RIGHT_PLAYER_GROUP as int].sprites[0].screen_region,
                SUM_LIMIT as int,
            ),
            region_within(
                old(self)@.groups[LEFT_PLAYER_GROUP as int].sprites[0].screen_region,
                SUM_LIMIT as int,
            ),
        ensures
            final(self)@ == floor_clamp_spec(old(self)@),
            scene_ready(final(self)@),
            final(self)@.score == old(self)@.score,
            final(self)@.sub_score == old(self)@.sub_score,
            final(self)@.frames == old(self)@.frames,
    {
        clamp_player(&mut self.sprites, RIGHT_PLAYER_GROUP, self.is_jumping, self.single_player);
        clamp_player(&mut self.sprites, LEFT_PLAYER_GROUP, self.leftis_jumping, self.single_player);
        proof {
            assert(self@ =~~= floor_clamp_spec(old(self)@));
        }
    }

    /// Step: the batch refresh of every group's GPU mirror.
    pub fn refresh_all_step(&mut self)
        requires
            scene_ready(old(self)@),
        ensures
            final(self)@ == refresh_all_spec(old(self)@),
            scene_ready(final(self)@),
            final(self)@.score == old(self)@.score,
            final(self)@.sub_score == old(self)@.sub_score,
            final(self)@.frames == old(self)@.frames,
    {
        refresh_groups_run(&mut self.sprites);
        proof {
            assert(self@ =~~= refresh_all_spec(old(self)@));
        }
    }

    /// Step: both players' power-up pickups; each hit hides the power-up
    /// taken and boosts that player's speed.
    #[verifier::rlimit(100)]
    pub fn pickup_step(&mut self)
        requires
            scene_ready(old(self)@),
            region_within(
                old(self)@.groups[LEFT_PLAYER_GROUP as int].sprites[0].screen_region,
                COORD_LIMIT as int,
            ),
            region_within(
                old(self)@.groups[RIGHT_PLAYER_GROUP as int].sprites[0].screen_region,
                COORD_LIMIT as int,
            ),
            forall|i: int|
                0 <= i < old(self)@.groups[POWERUP_GROUP as int].sprites.len() ==> region_within(
                    (#[trigger] old(self)@.groups[POWERUP_GROUP as int].sprites[i]).screen_region,
                    COORD_LIMIT as int,
                ),
        ensures
            final(self)@ == pickups_spec(old(self)@),
            scene_ready(final(self)@),
            final(self)@.score == old(self)@.score,
            final(self)@.sub_score == old(self)@.sub_score,
            final(self)@.frames == old(self)@.frames,
    {
        if self.sprites.check_collisions(LEFT_PLAYER_GROUP, POWERUP_GROUP) {
            self.p1_speed = BOOST_SPEED;
        }
        proof {
            crate::sprite::lemma_first_hit_bounds(
                old(self)@.groups[POWERUP_GROUP as int].sprites,
                old(self)@.groups[LEFT_PLAYER_GROUP as int].sprites[0],
            );
            assert(self@ =~~= pickup_left_spec(old(self)@));
            assert forall|i: int|
                0 <= i < self@.groups[POWERUP_GROUP as int].sprites.len() implies region_within(
                (#[trigger] self@.groups[POWERUP_GROUP as int].sprites[i]).screen_region,
                COORD_LIMIT as int,
            ) by {
                assert(region_within(
                    old(self)@.groups[POWERUP_GROUP as int].sprites[i].screen_region,
                    COORD_LIMIT as int,
                ));
            }
        }
        if self.sprites.check_collisions(RIGHT_PLAYER_GROUP, POWERUP_GROUP) {
            self.p2_speed = BOOST_SPEED;
        }
        proof {
            crate::sprite::lemma_first_hit_bounds(
                pickup_left_spec(old(self)@).groups[POWERUP_GROUP as int].sprites,
                pickup_left_spec(old(self)@).groups[RIGHT_PLAYER_GROUP as int].sprites[0],
            );
            assert(self@ =~~= pickups_spec(old(self)@));
        }
    }

    /// Step: the input edge advance at the end of the frame's logic.
    pub fn input_advance_step(&mut self)
        requires
            scene_ready(old(self)@),
        ensures
            final(self)@ == input_advance_spec(old(self)@),
            scene_ready(final(self)@),
            final(self)@.score == old(self)@.score,
            final(self)@.sub_score == old(self)@.sub_score,
            final(self)@.frames == old(self)@.frames,
    {
        self.input.next_frame();
        proof {
            assert(self@ =~~= input_advance_spec(old(self)@));
        }
    }

    /// Step: the player-versus-player touch test, its scoring, and the
    /// end-of-run decision.
    pub fn pvp_step(&mut self) -> (quit: bool)
        requires
            scene_ready(old(self)@),
            region_within(
                old(self)@.groups[LEFT_PLAYER_GROUP as int].sprites[0].screen_region,
                COORD_LIMIT as int,
            ),
            region_within(
                old(self)@.groups[RIGHT_PLAYER_GROUP as int].sprites[0].screen_region,
                COORD_LIMIT as int,
            ),
            0 <= old(self)@.score <= CTR_LIMIT as int,
        ensures
            final(self)@ == pvp_spec(old(self)@),
            scene_ready(final(self)@),
            old(self)@.score <= final(self)@.score <= old(self)@.score + TOUCH_SCORE,
            final(self)@.sub_score == old(self)@.sub_score,
            final(self)@.frames == old(self)@.frames,
            quit == (players_overlap(
                old(self)@.groups[LEFT_PLAYER_GROUP as int].sprites[0],
                old(self)@.groups[RIGHT_PLAYER_GROUP as int].sprites[0],
            ) && old(self)@.score > WIN_SCORE),
    {
        let mut quit: bool = false;
        if self.sprites.player_collision() {
            if self.score > WIN_SCORE {
                quit = true;
            }
            self.score = self.score + TOUCH_SCORE;
            let score_digits: (Region, Region, Region) = self.sprites.update_score(self.score);
            write_score(&mut self.sprites, score_digits);
        }
        proof {
            assert(self@ =~~= pvp_spec(old(self)@));
        }
        quit
    }

    /// The menu phase of a frame: power-up expiry, option toggles, the
    /// confirm and cancel transitions and the menu cursor.
    #[verifier::rlimit(100)]
    #[verifier::spinoff_prover]
    fn frame_menu(&mut self)
        requires
            frame_requires(old(self)@),
        ensures
            final(self)@ == frame_prefix7(old(self)@),
            scene_ready(final(self)@),
            core_bounded(final(self)@, FRAME_LIMIT as int),
            final(self)@.score == old(self)@.score,
            final(self)@.sub_score == old(self)@.sub_score,
            0 <= final(self)@.frames <= old(self)@.frames,
    {
        let ghost m0 = self@;
        self.powerup_timer_step();
        let ghost m1 = self@;
        proof {
            lemma_powerup_timer_bounded(m0, FRAME_LIMIT as int);
        }
        self.toggle_contrast_step();
        let ghost m2 = self@;
        proof {
            lemma_toggle_contrast_bounded(m1, FRAME_LIMIT as int);
        }
        self.toggle_audio_step();
        let ghost m3 = self@;
        proof {
            lemma_toggle_audio_bounded(m2, FRAME_LIMIT as int);
        }
        self.toggle_keyboard_step();
        let ghost m4 = self@;
        proof {
            lemma_toggle_keyboard_bounded(m3, FRAME_LIMIT as int);
        }
        self.confirm_step();
        let ghost m5 = self@;
        proof {
            lemma_confirm_bounded(m4, FRAME_LIMIT as int);
        }
        self.cancel_step();
        let ghost m6 = self@;
        proof {
            lemma_cancel_bounded(m5, FRAME_LIMIT as int);
        }
        self.cursor_step();
        proof {
            lemma_cursor_bounded(m6, FRAME_LIMIT as int);
            assert(self@ == frame_prefix7(m0));
        }
    }

    /// The physics phase of a frame: the jump start and both players'
    /// vertical integration.
    #[verifier::rlimit(100)]
    #[verifier::spinoff_prover]
    fn frame_physics(&mut self) -> (ev: (bool, bool))
        requires
            scene_ready(old(self)@),
            core_bounded(old(self)@, FRAME_LIMIT as int),
            0 <= old(self)@.score <= SCORE_CAP as int,
            0 <= old(self)@.sub_score <= SCORE_CAP as int,
            0 <= old(self)@.frames <= FRAME_CAP as int,
        ensures
            final(self)@ == frame_physics_spec(old(self)@),
            scene_ready(final(self)@),
            core_bounded(final(self)@, 9 * FRAME_LIMIT as int),
            final(self)@.score == old(self)@.score,
            final(self)@.sub_score == old(self)@.sub_score,
            final(self)@.frames == old(self)@.frames,
            ev.0 == (key_down(old(self)@.input, old(self)@.keyboard.up) && !old(self)@.is_jumping),
            ev.1 == landed_cond(left_vertical_spec(jump_start_spec(old(self)@))),
    {
        let ghost m7 = self@;
        let jumped: bool = self.jump_start_step();
        let ghost m8 = self@;
        proof {
            lemma_jump_start_bounded(m7, FRAME_LIMIT as int);
        }
        self.left_vertical_step();
        let ghost m9 = self@;
        proof {
            lemma_left_vertical_bounded(m8, FRAME_LIMIT as int);
        }
        let landed: bool = self.right_vertical_step();
        proof {
            lemma_right_vertical_bounded(m9, 3 * FRAME_LIMIT as int);
        }
        (jumped, landed)
    }

    /// The back half of a frame: the held-key moves, the pose resets, the
    /// floor clamps, the batch refresh, the power-up pickups, the input
    /// edge advance, the player-versus-player touch and the frame count.
    #[verifier::rlimit(100)]
    #[verifier::spinoff_prover]
    fn frame_back(&mut self) -> (quit: bool)
        requires
            scene_ready(old(self)@),
            core_bounded(old(self)@, 9 * FRAME_LIMIT as int),
            0 <= old(self)@.score <= SCORE_CAP as int,
            0 <= old(self)@.sub_score <= SCORE_CAP as int,
            0 <= old(self)@.frames <= FRAME_CAP as int,
        ensures
            final(self)@ == frame_back_spec(old(self)@),
            scene_ready(final(self)@),
            quit == ({
                let m18 = input_advance_spec(
                    pickups_spec(
                        refresh_all_spec(
                            floor_clamp_spec(
                                move_left_spec(release_pose_spec(move_right_spec(old(self)@))),
                            ),
                        ),
                    ),
                );
                players_overlap(
                    m18.groups[LEFT_PLAYER_GROUP as int].sprites[0],
                    m18.groups[RIGHT_PLAYER_GROUP as int].sprites[0],
                ) && m18.score > WIN_SCORE
            }),
    {
        let ghost m10 = self@;
        self.move_right_step();
        let ghost m11 = self@;
        proof {
            lemma_move_right_bounded(m10, 9 * FRAME_LIMIT as int);
        }
        self.release_pose_step();
        let ghost m12 = self@;
        proof {
            lemma_release_pose_bounded(m11, 18 * FRAME_LIMIT as int);
        }
        self.move_left_step();
        let ghost m13 = self@;
        proof {
            lemma_move_left_bounded(m12, 18 * FRAME_LIMIT as int);
        }
        self.floor_clamp_step();
        let ghost m14 = self@;
        proof {
            lemma_floor_clamp_bounded(m13, 54 * FRAME_LIMIT as int);
        }
        self.refresh_all_step();
        let ghost m15 = self@;
        proof {
            lemma_refresh_all_bounded(m14, 54 * FRAME_LIMIT as int);
        }
        self.pickup_step();
        let ghost m16 = self@;
        proof {
            lemma_pickups_bounded(m15, 54 * FRAME_LIMIT as int);
        }
        self.input_advance_step();
        let ghost m17 = self@;
        proof {
            lemma_input_advance_bounded(m16, 54 * FRAME_LIMIT as int);
        }
        let quit: bool = self.pvp_step();
        let ghost m18 = self@;
        self.frames = self.frames + 1;
        proof {
            assert(self@ =~~= frame_back_spec(m10));
        }
        quit
    }

    /// One whole frame of the game-state machine, in order: power-up
    /// expiry, option toggles, the confirm and cancel transitions, the menu
    /// cursor, the jump start, both players' vertical physics, the held-key
    /// moves, the pose resets, the floor clamps, the batch refresh of every
    /// GPU mirror, the power-up pickups, the input edge advance, the
    /// player-versus-player touch, and the frame count.  The returned
    /// events carry the audio cues and the end-of-run decision.
    pub fn frame(&mut self) -> (ev: FrameEvents)
        requires
            frame_requires(old(self)@),
        ensures
            final(self)@ == frame_spec(old(self)@),
            scene_ready(final(self)@),
            ev.jumped == jumped_event(old(self)@),
            ev.landed == landed_event(old(self)@),
            ev.exit == exit_event(old(self)@),
    {
        let ghost m0 = self@;
        self.frame_menu();
        let ghost m7 = self@;
        let cues: (bool, bool) = self.frame_physics();
        proof {
            assert(self@ == frame_prefix10(m0));
        }
        let quit: bool = self.frame_back();
        proof {
            assert(self@ =~~= frame_spec(m0));
        }
        FrameEvents { exit: quit, jumped: cues.0, landed: cues.1 }
    }

    /// Does the engine state meet everything [`Engine::frame`] asks of it?
    /// An unverified caller tests this before each frame.
    pub fn frame_ready(&self) -> (r: bool)
        ensures
            r == frame_requires(self@),
    {
        if self.sprites.groups.len() != GROUP_COUNT {
            return false;
        }
        if self.input.now.len() != KEY_COUNT || self.input.prev.len() != KEY_COUNT {
            return false;
        }
        if self.sprites.group_size(BACKGROUND_GROUP) < 1 || self.sprites.group_size(OBSTACLE_GROUP)
            < 4 || self.sprites.group_size(LEFT_PLAYER_GROUP) < 1 || self.sprites.group_size(
            RIGHT_PLAYER_GROUP,
        ) < 1 || self.sprites.group_size(SCORE_GROUP) < 9 || self.sprites.group_size(POWERUP_GROUP)
            < 1 || self.sprites.group_size(TITLE_GROUP) < 1 || self.sprites.group_size(NAME_GROUP)
            < 10 || self.sprites.group_size(OPTIONS_TEXT_GROUP) < 7 || self.sprites.group_size(
            PLAY_TEXT_GROUP,
        ) < 4 || self.sprites.group_size(CURSOR_GROUP) < 1 || self.sprites.group_size(OVERLAY_GROUP)
            < 1 || self.sprites.group_size(INDICATOR_GROUP) < 3 {
            return false;
        }
        let mut g: usize = 0;
        while g < GROUP_COUNT
            invariant
                self.sprites@.len() == GROUP_COUNT,
                g <= GROUP_COUNT,
                forall|k: int|
                    0 <= k < g ==> (#[trigger] self.sprites@[k]).gpu.len()
                        == self.sprites@[k].sprites.len(),
            decreases GROUP_COUNT - g,
        {
            if self.sprites.groups[g].gpu_sprites.len() != self.sprites.groups[g].sprites.len() {
                proof {
                    assert(self.sprites@[g as int].gpu.len() != self.sprites@[g as int].sprites.len());
                }
                return false;
            }
            g = g + 1;
        }
        if !region_within_run(self.sprites.get_sprites(BACKGROUND_GROUP)[0].sheet_region) {
            return false;
        }
        let mut i: usize = 0;
        while i < 4
            invariant
                self.sprites@.len() == GROUP_COUNT,
                self.sprites@[OBSTACLE_GROUP as int].sprites.len() >= 4,
                i <= 4,
                forall|k: int|
                    0 <= k < i ==> region_within(
                        (#[trigger] self.sprites@[OBSTACLE_GROUP as int].sprites[k]).screen_region,
                        FRAME_LIMIT as int,
                    ),
            decreases 4 - i,
        {
            if !region_within_run(self.sprites.get_sprites(OBSTACLE_GROUP)[i].screen_region) {
                return false;
            }
            i = i + 1;
        }
        if !region_within_run(self.sprites.get_sprites(LEFT_PLAYER_GROUP)[0].screen_region) {
            return false;
        }
        if !region_within_run(self.sprites.get_sprites(RIGHT_PLAYER_GROUP)[0].screen_region) {
            return false;
        }
        let n: usize = self.sprites.group_size(POWERUP_GROUP);
        let mut j: usize = 0;
        while j < n
            invariant
                self.sprites@.len() == GROUP_COUNT,
                n == self.sprites@[POWERUP_GROUP as int].sprites.len(),
                j <= n,
                forall|k: int|
                    0 <= k < j ==> region_within(
                        (#[trigger] self.sprites@[POWERUP_GROUP as int].sprites[k]).screen_region,
                        FRAME_LIMIT as int,
                    ),
            decreases n - j,
        {
            if !region_within_run(self.sprites.get_sprites(POWERUP_GROUP)[j].screen_region) {
                return false;
            }
            j = j + 1;
        }
        if self.velocity_y < -FRAME_LIMIT || self.velocity_y > FRAME_LIMIT {
            return false;
        }
        if self.leftvelocity_y < -FRAME_LIMIT || self.leftvelocity_y > FRAME_LIMIT {
            return false;
        }
        if self.gravity < -FRAME_LIMIT || self.gravity > FRAME_LIMIT {
            return false;
        }
        if self.p1_speed < 0 || self.p1_speed > FRAME_LIMIT {
            return false;
        }
        if self.p2_speed < 0 || self.p2_speed > FRAME_LIMIT {
            return false;
        }
        if self.score > SCORE_CAP || self.sub_score > SCORE_CAP {
            return false;
        }
        if self.frames > FRAME_CAP {
            return false;
        }
        true
    }
}

/// Executable twin of `region_within` at the frame bound.
fn region_within_run(r: Region) -> (ok: bool)
    ensures
        ok == region_within(r, FRAME_LIMIT as int),
{
    -FRAME_LIMIT <= r.x && r.x <= FRAME_LIMIT && -FRAME_LIMIT <= r.y && r.y <= FRAME_LIMIT
        && -FRAME_LIMIT <= r.w && r.w <= FRAME_LIMIT && -FRAME_LIMIT <= r.h && r.h <= FRAME_LIMIT
}

} // verus!
