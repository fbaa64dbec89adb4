//! The sprite batching data model.
//!
//! A `SpriteRender` owns an append-only list of `SpriteGroup`s.  Each group
//! holds the CPU-side sprite records, the modelled contents of its GPU-side
//! storage buffer (the "mirror"), a camera snapshot together with the modelled
//! contents of the camera uniform buffer, and the texture the group samples.
//! Groups are addressed by the stable index handed out at insertion time;
//! sprites are addressed by their position inside the group.
//!
//! The GPU mirror is only brought up to date by an explicit
//! [`SpriteRender::refresh_sprites`] call: mutating a sprite record leaves the
//! mirror stale until the caller refreshes the range that covers it.

use vstd::prelude::*;

verus! {

/// Subunits per screen pixel (in a `screen_region`) and per normalized
/// texture unit (in a `sheet_region`).  The value is divisible by 5, 64, 72,
/// 88, 1000, 1600 and 1200, so every pixel and atlas constant of the engine
/// is exact.
pub const COORD_SCALE: i64 = 792000;

/// Bound on the coordinates a well-formed scene may hold.  Keeping every
/// coordinate, velocity and speed within this range guarantees that the sums
/// of a frame step stay far away from `i64` overflow.
pub const COORD_LIMIT: i64 = 0x38d7ea4c68000;

/// An axis-aligned rectangle in fixed-point coordinates: either a screen
/// placement (origin plus width and height, in subpixels) or a texture-atlas
/// region (origin plus extent, in subunits of the normalized sheet).
#[derive(Clone, Copy, PartialEq, Eq, Structural, Debug)]
pub struct Region {
    pub x: i64,
    pub y: i64,
    pub w: i64,
    pub h: i64,
}

/// One sprite record: where it sits on screen (also its collision box) and
/// which part of the sprite sheet it samples.
#[derive(Clone, Copy, PartialEq, Eq, Structural, Debug)]
pub struct GPUSprite {
    pub screen_region: Region,
    pub sheet_region: Region,
}

/// A camera: position and size of the visible screen-space window.
#[derive(Clone, Copy, PartialEq, Eq, Structural, Debug)]
pub struct GPUCamera {
    pub screen_pos_x: i64,
    pub screen_pos_y: i64,
    pub screen_size_x: i64,
    pub screen_size_y: i64,
}

/// Handle to a loaded texture: an identifier chosen by the caller that owns
/// the real GPU object, plus the pixel dimensions of the decoded image.
#[derive(Clone, Copy, PartialEq, Eq, Structural, Debug)]
pub struct Texture {
    pub id: u64,
    pub width: u32,
    pub height: u32,
}

/// One instanced draw: bind the bind groups of `group_index`, then draw
/// `vertex_count` vertices (two triangles forming a quad) for each of
/// `instance_count` sprites.
#[derive(Clone, Copy, PartialEq, Eq, Structural, Debug)]
pub struct DrawCall {
    pub group_index: usize,
    pub vertex_count: usize,
    pub instance_count: usize,
}

/// Is a coordinate within the range a well-formed scene keeps?
pub open spec fn coord_ok(v: i64) -> bool {
    -COORD_LIMIT <= v <= COORD_LIMIT
}

/// All four coordinates of a rectangle are in range.
pub open spec fn region_ok(r: Region) -> bool {
    coord_ok(r.x) && coord_ok(r.y) && coord_ok(r.w) && coord_ok(r.h)
}

/// The mathematical model of one sprite group: the CPU-side records, the
/// modelled GPU buffer contents, both camera copies, and the texture handle.
#[verifier::ext_equal]
pub struct GroupModel {
    pub sprites: Seq<GPUSprite>,
    pub gpu: Seq<GPUSprite>,
    pub camera: GPUCamera,
    pub gpu_camera: GPUCamera,
    pub tex: Texture,
}

/// A batch of sprites sharing one texture and one GPU buffer, drawn with a
/// single instanced call.
pub struct SpriteGroup {
    /// CPU-side sprite records, mutated in place by index.
    pub sprites: Vec<GPUSprite>,
    /// Modelled contents of the GPU-side storage buffer that mirrors
    /// `sprites`; stale until a refresh covers the mutated range.
    pub gpu_sprites: Vec<GPUSprite>,
    /// CPU-side camera snapshot.
    pub camera: GPUCamera,
    /// Modelled contents of the camera uniform buffer.
    pub gpu_camera: GPUCamera,
    /// The texture this group samples.
    pub tex: Texture,
}

impl View for SpriteGroup {
    type V = GroupModel;

    open spec fn view(&self) -> GroupModel {
        GroupModel {
            sprites: self.sprites@,
            gpu: self.gpu_sprites@,
            camera: self.camera,
            gpu_camera: self.gpu_camera,
            tex: self.tex,
        }
    }
}

/// The batching engine: the ordered, append-only collection of sprite groups.
pub struct SpriteRender {
    pub groups: Vec<SpriteGroup>,
}

impl View for SpriteRender {
    type V = Seq<GroupModel>;

    open spec fn view(&self) -> Seq<GroupModel> {
        Seq::new(self.groups@.len(), |i: int| self.groups@[i]@)
    }
}

/// The scene with sprite `i` of group `g` replaced by `s`; every other
/// sprite, the GPU mirrors and the cameras are untouched.
pub open spec fn upd_sprite(groups: Seq<GroupModel>, g: int, i: int, s: GPUSprite) -> Seq<
    GroupModel,
> {
    groups.update(g, GroupModel { sprites: groups[g].sprites.update(i, s), ..groups[g] })
}

/// `s` with its screen placement replaced.
pub open spec fn with_screen(s: GPUSprite, r: Region) -> GPUSprite {
    GPUSprite { screen_region: r, ..s }
}

/// `s` with its atlas region replaced.
pub open spec fn with_sheet(s: GPUSprite, r: Region) -> GPUSprite {
    GPUSprite { sheet_region: r, ..s }
}

/// A screen placement collapsed to zero area: the position is kept, the
/// extent is zeroed.  This is the convention for an invisible, non-colliding
/// sprite.
pub open spec fn hidden(r: Region) -> Region {
    Region { x: r.x, y: r.y, w: 0, h: 0 }
}

/// Screen extent a hidden power-up sprite is restored to: 64 pixels square.
pub const POWERUP_SIZE: i64 = 64 * COORD_SCALE;

/// How far `platform_move` shifts each platform's atlas region.
pub const PLATFORM_SHIFT: i64 = 32 * COORD_SCALE;

/// Margin taken off both players' boxes before the player-versus-player
/// overlap test, so that the sprites must visibly meet before a collision is
/// reported: 60 pixels.
pub const PLAYER_INSET: i64 = 60 * COORD_SCALE;

/// Index of the group `platform_move` scrolls.
pub const PLATFORM_GROUP: usize = 2;

/// Group/index pair of the first player sprite in `player_collision`.
pub const PLAYER_ONE_GROUP: usize = 2;

/// Group/index pair of the second player sprite in `player_collision`.
pub const PLAYER_TWO_GROUP: usize = 3;

/// A sprite after a power-up respawn pass: a zero-width placement gets the
/// standard power-up extent back (position and atlas region kept), any other
/// sprite is untouched.
pub open spec fn respawned(s: GPUSprite) -> GPUSprite {
    if s.screen_region.w == 0 {
        with_screen(
            s,
            Region {
                x: s.screen_region.x,
                y: s.screen_region.y,
                w: POWERUP_SIZE,
                h: POWERUP_SIZE,
            },
        )
    } else {
        s
    }
}

/// Does the entity sprite `p` hit the candidate sprite `c`?
///
/// The test keeps the shape of the engine's historical short-circuit checks:
/// horizontally only the entity's left edge is examined (it must fall inside
/// the candidate's horizontal span), vertically the two spans must overlap.
/// The boundary convention is strict: boxes that merely share an edge, and
/// candidates with a zero extent (logically deleted), never hit.
pub open spec fn hits(p: GPUSprite, c: GPUSprite) -> bool {
    &&& c.screen_region.x <= p.screen_region.x
    &&& p.screen_region.x < c.screen_region.x + c.screen_region.w
    &&& p.screen_region.y + p.screen_region.h > c.screen_region.y
    &&& p.screen_region.y < c.screen_region.y + c.screen_region.h
}

/// Do the two player sprites overlap, once both boxes are shrunk by the
/// fixed inset margin?  All four comparisons are strict, as in the frame
/// loop's historical test.
pub open spec fn players_overlap(p1: GPUSprite, p2: GPUSprite) -> bool {
    let a = p1.screen_region;
    let b = p2.screen_region;
    &&& a.x < b.x + b.w - PLAYER_INSET
    &&& a.x + a.w - PLAYER_INSET > b.x
    &&& a.y < b.y + b.h - PLAYER_INSET
    &&& a.y + a.h - PLAYER_INSET > b.y
}

/// The atlas cell of the font sheet that shows decimal digit `d`.
///
/// Digits 1 through 9 sit in one row of the sheet; the cell for 0 is the
/// same cell that a score position shows before any digit is written to it,
/// so every value of `d` outside 1..=9 maps to it.
pub open spec fn digit_cell(d: int) -> Region {
    if d == 1 {
        Region { x: 0, y: 432000, w: 88000, h: 72000 }
    } else if d == 2 {
        Region { x: 88000, y: 432000, w: 88000, h: 72000 }
    } else if d == 3 {
        Region { x: 176000, y: 432000, w: 88000, h: 72000 }
    } else if d == 4 {
        Region { x: 264000, y: 432000, w: 88000, h: 72000 }
    } else if d == 5 {
        Region { x: 352000, y: 432000, w: 88000, h: 72000 }
    } else if d == 6 {
        Region { x: 440000, y: 432000, w: 88000, h: 72000 }
    } else if d == 7 {
        Region { x: 528000, y: 432000, w: 88000, h: 72000 }
    } else if d == 8 {
        Region { x: 616000, y: 432000, w: 88000, h: 72000 }
    } else if d == 9 {
        Region { x: 704000, y: 432000, w: 88000, h: 72000 }
    } else {
        Region { x: 704000, y: 360000, w: 88000, h: 72000 }
    }
}

/// The three atlas cells that show a score: hundreds, tens, units.
///
/// A score above 999 has no cell for its hundreds position; that position
/// then keeps the cell for 0, which is what the digit lookup leaves in place
/// when no digit from 1 to 9 matches.
pub open spec fn score_cells(s: int) -> (Region, Region, Region) {
    (
        digit_cell(
            if s / 100 <= 9 {
                s / 100
            } else {
                0
            },
        ),
        digit_cell((s % 100) / 10),
        digit_cell(s % 10),
    )
}

impl SpriteRender {
    /// A renderer with no groups yet.
    pub fn new() -> (r: SpriteRender)
        ensures
            r@ =~= Seq::<GroupModel>::empty(),
    {
        SpriteRender { groups: Vec::new() }
    }

    /// Appends a group built from a texture, its initial sprite records and a
    /// camera.  The initial records are also the initial GPU buffer contents
    /// (the creation upload), and the camera is uploaded to the uniform
    /// buffer.  The returned index is the group's handle for all later
    /// operations; indices already handed out keep their meaning.
    pub fn add_sprite_group(
        &mut self,
        tex: Texture,
        sprites: Vec<GPUSprite>,
        camera: GPUCamera,
    ) -> (group_index: usize)
        ensures
            final(self)@ =~= old(self)@.push(GroupModel {
                sprites: sprites@,
                gpu: sprites@,
                camera: camera,
                gpu_camera: camera,
                tex: tex,
            }),
            group_index == old(self)@.len(),
    {
        let group_index: usize = self.groups.len();
        let gpu_sprites: Vec<GPUSprite> = sprites.clone();
        self.groups.push(SpriteGroup {
            sprites,
            gpu_sprites,
            camera,
            gpu_camera: camera,
            tex,
        });
        group_index
    }

    /// Read-only view of a group's CPU-side sprite records.
    pub fn get_sprites(&self, which: usize) -> (s: &Vec<GPUSprite>)
        requires
            which < self@.len(),
        ensures
            s@ == self@[which as int].sprites,
    {
        &self.groups[which].sprites
    }

    /// The number of sprites in a group.
    pub fn group_size(&self, which: usize) -> (n: usize)
        requires
            which < self@.len(),
        ensures
            n == self@[which as int].sprites.len(),
    {
        self.groups[which].sprites.len()
    }

    /// Mutable handle to one sprite record.  The GPU mirror is not touched:
    /// the caller must refresh the covering range before the next draw.
    pub fn get_sprite_mut(&mut self, which: usize, index: usize) -> (s: &mut GPUSprite)
        requires
            which < old(self)@.len(),
            index < old(self)@[which as int].sprites.len(),
        ensures
            *s == old(self)@[which as int].sprites[index as int],
            final(self)@.len() == old(self)@.len(),
            forall|g: int|
                0 <= g < old(self)@.len() && g != which ==> #[trigger] final(self)@[g] == old(
                    self,
                )@[g],
            final(self)@[which as int] == (GroupModel {
                sprites: old(self)@[which as int].sprites.update(index as int, *final(s)),
                ..old(self)@[which as int]
            }),
    {
        let grp: &mut SpriteGroup = &mut self.groups[which];
        let s: &mut GPUSprite = &mut grp.sprites[index];
        s
    }

    /// Mutable handle to a group's whole CPU-side sprite array.
    pub fn get_all_sprites_mut(&mut self, which: usize) -> (s: &mut Vec<GPUSprite>)
        requires
            which < old(self)@.len(),
        ensures
            s@ == old(self)@[which as int].sprites,
            final(self)@.len() == old(self)@.len(),
            forall|g: int|
                0 <= g < old(self)@.len() && g != which ==> #[trigger] final(self)@[g] == old(
                    self,
                )@[g],
            final(self)@[which as int] == (GroupModel {
                sprites: final(s)@,
                ..old(self)@[which as int]
            }),
    {
        let grp: &mut SpriteGroup = &mut self.groups[which];
        let s: &mut Vec<GPUSprite> = &mut grp.sprites;
        s
    }

    /// Re-uploads the sprite records `start..end` of one group to its GPU
    /// buffer: after the call the mirror agrees with the CPU array on exactly
    /// that range and is untouched outside it.
    pub fn refresh_sprites(&mut self, which: usize, start: usize, end: usize)
        requires
            which < old(self)@.len(),
            start <= end,
            end <= old(self)@[which as int].sprites.len(),
            old(self)@[which as int].gpu.len() == old(self)@[which as int].sprites.len(),
        ensures
            final(self)@ == old(self)@.update(
                which as int,
                (GroupModel {
                    gpu: Seq::new(
                        old(self)@[which as int].gpu.len(),
                        |i: int|
                            if start <= i < end {
                                old(self)@[which as int].sprites[i]
                            } else {
                                old(self)@[which as int].gpu[i]
                            },
                    ),
                    ..old(self)@[which as int]
                }),
            ),
    {
        let grp: &mut SpriteGroup = &mut self.groups[which];
        let mut i: usize = start;
        while i < end
            invariant
                which < old(self)@.len(),
                start <= i <= end,
                end <= grp.sprites@.len(),
                old(self)@[which as int].gpu.len() == old(self)@[which as int].sprites.len(),
                grp.sprites@ == old(self)@[which as int].sprites,
                grp.camera == old(self)@[which as int].camera,
                grp.gpu_camera == old(self)@[which as int].gpu_camera,
                grp.tex == old(self)@[which as int].tex,
                grp.gpu_sprites@.len() == old(self)@[which as int].gpu.len(),
                forall|j: int|
                    0 <= j < grp.gpu_sprites@.len() ==> #[trigger] grp.gpu_sprites@[j] == (
                    if start <= j < i {
                        old(self)@[which as int].sprites[j]
                    } else {
                        old(self)@[which as int].gpu[j]
                    }),
            decreases end - i,
        {
            let v: GPUSprite = grp.sprites[i];
            grp.gpu_sprites.set(i, v);
            i = i + 1;
        }
        proof {
            assert(grp.gpu_sprites@ =~= Seq::new(
                old(self)@[which as int].gpu.len(),
                |i: int|
                    if start <= i < end {
                        old(self)@[which as int].sprites[i]
                    } else {
                        old(self)@[which as int].gpu[i]
                    },
            ));
            assert(self@ =~= old(self)@.update(
                which as int,
                GroupModel {
                    gpu: Seq::new(
                        old(self)@[which as int].gpu.len(),
                        |i: int|
                            if start <= i < end {
                                old(self)@[which as int].sprites[i]
                            } else {
                                old(self)@[which as int].gpu[i]
                            },
                    ),
                    ..old(self)@[which as int]
                },
            ));
        }
    }

    /// Replaces one group's camera snapshot and re-uploads it to the uniform
    /// buffer.
    pub fn set_camera(&mut self, index: usize, camera: GPUCamera)
        requires
            index < old(self)@.len(),
        ensures
            final(self)@ == old(self)@.update(
                index as int,
                (GroupModel { camera: camera, gpu_camera: camera, ..old(self)@[index as int] }),
            ),
    {
        let grp: &mut SpriteGroup = &mut self.groups[index];
        grp.camera = camera;
        grp.gpu_camera = camera;
        proof {
            assert(self@ =~= old(self)@.update(
                index as int,
                GroupModel { camera: camera, gpu_camera: camera, ..old(self)@[index as int] },
            ));
        }
    }

    /// Replaces the camera of every group, re-uploading each uniform buffer.
    pub fn set_camera_all(&mut self, camera: GPUCamera)
        ensures
            final(self)@ == Seq::new(
                old(self)@.len(),
                |i: int| GroupModel { camera: camera, gpu_camera: camera, ..old(self)@[i] },
            ),
    {
        let n: usize = self.groups.len();
        let mut sg_index: usize = 0;
        while sg_index < n
            invariant
                sg_index <= n,
                n == self@.len(),
                self@.len() == old(self)@.len(),
                forall|i: int|
                    0 <= i < self@.len() ==> #[trigger] self@[i] == (if i < sg_index {
                        GroupModel { camera: camera, gpu_camera: camera, ..old(self)@[i] }
                    } else {
                        old(self)@[i]
                    }),
            decreases n - sg_index,
        {
            self.set_camera(sg_index, camera);
            sg_index = sg_index + 1;
        }
        proof {
            assert(self@ =~= Seq::new(
                old(self)@.len(),
                |i: int| GroupModel { camera: camera, gpu_camera: camera, ..old(self)@[i] },
            ));
        }
    }

    /// Issues the per-frame draw list: one instanced call per group, in
    /// insertion order, with six vertices (one quad) per instance and one
    /// instance per sprite record — including logically deleted sprites,
    /// which render as degenerate zero-area quads.
    pub fn render(&self) -> (calls: Vec<DrawCall>)
        ensures
            calls@.len() == self@.len(),
            forall|i: int|
                0 <= i < calls@.len() ==> #[trigger] calls@[i] == (DrawCall {
                    group_index: i as usize,
                    vertex_count: 6,
                    instance_count: self@[i].sprites.len() as usize,
                }),
    {
        let mut calls: Vec<DrawCall> = Vec::new();
        let n: usize = self.groups.len();
        let mut i: usize = 0;
        while i < n
            invariant
                i <= n,
                n == self@.len(),
                calls@.len() == i,
                forall|j: int|
                    0 <= j < i ==> #[trigger] calls@[j] == (DrawCall {
                        group_index: j as usize,
                        vertex_count: 6,
                        instance_count: self@[j].sprites.len() as usize,
                    }),
            decreases n - i,
        {
            let count: usize = self.groups[i].sprites.len();
            calls.push(DrawCall { group_index: i, vertex_count: 6, instance_count: count });
            i = i + 1;
        }
        calls
    }

    /// Moves sprite 0 of a group: replaces its screen placement.
    pub fn update_position(&mut self, new_region: Region, sprite: usize)
        requires
            sprite < old(self)@.len(),
            old(self)@[sprite as int].sprites.len() > 0,
        ensures
            final(self)@ == upd_sprite(
                old(self)@,
                sprite as int,
                0,
                with_screen(old(self)@[sprite as int].sprites[0], new_region),
            ),
    {
        let the_sprite: &mut GPUSprite = self.get_sprite_mut(sprite, 0);
        the_sprite.screen_region = new_region;
        proof {
            assert(self@ =~= upd_sprite(
                old(self)@,
                sprite as int,
                0,
                with_screen(old(self)@[sprite as int].sprites[0], new_region),
            ));
        }
    }

    /// Re-points sprite 0 of a group at another atlas region.
    pub fn update_sprite(&mut self, new_region: Region, sprite: usize)
        requires
            sprite < old(self)@.len(),
            old(self)@[sprite as int].sprites.len() > 0,
        ensures
            final(self)@ == upd_sprite(
                old(self)@,
                sprite as int,
                0,
                with_sheet(old(self)@[sprite as int].sprites[0], new_region),
            ),
    {
        let the_sprite: &mut GPUSprite = self.get_sprite_mut(sprite, 0);
        the_sprite.sheet_region = new_region;
        proof {
            assert(self@ =~= upd_sprite(
                old(self)@,
                sprite as int,
                0,
                with_sheet(old(self)@[sprite as int].sprites[0], new_region),
            ));
        }
    }

    /// Re-points one sprite of a group at another atlas region; used for the
    /// score digit sprites.
    pub fn update_sprite_score(&mut self, new_region: Region, sprite: usize, index: usize)
        requires
            sprite < old(self)@.len(),
            index < old(self)@[sprite as int].sprites.len(),
        ensures
            final(self)@ == upd_sprite(
                old(self)@,
                sprite as int,
                index as int,
                with_sheet(old(self)@[sprite as int].sprites[index as int], new_region),
            ),
    {
        let the_sprite: &mut GPUSprite = self.get_sprite_mut(sprite, index);
        the_sprite.sheet_region = new_region;
        proof {
            assert(self@ =~= upd_sprite(
                old(self)@,
                sprite as int,
                index as int,
                with_sheet(old(self)@[sprite as int].sprites[index as int], new_region),
            ));
        }
    }

    /// Hides one sprite by giving it a zero-area placement at the position of
    /// the rectangle the caller passes in.
    pub fn zero_sprite(&mut self, old_region: Region, sprite: usize, index: usize)
        requires
            sprite < old(self)@.len(),
            index < old(self)@[sprite as int].sprites.len(),
        ensures
            final(self)@ == upd_sprite(
                old(self)@,
                sprite as int,
                index as int,
                with_screen(
                    old(self)@[sprite as int].sprites[index as int],
                    hidden(old_region),
                ),
            ),
    {
        let the_sprite: &mut GPUSprite = self.get_sprite_mut(sprite, index);
        let new_region = Region { x: old_region.x, y: old_region.y, w: 0, h: 0 };
        the_sprite.screen_region = new_region;
        proof {
            assert(self@ =~= upd_sprite(
                old(self)@,
                sprite as int,
                index as int,
                with_screen(old(self)@[sprite as int].sprites[index as int], hidden(old_region)),
            ));
        }
    }

    /// Resizes one sprite's screen placement, keeping its position.
    pub fn set_screen_size_sprite(&mut self, sprite: usize, index: usize, new_w: i64, new_h: i64)
        requires
            sprite < old(self)@.len(),
            index < old(self)@[sprite as int].sprites.len(),
        ensures
            final(self)@ == upd_sprite(
                old(self)@,
                sprite as int,
                index as int,
                with_screen(
                    old(self)@[sprite as int].sprites[index as int],
                    (Region {
                        x: old(self)@[sprite as int].sprites[index as int].screen_region.x,
                        y: old(self)@[sprite as int].sprites[index as int].screen_region.y,
                        w: new_w,
                        h: new_h,
                    }),
                ),
            ),
    {
        let the_sprite: &mut GPUSprite = self.get_sprite_mut(sprite, index);
        let mut old_region = the_sprite.screen_region;
        old_region.w = new_w;
        old_region.h = new_h;
        the_sprite.screen_region = old_region;
        proof {
            assert(self@ =~= upd_sprite(
                old(self)@,
                sprite as int,
                index as int,
                with_screen(
                    old(self)@[sprite as int].sprites[index as int],
                    Region {
                        x: old(self)@[sprite as int].sprites[index as int].screen_region.x,
                        y: old(self)@[sprite as int].sprites[index as int].screen_region.y,
                        w: new_w,
                        h: new_h,
                    },
                ),
            ));
        }
    }

    /// Logically deletes one sprite: zeroes the extent of its screen
    /// placement so that it neither renders visibly nor collides, keeping its
    /// position and its slot in the group.
    pub fn delete_sprite(&mut self, which: usize, sprite: usize)
        requires
            which < old(self)@.len(),
            sprite < old(self)@[which as int].sprites.len(),
        ensures
            final(self)@ == upd_sprite(
                old(self)@,
                which as int,
                sprite as int,
                with_screen(
                    old(self)@[which as int].sprites[sprite as int],
                    hidden(old(self)@[which as int].sprites[sprite as int].screen_region),
                ),
            ),
    {
        let the_sprite: &mut GPUSprite = self.get_sprite_mut(which, sprite);
        let new_region = Region {
            x: the_sprite.screen_region.x,
            y: the_sprite.screen_region.y,
            w: 0,
            h: 0,
        };
        the_sprite.screen_region = new_region;
        proof {
            assert(self@ =~= upd_sprite(
                old(self)@,
                which as int,
                sprite as int,
                with_screen(
                    old(self)@[which as int].sprites[sprite as int],
                    hidden(old(self)@[which as int].sprites[sprite as int].screen_region),
                ),
            ));
        }
    }

    /// Restores every hidden sprite of a group to the standard power-up
    /// extent; sprites with a non-zero width are left exactly as they are.
    pub fn respawn_powerup(&mut self, which: usize)
        requires
            which < old(self)@.len(),
        ensures
            final(self)@ == old(self)@.update(
                which as int,
                (GroupModel {
                    sprites: Seq::new(
                        old(self)@[which as int].sprites.len(),
                        |i: int| respawned(old(self)@[which as int].sprites[i]),
                    ),
                    ..old(self)@[which as int]
                }),
            ),
    {
        let grp: &mut SpriteGroup = &mut self.groups[which];
        let n: usize = grp.sprites.len();
        let mut i: usize = 0;
        while i < n
            invariant
                which < old(self)@.len(),
                i <= n,
                n == old(self)@[which as int].sprites.len(),
                grp.sprites@.len() == n,
                grp.gpu_sprites@ == old(self)@[which as int].gpu,
                grp.camera == old(self)@[which as int].camera,
                grp.gpu_camera == old(self)@[which as int].gpu_camera,
                grp.tex == old(self)@[which as int].tex,
                forall|j: int|
                    0 <= j < n ==> #[trigger] grp.sprites@[j] == (if j < i {
                        respawned(old(self)@[which as int].sprites[j])
                    } else {
                        old(self)@[which as int].sprites[j]
                    }),
            decreases n - i,
        {
            let mut s: GPUSprite = grp.sprites[i];
            if s.screen_region.w == 0 {
                s.screen_region.w = POWERUP_SIZE;
                s.screen_region.h = POWERUP_SIZE;
                grp.sprites.set(i, s);
            }
            i = i + 1;
        }
        proof {
            assert(grp.sprites@ =~= Seq::new(
                old(self)@[which as int].sprites.len(),
                |i: int| respawned(old(self)@[which as int].sprites[i]),
            ));
            assert(self@ =~= old(self)@.update(
                which as int,
                GroupModel {
                    sprites: Seq::new(
                        old(self)@[which as int].sprites.len(),
                        |i: int| respawned(old(self)@[which as int].sprites[i]),
                    ),
                    ..old(self)@[which as int]
                },
            ));
        }
    }

    /// Shifts the atlas region of every sprite in the platform group by the
    /// fixed platform step.
    pub fn platform_move(&mut self)
        requires
            old(self)@.len() > PLATFORM_GROUP,
            forall|i: int|
                0 <= i < old(self)@[PLATFORM_GROUP as int].sprites.len() ==> coord_ok(
                    #[trigger] old(self)@[PLATFORM_GROUP as int].sprites[i].sheet_region.x,
                ),
        ensures
            final(self)@ == old(self)@.update(
                PLATFORM_GROUP as int,
                (GroupModel {
                    sprites: Seq::new(
                        old(self)@[PLATFORM_GROUP as int].sprites.len(),
                        |i: int|
                            with_sheet(
                                old(self)@[PLATFORM_GROUP as int].sprites[i],
                                (Region {
                                    x: (old(self)@[PLATFORM_GROUP as int].sprites[i].sheet_region.x
                                        + PLATFORM_SHIFT) as i64,
                                    ..old(self)@[PLATFORM_GROUP as int].sprites[i].sheet_region
                                }),
                            ),
                    ),
                    ..old(self)@[PLATFORM_GROUP as int]
                }),
            ),
    {
        let grp: &mut SpriteGroup = &mut self.groups[PLATFORM_GROUP];
        let n: usize = grp.sprites.len();
        let mut i: usize = 0;
        while i < n
            invariant
                old(self)@.len() > PLATFORM_GROUP,
                i <= n,
                n == old(self)@[PLATFORM_GROUP as int].sprites.len(),
                grp.sprites@.len() == n,
                grp.gpu_sprites@ == old(self)@[PLATFORM_GROUP as int].gpu,
                grp.camera == old(self)@[PLATFORM_GROUP as int].camera,
                grp.gpu_camera == old(self)@[PLATFORM_GROUP as int].gpu_camera,
                grp.tex == old(self)@[PLATFORM_GROUP as int].tex,
                forall|j: int|
                    0 <= j < n ==> coord_ok(
                        #[trigger] old(self)@[PLATFORM_GROUP as int].sprites[j].sheet_region.x,
                    ),
                forall|j: int|
                    0 <= j < n ==> #[trigger] grp.sprites@[j] == (if j < i {
                        with_sheet(
                            old(self)@[PLATFORM_GROUP as int].sprites[j],
                            Region {
                                x: (old(self)@[PLATFORM_GROUP as int].sprites[j].sheet_region.x
                                    + PLATFORM_SHIFT) as i64,
                                ..old(self)@[PLATFORM_GROUP as int].sprites[j].sheet_region
                            },
                        )
                    } else {
                        old(self)@[PLATFORM_GROUP as int].sprites[j]
                    }),
            decreases n - i,
        {
            let mut platform: GPUSprite = grp.sprites[i];
            platform.sheet_region.x = platform.sheet_region.x + PLATFORM_SHIFT;
            grp.sprites.set(i, platform);
            i = i + 1;
        }
        proof {
            assert(grp.sprites@ =~= Seq::new(
                old(self)@[PLATFORM_GROUP as int].sprites.len(),
                |i: int|
                    with_sheet(
                        old(self)@[PLATFORM_GROUP as int].sprites[i],
                        Region {
                            x: (old(self)@[PLATFORM_GROUP as int].sprites[i].sheet_region.x
                                + PLATFORM_SHIFT) as i64,
                            ..old(self)@[PLATFORM_GROUP as int].sprites[i].sheet_region
                        },
                    ),
            ));
            assert(self@ =~= old(self)@.update(
                PLATFORM_GROUP as int,
                GroupModel {
                    sprites: Seq::new(
                        old(self)@[PLATFORM_GROUP as int].sprites.len(),
                        |i: int|
                            with_sheet(
                                old(self)@[PLATFORM_GROUP as int].sprites[i],
                                Region {
                                    x: (old(self)@[PLATFORM_GROUP as int].sprites[i].sheet_region.x
                                        + PLATFORM_SHIFT) as i64,
                                    ..old(self)@[PLATFORM_GROUP as int].sprites[i].sheet_region
                                },
                            ),
                    ),
                    ..old(self)@[PLATFORM_GROUP as int]
                },
            ));
        }
    }

    /// The three atlas cells that show a score, hundreds first.  The scene
    /// itself is untouched: writing the cells into the score sprites is the
    /// caller's move.
    pub fn update_score(&mut self, score_amount: usize) -> (cells: (Region, Region, Region))
        ensures
            *final(self) == *old(self),
            cells == score_cells(score_amount as int),
    {
        let mut score: usize = score_amount;
        let mut hundreds: Region = digit_sheet_cell(0);
        let mut tens: Region = digit_sheet_cell(0);
        let units: Region;
        if score >= 100 {
            let digit: usize = score / 100;
            if digit <= 9 {
                hundreds = digit_sheet_cell(digit);
            }
            score = score % 100;
        }
        if score >= 10 {
            let digit: usize = score / 10;
            tens = digit_sheet_cell(digit);
            score = score % 10;
        }
        units = digit_sheet_cell(score);
        proof {
            assert(score_amount as int % 100 / 10 == (if score_amount >= 100 {
                score_amount as int % 100
            } else {
                score_amount as int
            }) / 10);
        }
        (hundreds, tens, units)
    }

    /// Tests the first sprite of `player` against every sprite of `which`,
    /// front to back.  On the first hit the matched candidate is logically
    /// deleted and the call reports `true`; with no hit the scene is
    /// untouched.  Which sprite can hit is defined by [`hits`]: boxes that
    /// merely touch along an edge do not collide, and neither do logically
    /// deleted candidates.
    pub fn check_collisions(&mut self, player: usize, which: usize) -> (hit: bool)
        requires
            player < old(self)@.len(),
            which < old(self)@.len(),
            old(self)@[player as int].sprites.len() > 0,
            region_ok(old(self)@[player as int].sprites[0].screen_region),
            forall|i: int|
                0 <= i < old(self)@[which as int].sprites.len() ==> region_ok(
                    #[trigger] old(self)@[which as int].sprites[i].screen_region,
                ),
        ensures
            hit == (exists|i: int|
                0 <= i < old(self)@[which as int].sprites.len() && hits(
                    old(self)@[player as int].sprites[0],
                    #[trigger] old(self)@[which as int].sprites[i],
                )),
            hit == (first_hit(old(self)@[which as int].sprites, old(self)@[player as int].sprites[0])
                < old(self)@[which as int].sprites.len()),
            hit ==> final(self)@ == deleted_scene(
                old(self)@,
                which as int,
                first_hit(old(self)@[which as int].sprites, old(self)@[player as int].sprites[0]),
            ),
            !hit ==> final(self)@ == old(self)@,
    {
        let player_sprite: GPUSprite = self.groups[player].sprites[0];
        let topleft: i64 = player_sprite.screen_region.x;
        let bottomleft: i64 = player_sprite.screen_region.y;
        let bottomright: i64 = player_sprite.screen_region.y + player_sprite.screen_region.h;

        let n: usize = self.groups[which].sprites.len();
        let mut index: usize = 0;
        while index < n
            invariant
                player < old(self)@.len(),
                which < old(self)@.len(),
                self@ == old(self)@,
                index <= n,
                n == old(self)@[which as int].sprites.len(),
                old(self)@[player as int].sprites.len() > 0,
                player_sprite == old(self)@[player as int].sprites[0],
                region_ok(player_sprite.screen_region),
                topleft == player_sprite.screen_region.x,
                bottomleft == player_sprite.screen_region.y,
                bottomright == player_sprite.screen_region.y + player_sprite.screen_region.h,
                forall|i: int|
                    0 <= i < n ==> region_ok(
                        #[trigger] old(self)@[which as int].sprites[i].screen_region,
                    ),
                forall|j: int|
                    0 <= j < index ==> !hits(
                        player_sprite,
                        #[trigger] old(self)@[which as int].sprites[j],
                    ),
                first_hit(old(self)@[which as int].sprites, player_sprite) == first_hit_from(
                    old(self)@[which as int].sprites,
                    player_sprite,
                    index as int,
                ),
            decreases n - index,
        {
            let sprite: GPUSprite = self.groups[which].sprites[index];
            let tl: i64 = sprite.screen_region.x;
            let tr: i64 = sprite.screen_region.x + sprite.screen_region.w;
            let bl: i64 = sprite.screen_region.y;
            let br: i64 = sprite.screen_region.y + sprite.screen_region.h;

            let no_horizontal: bool = topleft < tl || topleft >= tr;
            let no_vertical: bool = bottomright <= bl || bottomleft >= br;
            if !no_horizontal && !no_vertical {
                proof {
                    assert(first_hit(old(self)@[which as int].sprites, player_sprite)
                        == index as int);
                }
                self.delete_sprite(which, index);
                return true;
            }
            proof {
                assert(first_hit_from(old(self)@[which as int].sprites, player_sprite, index as int)
                    == first_hit_from(
                    old(self)@[which as int].sprites,
                    player_sprite,
                    index as int + 1,
                ));
            }
            index = index + 1;
        }
        false
    }

    /// The player-versus-player proximity test between the first sprites of
    /// the two player groups, with the fixed inset applied to both boxes.
    pub fn player_collision(&mut self) -> (touching: bool)
        requires
            old(self)@.len() > PLAYER_TWO_GROUP,
            old(self)@[PLAYER_ONE_GROUP as int].sprites.len() > 0,
            old(self)@[PLAYER_TWO_GROUP as int].sprites.len() > 0,
            region_ok(old(self)@[PLAYER_ONE_GROUP as int].sprites[0].screen_region),
            region_ok(old(self)@[PLAYER_TWO_GROUP as int].sprites[0].screen_region),
        ensures
            *final(self) == *old(self),
            touching == players_overlap(
                old(self)@[PLAYER_ONE_GROUP as int].sprites[0],
                old(self)@[PLAYER_TWO_GROUP as int].sprites[0],
            ),
    {
        let player1: GPUSprite = self.groups[PLAYER_ONE_GROUP].sprites[0];
        let player2: GPUSprite = self.groups[PLAYER_TWO_GROUP].sprites[0];

        let a = player1.screen_region;
        let b = player2.screen_region;
        a.x < b.x + b.w - PLAYER_INSET && a.x + a.w - PLAYER_INSET > b.x && a.y < b.y + b.h
            - PLAYER_INSET && a.y + a.h - PLAYER_INSET > b.y
    }
}

/// The index of the first sprite from `i` on that `p` hits, or the length
/// of the sequence when none does.
pub open spec fn first_hit_from(sprites: Seq<GPUSprite>, p: GPUSprite, i: int) -> int
    decreases sprites.len() - i when i <= sprites.len()
{
    if i >= sprites.len() {
        sprites.len() as int
    } else if hits(p, sprites[i]) {
        i
    } else {
        first_hit_from(sprites, p, i + 1)
    }
}

/// The index of the first sprite that `p` hits, or the length of the
/// sequence when none does.
pub open spec fn first_hit(sprites: Seq<GPUSprite>, p: GPUSprite) -> int {
    first_hit_from(sprites, p, 0)
}

/// `first_hit_from` never leaves `i..=len`.
pub proof fn lemma_first_hit_from_bounds(sprites: Seq<GPUSprite>, p: GPUSprite, i: int)
    requires
        0 <= i <= sprites.len(),
    ensures
        i <= first_hit_from(sprites, p, i) <= sprites.len(),
    decreases sprites.len() - i,
{
    if i < sprites.len() && !hits(p, sprites[i]) {
        lemma_first_hit_from_bounds(sprites, p, i + 1);
    }
}

/// `first_hit` never leaves `0..=len`.
pub proof fn lemma_first_hit_bounds(sprites: Seq<GPUSprite>, p: GPUSprite)
    ensures
        0 <= first_hit(sprites, p) <= sprites.len(),
{
    lemma_first_hit_from_bounds(sprites, p, 0);
}

/// The scene after sprite `i` of group `g` was logically deleted: the same
/// update [`SpriteRender::delete_sprite`] promises.
pub open spec fn deleted_scene(groups: Seq<GroupModel>, g: int, i: int) -> Seq<GroupModel> {
    upd_sprite(
        groups,
        g,
        i,
        with_screen(groups[g].sprites[i], hidden(groups[g].sprites[i].screen_region)),
    )
}

/// The inverse of [`digit_cell`]: which decimal digit an atlas cell stands
/// for.
pub open spec fn cell_digit(r: Region) -> int {
    if r == digit_cell(1) {
        1
    } else if r == digit_cell(2) {
        2
    } else if r == digit_cell(3) {
        3
    } else if r == digit_cell(4) {
        4
    } else if r == digit_cell(5) {
        5
    } else if r == digit_cell(6) {
        6
    } else if r == digit_cell(7) {
        7
    } else if r == digit_cell(8) {
        8
    } else if r == digit_cell(9) {
        9
    } else {
        0
    }
}

/// Law: group indices are stable.  Appending a group — the only way the
/// group list ever changes shape — leaves every index already handed out
/// pointing at exactly the group it pointed at before, and the new group
/// lands at the old length, which is the index `add_sprite_group` returns.
pub proof fn lemma_index_stability(
    pre: Seq<GroupModel>,
    post: Seq<GroupModel>,
    g: GroupModel,
    k: int,
)
    requires
        post == pre.push(g),
        0 <= k < pre.len(),
    ensures
        post[k] == pre[k],
        post.len() == pre.len() + 1,
        post[pre.len() as int] == g,
{
}

/// Law: refresh/draw consistency.  After any mutation of sprite `i` of group
/// `g` (state `pre` to `mid`), a refresh of `start..end` covering `i` (state
/// `mid` to `post`, the exact update `refresh_sprites` promises) makes the
/// GPU mirror agree with the CPU records on the whole refreshed range — in
/// particular at `i`.  The buffer bytes the mirror stands for are a function
/// of the records, so equal records mean equal bytes.
pub proof fn lemma_refresh_consistency(
    pre: Seq<GroupModel>,
    mid: Seq<GroupModel>,
    post: Seq<GroupModel>,
    g: int,
    i: int,
    s: GPUSprite,
    start: int,
    end: int,
)
    requires
        0 <= g < pre.len(),
        0 <= i < pre[g].sprites.len(),
        pre[g].gpu.len() == pre[g].sprites.len(),
        mid == upd_sprite(pre, g, i, s),
        0 <= start <= i < end <= mid[g].sprites.len(),
        post == mid.update(
            g,
            (GroupModel {
                gpu: Seq::new(
                    mid[g].gpu.len(),
                    |j: int|
                        if start <= j < end {
                            mid[g].sprites[j]
                        } else {
                            mid[g].gpu[j]
                        },
                ),
                ..mid[g]
            }),
        ),
    ensures
        post[g].sprites[i] == s,
        post[g].gpu[i] == s,
        forall|j: int| start <= j < end ==> #[trigger] post[g].gpu[j] == post[g].sprites[j],
{
}

/// Law: logical deletion is idempotent.  Deleting a sprite leaves a
/// zero-area placement, and deleting it again changes nothing at all.
pub proof fn lemma_delete_idempotent(groups: Seq<GroupModel>, g: int, i: int)
    requires
        0 <= g < groups.len(),
        0 <= i < groups[g].sprites.len(),
    ensures
        deleted_scene(groups, g, i)[g].sprites[i].screen_region.w == 0,
        deleted_scene(groups, g, i)[g].sprites[i].screen_region.h == 0,
        deleted_scene(deleted_scene(groups, g, i), g, i) == deleted_scene(groups, g, i),
{
    let once = deleted_scene(groups, g, i);
    let twice = deleted_scene(once, g, i);
    assert(once[g].sprites =~= twice[g].sprites);
    assert(once[g] =~= twice[g]);
    assert(once =~= twice);
}

/// Law: a respawn pass restores only hidden sprites.  A zero-width
/// placement gets the standard power-up extent back, keeping its position
/// and atlas region; every other sprite is untouched; and a second pass
/// changes nothing.
pub proof fn lemma_respawn_restores_only_hidden(s: GPUSprite)
    ensures
        s.screen_region.w == 0 ==> respawned(s) == with_screen(
            s,
            (Region {
                x: s.screen_region.x,
                y: s.screen_region.y,
                w: POWERUP_SIZE,
                h: POWERUP_SIZE,
            }),
        ),
        s.screen_region.w != 0 ==> respawned(s) == s,
        respawned(respawned(s)) == respawned(s),
{
}

/// Law: the score cells decode back to the decimal digits.  For every score
/// up to 999, reading the three cells of `score_cells` through the inverse
/// lookup gives the hundreds, tens and units digits of the score.
pub proof fn lemma_score_cells_decode(s: int)
    requires
        0 <= s <= 999,
    ensures
        cell_digit(score_cells(s).0) == s / 100,
        cell_digit(score_cells(s).1) == s / 10 % 10,
        cell_digit(score_cells(s).2) == s % 10,
{
    assert(s % 100 / 10 == s / 10 % 10) by (nonlinear_arith)
        requires 0 <= s <= 999,
    ;
}

/// The executable digit-to-atlas-cell lookup; agrees with [`digit_cell`] on
/// every input.
fn digit_sheet_cell(d: usize) -> (r: Region)
    ensures
        r == digit_cell(d as int),
{
    if d == 1 {
        Region { x: 0, y: 432000, w: 88000, h: 72000 }
    } else if d == 2 {
        Region { x: 88000, y: 432000, w: 88000, h: 72000 }
    } else if d == 3 {
        Region { x: 176000, y: 432000, w: 88000, h: 72000 }
    } else if d == 4 {
        Region { x: 264000, y: 432000, w: 88000, h: 72000 }
    } else if d == 5 {
        Region { x: 352000, y: 432000, w: 88000, h: 72000 }
    } else if d == 6 {
        Region { x: 440000, y: 432000, w: 88000, h: 72000 }
    } else if d == 7 {
        Region { x: 528000, y: 432000, w: 88000, h: 72000 }
    } else if d == 8 {
        Region { x: 616000, y: 432000, w: 88000, h: 72000 }
    } else if d == 9 {
        Region { x: 704000, y: 432000, w: 88000, h: 72000 }
    } else {
        Region { x: 704000, y: 360000, w: 88000, h: 72000 }
    }
}

} // verus!
