//! The player's side of the world: which block the view ray targets, where
//! a block is placed and which face a torch leans from, where a fallen
//! player respawns, the movement keys held, and the one-shot sound events.
use vstd::prelude::*;
use crate::block::BlockType;
use crate::block::TorchFace;

verus! {

/// A world cell position.
pub type Pos = (i32, i32, i32);

/// The face a torch placed in air cell `air` leans from, against the solid
/// cell `hit`: on top when the air is above or below the hit, else east,
/// west, south or north toward the side the air lies on.
pub open spec fn spec_torch_face(air: Pos, hit: Pos) -> TorchFace {
    if air.1 != hit.1 {
        TorchFace::Top
    } else if air.0 > hit.0 {
        TorchFace::East
    } else if air.0 < hit.0 {
        TorchFace::West
    } else if air.2 > hit.2 {
        TorchFace::South
    } else if air.2 < hit.2 {
        TorchFace::North
    } else {
        TorchFace::Top
    }
}

/// Which face a block placed in `air` against `hit` leans from.
pub fn torch_face(air: Pos, hit: Pos) -> (r: TorchFace)
    ensures
        r == spec_torch_face(air, hit),
{
    if air.1 > hit.1 {
        TorchFace::Top
    } else if air.1 < hit.1 {
        TorchFace::Top
    } else if air.0 > hit.0 {
        TorchFace::East
    } else if air.0 < hit.0 {
        TorchFace::West
    } else if air.2 > hit.2 {
        TorchFace::South
    } else if air.2 < hit.2 {
        TorchFace::North
    } else {
        TorchFace::Top
    }
}

/// A step of a view ray: the cell it passes and the world's answer there
/// (`None` outside the loaded world).
pub type RayStep = (Pos, Option<BlockType>);

/// The ray stops at a placement target: a block other than air, a barrier
/// or water.
pub open spec fn stops_placement(cell: Option<BlockType>) -> bool {
    cell matches Some(b) && b != BlockType::Air && b != BlockType::Barrier && b != BlockType::Water
}

/// `i` is the first step of the ray that stops placement.
pub open spec fn first_stop(ray: Seq<RayStep>, i: int) -> bool {
    0 <= i < ray.len() && stops_placement(ray[i].1) && forall|j: int|
        0 <= j < i ==> !stops_placement(#[trigger] ray[j].1)
}

/// `j` is the last step before `i` that passes through air.
pub open spec fn last_air_before(ray: Seq<RayStep>, i: int, j: int) -> bool {
    0 <= j < i && ray[j].1 == Some(BlockType::Air) && forall|k: int|
        j < k < i ==> (#[trigger] ray[k].1) != Some(BlockType::Air)
}

/// Where a block goes along a view ray: in the last air cell before the
/// first block that stops placement, leaning from the face toward that
/// block; nothing when the ray meets no such block or no air before it.
pub open spec fn spec_placement(ray: Seq<RayStep>, r: Option<(Pos, TorchFace)>) -> bool {
    if exists|i: int| first_stop(ray, i) {
        exists|i: int|
            first_stop(ray, i) && if exists|j: int| last_air_before(ray, i, j) {
                exists|j: int|
                    last_air_before(ray, i, j) && r == Some(
                        (ray[j].0, spec_torch_face(ray[j].0, ray[i].0)),
                    )
            } else {
                r is None
            }
    } else {
        r is None
    }
}

/// Walks a view ray and answers where a block would be placed and which face
/// it leans from.
pub fn placement_along(ray: &Vec<RayStep>) -> (r: Option<(Pos, TorchFace)>)
    ensures
        spec_placement(ray@, r),
{
    let mut last_air: Option<Pos> = None;
    let ghost mut last_air_idx: int = -1;
    let mut i: usize = 0;
    while i < ray.len()
        invariant
            i <= ray@.len(),
            forall|j: int| 0 <= j < i ==> !stops_placement(#[trigger] ray@[j].1),
            match last_air {
                Some(p) => last_air_before(ray@, i as int, last_air_idx) && ray@[last_air_idx].0
                    == p,
                None => forall|k: int| 0 <= k < i ==> (#[trigger] ray@[k].1) != Some(BlockType::Air),
            },
        decreases ray@.len() - i,
    {
        let (pos, cell) = ray[i];
        match cell {
            Some(b) => {
                if b != BlockType::Air && b != BlockType::Barrier && b != BlockType::Water {
                    assert(first_stop(ray@, i as int));
                    match last_air {
                        Some(a) => {
                            return Some((a, torch_face(a, pos)));
                        },
                        None => {
                            assert(!exists|j: int| last_air_before(ray@, i as int, j));
                            return None;
                        },
                    }
                } else if b == BlockType::Air {
                    last_air = Some(pos);
                    proof {
                        last_air_idx = i as int;
                    }
                }
            },
            None => {},
        }
        i += 1;
    }
    assert(!exists|k: int| first_stop(ray@, k));
    None
}

/// The ray targets a block other than air or a barrier (water counts).
pub open spec fn targets(cell: Option<BlockType>) -> bool {
    cell matches Some(b) && b != BlockType::Air && b != BlockType::Barrier
}

/// The block a view ray targets: the first cell along it holding something
/// other than air or a barrier.
pub open spec fn spec_targeted(ray: Seq<RayStep>, r: Option<Pos>) -> bool {
    match r {
        Some(p) => exists|i: int|
            0 <= i < ray.len() && targets(ray[i].1) && ray[i].0 == p && forall|j: int|
                0 <= j < i ==> !targets(#[trigger] ray[j].1),
        None => forall|j: int| 0 <= j < ray.len() ==> !targets(#[trigger] ray[j].1),
    }
}

/// Walks a view ray and answers which block it targets.
pub fn targeted_along(ray: &Vec<RayStep>) -> (r: Option<Pos>)
    ensures
        spec_targeted(ray@, r),
{
    let mut i: usize = 0;
    while i < ray.len()
        invariant
            i <= ray@.len(),
            forall|j: int| 0 <= j < i ==> !targets(#[trigger] ray@[j].1),
        decreases ray@.len() - i,
    {
        let (pos, cell) = ray[i];
        if let Some(b) = cell {
            if b != BlockType::Air && b != BlockType::Barrier {
                return Some(pos);
            }
        }
        i += 1;
    }
    None
}

/// A block a fallen player may stand on: anything but air, a barrier, wood
/// or leaves.
pub open spec fn respawn_floor(cell: Option<BlockType>) -> bool {
    cell matches Some(b) && b != BlockType::Air && b != BlockType::Barrier && b != BlockType::Wood
        && b != BlockType::Leaves
}

/// A cell above the floor leaves room: outside the world, air or leaves.
pub open spec fn room_above(cell: Option<BlockType>) -> bool {
    match cell {
        Some(b) => b == BlockType::Air || b == BlockType::Leaves,
        None => true,
    }
}

/// Height `y` of a column is a respawn floor with four cells of room above.
pub open spec fn respawn_ok(col: Seq<Option<BlockType>>, y: int) -> bool {
    respawn_floor(crate::entity::at(col, y)) && room_above(crate::entity::at(col, y + 1))
        && room_above(crate::entity::at(col, y + 2)) && room_above(crate::entity::at(col, y + 3))
        && room_above(crate::entity::at(col, y + 4))
}

/// The answer of the respawn search in one column over heights 10 up to
/// `top` (exclusive), taken from the top down.
pub open spec fn spec_respawn_height(col: Seq<Option<BlockType>>, top: int, r: Option<i32>) -> bool {
    match r {
        Some(y) => 10 <= y < top && respawn_ok(col, y as int) && forall|z: int|
            y < z < top ==> !#[trigger] respawn_ok(col, z),
        None => forall|z: int| 10 <= z < top ==> !#[trigger] respawn_ok(col, z),
    }
}

fn is_room(cell: Option<BlockType>) -> (r: bool)
    ensures
        r == room_above(cell),
{
    match cell {
        Some(b) => b == BlockType::Air || b == BlockType::Leaves,
        None => true,
    }
}

/// Searches a column from the top down for where a fallen player respawns:
/// the floor height, with the player placed above it.
pub fn respawn_height(col: &Vec<Option<BlockType>>, top: i32) -> (r: Option<i32>)
    requires
        top < i32::MAX - 4,
    ensures
        spec_respawn_height(col@, top as int, r),
{
    if top <= 10 {
        return None;
    }
    let mut y = top;
    while y > 10
        invariant
            10 <= y <= top,
            top < i32::MAX - 4,
            forall|z: int| y <= z < top ==> !#[trigger] respawn_ok(col@, z),
        decreases y - 10,
    {
        y -= 1;
        let floor = match crate::entity::block_at(col, y) {
            Some(b) => b != BlockType::Air && b != BlockType::Barrier && b != BlockType::Wood && b
                != BlockType::Leaves,
            None => false,
        };
        if floor && is_room(crate::entity::block_at(col, y + 1)) && is_room(
            crate::entity::block_at(col, y + 2),
        ) && is_room(crate::entity::block_at(col, y + 3)) && is_room(
            crate::entity::block_at(col, y + 4),
        ) {
            return Some(y);
        }
    }
    None
}

/// The respawn search visits, at each radius, only the border of the square
/// of that radius around the origin.
pub open spec fn spec_on_search_ring(radius: int, x: int, z: int) -> bool {
    !(radius > 0 && -radius < x < radius && -radius < z < radius)
}

/// Whether the respawn search looks at column (x, z) at `radius`.
pub fn on_search_ring(radius: i32, x: i32, z: i32) -> (r: bool)
    ensures
        r == spec_on_search_ring(radius as int, x as int, z as int),
{
    !(radius > 0 && -(radius as i64) < x as i64 && (x as i64) < radius as i64 && -(radius as i64)
        < z as i64 && (z as i64) < radius as i64)
}

/// The respawn search looks at columns up to this many blocks from the
/// origin along each axis, ring by ring.
pub const RESPAWN_SEARCH_REACH: i32 = 14;

/// Columns per side of the searched square.
pub const RESPAWN_SEARCH_SIDE: usize = 29;

/// Column (x, z) lies in the searched square.
pub open spec fn in_search_square(x: int, z: int) -> bool {
    -RESPAWN_SEARCH_REACH <= x <= RESPAWN_SEARCH_REACH && -RESPAWN_SEARCH_REACH <= z
        <= RESPAWN_SEARCH_REACH
}

/// Where column (x, z) of the searched square sits in its list of columns:
/// by x, then by z, from the lowest.
pub open spec fn search_column_index(x: int, z: int) -> int {
    (x + RESPAWN_SEARCH_REACH) * RESPAWN_SEARCH_SIDE + (z + RESPAWN_SEARCH_REACH)
}

/// The ring of column (x, z): its distance from the origin along the
/// farther axis.
pub open spec fn search_ring(x: int, z: int) -> int {
    let ax = if x < 0 { -x } else { x };
    let az = if z < 0 { -z } else { z };
    if ax < az { az } else { ax }
}

/// The search meets column (x1, z1) before (x2, z2): on an inner ring,
/// else at a lower x, else at a lower z.
pub open spec fn searched_before(x1: int, z1: int, x2: int, z2: int) -> bool {
    search_ring(x1, z1) < search_ring(x2, z2) || search_ring(x1, z1) == search_ring(x2, z2) && (
    x1 < x2 || x1 == x2 && z1 < z2)
}

/// A column has a respawn floor somewhere from height 10 up to `top`.
pub open spec fn has_respawn_floor(col: Seq<Option<BlockType>>, top: int) -> bool {
    exists|y: int| 10 <= y < top && #[trigger] respawn_ok(col, y)
}

/// The answer of the whole respawn search over the columns of the searched
/// square: the first column in search order that has a respawn floor,
/// with its height found from the top down, as (x, height, z); `None` when
/// no column has one.
pub open spec fn spec_respawn_search(
    cols: Seq<Seq<Option<BlockType>>>,
    top: int,
    r: Option<(i32, i32, i32)>,
) -> bool {
    match r {
        Some((x, y, z)) => {
            &&& in_search_square(x as int, z as int)
            &&& spec_respawn_height(cols[search_column_index(x as int, z as int)], top, Some(y))
            &&& forall|x2: int, z2: int|
                in_search_square(x2, z2) && searched_before(x2, z2, x as int, z as int)
                    ==> !has_respawn_floor(#[trigger] cols[search_column_index(x2, z2)], top)
        },
        None => forall|x2: int, z2: int|
            in_search_square(x2, z2) ==> !has_respawn_floor(
                #[trigger] cols[search_column_index(x2, z2)],
                top,
            ),
    }
}

proof fn lemma_no_floor(col: Seq<Option<BlockType>>, top: int)
    requires
        spec_respawn_height(col, top, None),
    ensures
        !has_respawn_floor(col, top),
{
}

/// Where a player who fell out of the world respawns: the columns of the
/// square around the origin are searched ring by ring from the centre
/// out, along each ring by x and then by z, and the first column with a
/// floor of solid ground under four free cells gives the spot.
pub fn respawn_search(cols: &Vec<Vec<Option<BlockType>>>, top: i32) -> (r: Option<(i32, i32, i32)>)
    requires
        cols@.len() == RESPAWN_SEARCH_SIDE * RESPAWN_SEARCH_SIDE,
        top < i32::MAX - 4,
    ensures
        spec_respawn_search(cols@.map_values(|c: Vec<Option<BlockType>>| c@), top as int, r),
{
    let ghost view = cols@.map_values(|c: Vec<Option<BlockType>>| c@);
    let mut radius: i32 = 0;
    while radius <= RESPAWN_SEARCH_REACH
        invariant
            0 <= radius <= RESPAWN_SEARCH_REACH + 1,
            cols@.len() == RESPAWN_SEARCH_SIDE * RESPAWN_SEARCH_SIDE,
            top < i32::MAX - 4,
            view == cols@.map_values(|c: Vec<Option<BlockType>>| c@),
            forall|x2: int, z2: int|
                in_search_square(x2, z2) && search_ring(x2, z2) < radius ==> !has_respawn_floor(
                    #[trigger] view[search_column_index(x2, z2)],
                    top as int,
                ),
        decreases RESPAWN_SEARCH_REACH + 1 - radius,
    {
        let mut x: i32 = -radius;
        while x <= radius
            invariant
                0 <= radius <= RESPAWN_SEARCH_REACH,
                -radius <= x <= radius + 1,
                cols@.len() == RESPAWN_SEARCH_SIDE * RESPAWN_SEARCH_SIDE,
                top < i32::MAX - 4,
                view == cols@.map_values(|c: Vec<Option<BlockType>>| c@),
                forall|x2: int, z2: int|
                    in_search_square(x2, z2) && (search_ring(x2, z2) < radius || search_ring(x2, z2)
                        == radius && x2 < x) ==> !has_respawn_floor(
                        #[trigger] view[search_column_index(x2, z2)],
                        top as int,
                    ),
            decreases radius + 1 - x,
        {
            let mut z: i32 = -radius;
            while z <= radius
                invariant
                    0 <= radius <= RESPAWN_SEARCH_REACH,
                    -radius <= x <= radius,
                    -radius <= z <= radius + 1,
                    cols@.len() == RESPAWN_SEARCH_SIDE * RESPAWN_SEARCH_SIDE,
                    top < i32::MAX - 4,
                    view == cols@.map_values(|c: Vec<Option<BlockType>>| c@),
                    forall|x2: int, z2: int|
                        in_search_square(x2, z2) && (search_ring(x2, z2) < radius || search_ring(
                            x2,
                            z2,
                        ) == radius && (x2 < x || x2 == x && z2 < z)) ==> !has_respawn_floor(
                            #[trigger] view[search_column_index(x2, z2)],
                            top as int,
                        ),
                decreases radius + 1 - z,
            {
                if on_search_ring(radius, x, z) {
                    let idx: usize = ((x + RESPAWN_SEARCH_REACH) as usize) * RESPAWN_SEARCH_SIDE + ((z
                        + RESPAWN_SEARCH_REACH) as usize);
                    assert(idx == search_column_index(x as int, z as int));
                    assert(view[idx as int] == cols@[idx as int]@);
                    match respawn_height(&cols[idx], top) {
                        Some(y) => {
                            return Some((x, y, z));
                        },
                        None => {
                            proof {
                                lemma_no_floor(view[idx as int], top as int);
                            }
                        },
                    }
                }
                z += 1;
            }
            x += 1;
        }
        radius += 1;
    }
    None
}

/// The keys that move the player.
#[derive(Clone, Copy, PartialEq, Eq, Debug, Structural)]
pub enum MoveKey {
    /// W.
    Forward,
    /// S.
    Backward,
    /// A.
    Left,
    /// D.
    Right,
    /// Jumps, or swims up in water (Space).
    Jump,
    /// Moves down (Left Shift).
    Down,
}

/// Which movement keys are held, and whether the player is still held at
/// the spawn point until the first movement input.
pub struct MovementInput {
    pub forward: bool,
    pub backward: bool,
    pub left: bool,
    pub right: bool,
    pub jump: bool,
    pub down: bool,
    pub spawn_locked: bool,
}

impl MovementInput {
    /// Some movement key is held.
    pub open spec fn any_held(&self) -> bool {
        self.forward || self.backward || self.left || self.right || self.jump || self.down
    }

    /// No key held, locked at spawn.
    pub fn new() -> (m: Self)
        ensures
            !m.any_held(),
            m.spawn_locked,
    {
        MovementInput {
            forward: false,
            backward: false,
            left: false,
            right: false,
            jump: false,
            down: false,
            spawn_locked: true,
        }
    }

    /// Records a key going down or up; keys that do not move the player are
    /// `None` and change nothing.
    pub fn process_key(&mut self, key: Option<MoveKey>, pressed: bool)
        ensures
            final(self).spawn_locked == old(self).spawn_locked,
            final(self).forward == if key == Some(MoveKey::Forward) {
                pressed
            } else {
                old(self).forward
            },
            final(self).backward == if key == Some(MoveKey::Backward) {
                pressed
            } else {
                old(self).backward
            },
            final(self).left == if key == Some(MoveKey::Left) {
                pressed
            } else {
                old(self).left
            },
            final(self).right == if key == Some(MoveKey::Right) {
                pressed
            } else {
                old(self).right
            },
            final(self).jump == if key == Some(MoveKey::Jump) {
                pressed
            } else {
                old(self).jump
            },
            final(self).down == if key == Some(MoveKey::Down) {
                pressed
            } else {
                old(self).down
            },
    {
        match key {
            Some(MoveKey::Forward) => self.forward = pressed,
            Some(MoveKey::Backward) => self.backward = pressed,
            Some(MoveKey::Left) => self.left = pressed,
            Some(MoveKey::Right) => self.right = pressed,
            Some(MoveKey::Jump) => self.jump = pressed,
            Some(MoveKey::Down) => self.down = pressed,
            None => {},
        }
    }

    /// Whether some movement key is held.
    pub fn has_movement_input(&self) -> (r: bool)
        ensures
            r == self.any_held(),
    {
        self.forward || self.backward || self.left || self.right || self.jump || self.down
    }

    /// The spawn lock of a frame: a locked player stays put until some
    /// movement key is held, which lifts the lock for good. Returns whether
    /// physics runs this frame.
    pub fn release_spawn_lock(&mut self) -> (runs: bool)
        ensures
            runs == (!old(self).spawn_locked || old(self).any_held()),
            final(self).spawn_locked == (old(self).spawn_locked && !old(self).any_held()),
            final(self).any_held() == old(self).any_held(),
            final(self).forward == old(self).forward,
            final(self).backward == old(self).backward,
            final(self).left == old(self).left,
            final(self).right == old(self).right,
            final(self).jump == old(self).jump,
            final(self).down == old(self).down,
    {
        if self.spawn_locked {
            if self.has_movement_input() {
                self.spawn_locked = false;
                true
            } else {
                false
            }
        } else {
            true
        }
    }
}

/// Reading the jump event of `old` answers `r` and leaves `new`.
pub open spec fn read_jump(old: SoundEvents, new: SoundEvents, r: bool) -> bool {
    r == old.just_jumped && new == SoundEvents { just_jumped: false, ..old }
}

/// Reading the landing event of `old` answers `r` and leaves `new`.
pub open spec fn read_land(old: SoundEvents, new: SoundEvents, r: bool) -> bool {
    r == old.just_landed && new == SoundEvents { just_landed: false, ..old }
}

/// Reading the water-entry event of `old` answers `r` and leaves `new`.
pub open spec fn read_water_entry(old: SoundEvents, new: SoundEvents, r: bool) -> bool {
    r == old.just_entered_water && new == SoundEvents { just_entered_water: false, ..old }
}

/// The sound events a physics step raises, each kept until read once.
pub struct SoundEvents {
    pub was_in_water: bool,
    pub was_on_ground: bool,
    pub just_jumped: bool,
    pub just_landed: bool,
    pub just_entered_water: bool,
    pub footstep_pending: bool,
    pub last_ground_block: Option<BlockType>,
}

impl SoundEvents {
    /// No event raised; the player starts neither in water nor on the ground.
    pub fn new() -> (e: Self)
        ensures
            !e.was_in_water,
            !e.was_on_ground,
            !e.just_jumped,
            !e.just_landed,
            !e.just_entered_water,
            !e.footstep_pending,
            e.last_ground_block is None,
    {
        SoundEvents {
            was_in_water: false,
            was_on_ground: false,
            just_jumped: false,
            just_landed: false,
            just_entered_water: false,
            footstep_pending: false,
            last_ground_block: None,
        }
    }

    /// Records a physics step: entering water, jumping off the ground
    /// outside water, and landing outside water raise their events.
    pub fn observe_step(&mut self, in_water: bool, on_ground: bool, jump_pressed: bool)
        ensures
            final(self).was_in_water == in_water,
            final(self).was_on_ground == on_ground,
            final(self).just_entered_water == (old(self).just_entered_water || (in_water && !old(
                self,
            ).was_in_water)),
            final(self).just_jumped == (old(self).just_jumped || (jump_pressed && old(
                self,
            ).was_on_ground && !in_water)),
            final(self).just_landed == (old(self).just_landed || (on_ground && !old(
                self,
            ).was_on_ground && !in_water)),
            final(self).footstep_pending == old(self).footstep_pending,
            final(self).last_ground_block == old(self).last_ground_block,
    {
        if in_water && !self.was_in_water {
            self.just_entered_water = true;
        }
        self.was_in_water = in_water;
        if jump_pressed && self.was_on_ground && !in_water {
            self.just_jumped = true;
        }
        if on_ground && !self.was_on_ground && !in_water {
            self.just_landed = true;
        }
        self.was_on_ground = on_ground;
    }

    /// Records a walking step on ground outside water: the block underfoot,
    /// and a footstep when two blocks' worth of walking has piled up.
    pub fn observe_walk(&mut self, ground: Option<BlockType>, stride_complete: bool)
        ensures
            final(self).last_ground_block == ground,
            final(self).footstep_pending == (old(self).footstep_pending || stride_complete),
            final(self).was_in_water == old(self).was_in_water,
            final(self).was_on_ground == old(self).was_on_ground,
            final(self).just_jumped == old(self).just_jumped,
            final(self).just_landed == old(self).just_landed,
            final(self).just_entered_water == old(self).just_entered_water,
    {
        self.last_ground_block = ground;
        if stride_complete {
            self.footstep_pending = true;
        }
    }

    /// The block of a pending footstep, once; `None` when no footstep is
    /// pending.
    pub fn get_footstep_event(&mut self) -> (r: Option<BlockType>)
        ensures
            r == if old(self).footstep_pending {
                old(self).last_ground_block
            } else {
                None
            },
            !final(self).footstep_pending,
            final(self).last_ground_block == old(self).last_ground_block,
            final(self).was_in_water == old(self).was_in_water,
            final(self).was_on_ground == old(self).was_on_ground,
            final(self).just_jumped == old(self).just_jumped,
            final(self).just_landed == old(self).just_landed,
            final(self).just_entered_water == old(self).just_entered_water,
    {
        if self.footstep_pending {
            self.footstep_pending = false;
            self.last_ground_block
        } else {
            None
        }
    }

    /// Whether a jump happened since the last check; the event is cleared.
    pub fn check_jump_event(&mut self) -> (r: bool)
        ensures
            read_jump(*old(self), *final(self), r),
    {
        let r = self.just_jumped;
        self.just_jumped = false;
        r
    }

    /// Whether a landing happened since the last check; the event is cleared.
    pub fn check_land_event(&mut self) -> (r: bool)
        ensures
            read_land(*old(self), *final(self), r),
    {
        let r = self.just_landed;
        self.just_landed = false;
        r
    }

    /// Whether the player entered water since the last check; the event is
    /// cleared.
    pub fn check_water_enter_event(&mut self) -> (r: bool)
        ensures
            read_water_entry(*old(self), *final(self), r),
    {
        let r = self.just_entered_water;
        self.just_entered_water = false;
        r
    }
}


/// A block is placed only in a cell the ray passed as air, and only when
/// the ray met a block that stops placement; the targeted block, when there
/// is one, is never air or a barrier.
pub proof fn placement_goes_into_air(ray: Seq<RayStep>, p: Option<(Pos, TorchFace)>, t: Option<Pos>)
    requires
        spec_placement(ray, p),
        spec_targeted(ray, t),
    ensures
        p matches Some((pos, _)) ==> exists|j: int|
            0 <= j < ray.len() && ray[j].1 == Some(BlockType::Air) && ray[j].0 == pos,
        p is Some ==> exists|i: int| 0 <= i < ray.len() && #[trigger] stops_placement(ray[i].1),
        t matches Some(pos) ==> exists|i: int|
            0 <= i < ray.len() && ray[i].0 == pos && targets(ray[i].1),
{
    if p is Some {
        let i = choose|i: int| first_stop(ray, i) && if exists|j: int| last_air_before(ray, i, j) {
            exists|j: int|
                last_air_before(ray, i, j) && p == Some(
                    (ray[j].0, spec_torch_face(ray[j].0, ray[i].0)),
                )
        } else {
            p is None
        };
        assert(stops_placement(ray[i].1));
        let j = choose|j: int|
            last_air_before(ray, i, j) && p == Some((ray[j].0, spec_torch_face(ray[j].0, ray[i].0)));
        assert(ray[j].1 == Some(BlockType::Air));
    }
}

/// Reading a sound event yields it once: a second read right after finds
/// it cleared.
pub proof fn sound_events_fire_once(e0: SoundEvents, e1: SoundEvents, r1: bool, e2: SoundEvents, r2: bool)
    requires
        read_jump(e0, e1, r1) && read_jump(e1, e2, r2) || read_land(e0, e1, r1) && read_land(
            e1,
            e2,
            r2,
        ) || read_water_entry(e0, e1, r1) && read_water_entry(e1, e2, r2),
    ensures
        !r2,
{
}

} // verus!
