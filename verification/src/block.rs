//! Block kinds of the voxel world and the classifications that the mesher,
//! the physics and the inventory read from them.
use vstd::prelude::*;

verus! {

/// Every kind of block that a world cell, an inventory slot or a dropped
/// item can hold.
#[derive(Clone, Copy, PartialEq, Eq, Debug, Structural)]
pub enum BlockType {
    Air,
    Grass,
    Dirt,
    Stone,
    Wood,
    Leaves,
    Water,
    Sand,
    Snow,
    Ice,
    Cobblestone,
    Coal,
    Iron,
    Gold,
    Diamond,
    Gravel,
    Clay,
    Torch,
    Barrier,
    Chest,
    Lava,
    MobSpawner,
    Rail,
    Planks,
    Fence,
    Brick,
    MossyCobblestone,
    StoneSlabBottom,
    StoneSlabTop,
    WoodSlabBottom,
    WoodSlabTop,
    CobblestoneSlabBottom,
    CobblestoneSlabTop,
    StoneStairs,
    WoodStairs,
    CobblestoneStairs,
    BrickStairs,
    Ladder,
    WoodTrapdoor,
    IronTrapdoor,
    SignPost,
    WallSign,
    WoodFence,
    StoneFence,
    FenceGate,
    GlassPane,
    DoorBottom,
    DoorTop,
    Bed,
    CraftingTable,
    Furnace,
    FurnaceLit,
    RawPork,
    RawBeef,
    RawMutton,
    RawChicken,
}

/// The side of a block that a wall-mounted block (torch, ladder) leans away from.
#[derive(Clone, Copy, PartialEq, Eq, Debug, Structural)]
pub enum TorchFace {
    Top,
    North,
    South,
    East,
    West,
}

/// The terrain biomes that decide which animals spawn in a chunk.
#[derive(Clone, Copy, PartialEq, Eq, Debug, Structural)]
pub enum Biome {
    Plains,
    Forest,
    Tundra,
    Mountains,
    Ocean,
    Desert,
}

/// A block that stops an entity: anything but air and water.
pub open spec fn spec_blocks_movement(b: BlockType) -> bool {
    b != BlockType::Air && b != BlockType::Water
}

/// Whether a block stops an entity that walks, swims or flies into it.
#[verifier::when_used_as_spec(spec_blocks_movement)]
pub fn blocks_movement(b: BlockType) -> (r: bool)
    ensures
        r == spec_blocks_movement(b),
{
    b != BlockType::Air && b != BlockType::Water
}

/// A looked-up cell that stops movement; a cell outside the loaded world does not.
pub open spec fn spec_cell_blocks(cell: Option<BlockType>) -> bool {
    match cell {
        Some(b) => spec_blocks_movement(b),
        None => false,
    }
}

/// Whether a world lookup (`None` outside the loaded world) stops movement.
#[verifier::when_used_as_spec(spec_cell_blocks)]
pub fn cell_blocks(cell: Option<BlockType>) -> (r: bool)
    ensures
        r == spec_cell_blocks(cell),
{
    match cell {
        Some(b) => blocks_movement(b),
        None => false,
    }
}

impl BlockType {
    /// Wooden and iron trapdoors.
    pub open spec fn spec_is_trapdoor(&self) -> bool {
        *self == BlockType::WoodTrapdoor || *self == BlockType::IronTrapdoor
    }

    /// Whether the block is a wooden or iron trapdoor.
    #[verifier::when_used_as_spec(spec_is_trapdoor)]
    pub fn is_trapdoor(&self) -> (r: bool)
        ensures
            r == self.spec_is_trapdoor(),
    {
        matches!(self, BlockType::WoodTrapdoor | BlockType::IronTrapdoor)
    }

    /// Fence posts of any material.
    pub open spec fn spec_is_fence(&self) -> bool {
        *self == BlockType::Fence || *self == BlockType::WoodFence || *self == BlockType::StoneFence
    }

    /// Whether the block is a fence post of any material.
    #[verifier::when_used_as_spec(spec_is_fence)]
    pub fn is_fence(&self) -> (r: bool)
        ensures
            r == self.spec_is_fence(),
    {
        matches!(self, BlockType::Fence | BlockType::WoodFence | BlockType::StoneFence)
    }

    /// Slabs that fill the lower half of a cell.
    pub open spec fn spec_is_bottom_slab(&self) -> bool {
        *self == BlockType::StoneSlabBottom || *self == BlockType::WoodSlabBottom
            || *self == BlockType::CobblestoneSlabBottom
    }

    /// Whether the block is a slab filling the lower half of its cell.
    #[verifier::when_used_as_spec(spec_is_bottom_slab)]
    pub fn is_bottom_slab(&self) -> (r: bool)
        ensures
            r == self.spec_is_bottom_slab(),
    {
        matches!(
            self,
            BlockType::StoneSlabBottom | BlockType::WoodSlabBottom | BlockType::CobblestoneSlabBottom
        )
    }

    /// Slabs that fill the upper half of a cell.
    pub open spec fn spec_is_top_slab(&self) -> bool {
        *self == BlockType::StoneSlabTop || *self == BlockType::WoodSlabTop || *self == BlockType::CobblestoneSlabTop
    }

    /// Whether the block is a slab filling the upper half of its cell.
    #[verifier::when_used_as_spec(spec_is_top_slab)]
    pub fn is_top_slab(&self) -> (r: bool)
        ensures
            r == self.spec_is_top_slab(),
    {
        matches!(
            self,
            BlockType::StoneSlabTop | BlockType::WoodSlabTop | BlockType::CobblestoneSlabTop
        )
    }

    /// Stair blocks of any material.
    pub open spec fn spec_is_stairs(&self) -> bool {
        *self == BlockType::StoneStairs || *self == BlockType::WoodStairs || *self == BlockType::CobblestoneStairs
            || *self == BlockType::BrickStairs
    }

    /// Whether the block is a stair block of any material.
    #[verifier::when_used_as_spec(spec_is_stairs)]
    pub fn is_stairs(&self) -> (r: bool)
        ensures
            r == self.spec_is_stairs(),
    {
        matches!(
            self,
            BlockType::StoneStairs | BlockType::WoodStairs | BlockType::CobblestoneStairs
                | BlockType::BrickStairs
        )
    }

    /// The raw meats that animals drop, which the player eats rather than places.
    pub open spec fn spec_is_food(&self) -> bool {
        *self == BlockType::RawPork || *self == BlockType::RawBeef || *self == BlockType::RawMutton
            || *self == BlockType::RawChicken
    }

    /// Whether the block is a food item.
    #[verifier::when_used_as_spec(spec_is_food)]
    pub fn is_food(&self) -> (r: bool)
        ensures
            r == self.spec_is_food(),
    {
        matches!(
            self,
            BlockType::RawPork | BlockType::RawBeef | BlockType::RawMutton | BlockType::RawChicken
        )
    }
}

/// Blocks drawn through the transparent pass.
pub open spec fn spec_is_transparent(b: BlockType) -> bool {
    b == BlockType::Water || b == BlockType::Lava
}

/// Whether a block is drawn in the transparent mesh (water and lava).
#[verifier::when_used_as_spec(spec_is_transparent)]
pub fn is_transparent(b: BlockType) -> (r: bool)
    ensures
        r == spec_is_transparent(b),
{
    matches!(b, BlockType::Water | BlockType::Lava)
}

/// Blocks that get their own geometry and never enter a greedy face mask.
pub open spec fn spec_has_special_geometry(b: BlockType) -> bool {
    b == BlockType::Air || b == BlockType::Barrier || b == BlockType::Torch || b
        == BlockType::Ladder || b.spec_is_trapdoor() || b.spec_is_fence() || b
        == BlockType::GlassPane || b.spec_is_bottom_slab() || b.spec_is_top_slab()
        || b.spec_is_stairs()
}

/// Whether a block is skipped by the greedy mesher (air, barriers and the
/// blocks drawn with special geometry: torches, ladders, trapdoors, fences,
/// glass panes, slabs and stairs).
#[verifier::when_used_as_spec(spec_has_special_geometry)]
pub fn has_special_geometry(b: BlockType) -> (r: bool)
    ensures
        r == spec_has_special_geometry(b),
{
    b == BlockType::Air || b == BlockType::Barrier || b == BlockType::Torch || b
        == BlockType::Ladder || b.is_trapdoor() || b.is_fence() || b == BlockType::GlassPane
        || b.is_bottom_slab() || b.is_top_slab() || b.is_stairs()
}

/// A face of `current` is drawn when the neighbouring cell lies outside the
/// loaded world, or, for water, when the neighbour is not water, and for
/// every other block when the neighbour is air or a torch.
pub open spec fn spec_face_exposed(neighbor: Option<BlockType>, current: BlockType) -> bool {
    match neighbor {
        None => true,
        Some(n) => if current == BlockType::Water {
            n != BlockType::Water
        } else {
            n == BlockType::Air || n == BlockType::Torch
        },
    }
}

/// Whether the face of `current` toward `neighbor` must be drawn.
#[verifier::when_used_as_spec(spec_face_exposed)]
pub fn face_exposed(neighbor: Option<BlockType>, current: BlockType) -> (r: bool)
    ensures
        r == spec_face_exposed(neighbor, current),
{
    match neighbor {
        None => true,
        Some(n) => if current == BlockType::Water {
            n != BlockType::Water
        } else {
            n == BlockType::Air || n == BlockType::Torch
        },
    }
}

/// The entry of a greedy face mask for one cell: the block when its face is
/// drawn by the greedy mesher, `None` when it is skipped (special geometry,
/// damaged, or hidden by its neighbour).
pub open spec fn spec_face_mask_cell(
    block: BlockType,
    neighbor: Option<BlockType>,
    damaged: bool,
) -> Option<BlockType> {
    if spec_has_special_geometry(block) || damaged || !spec_face_exposed(neighbor, block) {
        None
    } else {
        Some(block)
    }
}

/// Computes one entry of a greedy face mask.
pub fn face_mask_cell(block: BlockType, neighbor: Option<BlockType>, damaged: bool) -> (r: Option<
    BlockType,
>)
    ensures
        r == spec_face_mask_cell(block, neighbor, damaged),
{
    if has_special_geometry(block) || damaged || !face_exposed(neighbor, block) {
        None
    } else {
        Some(block)
    }
}

/// The texture layer that the world shader samples for a block.
pub open spec fn spec_texture_index(b: BlockType) -> u32 {
    match b {
        BlockType::Grass => 0,
        BlockType::Dirt => 1,
        BlockType::Stone => 2,
        BlockType::Wood => 3,
        BlockType::Leaves => 4,
        BlockType::Water => 5,
        BlockType::Sand => 7,
        BlockType::Snow => 8,
        BlockType::Ice => 9,
        BlockType::Cobblestone => 10,
        BlockType::Coal => 11,
        BlockType::Iron => 12,
        BlockType::Gold => 13,
        BlockType::Diamond => 14,
        BlockType::Gravel => 15,
        BlockType::Clay => 16,
        BlockType::Torch => 24,
        BlockType::Chest => 26,
        BlockType::Lava => 41,
        BlockType::MobSpawner => 42,
        BlockType::Rail => 43,
        BlockType::Planks => 44,
        BlockType::Fence => 45,
        BlockType::Brick => 46,
        BlockType::MossyCobblestone => 47,
        BlockType::StoneSlabBottom | BlockType::StoneSlabTop => 2,
        BlockType::WoodSlabBottom | BlockType::WoodSlabTop => 44,
        BlockType::CobblestoneSlabBottom | BlockType::CobblestoneSlabTop => 10,
        BlockType::StoneStairs => 2,
        BlockType::WoodStairs => 44,
        BlockType::CobblestoneStairs => 10,
        BlockType::BrickStairs => 46,
        BlockType::Ladder => 44,
        BlockType::WoodTrapdoor => 44,
        BlockType::IronTrapdoor => 12,
        BlockType::SignPost | BlockType::WallSign => 44,
        BlockType::WoodFence => 44,
        BlockType::StoneFence => 2,
        BlockType::FenceGate => 44,
        BlockType::GlassPane => 9,
        _ => 0,
    }
}

/// The texture layer of a block in the world mesh.
pub fn texture_index(b: BlockType) -> (r: u32)
    ensures
        r == spec_texture_index(b),
{
    match b {
        BlockType::Grass => 0,
        BlockType::Dirt => 1,
        BlockType::Stone => 2,
        BlockType::Wood => 3,
        BlockType::Leaves => 4,
        BlockType::Water => 5,
        BlockType::Sand => 7,
        BlockType::Snow => 8,
        BlockType::Ice => 9,
        BlockType::Cobblestone => 10,
        BlockType::Coal => 11,
        BlockType::Iron => 12,
        BlockType::Gold => 13,
        BlockType::Diamond => 14,
        BlockType::Gravel => 15,
        BlockType::Clay => 16,
        BlockType::Torch => 24,
        BlockType::Chest => 26,
        BlockType::Lava => 41,
        BlockType::MobSpawner => 42,
        BlockType::Rail => 43,
        BlockType::Planks => 44,
        BlockType::Fence => 45,
        BlockType::Brick => 46,
        BlockType::MossyCobblestone => 47,
        BlockType::StoneSlabBottom | BlockType::StoneSlabTop => 2,
        BlockType::WoodSlabBottom | BlockType::WoodSlabTop => 44,
        BlockType::CobblestoneSlabBottom | BlockType::CobblestoneSlabTop => 10,
        BlockType::StoneStairs => 2,
        BlockType::WoodStairs => 44,
        BlockType::CobblestoneStairs => 10,
        BlockType::BrickStairs => 46,
        BlockType::Ladder => 44,
        BlockType::WoodTrapdoor => 44,
        BlockType::IronTrapdoor => 12,
        BlockType::SignPost | BlockType::WallSign => 44,
        BlockType::WoodFence => 44,
        BlockType::StoneFence => 2,
        BlockType::FenceGate => 44,
        BlockType::GlassPane => 9,
        _ => 0,
    }
}

/// The hotbar icon layer of a block; 0 means no icon.
pub open spec fn spec_ui_icon_index(b: BlockType) -> u32 {
    match b {
        BlockType::Grass => 1,
        BlockType::Dirt => 2,
        BlockType::Stone => 3,
        BlockType::Wood => 4,
        BlockType::Leaves => 5,
        BlockType::Water => 6,
        BlockType::Sand => 7,
        BlockType::Snow => 8,
        BlockType::Ice => 9,
        BlockType::Cobblestone => 10,
        BlockType::Coal => 11,
        BlockType::Iron => 12,
        BlockType::Gold => 13,
        BlockType::Diamond => 14,
        BlockType::Gravel => 15,
        BlockType::Clay => 16,
        BlockType::Torch => 24,
        _ => 0,
    }
}

/// The icon layer that the hotbar draws for a block.
pub fn ui_icon_index(b: BlockType) -> (r: u32)
    ensures
        r == spec_ui_icon_index(b),
{
    match b {
        BlockType::Grass => 1,
        BlockType::Dirt => 2,
        BlockType::Stone => 3,
        BlockType::Wood => 4,
        BlockType::Leaves => 5,
        BlockType::Water => 6,
        BlockType::Sand => 7,
        BlockType::Snow => 8,
        BlockType::Ice => 9,
        BlockType::Cobblestone => 10,
        BlockType::Coal => 11,
        BlockType::Iron => 12,
        BlockType::Gold => 13,
        BlockType::Diamond => 14,
        BlockType::Gravel => 15,
        BlockType::Clay => 16,
        BlockType::Torch => 24,
        _ => 0,
    }
}

} // verus!
