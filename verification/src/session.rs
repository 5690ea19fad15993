//! The decisions the game loop makes between frames and on key presses:
//! the start-up stages, what Escape closes or when it quits, what the use and attack keys
//! do, and which placement preview is drawn.
use vstd::prelude::*;
use crate::block::BlockType;

verus! {

/// The start-up stages, one per frame, before play begins.
#[derive(Clone, Copy, PartialEq, Eq, Debug, Structural)]
pub enum LoadingStage {
    Init,
    FindSpawn,
    LoadChunks,
    GenerateMeshes,
    Done,
}

/// The work a loading frame hands the game once the loading screen is drawn.
#[derive(Clone, Copy, PartialEq, Eq, Debug, Structural)]
pub enum LoadingWork {
    /// Nothing yet: the first frame only shows the screen.
    Nothing,
    /// Find the spawn position and put the camera there.
    FindSpawn,
    /// Load every chunk around the spawn position.
    LoadChunks,
    /// Build the meshes of every loaded chunk.
    GenerateMeshes,
    /// Loading is over: capture the mouse and start the clock.
    StartPlaying,
}

/// How far the loading bar is filled at a stage, in percent.
pub open spec fn spec_loading_percent(stage: LoadingStage) -> u32 {
    match stage {
        LoadingStage::Init => 5,
        LoadingStage::FindSpawn => 15,
        LoadingStage::LoadChunks => 40,
        LoadingStage::GenerateMeshes => 75,
        LoadingStage::Done => 100,
    }
}

/// How far the loading bar is filled at a stage, in percent.
#[verifier::when_used_as_spec(spec_loading_percent)]
pub fn loading_percent(stage: LoadingStage) -> (r: u32)
    ensures
        r == spec_loading_percent(stage),
{
    match stage {
        LoadingStage::Init => 5,
        LoadingStage::FindSpawn => 15,
        LoadingStage::LoadChunks => 40,
        LoadingStage::GenerateMeshes => 75,
        LoadingStage::Done => 100,
    }
}

/// The line the loading screen shows at a stage.
pub fn loading_message(stage: LoadingStage) -> (r: &'static str)
    ensures
        stage == LoadingStage::Init ==> r@ == "Initializing..."@,
        stage == LoadingStage::FindSpawn ==> r@ == "Finding spawn..."@,
        stage == LoadingStage::LoadChunks ==> r@ == "Generating terrain..."@,
        stage == LoadingStage::GenerateMeshes ==> r@ == "Building meshes..."@,
        stage == LoadingStage::Done ==> r@ == "Ready!"@,
{
    match stage {
        LoadingStage::Init => "Initializing...",
        LoadingStage::FindSpawn => "Finding spawn...",
        LoadingStage::LoadChunks => "Generating terrain...",
        LoadingStage::GenerateMeshes => "Building meshes...",
        LoadingStage::Done => "Ready!",
    }
}

/// The stage after a loading frame and the work that frame does: each
/// stage does its own work and hands over to the next; the last one starts
/// play and stays.
pub open spec fn spec_advance_loading(stage: LoadingStage) -> (LoadingStage, LoadingWork) {
    match stage {
        LoadingStage::Init => (LoadingStage::FindSpawn, LoadingWork::Nothing),
        LoadingStage::FindSpawn => (LoadingStage::LoadChunks, LoadingWork::FindSpawn),
        LoadingStage::LoadChunks => (LoadingStage::GenerateMeshes, LoadingWork::LoadChunks),
        LoadingStage::GenerateMeshes => (LoadingStage::Done, LoadingWork::GenerateMeshes),
        LoadingStage::Done => (LoadingStage::Done, LoadingWork::StartPlaying),
    }
}

/// One loading frame: the next stage and the work to do now.
#[verifier::when_used_as_spec(spec_advance_loading)]
pub fn advance_loading(stage: LoadingStage) -> (r: (LoadingStage, LoadingWork))
    ensures
        r == spec_advance_loading(stage),
{
    match stage {
        LoadingStage::Init => (LoadingStage::FindSpawn, LoadingWork::Nothing),
        LoadingStage::FindSpawn => (LoadingStage::LoadChunks, LoadingWork::FindSpawn),
        LoadingStage::LoadChunks => (LoadingStage::GenerateMeshes, LoadingWork::LoadChunks),
        LoadingStage::GenerateMeshes => (LoadingStage::Done, LoadingWork::GenerateMeshes),
        LoadingStage::Done => (LoadingStage::Done, LoadingWork::StartPlaying),
    }
}

/// The loading bar never goes back, and it moves on every frame until loading is done.
pub proof fn loading_bar_only_fills(stage: LoadingStage)
    ensures
        loading_percent(advance_loading(stage).0) >= loading_percent(stage),
        stage != LoadingStage::Done ==> loading_percent(advance_loading(stage).0) > loading_percent(
            stage,
        ),
{
}

/// The screens that can be open over the world.
#[derive(Clone, Copy, PartialEq, Eq, Debug, Structural)]
pub struct Screens {
    pub crafting: bool,
    pub chest: bool,
    pub furnace: bool,
    pub paused: bool,
}

/// What the Escape key leads to.
#[derive(Clone, Copy, PartialEq, Eq, Debug, Structural)]
pub enum Escape {
    /// An open screen was closed, giving these screens; the mouse is
    /// captured again.
    Closed(Screens),
    /// Nothing was open over the world: the game quits.
    Quit,
}

/// Escape: closes the crafting screen, else the chest, else the furnace,
/// else the pause menu, and captures the mouse again; with nothing open
/// over the world it quits the game.
pub fn on_escape(s: Screens) -> (r: Escape)
    ensures
        s.crafting ==> r == Escape::Closed(Screens { crafting: false, ..s }),
        !s.crafting && s.chest ==> r == Escape::Closed(Screens { chest: false, ..s }),
        !s.crafting && !s.chest && s.furnace ==> r == Escape::Closed(Screens { furnace: false, ..s }),
        !s.crafting && !s.chest && !s.furnace && s.paused ==> r == Escape::Closed(
            Screens { paused: false, ..s },
        ),
        !s.crafting && !s.chest && !s.furnace && !s.paused ==> r == Escape::Quit,
{
    if s.crafting {
        Escape::Closed(Screens { crafting: false, ..s })
    } else if s.chest {
        Escape::Closed(Screens { chest: false, ..s })
    } else if s.furnace {
        Escape::Closed(Screens { furnace: false, ..s })
    } else if s.paused {
        Escape::Closed(Screens { paused: false, ..s })
    } else {
        Escape::Quit
    }
}

/// How a held block is put into the world.
#[derive(Clone, Copy, PartialEq, Eq, Debug, Structural)]
pub enum Placement {
    /// A slab: top or bottom half by where the ray hits, or merged with a
    /// matching slab into a full block.
    Slab,
    /// Stairs, turned to the player and upside down when aimed high.
    Stairs,
    /// A ladder against the wall that was hit.
    Ladder,
    /// A trapdoor in the top or bottom half, turned to the player.
    Trapdoor,
    /// A torch on the face that was hit.
    Torch,
    /// Any other block, in the free cell before the one hit.
    Block,
}

/// How a held block is placed: by its shape.
pub open spec fn spec_placement_of(b: BlockType) -> Placement {
    if b.is_bottom_slab() || b.is_top_slab() {
        Placement::Slab
    } else if b.is_stairs() {
        Placement::Stairs
    } else if b == BlockType::Ladder {
        Placement::Ladder
    } else if b.is_trapdoor() {
        Placement::Trapdoor
    } else if b == BlockType::Torch {
        Placement::Torch
    } else {
        Placement::Block
    }
}

/// How a held block is placed.
#[verifier::when_used_as_spec(spec_placement_of)]
pub fn placement_of(b: BlockType) -> (r: Placement)
    ensures
        r == spec_placement_of(b),
{
    if b.is_bottom_slab() || b.is_top_slab() {
        Placement::Slab
    } else if b.is_stairs() {
        Placement::Stairs
    } else if b == BlockType::Ladder {
        Placement::Ladder
    } else if b.is_trapdoor() {
        Placement::Trapdoor
    } else if b == BlockType::Torch {
        Placement::Torch
    } else {
        Placement::Block
    }
}

/// What the use key does.
#[derive(Clone, Copy, PartialEq, Eq, Debug, Structural)]
pub enum UseAction {
    /// Eat the held food.
    Eat,
    OpenCraftingTable,
    OpenChest,
    ToggleDoor,
    ToggleTrapdoor,
    /// Sleep in the bed, which skips to morning when it is night.
    Sleep,
    OpenFurnace,
    /// Put the held block into the world.
    Place(Placement),
    Nothing,
}

/// The use key, given the held block and the block the player looks at
/// (`None` when no block is in reach): held food is eaten; otherwise a
/// crafting table, chest, door, trapdoor, bed or furnace that is looked at
/// is used; otherwise the held block is placed. With empty hands only a
/// chest can be opened.
pub open spec fn spec_use_action(held: Option<BlockType>, target: Option<BlockType>) -> UseAction {
    match held {
        Some(b) => if b.is_food() {
            UseAction::Eat
        } else {
            match target {
                Some(BlockType::CraftingTable) => UseAction::OpenCraftingTable,
                Some(BlockType::Chest) => UseAction::OpenChest,
                Some(BlockType::DoorBottom) | Some(BlockType::DoorTop) => UseAction::ToggleDoor,
                Some(BlockType::WoodTrapdoor) | Some(BlockType::IronTrapdoor) => UseAction::ToggleTrapdoor,
                Some(BlockType::Bed) => UseAction::Sleep,
                Some(BlockType::Furnace) | Some(BlockType::FurnaceLit) => UseAction::OpenFurnace,
                _ => UseAction::Place(placement_of(b)),
            }
        },
        None => if target == Some(BlockType::Chest) {
            UseAction::OpenChest
        } else {
            UseAction::Nothing
        },
    }
}

/// What the use key does.
pub fn use_action(held: Option<BlockType>, target: Option<BlockType>) -> (r: UseAction)
    ensures
        r == spec_use_action(held, target),
{
    match held {
        Some(b) => {
            if b.is_food() {
                UseAction::Eat
            } else {
                match target {
                    Some(BlockType::CraftingTable) => UseAction::OpenCraftingTable,
                    Some(BlockType::Chest) => UseAction::OpenChest,
                    Some(BlockType::DoorBottom) | Some(BlockType::DoorTop) => UseAction::ToggleDoor,
                    Some(BlockType::WoodTrapdoor) | Some(BlockType::IronTrapdoor) => {
                        UseAction::ToggleTrapdoor
                    },
                    Some(BlockType::Bed) => UseAction::Sleep,
                    Some(BlockType::Furnace) | Some(BlockType::FurnaceLit) => UseAction::OpenFurnace,
                    _ => UseAction::Place(placement_of(b)),
                }
            }
        },
        None => {
            if target == Some(BlockType::Chest) {
                UseAction::OpenChest
            } else {
                UseAction::Nothing
            }
        },
    }
}

/// What the attack key does.
#[derive(Clone, Copy, PartialEq, Eq, Debug, Structural)]
pub enum AttackAction {
    /// The player is dead: drop everything and respawn.
    Respawn,
    /// Hit the hostile mob with this id.
    HitMob(u32),
    /// Hit the animal with this id.
    HitAnimal(u32),
    /// Damage the block looked at.
    BreakBlock,
    Nothing,
}

/// The attack key: a dead player respawns; a living one hits the nearest
/// hostile mob in reach, else the nearest animal in reach, else the block
/// looked at.
pub fn attack_action(dead: bool, mob: Option<u32>, animal: Option<u32>, targeting: bool) -> (r:
    AttackAction)
    ensures
        dead ==> r == AttackAction::Respawn,
        !dead && mob is Some ==> r == AttackAction::HitMob(mob->0),
        !dead && mob is None && animal is Some ==> r == AttackAction::HitAnimal(animal->0),
        !dead && mob is None && animal is None && targeting ==> r == AttackAction::BreakBlock,
        !dead && mob is None && animal is None && !targeting ==> r == AttackAction::Nothing,
{
    if dead {
        AttackAction::Respawn
    } else {
        match mob {
            Some(id) => AttackAction::HitMob(id),
            None => match animal {
                Some(id) => AttackAction::HitAnimal(id),
                None => if targeting {
                    AttackAction::BreakBlock
                } else {
                    AttackAction::Nothing
                },
            },
        }
    }
}

/// Where the placement preview is drawn.
#[derive(Clone, Copy, PartialEq, Eq, Debug, Structural)]
pub enum Preview {
    /// No preview.
    Hidden,
    /// At the cell a torch would be mounted in, against the face hit.
    WallMounted,
    /// At the free cell before the block hit.
    Plain,
}

/// The placement preview: hidden while paused or in a chest, or with
/// empty hands; a torch previews where it would be mounted; any other
/// block where it would be placed.
pub fn preview_mode(menu_open: bool, held: Option<BlockType>) -> (r: Preview)
    ensures
        menu_open || held is None ==> r == Preview::Hidden,
        !menu_open && held == Some(BlockType::Torch) ==> r == Preview::WallMounted,
        !menu_open && held is Some && held != Some(BlockType::Torch) ==> r == Preview::Plain,
{
    if menu_open {
        Preview::Hidden
    } else {
        match held {
            None => Preview::Hidden,
            Some(BlockType::Torch) => Preview::WallMounted,
            Some(_) => Preview::Plain,
        }
    }
}

/// The use key with a held block that is not food: aimed at a furnace, lit
/// or not, it opens it; at a crafting table it opens the table; at a chest
/// the chest; at either half of a door it toggles the door; at a trapdoor
/// of either kind it toggles the trapdoor; at a bed it sleeps; at anything
/// else, or at nothing, it places the held block. Held food is always
/// eaten, and with empty hands only a chest can be opened.
pub proof fn use_key_uses_what_it_aims_at(held: Option<BlockType>, target: Option<BlockType>)
    ensures
        (held matches Some(b) && b != BlockType::RawPork && b != BlockType::RawBeef && b
            != BlockType::RawMutton && b != BlockType::RawChicken) ==> {
            &&& (target == Some(BlockType::Furnace) || target == Some(BlockType::FurnaceLit))
                ==> spec_use_action(held, target) == UseAction::OpenFurnace
            &&& target == Some(BlockType::CraftingTable) ==> spec_use_action(held, target)
                == UseAction::OpenCraftingTable
            &&& target == Some(BlockType::Chest) ==> spec_use_action(held, target)
                == UseAction::OpenChest
            &&& (target == Some(BlockType::DoorBottom) || target == Some(BlockType::DoorTop))
                ==> spec_use_action(held, target) == UseAction::ToggleDoor
            &&& (target == Some(BlockType::WoodTrapdoor) || target == Some(
                BlockType::IronTrapdoor,
            )) ==> spec_use_action(held, target) == UseAction::ToggleTrapdoor
            &&& target == Some(BlockType::Bed) ==> spec_use_action(held, target) == UseAction::Sleep
            &&& (target is None || target == Some(BlockType::Stone) || target == Some(
                BlockType::Grass,
            ) || target == Some(BlockType::Dirt) || target == Some(BlockType::Water)) ==> (
            spec_use_action(held, target) matches UseAction::Place(_))
        },
        (held == Some(BlockType::RawPork) || held == Some(BlockType::RawBeef) || held == Some(
            BlockType::RawMutton,
        ) || held == Some(BlockType::RawChicken)) ==> spec_use_action(held, target) == UseAction::Eat,
        held is None ==> spec_use_action(held, target) == if target == Some(BlockType::Chest) {
            UseAction::OpenChest
        } else {
            UseAction::Nothing
        },
{
}

} // verus!
