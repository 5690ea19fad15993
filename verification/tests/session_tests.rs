use blockworld::block::BlockType;
use blockworld::block::BlockType::{
    Bed, Chest, CraftingTable, Dirt, DoorBottom, DoorTop, FurnaceLit, Grass, RawBeef, RawChicken,
    Stone, StoneStairs, Torch, WoodTrapdoor,
};
use blockworld::session::{
    advance_loading, attack_action, loading_message, loading_percent, on_escape, placement_of,
    preview_mode, use_action, AttackAction, Escape, LoadingStage, LoadingWork, Placement, Preview, Screens,
    UseAction,
};

#[test]
fn loading_runs_through_every_stage_once() {
    let mut stage = LoadingStage::Init;
    let mut work = Vec::new();
    let mut shown = Vec::new();
    for _ in 0..5 {
        shown.push((loading_percent(stage), loading_message(stage)));
        let (next, w) = advance_loading(stage);
        work.push(w);
        stage = next;
    }
    assert_eq!(
        work,
        vec![
            LoadingWork::Nothing,
            LoadingWork::FindSpawn,
            LoadingWork::LoadChunks,
            LoadingWork::GenerateMeshes,
            LoadingWork::StartPlaying,
        ]
    );
    assert_eq!(
        shown,
        vec![
            (5, "Initializing..."),
            (15, "Finding spawn..."),
            (40, "Generating terrain..."),
            (75, "Building meshes..."),
            (100, "Ready!"),
        ]
    );
    assert_eq!(stage, LoadingStage::Done);
    assert_eq!(advance_loading(LoadingStage::Done), (LoadingStage::Done, LoadingWork::StartPlaying));
}

fn screens(crafting: bool, chest: bool, furnace: bool, paused: bool) -> Screens {
    Screens { crafting, chest, furnace, paused }
}

#[test]
fn escape_closes_the_topmost_screen() {
    assert_eq!(on_escape(screens(true, true, false, false)), Escape::Closed(screens(false, true, false, false)));
    assert_eq!(on_escape(screens(false, true, true, false)), Escape::Closed(screens(false, false, true, false)));
    assert_eq!(on_escape(screens(false, false, true, false)), Escape::Closed(screens(false, false, false, false)));
    assert_eq!(on_escape(screens(false, false, false, true)), Escape::Closed(screens(false, false, false, false)));
}

#[test]
fn escape_with_nothing_open_quits() {
    assert_eq!(on_escape(screens(false, false, false, false)), Escape::Quit);
}

#[test]
fn blocks_are_placed_by_their_shape() {
    assert_eq!(placement_of(BlockType::StoneSlabBottom), Placement::Slab);
    assert_eq!(placement_of(BlockType::WoodSlabTop), Placement::Slab);
    assert_eq!(placement_of(BlockType::BrickStairs), Placement::Stairs);
    assert_eq!(placement_of(BlockType::Ladder), Placement::Ladder);
    assert_eq!(placement_of(BlockType::IronTrapdoor), Placement::Trapdoor);
    assert_eq!(placement_of(BlockType::Torch), Placement::Torch);
    assert_eq!(placement_of(BlockType::Stone), Placement::Block);
}

#[test]
fn use_key_eats_uses_or_places() {
    assert_eq!(use_action(Some(RawBeef), Some(Chest)), UseAction::Eat);
    assert_eq!(use_action(Some(RawChicken), None), UseAction::Eat);
    assert_eq!(use_action(Some(Stone), Some(CraftingTable)), UseAction::OpenCraftingTable);
    assert_eq!(use_action(Some(Stone), Some(Chest)), UseAction::OpenChest);
    assert_eq!(use_action(Some(Stone), Some(DoorTop)), UseAction::ToggleDoor);
    assert_eq!(use_action(Some(Stone), Some(DoorBottom)), UseAction::ToggleDoor);
    assert_eq!(use_action(Some(Stone), Some(WoodTrapdoor)), UseAction::ToggleTrapdoor);
    assert_eq!(use_action(Some(Stone), Some(Bed)), UseAction::Sleep);
    assert_eq!(use_action(Some(Stone), Some(FurnaceLit)), UseAction::OpenFurnace);
    assert_eq!(use_action(Some(Stone), Some(Grass)), UseAction::Place(Placement::Block));
    assert_eq!(use_action(Some(Torch), None), UseAction::Place(Placement::Torch));
    assert_eq!(use_action(Some(StoneStairs), Some(Dirt)), UseAction::Place(Placement::Stairs));
}

#[test]
fn use_key_with_empty_hands_only_opens_chests() {
    assert_eq!(use_action(None, Some(Chest)), UseAction::OpenChest);
    assert_eq!(use_action(None, Some(CraftingTable)), UseAction::Nothing);
    assert_eq!(use_action(None, None), UseAction::Nothing);
}

#[test]
fn attack_key_prefers_mobs_then_animals_then_blocks() {
    assert_eq!(attack_action(true, Some(1), Some(2), true), AttackAction::Respawn);
    assert_eq!(attack_action(false, Some(1), Some(2), true), AttackAction::HitMob(1));
    assert_eq!(attack_action(false, None, Some(2), true), AttackAction::HitAnimal(2));
    assert_eq!(attack_action(false, None, None, true), AttackAction::BreakBlock);
    assert_eq!(attack_action(false, None, None, false), AttackAction::Nothing);
}

#[test]
fn preview_follows_the_held_block() {
    assert_eq!(preview_mode(true, Some(BlockType::Stone)), Preview::Hidden);
    assert_eq!(preview_mode(false, None), Preview::Hidden);
    assert_eq!(preview_mode(false, Some(BlockType::Torch)), Preview::WallMounted);
    assert_eq!(preview_mode(false, Some(BlockType::Stone)), Preview::Plain);
}
