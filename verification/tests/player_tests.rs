use blockworld::block::BlockType::{Air, Barrier, Leaves, Stone, Water, Wood};
use blockworld::block::{BlockType, TorchFace};
use blockworld::player::{
    on_search_ring, placement_along, respawn_height, respawn_search, targeted_along, torch_face,
    MoveKey, MovementInput, SoundEvents, RESPAWN_SEARCH_REACH,
};

#[test]
fn torch_faces_by_side() {
    assert_eq!(torch_face((0, 5, 0), (0, 4, 0)), TorchFace::Top);
    assert_eq!(torch_face((0, 3, 0), (0, 4, 0)), TorchFace::Top);
    assert_eq!(torch_face((1, 4, 0), (0, 4, 0)), TorchFace::East);
    assert_eq!(torch_face((-1, 4, 0), (0, 4, 0)), TorchFace::West);
    assert_eq!(torch_face((0, 4, 1), (0, 4, 0)), TorchFace::South);
    assert_eq!(torch_face((0, 4, -1), (0, 4, 0)), TorchFace::North);
    assert_eq!(torch_face((0, 4, 0), (0, 4, 0)), TorchFace::Top);
}

#[test]
fn placement_goes_in_last_air_before_solid() {
    let ray = vec![
        ((0, 5, 0), Some(Air)),
        ((1, 5, 0), Some(Air)),
        ((1, 5, 0), Some(Air)),
        ((2, 5, 0), Some(Water)),
        ((3, 5, 0), Some(Stone)),
    ];
    assert_eq!(placement_along(&ray), Some(((1, 5, 0), TorchFace::West)));
}

#[test]
fn placement_needs_air_before_the_hit() {
    let ray = vec![((0, 5, 0), Some(Water)), ((0, 4, 0), Some(Stone))];
    assert_eq!(placement_along(&ray), None);
    let ray = vec![((0, 5, 0), Some(Air)), ((0, 6, 0), None), ((0, 7, 0), Some(Barrier))];
    assert_eq!(placement_along(&ray), None);
    let ray = vec![((0, 5, 0), Some(Air)), ((0, 4, 0), Some(Stone))];
    assert_eq!(placement_along(&ray), Some(((0, 5, 0), TorchFace::Top)));
}

#[test]
fn targeting_skips_air_and_barriers_but_not_water() {
    let ray = vec![((0, 5, 0), Some(Air)), ((0, 5, 1), Some(Barrier)), ((0, 5, 2), Some(Water)), ((0, 5, 3), Some(Stone))];
    assert_eq!(targeted_along(&ray), Some((0, 5, 2)));
    let ray = vec![((0, 5, 0), Some(Air)), ((0, 5, 1), None)];
    assert_eq!(targeted_along(&ray), None);
}

#[test]
fn respawn_on_highest_floor_with_room() {
    let mut col: Vec<Option<BlockType>> = vec![Some(Air); 64];
    col[20] = Some(Stone);
    col[40] = Some(Wood);
    col[30] = Some(Stone);
    col[32] = Some(Stone);
    assert_eq!(respawn_height(&col, 64), Some(32));
    col[34] = Some(Stone);
    assert_eq!(respawn_height(&col, 64), Some(34));
    col[36] = Some(Stone);
    assert_eq!(respawn_height(&col, 64), Some(20));
    col[40] = Some(Leaves);
    assert_eq!(respawn_height(&col, 64), Some(36));
    col[38] = Some(Water);
    assert_eq!(respawn_height(&col, 64), Some(38));
    col[38] = Some(Barrier);
    assert_eq!(respawn_height(&col, 64), Some(20));
    assert_eq!(respawn_height(&col, 10), None);
    let bare: Vec<Option<BlockType>> = vec![Some(Air); 64];
    assert_eq!(respawn_height(&bare, 64), None);
}

#[test]
fn search_rings_are_square_borders() {
    assert!(on_search_ring(0, 0, 0));
    assert!(on_search_ring(2, 2, 0));
    assert!(on_search_ring(2, -1, -2));
    assert!(!on_search_ring(2, 1, 1));
    assert!(!on_search_ring(3, -2, 2));
}

#[test]
fn movement_keys_and_spawn_lock() {
    let mut m = MovementInput::new();
    assert!(!m.has_movement_input());
    assert!(!m.release_spawn_lock());
    assert!(m.spawn_locked);
    m.process_key(None, true);
    assert!(!m.has_movement_input());
    m.process_key(Some(MoveKey::Forward), true);
    assert!(m.forward && m.has_movement_input());
    assert!(m.release_spawn_lock());
    assert!(!m.spawn_locked);
    m.process_key(Some(MoveKey::Forward), false);
    assert!(!m.has_movement_input());
    assert!(m.release_spawn_lock());
    m.process_key(Some(MoveKey::Jump), true);
    assert!(m.jump && !m.left);
}

#[test]
fn shift_moves_down() {
    let mut m = MovementInput::new();
    m.process_key(Some(MoveKey::Down), true);
    assert!(m.down && !m.jump && !m.forward);
    assert!(m.has_movement_input());
    assert!(m.release_spawn_lock());
    m.process_key(Some(MoveKey::Down), false);
    assert!(!m.down && !m.has_movement_input());
}

#[test]
fn sound_events_fire_once() {
    let mut e = SoundEvents::new();
    e.observe_step(false, true, false);
    assert!(e.check_land_event());
    assert!(!e.check_land_event());
    e.observe_step(false, false, true);
    assert!(e.check_jump_event());
    assert!(!e.check_jump_event());
    e.observe_step(true, false, false);
    assert!(e.check_water_enter_event());
    assert!(!e.check_water_enter_event());
    e.observe_step(true, false, false);
    assert!(!e.check_water_enter_event());
}

#[test]
fn no_landing_or_jump_in_water() {
    let mut e = SoundEvents::new();
    e.observe_step(true, true, true);
    assert!(!e.check_land_event());
    assert!(!e.check_jump_event());
    e.observe_step(true, true, true);
    assert!(!e.check_jump_event());
}

#[test]
fn footsteps_report_ground_once() {
    let mut e = SoundEvents::new();
    assert_eq!(e.get_footstep_event(), None);
    e.observe_walk(Some(Stone), false);
    assert_eq!(e.get_footstep_event(), None);
    e.observe_walk(Some(Stone), true);
    assert_eq!(e.get_footstep_event(), Some(Stone));
    assert_eq!(e.get_footstep_event(), None);
}

fn square_of_columns(f: impl Fn(i32, i32) -> Vec<Option<BlockType>>) -> Vec<Vec<Option<BlockType>>> {
    let mut cols = Vec::new();
    for x in -RESPAWN_SEARCH_REACH..=RESPAWN_SEARCH_REACH {
        for z in -RESPAWN_SEARCH_REACH..=RESPAWN_SEARCH_REACH {
            cols.push(f(x, z));
        }
    }
    cols
}

fn ground_at(h: usize) -> Vec<Option<BlockType>> {
    let mut col = vec![Some(BlockType::Stone); h + 1];
    col.extend(vec![Some(BlockType::Air); 64 - h - 1]);
    col
}

#[test]
fn respawn_search_takes_the_centre_first() {
    let cols = square_of_columns(|_, _| ground_at(30));
    assert_eq!(respawn_search(&cols, 64), Some((0, 30, 0)));
}

#[test]
fn respawn_search_walks_rings_outward_then_by_x_then_by_z() {
    // only two columns have ground: (2, -1) on ring 2 and (-1, 1) on ring 1
    let cols = square_of_columns(|x, z| {
        if (x, z) == (2, -1) || (x, z) == (-1, 1) {
            ground_at(20)
        } else {
            vec![Some(BlockType::Air); 64]
        }
    });
    assert_eq!(respawn_search(&cols, 64), Some((-1, 20, 1)));
    // on one ring, the lower x comes first, then the lower z
    let cols = square_of_columns(|x, z| {
        if (x, z) == (3, -3) || (x, z) == (-3, 2) || (x, z) == (-3, 3) {
            ground_at(25)
        } else {
            vec![Some(BlockType::Air); 64]
        }
    });
    assert_eq!(respawn_search(&cols, 64), Some((-3, 25, 2)));
}

#[test]
fn respawn_search_needs_room_and_fails_over_void() {
    let cols = square_of_columns(|_, _| vec![Some(BlockType::Air); 64]);
    assert_eq!(respawn_search(&cols, 64), None);
    // leaves above still leave room
    let cols = square_of_columns(|x, z| {
        if (x, z) == (0, 0) {
            let mut col = ground_at(12);
            col[13] = Some(BlockType::Leaves);
            col[14] = Some(BlockType::Leaves);
            col
        } else {
            vec![Some(BlockType::Air); 64]
        }
    });
    assert_eq!(respawn_search(&cols, 64), Some((0, 12, 0)));
    // a wood block is no floor, and one above the ground takes the room
    let cols = square_of_columns(|x, z| {
        if (x, z) == (0, 0) {
            let mut col = ground_at(12);
            col[14] = Some(BlockType::Wood);
            col
        } else {
            vec![Some(BlockType::Air); 64]
        }
    });
    assert_eq!(respawn_search(&cols, 64), None);
}
