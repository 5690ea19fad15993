use blockworld::block::{Biome, BlockType};
use blockworld::block::BlockType::{Air, Grass, Lava, Leaves, Sand, Stone, Water};
use blockworld::entity::{
    animal_for_biome, animal_search_points, animal_spawn_height, aquatic_for_roll, blocked_ahead,
    choose_animal_for_biome, choose_aquatic_animal, chunk_has_villagers, cliff_ahead, ground_level,
    hostile_spawn_height, in_hostile_spawn_ring, roll_group_extra, roll_meat_drop, spawn_allowed,
    villager_spawn_height, water_ahead, water_search_points, AnimalType, HostileMobType,
    MovementType, MAX_ANIMALS, MAX_DROPPED_ITEMS, MAX_HOSTILE_MOBS, MAX_VILLAGERS,
};

fn column(cells: &[(usize, BlockType)], height: usize) -> Vec<Option<BlockType>> {
    let mut col = vec![Some(Air); height];
    for &(y, b) in cells {
        col[y] = Some(b);
    }
    col
}

#[test]
fn movement_types_by_kind() {
    assert_eq!(AnimalType::Pig.movement_type(), MovementType::Ground);
    assert_eq!(AnimalType::Fox.movement_type(), MovementType::Ground);
    assert_eq!(AnimalType::Dolphin.movement_type(), MovementType::Aquatic);
    assert_eq!(AnimalType::Fish.movement_type(), MovementType::Aquatic);
    assert_eq!(AnimalType::Bat.movement_type(), MovementType::Flying);
    assert_eq!(AnimalType::Bee.movement_type(), MovementType::Flying);
}

#[test]
fn predators_and_prey() {
    assert!(AnimalType::Wolf.is_predator());
    assert!(AnimalType::Fox.is_predator());
    assert!(!AnimalType::Cow.is_predator());
    assert!(AnimalType::Rabbit.is_prey());
    assert!(AnimalType::Sheep.is_prey());
    assert!(!AnimalType::Wolf.is_prey());
    assert!(!AnimalType::Pig.is_prey());
}

#[test]
fn group_sizes() {
    assert_eq!(AnimalType::Fish.group_size(), 8);
    assert_eq!(AnimalType::Bee.group_size(), 6);
    assert_eq!(AnimalType::Fox.group_size(), 2);
    assert_eq!(AnimalType::Cow.group_size(), 4);
}

#[test]
fn meat_drops() {
    assert_eq!(AnimalType::Pig.meat_drop(), Some((BlockType::RawPork, 1, 3)));
    assert_eq!(AnimalType::Cow.meat_drop(), Some((BlockType::RawBeef, 1, 3)));
    assert_eq!(AnimalType::Sheep.meat_drop(), Some((BlockType::RawMutton, 1, 2)));
    assert_eq!(AnimalType::Chicken.meat_drop(), Some((BlockType::RawChicken, 1, 1)));
    assert_eq!(AnimalType::Wolf.meat_drop(), None);
    assert_eq!(AnimalType::Fish.meat_drop(), None);
}

#[test]
fn traits_of_kinds() {
    assert_eq!(AnimalType::Pig.color_index(), 27);
    assert_eq!(AnimalType::Bat.color_index(), 40);
    assert_eq!(AnimalType::Horse.base_health(), 15);
    assert_eq!(AnimalType::Bee.base_health(), 1);
    let z = HostileMobType::Zombie;
    assert_eq!((z.health(), z.damage(), z.detection_range(), z.attack_range(), z.color_index()), (20, 3, 40, 2, 48));
}

#[test]
fn plains_spawn_table_boundaries() {
    let p = Biome::Plains;
    assert_eq!(animal_for_biome(p, 0), Some(AnimalType::Pig));
    assert_eq!(animal_for_biome(p, 10), Some(AnimalType::Pig));
    assert_eq!(animal_for_biome(p, 11), Some(AnimalType::Cow));
    assert_eq!(animal_for_biome(p, 46), Some(AnimalType::Horse));
    assert_eq!(animal_for_biome(p, 47), Some(AnimalType::Bee));
    assert_eq!(animal_for_biome(p, 90), Some(AnimalType::Parrot));
    assert_eq!(animal_for_biome(p, 91), Some(AnimalType::Bat));
    assert_eq!(animal_for_biome(p, 99), Some(AnimalType::Bat));
}

#[test]
fn other_biome_spawn_tables() {
    assert_eq!(animal_for_biome(Biome::Forest, 31), Some(AnimalType::Wolf));
    assert_eq!(animal_for_biome(Biome::Forest, 42), Some(AnimalType::Fox));
    assert_eq!(animal_for_biome(Biome::Tundra, 86), Some(AnimalType::Sheep));
    assert_eq!(animal_for_biome(Biome::Tundra, 70), Some(AnimalType::Wolf));
    assert_eq!(animal_for_biome(Biome::Mountains, 95), Some(AnimalType::Bat));
    assert_eq!(animal_for_biome(Biome::Mountains, 96), Some(AnimalType::Sheep));
    assert_eq!(animal_for_biome(Biome::Ocean, 50), Some(AnimalType::Fish));
    assert_eq!(animal_for_biome(Biome::Ocean, 51), Some(AnimalType::Squid));
    assert_eq!(animal_for_biome(Biome::Ocean, 99), Some(AnimalType::Dolphin));
    assert_eq!(animal_for_biome(Biome::Desert, 29), Some(AnimalType::Rabbit));
    assert_eq!(animal_for_biome(Biome::Desert, 30), None);
}

#[test]
fn aquatic_rolls() {
    assert_eq!(aquatic_for_roll(0), AnimalType::Fish);
    assert_eq!(aquatic_for_roll(1), AnimalType::Squid);
    assert_eq!(aquatic_for_roll(2), AnimalType::Dolphin);
}

#[test]
fn random_choices_stay_in_tables() {
    let mut rng = rand::thread_rng();
    let mut seen_cow = false;
    for _ in 0..500 {
        let a = choose_animal_for_biome(&mut rng, Biome::Ocean).unwrap();
        assert_eq!(a.movement_type(), MovementType::Aquatic);
        let b = choose_animal_for_biome(&mut rng, Biome::Plains).unwrap();
        seen_cow |= b == AnimalType::Cow;
        assert_eq!(choose_aquatic_animal(&mut rng).movement_type(), MovementType::Aquatic);
    }
    assert!(seen_cow);
}

#[test]
fn meat_quantities_cover_their_range() {
    let mut rng = rand::thread_rng();
    let mut seen = [false; 4];
    for _ in 0..300 {
        let (meat, q) = roll_meat_drop(&mut rng, AnimalType::Pig).unwrap();
        assert_eq!(meat, BlockType::RawPork);
        assert!((1..=3).contains(&q));
        seen[q as usize] = true;
        assert_eq!(roll_meat_drop(&mut rng, AnimalType::Chicken), Some((BlockType::RawChicken, 1)));
    }
    assert!(seen[1] && seen[2] && seen[3]);
    assert_eq!(roll_meat_drop(&mut rng, AnimalType::Bat), None);
}

#[test]
fn group_extras_in_range() {
    let mut rng = rand::thread_rng();
    let mut seen_zero = false;
    let mut seen_full = false;
    for _ in 0..500 {
        let land = roll_group_extra(&mut rng, AnimalType::Cow, false);
        assert!(land < 4);
        seen_zero |= land == 0;
        let water = roll_group_extra(&mut rng, AnimalType::Fish, true);
        assert!((1..=8).contains(&water));
        seen_full |= water == 8;
    }
    assert!(seen_zero && seen_full);
}

#[test]
fn villager_spawns_on_highest_clear_ground() {
    let col = column(&[(40, Stone), (41, Stone), (60, Grass), (61, Leaves)], 100);
    assert_eq!(villager_spawn_height(&col), Some(61));
    let col = column(&[(40, Stone), (41, Stone), (60, Grass), (62, Water)], 100);
    assert_eq!(villager_spawn_height(&col), Some(41));
    let col = column(&[(45, Stone)], 100);
    assert_eq!(villager_spawn_height(&col), Some(45));
    let col = column(&[(20, Stone)], 100);
    assert_eq!(villager_spawn_height(&col), None);
    let col = column(&[(88, Stone)], 90);
    assert_eq!(villager_spawn_height(&col), None);
}

#[test]
fn hostile_mobs_avoid_lava() {
    let col = column(&[(50, Lava), (35, Stone)], 100);
    assert_eq!(hostile_spawn_height(&col), Some(35));
    assert_eq!(villager_spawn_height(&col), Some(50));
}

#[test]
fn animals_spawn_by_way_of_moving() {
    let col = column(&[(50, Stone), (40, Grass)], 100);
    assert_eq!(animal_spawn_height(AnimalType::Cow, &col), Some(40));
    let col = column(&[(30, Stone), (31, Water), (32, Water)], 100);
    assert_eq!(animal_spawn_height(AnimalType::Fish, &col), Some(32));
    assert_eq!(animal_spawn_height(AnimalType::Bee, &col), Some(34));
    let col = column(&[(50, Sand), (54, Stone)], 100);
    assert_eq!(animal_spawn_height(AnimalType::Parrot, &col), Some(58));
    let col = column(&[(50, Stone), (54, Stone), (58, Water)], 100);
    assert_eq!(animal_spawn_height(AnimalType::Parrot, &col), None);
    let col = column(&[(80, Water)], 100);
    assert_eq!(animal_spawn_height(AnimalType::Squid, &col), None);
}

#[test]
fn ground_level_under_a_point() {
    let col = column(&[(10, Stone), (20, Water)], 64);
    assert_eq!(ground_level(&col, 30), 11);
    assert_eq!(ground_level(&col, 10), 11);
    assert_eq!(ground_level(&col, 9), 0);
    assert_eq!(ground_level(&col, -5), 0);
}

#[test]
fn senses_ahead() {
    assert!(cliff_ahead(Some(Air), Some(Air)));
    assert!(!cliff_ahead(Some(Air), Some(Stone)));
    assert!(!cliff_ahead(None, Some(Air)));
    assert!(blocked_ahead(Some(Stone), Some(Air)));
    assert!(blocked_ahead(None, Some(Leaves)));
    assert!(!blocked_ahead(Some(Water), None));
    assert!(water_ahead(Some(Air), Some(Water)));
    assert!(!water_ahead(Some(Air), None));
}

#[test]
fn hostile_ring_between_one_and_a_half_and_six_chunks() {
    assert!(!in_hostile_spawn_ring(0, 0));
    assert!(!in_hostile_spawn_ring(1, 1));
    assert!(in_hostile_spawn_ring(2, 0));
    assert!(in_hostile_spawn_ring(1, -2));
    assert!(in_hostile_spawn_ring(6, 0));
    assert!(!in_hostile_spawn_ring(6, 1));
    assert!(!in_hostile_spawn_ring(5, 5));
    assert!(!in_hostile_spawn_ring(i32::MIN, i32::MAX));
}

#[test]
fn villagers_settle_only_empty_chunks() {
    let homes = vec![(0, 0), (-3, 2), (5, -1)];
    assert!(chunk_has_villagers(&homes, (-3, 2)));
    assert!(!chunk_has_villagers(&homes, (2, -3)));
    assert!(!chunk_has_villagers(&Vec::new(), (0, 0)));
}

#[test]
fn swimmers_are_searched_for_around_the_chosen_point() {
    assert_eq!(animal_search_points(100, -50, false), vec![(100, -50)]);
    let pts = animal_search_points(100, -50, true);
    assert_eq!(pts.len(), 13);
    assert_eq!(&pts[0..5], &[(100, -50), (104, -50), (96, -50), (100, -46), (100, -54)]);
    assert_eq!(pts[12], (96, -54));
    let water = water_search_points(0, 0);
    assert_eq!(water.len(), 21);
    assert_eq!(water[9], (8, 8));
    assert_eq!(water[20], (0, -16));
}

#[test]
fn populations_grow_only_below_their_caps() {
    assert!(spawn_allowed(0, MAX_ANIMALS));
    assert!(spawn_allowed(199, MAX_ANIMALS));
    assert!(!spawn_allowed(200, MAX_ANIMALS));
    assert!(!spawn_allowed(30, MAX_HOSTILE_MOBS));
    assert!(spawn_allowed(49, MAX_VILLAGERS));
    assert!(!spawn_allowed(50, MAX_VILLAGERS));
    assert!(!spawn_allowed(201, MAX_DROPPED_ITEMS));
}
