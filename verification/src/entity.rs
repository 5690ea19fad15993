//! Villagers, animals and hostile mobs: their kinds and fixed traits, which
//! animal a biome spawns, and where in a column of the world an entity may
//! spawn or stand.
use vstd::prelude::*;
use rand::rngs::ThreadRng;
use crate::block::BlockType;
use crate::block::Biome;

verus! {

/// Most animals alive at once.
pub const MAX_ANIMALS: usize = 200;

/// Most hostile mobs alive at once.
pub const MAX_HOSTILE_MOBS: usize = 30;

/// Most villagers alive at once.
pub const MAX_VILLAGERS: usize = 50;

/// Most dropped items lying around at once.
pub const MAX_DROPPED_ITEMS: usize = 200;

/// Whether one more member may join a population of `len` whose cap is
/// `cap`: only while the population is below its cap.
pub open spec fn spec_spawn_allowed(len: usize, cap: usize) -> bool {
    len < cap
}

/// Whether a population of `len` (animals, hostile mobs, villagers or
/// dropped items) may take one more member under its cap.
#[verifier::when_used_as_spec(spec_spawn_allowed)]
pub fn spawn_allowed(len: usize, cap: usize) -> (r: bool)
    ensures
        r == spec_spawn_allowed(len, cap),
{
    len < cap
}

/// A population that only grows one at a time when `spawn_allowed` says
/// so never passes its cap, and one below its cap always has room.
pub proof fn populations_stay_capped(len: usize, cap: usize)
    requires
        len <= cap,
    ensures
        spawn_allowed(len, cap) ==> len + 1 <= cap,
        !spawn_allowed(len, cap) ==> len == cap,
{
}

/// Whether a chunk already houses villagers, given the home chunks of the
/// villagers alive: villagers spawn only in chunks that house none.
pub fn chunk_has_villagers(homes: &Vec<(i32, i32)>, chunk: (i32, i32)) -> (r: bool)
    ensures
        r == homes@.contains(chunk),
{
    let mut i: usize = 0;
    while i < homes.len()
        invariant
            i <= homes@.len(),
            forall|j: int| 0 <= j < i ==> homes@[j] != chunk,
        decreases homes@.len() - i,
    {
        let h = homes[i];
        if h.0 == chunk.0 && h.1 == chunk.1 {
            assert(homes@[i as int] == chunk);
            return true;
        }
        i += 1;
    }
    false
}

/// What a villager is doing.
#[derive(Clone, Copy, PartialEq, Eq, Debug, Structural)]
pub enum VillagerState {
    Idle,
    Walking,
    LookingAround,
}

/// The kinds of animals.
#[derive(Clone, Copy, PartialEq, Eq, Debug, Structural)]
pub enum AnimalType {
    Pig,
    Cow,
    Sheep,
    Chicken,
    Rabbit,
    Horse,
    Wolf,
    Fox,
    Fish,
    Squid,
    Dolphin,
    Bee,
    Parrot,
    Bat,
}

/// How an animal moves, which decides its physics and behaviour.
#[derive(Clone, Copy, PartialEq, Eq, Debug, Structural)]
pub enum MovementType {
    Ground,
    Aquatic,
    Flying,
}

/// What an animal is doing.
#[derive(Clone, Copy, PartialEq, Eq, Debug, Structural)]
pub enum AnimalState {
    Idle,
    Walking,
    Eating,
    Running,
    Swimming,
    Flying,
    Hovering,
}

/// The kinds of hostile mobs.
#[derive(Clone, Copy, PartialEq, Eq, Debug, Structural)]
pub enum HostileMobType {
    Zombie,
}

/// What a hostile mob is doing.
#[derive(Clone, Copy, PartialEq, Eq, Debug, Structural)]
pub enum HostileMobState {
    Idle,
    Wandering,
    Chasing,
    Attacking,
}

pub open spec fn spec_movement_type(t: AnimalType) -> MovementType {
    match t {
        AnimalType::Fish | AnimalType::Squid | AnimalType::Dolphin => MovementType::Aquatic,
        AnimalType::Bee | AnimalType::Parrot | AnimalType::Bat => MovementType::Flying,
        _ => MovementType::Ground,
    }
}

pub open spec fn spec_group_size(t: AnimalType) -> usize {
    match t {
        AnimalType::Cow => 4,
        AnimalType::Sheep => 5,
        AnimalType::Pig => 3,
        AnimalType::Horse => 3,
        AnimalType::Chicken => 5,
        AnimalType::Parrot => 3,
        AnimalType::Bat => 4,
        AnimalType::Wolf => 3,
        AnimalType::Fox => 2,
        AnimalType::Rabbit => 4,
        AnimalType::Bee => 6,
        AnimalType::Fish => 8,
        AnimalType::Squid => 3,
        AnimalType::Dolphin => 4,
    }
}

pub open spec fn spec_meat_drop(t: AnimalType) -> Option<(BlockType, u32, u32)> {
    match t {
        AnimalType::Pig => Some((BlockType::RawPork, 1, 3)),
        AnimalType::Cow => Some((BlockType::RawBeef, 1, 3)),
        AnimalType::Sheep => Some((BlockType::RawMutton, 1, 2)),
        AnimalType::Chicken => Some((BlockType::RawChicken, 1, 1)),
        _ => None,
    }
}

impl AnimalType {
    /// Farm and land animals walk, fish, squid and dolphins swim, bees,
    /// parrots and bats fly.
    pub fn movement_type(&self) -> (r: MovementType)
        ensures
            r == spec_movement_type(*self),
    {
        match self {
            AnimalType::Pig | AnimalType::Cow | AnimalType::Sheep | AnimalType::Chicken
            | AnimalType::Rabbit | AnimalType::Horse | AnimalType::Wolf | AnimalType::Fox => {
                MovementType::Ground
            },
            AnimalType::Fish | AnimalType::Squid | AnimalType::Dolphin => MovementType::Aquatic,
            AnimalType::Bee | AnimalType::Parrot | AnimalType::Bat => MovementType::Flying,
        }
    }

    /// Wolves and foxes hunt.
    pub fn is_predator(&self) -> (r: bool)
        ensures
            r == (*self == AnimalType::Wolf || *self == AnimalType::Fox),
    {
        matches!(self, AnimalType::Wolf | AnimalType::Fox)
    }

    /// Chickens, rabbits and sheep flee from predators.
    pub fn is_prey(&self) -> (r: bool)
        ensures
            r == (*self == AnimalType::Chicken || *self == AnimalType::Rabbit || *self
                == AnimalType::Sheep),
    {
        matches!(self, AnimalType::Chicken | AnimalType::Rabbit | AnimalType::Sheep)
    }

    /// How many more animals of this kind may spawn with the first one
    /// (herds, flocks, packs, swarms and schools).
    pub fn group_size(&self) -> (r: usize)
        ensures
            r == spec_group_size(*self),
    {
        match self {
            AnimalType::Cow => 4,
            AnimalType::Sheep => 5,
            AnimalType::Pig => 3,
            AnimalType::Horse => 3,
            AnimalType::Chicken => 5,
            AnimalType::Parrot => 3,
            AnimalType::Bat => 4,
            AnimalType::Wolf => 3,
            AnimalType::Fox => 2,
            AnimalType::Rabbit => 4,
            AnimalType::Bee => 6,
            AnimalType::Fish => 8,
            AnimalType::Squid => 3,
            AnimalType::Dolphin => 4,
        }
    }

    /// The meat a dead animal drops and the least and most it drops; only
    /// pigs, cows, sheep and chickens drop meat.
    pub fn meat_drop(&self) -> (r: Option<(BlockType, u32, u32)>)
        ensures
            r == spec_meat_drop(*self),
    {
        match self {
            AnimalType::Pig => Some((BlockType::RawPork, 1, 3)),
            AnimalType::Cow => Some((BlockType::RawBeef, 1, 3)),
            AnimalType::Sheep => Some((BlockType::RawMutton, 1, 2)),
            AnimalType::Chicken => Some((BlockType::RawChicken, 1, 1)),
            _ => None,
        }
    }

    /// The texture layer the animal is drawn with.
    pub fn color_index(&self) -> (r: u32)
        ensures
            r == match *self {
                AnimalType::Pig => 27u32,
                AnimalType::Cow => 28u32,
                AnimalType::Sheep => 29u32,
                AnimalType::Chicken => 30u32,
                AnimalType::Rabbit => 31u32,
                AnimalType::Horse => 32u32,
                AnimalType::Wolf => 33u32,
                AnimalType::Fox => 34u32,
                AnimalType::Fish => 35u32,
                AnimalType::Squid => 36u32,
                AnimalType::Dolphin => 37u32,
                AnimalType::Bee => 38u32,
                AnimalType::Parrot => 39u32,
                AnimalType::Bat => 40u32,
            },
    {
        match self {
            AnimalType::Pig => 27,
            AnimalType::Cow => 28,
            AnimalType::Sheep => 29,
            AnimalType::Chicken => 30,
            AnimalType::Rabbit => 31,
            AnimalType::Horse => 32,
            AnimalType::Wolf => 33,
            AnimalType::Fox => 34,
            AnimalType::Fish => 35,
            AnimalType::Squid => 36,
            AnimalType::Dolphin => 37,
            AnimalType::Bee => 38,
            AnimalType::Parrot => 39,
            AnimalType::Bat => 40,
        }
    }

    /// The health an animal of this kind starts with.
    pub fn base_health(&self) -> (r: u32)
        ensures
            r == match *self {
                AnimalType::Pig | AnimalType::Cow | AnimalType::Squid | AnimalType::Dolphin => 10u32,
                AnimalType::Sheep | AnimalType::Wolf | AnimalType::Fox => 8u32,
                AnimalType::Chicken | AnimalType::Parrot => 4u32,
                AnimalType::Rabbit | AnimalType::Fish | AnimalType::Bat => 3u32,
                AnimalType::Horse => 15u32,
                AnimalType::Bee => 1u32,
            },
    {
        match self {
            AnimalType::Pig => 10,
            AnimalType::Cow => 10,
            AnimalType::Sheep => 8,
            AnimalType::Chicken => 4,
            AnimalType::Rabbit => 3,
            AnimalType::Horse => 15,
            AnimalType::Wolf => 8,
            AnimalType::Fox => 8,
            AnimalType::Fish => 3,
            AnimalType::Squid => 10,
            AnimalType::Dolphin => 10,
            AnimalType::Bee => 1,
            AnimalType::Parrot => 4,
            AnimalType::Bat => 3,
        }
    }
}

impl HostileMobType {
    /// Starting health: a zombie has 20.
    pub fn health(&self) -> (r: u32)
        ensures
            r == 20,
    {
        match self {
            HostileMobType::Zombie => 20,
        }
    }

    /// Damage of one attack: a zombie deals 3.
    pub fn damage(&self) -> (r: u32)
        ensures
            r == 3,
    {
        match self {
            HostileMobType::Zombie => 3,
        }
    }

    /// Distance at which the mob notices the player: 40 for a zombie.
    pub fn detection_range(&self) -> (r: u32)
        ensures
            r == 40,
    {
        match self {
            HostileMobType::Zombie => 40,
        }
    }

    /// Distance from which the mob can hit: 2 for a zombie.
    pub fn attack_range(&self) -> (r: u32)
        ensures
            r == 2,
    {
        match self {
            HostileMobType::Zombie => 2,
        }
    }

    /// The texture layer the mob is drawn with: 48 for a zombie.
    pub fn color_index(&self) -> (r: u32)
        ensures
            r == 48,
    {
        match self {
            HostileMobType::Zombie => 48,
        }
    }
}

/// The animal a chunk of `biome` spawns for a roll in 0..100; a desert
/// spawns a rabbit on rolls below 30 and nothing otherwise.
pub open spec fn spec_animal_for_biome(biome: Biome, roll: u32) -> Option<AnimalType> {
    match biome {
        Biome::Plains => Some(
            if roll <= 10 {
                AnimalType::Pig
            } else if roll <= 18 {
                AnimalType::Cow
            } else if roll <= 26 {
                AnimalType::Sheep
            } else if roll <= 34 {
                AnimalType::Chicken
            } else if roll <= 42 {
                AnimalType::Rabbit
            } else if roll <= 46 {
                AnimalType::Horse
            } else if roll <= 72 {
                AnimalType::Bee
            } else if roll <= 90 {
                AnimalType::Parrot
            } else {
                AnimalType::Bat
            },
        ),
        Biome::Forest => Some(
            if roll <= 8 {
                AnimalType::Pig
            } else if roll <= 14 {
                AnimalType::Sheep
            } else if roll <= 22 {
                AnimalType::Chicken
            } else if roll <= 30 {
                AnimalType::Rabbit
            } else if roll <= 36 {
                AnimalType::Wolf
            } else if roll <= 42 {
                AnimalType::Fox
            } else if roll <= 68 {
                AnimalType::Bee
            } else if roll <= 88 {
                AnimalType::Parrot
            } else {
                AnimalType::Bat
            },
        ),
        Biome::Tundra => Some(
            if roll <= 40 {
                AnimalType::Sheep
            } else if roll <= 60 {
                AnimalType::Rabbit
            } else if roll <= 85 {
                AnimalType::Wolf
            } else {
                AnimalType::Sheep
            },
        ),
        Biome::Mountains => Some(
            if roll <= 60 {
                AnimalType::Sheep
            } else if roll <= 80 {
                AnimalType::Rabbit
            } else if roll <= 95 {
                AnimalType::Bat
            } else {
                AnimalType::Sheep
            },
        ),
        Biome::Ocean => Some(
            if roll <= 50 {
                AnimalType::Fish
            } else if roll <= 75 {
                AnimalType::Squid
            } else {
                AnimalType::Dolphin
            },
        ),
        Biome::Desert => if roll < 30 {
            Some(AnimalType::Rabbit)
        } else {
            None
        },
    }
}

/// Which animal a chunk of `biome` spawns for a percentile roll.
pub fn animal_for_biome(biome: Biome, roll: u32) -> (r: Option<AnimalType>)
    requires
        roll < 100,
    ensures
        r == spec_animal_for_biome(biome, roll),
{
    match biome {
        Biome::Plains => Some(
            if roll <= 10 {
                AnimalType::Pig
            } else if roll <= 18 {
                AnimalType::Cow
            } else if roll <= 26 {
                AnimalType::Sheep
            } else if roll <= 34 {
                AnimalType::Chicken
            } else if roll <= 42 {
                AnimalType::Rabbit
            } else if roll <= 46 {
                AnimalType::Horse
            } else if roll <= 72 {
                AnimalType::Bee
            } else if roll <= 90 {
                AnimalType::Parrot
            } else {
                AnimalType::Bat
            },
        ),
        Biome::Forest => Some(
            if roll <= 8 {
                AnimalType::Pig
            } else if roll <= 14 {
                AnimalType::Sheep
            } else if roll <= 22 {
                AnimalType::Chicken
            } else if roll <= 30 {
                AnimalType::Rabbit
            } else if roll <= 36 {
                AnimalType::Wolf
            } else if roll <= 42 {
                AnimalType::Fox
            } else if roll <= 68 {
                AnimalType::Bee
            } else if roll <= 88 {
                AnimalType::Parrot
            } else {
                AnimalType::Bat
            },
        ),
        Biome::Tundra => Some(
            if roll <= 40 {
                AnimalType::Sheep
            } else if roll <= 60 {
                AnimalType::Rabbit
            } else if roll <= 85 {
                AnimalType::Wolf
            } else {
                AnimalType::Sheep
            },
        ),
        Biome::Mountains => Some(
            if roll <= 60 {
                AnimalType::Sheep
            } else if roll <= 80 {
                AnimalType::Rabbit
            } else if roll <= 95 {
                AnimalType::Bat
            } else {
                AnimalType::Sheep
            },
        ),
        Biome::Ocean => Some(
            if roll <= 50 {
                AnimalType::Fish
            } else if roll <= 75 {
                AnimalType::Squid
            } else {
                AnimalType::Dolphin
            },
        ),
        Biome::Desert => if roll < 30 {
            Some(AnimalType::Rabbit)
        } else {
            None
        },
    }
}

/// Draws the animal a chunk of `biome` spawns, if any.
pub fn choose_animal_for_biome(rng: &mut ThreadRng, biome: Biome) -> (r: Option<AnimalType>)
    ensures
        exists|roll: u32| roll < 100 && r == spec_animal_for_biome(biome, roll),
{
    let roll = crate::random::gen_range_u32(rng, 0, 100);
    animal_for_biome(biome, roll)
}

/// The aquatic animal spawned near water for a roll in 0..3.
pub open spec fn spec_aquatic_for_roll(roll: u32) -> AnimalType {
    if roll == 0 {
        AnimalType::Fish
    } else if roll == 1 {
        AnimalType::Squid
    } else {
        AnimalType::Dolphin
    }
}

/// Which aquatic animal a roll in 0..3 gives.
pub fn aquatic_for_roll(roll: u32) -> (r: AnimalType)
    ensures
        r == spec_aquatic_for_roll(roll),
{
    match roll {
        0 => AnimalType::Fish,
        1 => AnimalType::Squid,
        _ => AnimalType::Dolphin,
    }
}

/// Draws the aquatic animal to spawn in found water.
pub fn choose_aquatic_animal(rng: &mut ThreadRng) -> (r: AnimalType)
    ensures
        r == AnimalType::Fish || r == AnimalType::Squid || r == AnimalType::Dolphin,
        spec_movement_type(r) == MovementType::Aquatic,
{
    let roll = crate::random::gen_range_u32(rng, 0, 3);
    aquatic_for_roll(roll)
}

/// Draws how much meat a dead animal drops: `None` for animals without
/// meat, otherwise its meat and a quantity between its least and most.
pub fn roll_meat_drop(rng: &mut ThreadRng, animal: AnimalType) -> (r: Option<(BlockType, u32)>)
    ensures
        match spec_meat_drop(animal) {
            Some((meat, lo, hi)) => r matches Some((b, q)) && b == meat && lo <= q <= hi,
            None => r is None,
        },
{
    match animal.meat_drop() {
        Some((meat, lo, hi)) => {
            let q = crate::random::gen_range_u32(rng, lo, hi + 1);
            Some((meat, q))
        },
        None => None,
    }
}

/// Draws how many more animals join a group: fewer than the group size on
/// land, and from one up to the group size for a school or pod found in water.
pub fn roll_group_extra(rng: &mut ThreadRng, animal: AnimalType, in_water_search: bool) -> (r: usize)
    ensures
        if in_water_search {
            1 <= r <= spec_group_size(animal)
        } else {
            r < spec_group_size(animal)
        },
{
    let size = animal.group_size();
    if in_water_search {
        crate::random::gen_range_u32(rng, 1, size as u32 + 1) as usize
    } else {
        crate::random::gen_range_u32(rng, 0, size as u32) as usize
    }
}

/// The block at height `y` of a column of lookups; outside it, nothing.
pub open spec fn at(col: Seq<Option<BlockType>>, y: int) -> Option<BlockType> {
    if 0 <= y < col.len() {
        col[y]
    } else {
        None
    }
}

/// Looks up height `y` of a column.
pub fn block_at(col: &Vec<Option<BlockType>>, y: i32) -> (r: Option<BlockType>)
    ensures
        r == at(col@, y as int),
{
    if y >= 0 && (y as usize) < col.len() {
        col[y as usize]
    } else {
        None
    }
}

/// The standing rules of the spawn searches.
#[derive(Clone, Copy, PartialEq, Eq, Debug, Structural)]
pub enum SpawnRule {
    /// A villager: any solid block with three cells of air above.
    Villager,
    /// A hostile mob: any solid block but lava with three cells of air above.
    Hostile,
    /// A walking animal: grass, dirt, sand or snow with two cells of air above.
    Grazer,
    /// A swimming animal: any water cell.
    Swimmer,
}

/// Height `y` of the column is a spawn site under `rule`.
pub open spec fn site_ok(rule: SpawnRule, col: Seq<Option<BlockType>>, y: int) -> bool {
    let air = Some(BlockType::Air);
    match rule {
        SpawnRule::Villager => at(col, y) matches Some(b) && crate::block::spec_blocks_movement(b)
            && at(col, y + 1) == air && at(col, y + 2) == air && at(col, y + 3) == air,
        SpawnRule::Hostile => at(col, y) matches Some(b) && crate::block::spec_blocks_movement(b)
            && b != BlockType::Lava && at(col, y + 1) == air && at(col, y + 2) == air && at(
            col,
            y + 3,
        ) == air,
        SpawnRule::Grazer => at(col, y) matches Some(b) && (b == BlockType::Grass || b
            == BlockType::Dirt || b == BlockType::Sand || b == BlockType::Snow) && at(col, y + 1)
            == air && at(col, y + 2) == air,
        SpawnRule::Swimmer => at(col, y) == Some(BlockType::Water),
    }
}

fn is_site(rule: SpawnRule, col: &Vec<Option<BlockType>>, y: i32) -> (r: bool)
    requires
        y < i32::MAX - 3,
    ensures
        r == site_ok(rule, col@, y as int),
{
    let air = Some(BlockType::Air);
    match rule {
        SpawnRule::Villager => match block_at(col, y) {
            Some(b) => crate::block::blocks_movement(b) && block_at(col, y + 1) == air && block_at(
                col,
                y + 2,
            ) == air && block_at(col, y + 3) == air,
            None => false,
        },
        SpawnRule::Hostile => match block_at(col, y) {
            Some(b) => crate::block::blocks_movement(b) && b != BlockType::Lava && block_at(
                col,
                y + 1,
            ) == air && block_at(col, y + 2) == air && block_at(col, y + 3) == air,
            None => false,
        },
        SpawnRule::Grazer => match block_at(col, y) {
            Some(b) => (b == BlockType::Grass || b == BlockType::Dirt || b == BlockType::Sand || b
                == BlockType::Snow) && block_at(col, y + 1) == air && block_at(col, y + 2) == air,
            None => false,
        },
        SpawnRule::Swimmer => block_at(col, y) == Some(BlockType::Water),
    }
}

/// `y` is the highest spawn site under `rule` among heights `lo..hi`.
pub open spec fn highest_site(
    rule: SpawnRule,
    col: Seq<Option<BlockType>>,
    lo: int,
    hi: int,
    y: int,
) -> bool {
    &&& lo <= y < hi
    &&& site_ok(rule, col, y)
    &&& forall|z: int| y < z < hi ==> !#[trigger] site_ok(rule, col, z)
}

/// The answer of a search from the top of `lo..hi` down for a spawn site.
pub open spec fn site_search(
    rule: SpawnRule,
    col: Seq<Option<BlockType>>,
    lo: int,
    hi: int,
    r: Option<i32>,
) -> bool {
    match r {
        Some(y) => highest_site(rule, col, lo, hi, y as int),
        None => forall|z: int| lo <= z < hi ==> !#[trigger] site_ok(rule, col, z),
    }
}

/// Searches heights `lo..hi` of a column from the top down for the first
/// spawn site under `rule`.
pub fn find_spawn_site(rule: SpawnRule, col: &Vec<Option<BlockType>>, lo: i32, hi: i32) -> (r:
    Option<i32>)
    requires
        lo <= hi,
        hi < i32::MAX - 3,
    ensures
        site_search(rule, col@, lo as int, hi as int, r),
{
    let mut y = hi;
    while y > lo
        invariant
            lo <= y <= hi,
            hi < i32::MAX - 3,
            forall|z: int| y <= z < hi ==> !#[trigger] site_ok(rule, col@, z),
        decreases y - lo,
    {
        y -= 1;
        if is_site(rule, col, y) {
            return Some(y);
        }
    }
    None
}

/// The height a villager spawns on in a world column (heights 30 to 89):
/// the ground cell, with the villager placed above it.
pub fn villager_spawn_height(col: &Vec<Option<BlockType>>) -> (r: Option<i32>)
    ensures
        site_search(SpawnRule::Villager, col@, 30, 90, r),
{
    find_spawn_site(SpawnRule::Villager, col, 30, 90)
}

/// The height a hostile mob spawns on in a world column (heights 30 to 89).
pub fn hostile_spawn_height(col: &Vec<Option<BlockType>>) -> (r: Option<i32>)
    ensures
        site_search(SpawnRule::Hostile, col@, 30, 90, r),
{
    find_spawn_site(SpawnRule::Hostile, col, 30, 90)
}

/// The highest solid cell among heights `lo..hi`, if any.
pub open spec fn highest_solid(col: Seq<Option<BlockType>>, lo: int, hi: int, y: int) -> bool {
    &&& lo <= y < hi
    &&& crate::block::spec_cell_blocks(at(col, y))
    &&& forall|z: int| y < z < hi ==> !crate::block::spec_cell_blocks(#[trigger] at(col, z))
}

/// Where a flying animal spawns: four cells above the highest solid cell
/// among heights 30 to 89, when that cell is air.
pub open spec fn flying_site(col: Seq<Option<BlockType>>, r: Option<i32>) -> bool {
    if exists|y: int| highest_solid(col, 30, 90, y) {
        exists|y: int|
            highest_solid(col, 30, 90, y) && r == if at(col, y + 4) == Some(BlockType::Air) {
                Some((y + 4) as i32)
            } else {
                None
            }
    } else {
        r is None
    }
}

/// Searches heights `lo..hi` from the top down for the first solid cell.
fn find_highest_solid(col: &Vec<Option<BlockType>>, lo: i32, hi: i32) -> (r: Option<i32>)
    requires
        lo <= hi,
    ensures
        match r {
            Some(y) => highest_solid(col@, lo as int, hi as int, y as int),
            None => forall|z: int|
                lo <= z < hi ==> !crate::block::spec_cell_blocks(#[trigger] at(col@, z)),
        },
{
    let mut y = hi;
    while y > lo
        invariant
            lo <= y <= hi,
            forall|z: int| y <= z < hi ==> !crate::block::spec_cell_blocks(#[trigger] at(col@, z)),
        decreases y - lo,
    {
        y -= 1;
        if crate::block::cell_blocks(block_at(col, y)) {
            return Some(y);
        }
    }
    None
}

/// The height an animal of kind `t` spawns at in a world column. For a
/// walking animal the ground cell it stands on (heights 30 to 89); for a
/// swimming one the water cell it floats in (heights 5 to 69); for a flying
/// one the air cell it hovers in.
pub fn animal_spawn_height(t: AnimalType, col: &Vec<Option<BlockType>>) -> (r: Option<i32>)
    ensures
        match spec_movement_type(t) {
            MovementType::Ground => site_search(SpawnRule::Grazer, col@, 30, 90, r),
            MovementType::Aquatic => site_search(SpawnRule::Swimmer, col@, 5, 70, r),
            MovementType::Flying => flying_site(col@, r),
        },
{
    match t.movement_type() {
        MovementType::Ground => find_spawn_site(SpawnRule::Grazer, col, 30, 90),
        MovementType::Aquatic => find_spawn_site(SpawnRule::Swimmer, col, 5, 70),
        MovementType::Flying => {
            match find_highest_solid(col, 30, 90) {
                Some(y) => {
                    if block_at(col, y + 4) == Some(BlockType::Air) {
                        Some(y + 4)
                    } else {
                        None
                    }
                },
                None => None,
            }
        },
    }
}

/// The ground level under a point whose cell is at height `top`: one above
/// the highest solid cell at or below `top`, or 0 when there is none.
pub open spec fn spec_ground_level(col: Seq<Option<BlockType>>, top: int, r: int) -> bool {
    ground_below(col, top + 1, r)
}

/// One above the highest solid cell below height `hi`, or 0 when there is none.
pub open spec fn ground_below(col: Seq<Option<BlockType>>, hi: int, r: int) -> bool {
    if exists|y: int| highest_solid(col, 0, hi, y) {
        exists|y: int| highest_solid(col, 0, hi, y) && r == y + 1
    } else {
        r == 0
    }
}

/// Where a falling item or a flying animal finds the ground in its column.
pub fn ground_level(col: &Vec<Option<BlockType>>, top: i32) -> (r: i32)
    requires
        top < i32::MAX,
    ensures
        spec_ground_level(col@, top as int, r as int),
{
    if top < 0 {
        return 0;
    }
    match find_highest_solid(col, 0, top + 1) {
        Some(y) => y + 1,
        None => 0,
    }
}

/// Two cells ahead of a walker form a cliff when both the cell ahead below
/// its feet and the one under that are air.
pub fn cliff_ahead(ahead: Option<BlockType>, below: Option<BlockType>) -> (r: bool)
    ensures
        r == (ahead == Some(BlockType::Air) && below == Some(BlockType::Air)),
{
    ahead == Some(BlockType::Air) && below == Some(BlockType::Air)
}

/// A walker is blocked when a solid block stands at chest or head height ahead.
pub fn blocked_ahead(chest: Option<BlockType>, head: Option<BlockType>) -> (r: bool)
    ensures
        r == (crate::block::spec_cell_blocks(chest) || crate::block::spec_cell_blocks(head)),
{
    crate::block::cell_blocks(chest) || crate::block::cell_blocks(head)
}

/// A walker sees water ahead in the cell at its feet or the one below.
pub fn water_ahead(feet: Option<BlockType>, below: Option<BlockType>) -> (r: bool)
    ensures
        r == (feet == Some(BlockType::Water) || below == Some(BlockType::Water)),
{
    below == Some(BlockType::Water) || feet == Some(BlockType::Water)
}

/// Offsets from a chunk's chosen point where a swimmer, whose water is
/// harder to find, is looked for: the point itself, 4 and 8 blocks away
/// along the axes, then 4 along both diagonals.
pub const SWIMMER_SEARCH: [(i32, i32); 13] = [
    (0, 0), (4, 0), (-4, 0), (0, 4), (0, -4), (8, 0), (-8, 0), (0, 8), (0, -8),
    (4, 4), (-4, 4), (4, -4), (-4, -4),
];

/// Offsets from a chunk's chosen point where extra swimmers are looked for
/// after its animal: the point, then farther and farther out, up to 16
/// blocks along the axes and 8 along the diagonals.
pub const WATER_SEARCH: [(i32, i32); 21] = [
    (0, 0), (4, 0), (-4, 0), (0, 4), (0, -4), (8, 0), (-8, 0), (0, 8), (0, -8),
    (8, 8), (-8, 8), (8, -8), (-8, -8), (12, 0), (-12, 0), (0, 12), (0, -12),
    (16, 0), (-16, 0), (0, 16), (0, -16),
];

/// A point far enough from the edge of the `i32` range to step 16 blocks
/// away from it.
pub open spec fn searchable(x: i32, z: i32) -> bool {
    i32::MIN + 16 <= x <= i32::MAX - 16 && i32::MIN + 16 <= z <= i32::MAX - 16
}

/// The columns `offsets` lead to from (x, z), in the order of `offsets`.
pub fn search_points(x: i32, z: i32, offsets: &[(i32, i32)]) -> (r: Vec<(i32, i32)>)
    requires
        searchable(x, z),
        forall|k: int| 0 <= k < offsets@.len() ==> -16 <= (#[trigger] offsets@[k]).0 <= 16 && -16
            <= offsets@[k].1 <= 16,
    ensures
        r@.len() == offsets@.len(),
        forall|k: int| 0 <= k < offsets@.len() ==> #[trigger] r@[k] == (
            (x + offsets@[k].0) as i32,
            (z + offsets@[k].1) as i32,
        ),
{
    let mut r: Vec<(i32, i32)> = Vec::new();
    let mut i: usize = 0;
    while i < offsets.len()
        invariant
            i <= offsets@.len(),
            searchable(x, z),
            forall|k: int| 0 <= k < offsets@.len() ==> -16 <= (#[trigger] offsets@[k]).0 <= 16 && -16
                <= offsets@[k].1 <= 16,
            r@.len() == i,
            forall|k: int| 0 <= k < i ==> #[trigger] r@[k] == (
                (x + offsets@[k].0) as i32,
                (z + offsets@[k].1) as i32,
            ),
        decreases offsets@.len() - i,
    {
        let o = offsets[i];
        r.push((x + o.0, z + o.1));
        i += 1;
    }
    r
}

/// Where a chunk's animal of the chosen kind is looked for around the
/// chosen point (x, z): a swimmer along `SWIMMER_SEARCH`, any other animal
/// at the point only.
pub fn animal_search_points(x: i32, z: i32, aquatic: bool) -> (r: Vec<(i32, i32)>)
    requires
        searchable(x, z),
    ensures
        aquatic ==> r@.len() == 13 && forall|k: int| 0 <= k < 13 ==> #[trigger] r@[k] == (
            (x + SWIMMER_SEARCH@[k].0) as i32,
            (z + SWIMMER_SEARCH@[k].1) as i32,
        ),
        !aquatic ==> r@ == seq![(x, z)],
{
    if aquatic {
        search_points(x, z, &SWIMMER_SEARCH)
    } else {
        let mut r: Vec<(i32, i32)> = Vec::new();
        r.push((x, z));
        r
    }
}

/// Where extra swimmers are looked for around a chunk's chosen point
/// (x, z), along `WATER_SEARCH`.
pub fn water_search_points(x: i32, z: i32) -> (r: Vec<(i32, i32)>)
    requires
        searchable(x, z),
    ensures
        r@.len() == 21,
        forall|k: int| 0 <= k < 21 ==> #[trigger] r@[k] == (
            (x + WATER_SEARCH@[k].0) as i32,
            (z + WATER_SEARCH@[k].1) as i32,
        ),
{
    search_points(x, z, &WATER_SEARCH)
}

/// Hostile mobs spawn in chunks whose offset from the player's chunk lies
/// between 1.5 and 6 chunks away (distance measured between chunk offsets).
pub open spec fn spec_in_hostile_ring(dx: int, dz: int) -> bool {
    9 <= 4 * (dx * dx + dz * dz) && dx * dx + dz * dz <= 36
}

/// Whether the chunk at offset (dx, dz) from the player may spawn hostile mobs.
pub fn in_hostile_spawn_ring(dx: i32, dz: i32) -> (r: bool)
    ensures
        r == spec_in_hostile_ring(dx as int, dz as int),
{
    let x = dx as i64;
    let z = dz as i64;
    assert(x * x <= 0x4000_0000_0000_0000) by (nonlinear_arith)
        requires
            -0x8000_0000 <= x <= 0x8000_0000,
    ;
    assert(z * z <= 0x4000_0000_0000_0000) by (nonlinear_arith)
        requires
            -0x8000_0000 <= z <= 0x8000_0000,
    ;
    assert(0 <= x * x && 0 <= z * z) by (nonlinear_arith);
    let d2: i128 = (x * x) as i128 + (z * z) as i128;
    9 <= 4 * d2 && d2 <= 36
}


/// The sea spawns only swimming animals, and land biomes never spawn one.
pub proof fn biomes_spawn_their_own_movers(biome: Biome, roll: u32)
    requires
        roll < 100,
    ensures
        biome == Biome::Ocean ==> (spec_animal_for_biome(biome, roll) matches Some(a)
            && spec_movement_type(a) == MovementType::Aquatic),
        biome != Biome::Ocean ==> (spec_animal_for_biome(biome, roll) matches Some(a)
            ==> spec_movement_type(a) != MovementType::Aquatic),
        biome == Biome::Desert ==> (spec_animal_for_biome(biome, roll) matches Some(a) ==> a
            == AnimalType::Rabbit),
{
}

/// No hostile mob spawns in the player's chunk or the eight around it, nor
/// beyond six chunks.
pub proof fn hostile_ring_keeps_clear_of_player(dx: int, dz: int)
    ensures
        -1 <= dx <= 1 && -1 <= dz <= 1 ==> !spec_in_hostile_ring(dx, dz),
        (dx > 6 || dx < -6 || dz > 6 || dz < -6) ==> !spec_in_hostile_ring(dx, dz),
{
    if -1 <= dx <= 1 && -1 <= dz <= 1 {
        assert(dx * dx <= 1 && dz * dz <= 1) by (nonlinear_arith)
            requires
                -1 <= dx <= 1,
                -1 <= dz <= 1,
        ;
    }
    if dx > 6 || dx < -6 {
        assert(dx * dx > 36) by (nonlinear_arith)
            requires
                dx > 6 || dx < -6,
        ;
        assert(dz * dz >= 0) by (nonlinear_arith);
    }
    if dz > 6 || dz < -6 {
        assert(dz * dz > 36) by (nonlinear_arith)
            requires
                dz > 6 || dz < -6,
        ;
        assert(dx * dx >= 0) by (nonlinear_arith);
    }
}

/// Each biome spawns only the animals on its own list, and its lowest rolls
/// give the first animal of that list: plains (pig for rolls up to 10) and
/// forests (pig up to 8) never spawn a kind outside their lists, so never a
/// cow in a forest; tundra spawns sheep, rabbits and wolves (sheep up to 40);
/// mountains sheep, rabbits and bats (sheep up to 60); the ocean fish,
/// squid and dolphins (fish up to 50); a desert a rabbit on rolls below 30
/// and nothing otherwise.
pub proof fn biomes_keep_to_their_animal_lists(biome: Biome, roll: u32)
    requires
        roll < 100,
    ensures
        biome == Biome::Plains ==> (spec_animal_for_biome(biome, roll) matches Some(a) && (a
            == AnimalType::Pig || a == AnimalType::Cow || a == AnimalType::Sheep || a
            == AnimalType::Chicken || a == AnimalType::Rabbit || a == AnimalType::Horse || a
            == AnimalType::Bee || a == AnimalType::Parrot || a == AnimalType::Bat)),
        biome == Biome::Plains && roll <= 10 ==> spec_animal_for_biome(biome, roll) == Some(
            AnimalType::Pig,
        ),
        biome == Biome::Forest ==> (spec_animal_for_biome(biome, roll) matches Some(a) && (a
            == AnimalType::Pig || a == AnimalType::Sheep || a == AnimalType::Chicken || a
            == AnimalType::Rabbit || a == AnimalType::Wolf || a == AnimalType::Fox || a
            == AnimalType::Bee || a == AnimalType::Parrot || a == AnimalType::Bat)),
        biome == Biome::Forest ==> spec_animal_for_biome(biome, roll) != Some(AnimalType::Cow),
        biome == Biome::Forest && roll <= 8 ==> spec_animal_for_biome(biome, roll) == Some(
            AnimalType::Pig,
        ),
        biome == Biome::Tundra ==> (spec_animal_for_biome(biome, roll) matches Some(a) && (a
            == AnimalType::Sheep || a == AnimalType::Rabbit || a == AnimalType::Wolf)),
        biome == Biome::Tundra && roll <= 40 ==> spec_animal_for_biome(biome, roll) == Some(
            AnimalType::Sheep,
        ),
        biome == Biome::Mountains ==> (spec_animal_for_biome(biome, roll) matches Some(a) && (a
            == AnimalType::Sheep || a == AnimalType::Rabbit || a == AnimalType::Bat)),
        biome == Biome::Mountains && roll <= 60 ==> spec_animal_for_biome(biome, roll) == Some(
            AnimalType::Sheep,
        ),
        biome == Biome::Ocean ==> (spec_animal_for_biome(biome, roll) matches Some(a) && (a
            == AnimalType::Fish || a == AnimalType::Squid || a == AnimalType::Dolphin)),
        biome == Biome::Ocean && roll <= 50 ==> spec_animal_for_biome(biome, roll) == Some(
            AnimalType::Fish,
        ),
        biome == Biome::Desert ==> spec_animal_for_biome(biome, roll) == if roll < 30 {
            Some(AnimalType::Rabbit)
        } else {
            None
        },
{
}

} // verus!
