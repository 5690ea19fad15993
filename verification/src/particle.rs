//! The particle budget: how many particles a burst spawns and how the pool
//! never grows past its cap.
use vstd::prelude::*;
use rand::rngs::ThreadRng;
use crate::block::BlockType;

verus! {

/// Most particles alive at once.
pub const MAX_PARTICLES: usize = 500;

/// The bursts of particles the game spawns.
#[derive(Clone, Copy, PartialEq, Eq, Debug, Structural)]
pub enum Burst {
    /// Fragments of a broken block: 8 to 12.
    BlockBreak,
    /// Drops of a splash: 12 to 19.
    WaterSplash,
    /// Dust kicked up by a footstep: 3 to 5.
    FootstepDust,
    /// One rising bubble.
    Bubble,
}

/// The least particles of a burst and how many more it may add (exclusive).
pub open spec fn spec_burst_range(kind: Burst) -> (usize, usize) {
    match kind {
        Burst::BlockBreak => (8, 5),
        Burst::WaterSplash => (12, 8),
        Burst::FootstepDust => (3, 3),
        Burst::Bubble => (1, 1),
    }
}

/// Draws how many particles a burst asks for.
pub fn roll_burst_size(rng: &mut ThreadRng, kind: Burst) -> (n: usize)
    ensures
        spec_burst_range(kind).0 <= n < spec_burst_range(kind).0 + spec_burst_range(kind).1,
{
    match kind {
        Burst::BlockBreak => 8 + crate::random::gen_range_u32(rng, 0, 5) as usize,
        Burst::WaterSplash => 12 + crate::random::gen_range_u32(rng, 0, 8) as usize,
        Burst::FootstepDust => 3 + crate::random::gen_range_u32(rng, 0, 3) as usize,
        Burst::Bubble => 1,
    }
}

/// Footsteps on water or air raise no dust.
pub fn raises_dust(b: BlockType) -> (r: bool)
    ensures
        r == (b != BlockType::Water && b != BlockType::Air),
{
    b != BlockType::Water && b != BlockType::Air
}

/// How many of `wanted` new particles fit in a pool of `alive`: all of
/// them, as long as the pool stays within its cap.
pub open spec fn spec_room_for(alive: usize, wanted: usize) -> usize {
    if alive >= MAX_PARTICLES {
        0
    } else if wanted <= MAX_PARTICLES - alive {
        wanted
    } else {
        (MAX_PARTICLES - alive) as usize
    }
}

/// How many particles of a burst are spawned into a pool of `alive`.
pub fn particles_to_spawn(alive: usize, wanted: usize) -> (n: usize)
    ensures
        n == spec_room_for(alive, wanted),
{
    if alive >= MAX_PARTICLES {
        0
    } else if wanted <= MAX_PARTICLES - alive {
        wanted
    } else {
        MAX_PARTICLES - alive
    }
}

/// A pool within its cap stays within it after a burst, and it takes the
/// whole burst when there is room for it.
pub proof fn particle_pool_stays_capped(alive: usize, wanted: usize)
    requires
        alive <= MAX_PARTICLES,
    ensures
        alive + spec_room_for(alive, wanted) <= MAX_PARTICLES,
        alive + wanted <= MAX_PARTICLES ==> spec_room_for(alive, wanted) == wanted,
        alive + wanted > MAX_PARTICLES ==> alive + spec_room_for(alive, wanted) == MAX_PARTICLES,
{
}

} // verus!
