//! Which blocks light up their surroundings, and which of them the
//! renderer's fixed table of point lights keeps.
use vstd::prelude::*;
use crate::block::BlockType;

verus! {

/// The renderer has room for this many point lights.
pub const MAX_POINT_LIGHTS: usize = 32;

/// The two kinds of point light: a torch's warm glow and lava's larger,
/// brighter one.
#[derive(Clone, Copy, PartialEq, Eq, Debug, Structural)]
pub enum LightKind {
    Torch,
    Lava,
}

/// A block position with the light it gives.
pub type PointLight = ((i32, i32, i32), LightKind);

/// The light a block gives, if any: torches and lava do.
pub open spec fn spec_light_of(b: BlockType) -> Option<LightKind> {
    match b {
        BlockType::Torch => Some(LightKind::Torch),
        BlockType::Lava => Some(LightKind::Lava),
        _ => None,
    }
}

/// The light a block gives, if any.
#[verifier::when_used_as_spec(spec_light_of)]
pub fn light_of(b: BlockType) -> (r: Option<LightKind>)
    ensures
        r == spec_light_of(b),
{
    match b {
        BlockType::Torch => Some(LightKind::Torch),
        BlockType::Lava => Some(LightKind::Lava),
        _ => None,
    }
}

/// The lights among scanned blocks, in scan order.
pub open spec fn lights_among(blocks: Seq<((i32, i32, i32), BlockType)>) -> Seq<PointLight>
    decreases blocks.len(),
{
    if blocks.len() == 0 {
        Seq::empty()
    } else {
        let rest = lights_among(blocks.drop_last());
        match light_of(blocks.last().1) {
            Some(k) => rest.push((blocks.last().0, k)),
            None => rest,
        }
    }
}

/// The point lights of the blocks scanned around the camera: those of the
/// blocks that give light, in scan order, up to the first
/// `MAX_POINT_LIGHTS` of them.
pub fn collect_point_lights(blocks: &Vec<((i32, i32, i32), BlockType)>) -> (r: Vec<PointLight>)
    ensures
        r@ == if lights_among(blocks@).len() <= MAX_POINT_LIGHTS {
            lights_among(blocks@)
        } else {
            lights_among(blocks@).take(MAX_POINT_LIGHTS as int)
        },
{
    let mut r: Vec<PointLight> = Vec::new();
    let mut i: usize = 0;
    while i < blocks.len()
        invariant
            i <= blocks@.len(),
            r@ == if lights_among(blocks@.take(i as int)).len() <= MAX_POINT_LIGHTS {
                lights_among(blocks@.take(i as int))
            } else {
                lights_among(blocks@.take(i as int)).take(MAX_POINT_LIGHTS as int)
            },
        decreases blocks@.len() - i,
    {
        assert(blocks@.take(i + 1).drop_last() =~= blocks@.take(i as int));
        let (pos, b) = blocks[i];
        match light_of(b) {
            Some(k) => {
                if r.len() < MAX_POINT_LIGHTS {
                    r.push((pos, k));
                }
                proof {
                    let before = lights_among(blocks@.take(i as int));
                    let after = lights_among(blocks@.take(i + 1));
                    assert(after == before.push((pos, k)));
                    if before.len() >= MAX_POINT_LIGHTS {
                        assert(after.take(MAX_POINT_LIGHTS as int) =~= before.take(
                            MAX_POINT_LIGHTS as int,
                        ));
                    }
                }
            },
            None => {},
        }
        i += 1;
    }
    assert(blocks@.take(i as int) =~= blocks@);
    r
}

/// Only torches and lava give light: a torch a torch's light, lava a lava
/// light, and a block of any other kind none.
pub proof fn only_torches_and_lava_shine(b: BlockType)
    ensures
        b == BlockType::Torch ==> spec_light_of(b) == Some(LightKind::Torch),
        b == BlockType::Lava ==> spec_light_of(b) == Some(LightKind::Lava),
        b != BlockType::Torch && b != BlockType::Lava ==> spec_light_of(b) is None,
{
}

/// Every light among scanned blocks stands at a scanned torch, as a torch's
/// light, or at scanned lava, as a lava light.
proof fn lemma_lights_come_from_sources(blocks: Seq<((i32, i32, i32), BlockType)>, k: int)
    requires
        0 <= k < lights_among(blocks).len(),
    ensures
        exists|i: int|
            0 <= i < blocks.len() && #[trigger] blocks[i].0 == lights_among(blocks)[k].0 && (
            lights_among(blocks)[k].1 == LightKind::Torch && blocks[i].1 == BlockType::Torch
                || lights_among(blocks)[k].1 == LightKind::Lava && blocks[i].1
                == BlockType::Lava),
    decreases blocks.len(),
{
    let rest = blocks.drop_last();
    if k < lights_among(rest).len() {
        lemma_lights_come_from_sources(rest, k);
        let i = choose|i: int|
            0 <= i < rest.len() && #[trigger] rest[i].0 == lights_among(rest)[k].0 && (
            lights_among(rest)[k].1 == LightKind::Torch && rest[i].1 == BlockType::Torch
                || lights_among(rest)[k].1 == LightKind::Lava && rest[i].1 == BlockType::Lava);
        assert(blocks[i] == rest[i]);
    } else {
        let j = blocks.len() - 1;
        assert(blocks[j] == blocks.last());
    }
}

/// The light table only holds lights of scanned torches and lava: each
/// light kept stands at a scanned block that is a torch (and is a torch's
/// light) or lava (and is a lava light), and it never holds more than
/// `MAX_POINT_LIGHTS` of them.
pub proof fn collected_lights_come_from_torches_and_lava(
    blocks: Seq<((i32, i32, i32), BlockType)>,
    r: Seq<PointLight>,
    k: int,
)
    requires
        r == if lights_among(blocks).len() <= MAX_POINT_LIGHTS {
            lights_among(blocks)
        } else {
            lights_among(blocks).take(MAX_POINT_LIGHTS as int)
        },
        0 <= k < r.len(),
    ensures
        r.len() <= MAX_POINT_LIGHTS,
        exists|i: int|
            0 <= i < blocks.len() && #[trigger] blocks[i].0 == r[k].0 && (r[k].1 == LightKind::Torch
                && blocks[i].1 == BlockType::Torch || r[k].1 == LightKind::Lava && blocks[i].1
                == BlockType::Lava),
{
    assert(r[k] == lights_among(blocks)[k]);
    lemma_lights_come_from_sources(blocks, k);
}

} // verus!
