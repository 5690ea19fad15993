//! Sound rules: the music tracks and when a track (re)starts, the shape of
//! block sounds, and the mixing of the splash sound.
use vstd::prelude::*;
use crate::block::BlockType;

verus! {

/// The background music tracks.
#[derive(Clone, Copy, PartialEq, Eq, Debug, Structural)]
pub enum MusicTrack {
    CalmDay,
    CalmNight,
    Underwater,
}

/// Whether the music manager starts `desired` this frame: never while
/// disabled; otherwise when another track (or none) plays or no sink is
/// open, or when the track's timer ran out and its sink has emptied.
pub open spec fn spec_should_play(
    enabled: bool,
    current: Option<MusicTrack>,
    desired: MusicTrack,
    has_sink: bool,
    timer_expired: bool,
    sink_empty: bool,
) -> bool {
    enabled && (current != Some(desired) || !has_sink || (timer_expired && sink_empty))
}

/// Decides whether the music manager (re)starts the desired track.
pub fn should_play_track(
    enabled: bool,
    current: Option<MusicTrack>,
    desired: MusicTrack,
    has_sink: bool,
    timer_expired: bool,
    sink_empty: bool,
) -> (r: bool)
    ensures
        r == spec_should_play(enabled, current, desired, has_sink, timer_expired, sink_empty),
{
    if !enabled {
        return false;
    }
    if current != Some(desired) || !has_sink {
        true
    } else if timer_expired {
        sink_empty
    } else {
        false
    }
}

/// The shape of a short sound: how long it lasts and how loud it is, in
/// hundredths of full volume.
#[derive(Clone, Copy, PartialEq, Eq, Debug, Structural)]
pub struct SoundShape {
    pub duration_ms: u32,
    pub volume_percent: u32,
}

/// The noise burst of a breaking block: stone 80 ms at 30, earth 60 ms at
/// 25, sand and gravel 50 ms at 20, wood 70 ms at 25, leaves 40 ms at 15,
/// ice and snow 60 ms at 20, anything else 70 ms at 25.
pub open spec fn spec_break_sound(b: BlockType) -> SoundShape {
    match b {
        BlockType::Stone | BlockType::Cobblestone => SoundShape { duration_ms: 80, volume_percent: 30 },
        BlockType::Dirt | BlockType::Grass => SoundShape { duration_ms: 60, volume_percent: 25 },
        BlockType::Sand | BlockType::Gravel => SoundShape { duration_ms: 50, volume_percent: 20 },
        BlockType::Wood => SoundShape { duration_ms: 70, volume_percent: 25 },
        BlockType::Leaves => SoundShape { duration_ms: 40, volume_percent: 15 },
        BlockType::Ice | BlockType::Snow => SoundShape { duration_ms: 60, volume_percent: 20 },
        _ => SoundShape { duration_ms: 70, volume_percent: 25 },
    }
}

/// How a block sounds when it breaks.
pub fn break_sound(b: BlockType) -> (r: SoundShape)
    ensures
        r == spec_break_sound(b),
{
    match b {
        BlockType::Stone | BlockType::Cobblestone => SoundShape { duration_ms: 80, volume_percent: 30 },
        BlockType::Dirt | BlockType::Grass => SoundShape { duration_ms: 60, volume_percent: 25 },
        BlockType::Sand | BlockType::Gravel => SoundShape { duration_ms: 50, volume_percent: 20 },
        BlockType::Wood => SoundShape { duration_ms: 70, volume_percent: 25 },
        BlockType::Leaves => SoundShape { duration_ms: 40, volume_percent: 15 },
        BlockType::Ice | BlockType::Snow => SoundShape { duration_ms: 60, volume_percent: 20 },
        _ => SoundShape { duration_ms: 70, volume_percent: 25 },
    }
}

/// The noise burst of a footstep on a block.
pub open spec fn spec_footstep_sound(b: BlockType) -> SoundShape {
    match b {
        BlockType::Stone | BlockType::Cobblestone => SoundShape { duration_ms: 30, volume_percent: 6 },
        BlockType::Dirt | BlockType::Grass => SoundShape { duration_ms: 25, volume_percent: 5 },
        BlockType::Sand | BlockType::Gravel => SoundShape { duration_ms: 35, volume_percent: 4 },
        BlockType::Wood => SoundShape { duration_ms: 20, volume_percent: 6 },
        BlockType::Snow => SoundShape { duration_ms: 40, volume_percent: 3 },
        _ => SoundShape { duration_ms: 25, volume_percent: 5 },
    }
}

/// How a footstep on a block sounds.
pub fn footstep_sound(b: BlockType) -> (r: SoundShape)
    ensures
        r == spec_footstep_sound(b),
{
    match b {
        BlockType::Stone | BlockType::Cobblestone => SoundShape { duration_ms: 30, volume_percent: 6 },
        BlockType::Dirt | BlockType::Grass => SoundShape { duration_ms: 25, volume_percent: 5 },
        BlockType::Sand | BlockType::Gravel => SoundShape { duration_ms: 35, volume_percent: 4 },
        BlockType::Wood => SoundShape { duration_ms: 20, volume_percent: 6 },
        BlockType::Snow => SoundShape { duration_ms: 40, volume_percent: 3 },
        _ => SoundShape { duration_ms: 25, volume_percent: 5 },
    }
}

/// The tone of a placed block: its pitch in hertz (before a small random
/// detune) and its shape.
pub open spec fn spec_place_sound(b: BlockType) -> (u32, SoundShape) {
    match b {
        BlockType::Stone | BlockType::Cobblestone => (
            150,
            SoundShape { duration_ms: 100, volume_percent: 30 },
        ),
        BlockType::Dirt | BlockType::Grass => (120, SoundShape { duration_ms: 80, volume_percent: 25 }),
        BlockType::Wood => (200, SoundShape { duration_ms: 90, volume_percent: 25 }),
        _ => (140, SoundShape { duration_ms: 85, volume_percent: 25 }),
    }
}

/// How placing a block sounds.
pub fn place_sound(b: BlockType) -> (r: (u32, SoundShape))
    ensures
        r == spec_place_sound(b),
{
    match b {
        BlockType::Stone | BlockType::Cobblestone => (
            150,
            SoundShape { duration_ms: 100, volume_percent: 30 },
        ),
        BlockType::Dirt | BlockType::Grass => (120, SoundShape { duration_ms: 80, volume_percent: 25 }),
        BlockType::Wood => (200, SoundShape { duration_ms: 90, volume_percent: 25 }),
        _ => (140, SoundShape { duration_ms: 85, volume_percent: 25 }),
    }
}

/// The mean of two samples, rounded toward zero as integer division does.
pub open spec fn spec_mix(a: i16, b: i16) -> i16 {
    let s = a + b;
    if s >= 0 {
        (s / 2) as i16
    } else {
        (-((-s) / 2)) as i16
    }
}

/// Mixes two sample streams sample by sample into their mean, over the
/// length of the shorter one (the splash: a noise burst over a low tone).
pub fn mix_samples(a: &Vec<i16>, b: &Vec<i16>) -> (r: Vec<i16>)
    ensures
        r@.len() == if a@.len() <= b@.len() {
            a@.len()
        } else {
            b@.len()
        },
        forall|i: int| 0 <= i < r@.len() ==> #[trigger] r@[i] == spec_mix(a@[i], b@[i]),
{
    let n = if a.len() <= b.len() {
        a.len()
    } else {
        b.len()
    };
    let mut out: Vec<i16> = Vec::new();
    let mut i: usize = 0;
    while i < n
        invariant
            i <= n,
            n <= a@.len(),
            n <= b@.len(),
            n == if a@.len() <= b@.len() {
                a@.len()
            } else {
                b@.len()
            },
            out@.len() == i,
            forall|k: int| 0 <= k < i ==> #[trigger] out@[k] == spec_mix(a@[k], b@[k]),
        decreases n - i,
    {
        let s: i32 = a[i] as i32 + b[i] as i32;
        let m: i32 = if s >= 0 {
            s / 2
        } else {
            -((-s) / 2)
        };
        out.push(m as i16);
        i += 1;
    }
    out
}

} // verus!
