//! The behaviour decisions of villagers, animals and hostile mobs.
//!
//! Each decision takes an entity's state and what it senses this tick
//! (whether its timer ran out, whether the way ahead is blocked, a
//! percentile roll, ...) and answers its next state and what to do with its
//! heading and its timer. Timers are in milliseconds; a random timer is drawn
//! from the half-open range given.
use vstd::prelude::*;
use crate::entity::AnimalState;
use crate::entity::HostileMobState;
use crate::entity::MovementType;
use crate::entity::VillagerState;
use rand::rngs::ThreadRng;

verus! {

/// What happens to the heading.
#[derive(Clone, Copy, PartialEq, Eq, Debug, Structural)]
pub enum Heading {
    /// Unchanged.
    Keep,
    /// A fresh random heading.
    Randomize,
    /// Turned away by a quarter to a half turn.
    TurnAround,
    /// Turned toward the player.
    FacePlayer,
    /// Turning slowly while looking around.
    Rotate,
}

/// What happens to the state timer.
#[derive(Clone, Copy, PartialEq, Eq, Debug, Structural)]
pub enum TimerSet {
    Keep,
    Fixed(u32),
    Random(u32, u32),
}

/// A villager's decision.
#[derive(Clone, Copy, PartialEq, Eq, Debug, Structural)]
pub struct VillagerStep {
    pub next: VillagerState,
    pub heading: Heading,
    pub timer: TimerSet,
}

/// An animal's decision; `redraw_dive` asks a swimmer for a new vertical drift.
#[derive(Clone, Copy, PartialEq, Eq, Debug, Structural)]
pub struct AnimalStep {
    pub next: AnimalState,
    pub heading: Heading,
    pub timer: TimerSet,
    pub redraw_dive: bool,
}

/// A hostile mob's decision; `jump` makes it leap over a block.
#[derive(Clone, Copy, PartialEq, Eq, Debug, Structural)]
pub struct MobStep {
    pub next: HostileMobState,
    pub heading: Heading,
    pub timer: TimerSet,
    pub jump: bool,
}

pub open spec fn vstep(next: VillagerState, heading: Heading, timer: TimerSet) -> VillagerStep {
    VillagerStep { next, heading, timer }
}

/// A villager's behaviour. Idle, when its timer runs out it starts walking
/// (rolls below 70) in a random direction for 3 to 8 s, or looks around for
/// 1 to 3 s. Walking, an obstacle, cliff or water ahead turns it around and
/// makes it idle for 0.5 to 1.5 s; the end of its walk makes it idle for 1
/// to 3 s. Looking around, it turns slowly until its timer runs out, then
/// idles for 1 to 3 s.
pub open spec fn spec_villager_step(
    state: VillagerState,
    timer_expired: bool,
    obstacle: bool,
    roll: u32,
) -> VillagerStep {
    match state {
        VillagerState::Idle => if !timer_expired {
            vstep(VillagerState::Idle, Heading::Keep, TimerSet::Keep)
        } else if roll < 70 {
            vstep(VillagerState::Walking, Heading::Randomize, TimerSet::Random(3000, 8000))
        } else {
            vstep(VillagerState::LookingAround, Heading::Keep, TimerSet::Random(1000, 3000))
        },
        VillagerState::Walking => if timer_expired {
            vstep(
                VillagerState::Idle,
                if obstacle {
                    Heading::TurnAround
                } else {
                    Heading::Keep
                },
                TimerSet::Random(1000, 3000),
            )
        } else if obstacle {
            vstep(VillagerState::Idle, Heading::TurnAround, TimerSet::Random(500, 1500))
        } else {
            vstep(VillagerState::Walking, Heading::Keep, TimerSet::Keep)
        },
        VillagerState::LookingAround => if timer_expired {
            vstep(VillagerState::Idle, Heading::Rotate, TimerSet::Random(1000, 3000))
        } else {
            vstep(VillagerState::LookingAround, Heading::Rotate, TimerSet::Keep)
        },
    }
}

/// Decides a villager's next state.
pub fn villager_step(state: VillagerState, timer_expired: bool, obstacle: bool, roll: u32) -> (r:
    VillagerStep)
    ensures
        r == spec_villager_step(state, timer_expired, obstacle, roll),
{
    match state {
        VillagerState::Idle => {
            if !timer_expired {
                VillagerStep { next: VillagerState::Idle, heading: Heading::Keep, timer: TimerSet::Keep }
            } else if roll < 70 {
                VillagerStep {
                    next: VillagerState::Walking,
                    heading: Heading::Randomize,
                    timer: TimerSet::Random(3000, 8000),
                }
            } else {
                VillagerStep {
                    next: VillagerState::LookingAround,
                    heading: Heading::Keep,
                    timer: TimerSet::Random(1000, 3000),
                }
            }
        },
        VillagerState::Walking => {
            let mut step = VillagerStep {
                next: VillagerState::Walking,
                heading: Heading::Keep,
                timer: TimerSet::Keep,
            };
            if obstacle {
                step.heading = Heading::TurnAround;
                step.next = VillagerState::Idle;
                step.timer = TimerSet::Random(500, 1500);
            }
            if timer_expired {
                step.next = VillagerState::Idle;
                step.timer = TimerSet::Random(1000, 3000);
            }
            step
        },
        VillagerState::LookingAround => {
            if timer_expired {
                VillagerStep {
                    next: VillagerState::Idle,
                    heading: Heading::Rotate,
                    timer: TimerSet::Random(1000, 3000),
                }
            } else {
                VillagerStep {
                    next: VillagerState::LookingAround,
                    heading: Heading::Rotate,
                    timer: TimerSet::Keep,
                }
            }
        },
    }
}

pub open spec fn astep(next: AnimalState, heading: Heading, timer: TimerSet) -> AnimalStep {
    AnimalStep { next, heading, timer, redraw_dive: false }
}

/// A walking animal's behaviour. Idle, when its timer runs out it walks in
/// a random direction for 3 to 8 s (rolls below 50), grazes for 2 to 4 s
/// (below 80), or idles on for 2 to 5 s. Walking, an obstacle, cliff or
/// water ahead turns it around and makes it idle for 1 to 3 s, as does the
/// end of its walk. Running, it turns from obstacles and cliffs and idles
/// for 1 to 3 s when its timer runs out. Grazing ends the same way. Any
/// other state falls back to idle for 1 s.
pub open spec fn spec_ground_animal_step(
    state: AnimalState,
    timer_expired: bool,
    obstacle: bool,
    cliff_or_wall: bool,
    roll: u32,
) -> AnimalStep {
    match state {
        AnimalState::Idle => if !timer_expired {
            astep(AnimalState::Idle, Heading::Keep, TimerSet::Keep)
        } else if roll < 50 {
            astep(AnimalState::Walking, Heading::Randomize, TimerSet::Random(3000, 8000))
        } else if roll < 80 {
            astep(AnimalState::Eating, Heading::Keep, TimerSet::Random(2000, 4000))
        } else {
            astep(AnimalState::Idle, Heading::Keep, TimerSet::Random(2000, 5000))
        },
        AnimalState::Walking => if obstacle {
            astep(AnimalState::Idle, Heading::TurnAround, TimerSet::Random(1000, 3000))
        } else if timer_expired {
            astep(AnimalState::Idle, Heading::Keep, TimerSet::Random(1000, 3000))
        } else {
            astep(AnimalState::Walking, Heading::Keep, TimerSet::Keep)
        },
        AnimalState::Running => astep(
            if timer_expired {
                AnimalState::Idle
            } else {
                AnimalState::Running
            },
            if cliff_or_wall {
                Heading::TurnAround
            } else {
                Heading::Keep
            },
            if timer_expired {
                TimerSet::Random(1000, 3000)
            } else {
                TimerSet::Keep
            },
        ),
        AnimalState::Eating => if timer_expired {
            astep(AnimalState::Idle, Heading::Keep, TimerSet::Random(1000, 3000))
        } else {
            astep(AnimalState::Eating, Heading::Keep, TimerSet::Keep)
        },
        _ => astep(AnimalState::Idle, Heading::Keep, TimerSet::Fixed(1000)),
    }
}

/// Decides a walking animal's next state. `obstacle` is a wall, cliff or
/// water ahead; `cliff_or_wall` leaves water out (a running animal splashes on).
pub fn ground_animal_step(
    state: AnimalState,
    timer_expired: bool,
    obstacle: bool,
    cliff_or_wall: bool,
    roll: u32,
) -> (r: AnimalStep)
    ensures
        r == spec_ground_animal_step(state, timer_expired, obstacle, cliff_or_wall, roll),
{
    let keep = AnimalStep {
        next: state,
        heading: Heading::Keep,
        timer: TimerSet::Keep,
        redraw_dive: false,
    };
    match state {
        AnimalState::Idle => {
            if !timer_expired {
                keep
            } else if roll < 50 {
                AnimalStep {
                    next: AnimalState::Walking,
                    heading: Heading::Randomize,
                    timer: TimerSet::Random(3000, 8000),
                    redraw_dive: false,
                }
            } else if roll < 80 {
                AnimalStep {
                    next: AnimalState::Eating,
                    heading: Heading::Keep,
                    timer: TimerSet::Random(2000, 4000),
                    redraw_dive: false,
                }
            } else {
                AnimalStep { timer: TimerSet::Random(2000, 5000), ..keep }
            }
        },
        AnimalState::Walking => {
            let mut step = keep;
            if obstacle {
                step.heading = Heading::TurnAround;
                step.next = AnimalState::Idle;
                step.timer = TimerSet::Random(1000, 3000);
            }
            if timer_expired {
                step.next = AnimalState::Idle;
                step.timer = TimerSet::Random(1000, 3000);
            }
            step
        },
        AnimalState::Running => {
            let mut step = keep;
            if timer_expired {
                step.next = AnimalState::Idle;
                step.timer = TimerSet::Random(1000, 3000);
            }
            if cliff_or_wall {
                step.heading = Heading::TurnAround;
            }
            step
        },
        AnimalState::Eating => {
            if timer_expired {
                AnimalStep {
                    next: AnimalState::Idle,
                    heading: Heading::Keep,
                    timer: TimerSet::Random(1000, 3000),
                    redraw_dive: false,
                }
            } else {
                keep
            }
        },
        _ => AnimalStep {
            next: AnimalState::Idle,
            heading: Heading::Keep,
            timer: TimerSet::Fixed(1000),
            redraw_dive: false,
        },
    }
}

/// A swimming animal's behaviour. Idle, when its timer runs out it swims
/// off in a random direction and drift for 3 to 8 s if in water, or, on
/// land, flops in a random direction and waits 0.5 to 1.5 s. Swimming, it
/// idles for 0.5 s as soon as it is out of water; when its timer runs out it
/// stops for 1 to 3 s (rolls below 30) or picks a new direction and drift
/// for 2 to 6 s. Any other state falls back to idle for 1 s.
pub open spec fn spec_aquatic_animal_step(
    state: AnimalState,
    timer_expired: bool,
    in_water: bool,
    roll: u32,
) -> AnimalStep {
    match state {
        AnimalState::Idle => if !timer_expired {
            astep(AnimalState::Idle, Heading::Keep, TimerSet::Keep)
        } else if in_water {
            AnimalStep {
                next: AnimalState::Swimming,
                heading: Heading::Randomize,
                timer: TimerSet::Random(3000, 8000),
                redraw_dive: true,
            }
        } else {
            astep(AnimalState::Idle, Heading::Randomize, TimerSet::Random(500, 1500))
        },
        AnimalState::Swimming => if !in_water {
            astep(AnimalState::Idle, Heading::Keep, TimerSet::Fixed(500))
        } else if !timer_expired {
            astep(AnimalState::Swimming, Heading::Keep, TimerSet::Keep)
        } else if roll < 30 {
            astep(AnimalState::Idle, Heading::Keep, TimerSet::Random(1000, 3000))
        } else {
            AnimalStep {
                next: AnimalState::Swimming,
                heading: Heading::Randomize,
                timer: TimerSet::Random(2000, 6000),
                redraw_dive: true,
            }
        },
        _ => astep(AnimalState::Idle, Heading::Keep, TimerSet::Fixed(1000)),
    }
}

/// Decides a swimming animal's next state.
pub fn aquatic_animal_step(state: AnimalState, timer_expired: bool, in_water: bool, roll: u32) -> (r:
    AnimalStep)
    ensures
        r == spec_aquatic_animal_step(state, timer_expired, in_water, roll),
{
    let keep = AnimalStep {
        next: state,
        heading: Heading::Keep,
        timer: TimerSet::Keep,
        redraw_dive: false,
    };
    match state {
        AnimalState::Idle => {
            if !timer_expired {
                keep
            } else if in_water {
                AnimalStep {
                    next: AnimalState::Swimming,
                    heading: Heading::Randomize,
                    timer: TimerSet::Random(3000, 8000),
                    redraw_dive: true,
                }
            } else {
                AnimalStep {
                    heading: Heading::Randomize,
                    timer: TimerSet::Random(500, 1500),
                    ..keep
                }
            }
        },
        AnimalState::Swimming => {
            if !in_water {
                AnimalStep { next: AnimalState::Idle, timer: TimerSet::Fixed(500), ..keep }
            } else if !timer_expired {
                keep
            } else if roll < 30 {
                AnimalStep { next: AnimalState::Idle, timer: TimerSet::Random(1000, 3000), ..keep }
            } else {
                AnimalStep {
                    next: AnimalState::Swimming,
                    heading: Heading::Randomize,
                    timer: TimerSet::Random(2000, 6000),
                    redraw_dive: true,
                }
            }
        },
        _ => AnimalStep {
            next: AnimalState::Idle,
            heading: Heading::Keep,
            timer: TimerSet::Fixed(1000),
            redraw_dive: false,
        },
    }
}

/// A flying animal's behaviour. Idle, when its timer runs out it flies off
/// in a random direction for 3 to 8 s (rolls below 40), hovers for 2 to 5 s
/// (below 70), or idles on for 1 to 3 s. Flying, it turns away from walls
/// and hovers for 2 to 4 s when its timer runs out. Hovering, when its timer
/// runs out it flies off again for 3 to 8 s (below 60) or idles for 1 to 3
/// s. Any other state falls back to hovering for 1 s.
pub open spec fn spec_flying_animal_step(
    state: AnimalState,
    timer_expired: bool,
    blocked: bool,
    roll: u32,
) -> AnimalStep {
    match state {
        AnimalState::Idle => if !timer_expired {
            astep(AnimalState::Idle, Heading::Keep, TimerSet::Keep)
        } else if roll < 40 {
            astep(AnimalState::Flying, Heading::Randomize, TimerSet::Random(3000, 8000))
        } else if roll < 70 {
            astep(AnimalState::Hovering, Heading::Keep, TimerSet::Random(2000, 5000))
        } else {
            astep(AnimalState::Idle, Heading::Keep, TimerSet::Random(1000, 3000))
        },
        AnimalState::Flying => astep(
            if timer_expired {
                AnimalState::Hovering
            } else {
                AnimalState::Flying
            },
            if blocked {
                Heading::TurnAround
            } else {
                Heading::Keep
            },
            if timer_expired {
                TimerSet::Random(2000, 4000)
            } else {
                TimerSet::Keep
            },
        ),
        AnimalState::Hovering => if !timer_expired {
            astep(AnimalState::Hovering, Heading::Keep, TimerSet::Keep)
        } else if roll < 60 {
            astep(AnimalState::Flying, Heading::Randomize, TimerSet::Random(3000, 8000))
        } else {
            astep(AnimalState::Idle, Heading::Keep, TimerSet::Random(1000, 3000))
        },
        _ => astep(AnimalState::Hovering, Heading::Keep, TimerSet::Fixed(1000)),
    }
}

/// Decides a flying animal's next state.
pub fn flying_animal_step(state: AnimalState, timer_expired: bool, blocked: bool, roll: u32) -> (r:
    AnimalStep)
    ensures
        r == spec_flying_animal_step(state, timer_expired, blocked, roll),
{
    let keep = AnimalStep {
        next: state,
        heading: Heading::Keep,
        timer: TimerSet::Keep,
        redraw_dive: false,
    };
    match state {
        AnimalState::Idle => {
            if !timer_expired {
                keep
            } else if roll < 40 {
                AnimalStep {
                    next: AnimalState::Flying,
                    heading: Heading::Randomize,
                    timer: TimerSet::Random(3000, 8000),
                    redraw_dive: false,
                }
            } else if roll < 70 {
                AnimalStep {
                    next: AnimalState::Hovering,
                    timer: TimerSet::Random(2000, 5000),
                    ..keep
                }
            } else {
                AnimalStep { timer: TimerSet::Random(1000, 3000), ..keep }
            }
        },
        AnimalState::Flying => {
            let mut step = keep;
            if blocked {
                step.heading = Heading::TurnAround;
            }
            if timer_expired {
                step.next = AnimalState::Hovering;
                step.timer = TimerSet::Random(2000, 4000);
            }
            step
        },
        AnimalState::Hovering => {
            if !timer_expired {
                keep
            } else if roll < 60 {
                AnimalStep {
                    next: AnimalState::Flying,
                    heading: Heading::Randomize,
                    timer: TimerSet::Random(3000, 8000),
                    redraw_dive: false,
                }
            } else {
                AnimalStep { next: AnimalState::Idle, timer: TimerSet::Random(1000, 3000), ..keep }
            }
        },
        _ => AnimalStep {
            next: AnimalState::Hovering,
            heading: Heading::Keep,
            timer: TimerSet::Fixed(1000),
            redraw_dive: false,
        },
    }
}

/// A hit animal that survives starts running for 3 s when it walks; swimmers
/// and fliers keep their state.
pub open spec fn spec_after_hit(
    state: AnimalState,
    movement: MovementType,
    alive: bool,
) -> (AnimalState, TimerSet) {
    if alive && movement == MovementType::Ground {
        (AnimalState::Running, TimerSet::Fixed(3000))
    } else {
        (state, TimerSet::Keep)
    }
}

/// The state an animal takes after being hit.
pub fn after_hit(state: AnimalState, movement: MovementType, alive: bool) -> (r: (
    AnimalState,
    TimerSet,
))
    ensures
        r == spec_after_hit(state, movement, alive),
{
    if alive && movement == MovementType::Ground {
        (AnimalState::Running, TimerSet::Fixed(3000))
    } else {
        (state, TimerSet::Keep)
    }
}

/// What a hostile mob senses of the player this tick.
#[derive(Clone, Copy, PartialEq, Eq, Debug, Structural)]
pub struct MobSenses {
    /// The player is closer than the detection range.
    pub player_detected: bool,
    /// The player is closer than the attack range.
    pub player_in_reach: bool,
    /// The player is more than one and a half detection ranges away.
    pub player_lost: bool,
    /// The player is more than one and a half attack ranges away.
    pub player_escaped: bool,
    pub timer_expired: bool,
    /// A solid block stands ahead.
    pub blocked: bool,
    /// A cliff lies ahead.
    pub cliff: bool,
    pub on_ground: bool,
}

pub open spec fn mstep(next: HostileMobState, heading: Heading, timer: TimerSet) -> MobStep {
    MobStep { next, heading, timer, jump: false }
}

/// A hostile mob's behaviour. Idle or wandering, it starts chasing, facing
/// the player, as soon as the player is detected. Otherwise an idle mob
/// whose timer runs out wanders off in a random direction for 3 to 6 s
/// (rolls below 50) or idles on for 2 to 5 s; a wandering mob turns from
/// walls and cliffs and idles for 1 to 3 s when its timer runs out. Chasing,
/// it faces the player, jumps when blocked on the ground, attacks once in
/// reach, and gives up for 2 to 4 s once the player is lost. Attacking, it
/// faces the player and chases again once the player escapes its reach.
pub open spec fn spec_mob_step(state: HostileMobState, s: MobSenses, roll: u32) -> MobStep {
    match state {
        HostileMobState::Idle => if s.player_detected {
            mstep(HostileMobState::Chasing, Heading::FacePlayer, TimerSet::Keep)
        } else if !s.timer_expired {
            mstep(HostileMobState::Idle, Heading::Keep, TimerSet::Keep)
        } else if roll < 50 {
            mstep(HostileMobState::Wandering, Heading::Randomize, TimerSet::Random(3000, 6000))
        } else {
            mstep(HostileMobState::Idle, Heading::Keep, TimerSet::Random(2000, 5000))
        },
        HostileMobState::Wandering => if s.player_detected {
            mstep(HostileMobState::Chasing, Heading::FacePlayer, TimerSet::Keep)
        } else {
            mstep(
                if s.timer_expired {
                    HostileMobState::Idle
                } else {
                    HostileMobState::Wandering
                },
                if s.blocked || s.cliff {
                    Heading::TurnAround
                } else {
                    Heading::Keep
                },
                if s.timer_expired {
                    TimerSet::Random(1000, 3000)
                } else {
                    TimerSet::Keep
                },
            )
        },
        HostileMobState::Chasing => MobStep {
            next: if s.player_in_reach {
                HostileMobState::Attacking
            } else if s.player_lost {
                HostileMobState::Idle
            } else {
                HostileMobState::Chasing
            },
            heading: Heading::FacePlayer,
            timer: if !s.player_in_reach && s.player_lost {
                TimerSet::Random(2000, 4000)
            } else {
                TimerSet::Keep
            },
            jump: s.blocked && s.on_ground,
        },
        HostileMobState::Attacking => mstep(
            if s.player_escaped {
                HostileMobState::Chasing
            } else {
                HostileMobState::Attacking
            },
            Heading::FacePlayer,
            TimerSet::Keep,
        ),
    }
}

/// Decides a hostile mob's next state.
pub fn mob_step(state: HostileMobState, s: MobSenses, roll: u32) -> (r: MobStep)
    ensures
        r == spec_mob_step(state, s, roll),
{
    let keep = MobStep { next: state, heading: Heading::Keep, timer: TimerSet::Keep, jump: false };
    match state {
        HostileMobState::Idle | HostileMobState::Wandering => {
            if s.player_detected {
                MobStep { next: HostileMobState::Chasing, heading: Heading::FacePlayer, ..keep }
            } else if state == HostileMobState::Idle {
                if !s.timer_expired {
                    keep
                } else if roll < 50 {
                    MobStep {
                        next: HostileMobState::Wandering,
                        heading: Heading::Randomize,
                        timer: TimerSet::Random(3000, 6000),
                        jump: false,
                    }
                } else {
                    MobStep { timer: TimerSet::Random(2000, 5000), ..keep }
                }
            } else {
                let mut step = keep;
                if s.blocked || s.cliff {
                    step.heading = Heading::TurnAround;
                }
                if s.timer_expired {
                    step.next = HostileMobState::Idle;
                    step.timer = TimerSet::Random(1000, 3000);
                }
                step
            }
        },
        HostileMobState::Chasing => {
            let mut step = MobStep { heading: Heading::FacePlayer, ..keep };
            if s.blocked && s.on_ground {
                step.jump = true;
            }
            if s.player_in_reach {
                step.next = HostileMobState::Attacking;
            } else if s.player_lost {
                step.next = HostileMobState::Idle;
                step.timer = TimerSet::Random(2000, 4000);
            }
            step
        },
        HostileMobState::Attacking => {
            let mut step = MobStep { heading: Heading::FacePlayer, ..keep };
            if s.player_escaped {
                step.next = HostileMobState::Chasing;
            }
            step
        },
    }
}

/// A mob strikes only while attacking with its cooldown spent.
pub fn can_attack(cooldown_spent: bool, state: HostileMobState) -> (r: bool)
    ensures
        r == (cooldown_spent && state == HostileMobState::Attacking),
{
    cooldown_spent && state == HostileMobState::Attacking
}

/// States a walking animal may be in.
pub open spec fn ground_state(s: AnimalState) -> bool {
    s == AnimalState::Idle || s == AnimalState::Walking || s == AnimalState::Eating || s
        == AnimalState::Running
}

/// States a swimming animal may be in.
pub open spec fn aquatic_state(s: AnimalState) -> bool {
    s == AnimalState::Idle || s == AnimalState::Swimming
}

/// States a flying animal may be in.
pub open spec fn flying_state(s: AnimalState) -> bool {
    s == AnimalState::Idle || s == AnimalState::Flying || s == AnimalState::Hovering
}

/// Every animal's behaviour keeps it among the states of its way of moving,
/// whatever state it starts from: walkers idle, walk, graze or run;
/// swimmers idle or swim; fliers idle, fly or hover. Being hit keeps a
/// walker among its states too.
pub proof fn animal_states_stay_in_kind(
    state: AnimalState,
    timer_expired: bool,
    obstacle: bool,
    cliff_or_wall: bool,
    in_water: bool,
    roll: u32,
    alive: bool,
)
    ensures
        ground_state(
            spec_ground_animal_step(state, timer_expired, obstacle, cliff_or_wall, roll).next,
        ),
        aquatic_state(spec_aquatic_animal_step(state, timer_expired, in_water, roll).next),
        flying_state(spec_flying_animal_step(state, timer_expired, obstacle, roll).next),
        ground_state(state) ==> ground_state(spec_after_hit(state, MovementType::Ground, alive).0),
{
}

/// A walking villager or animal never walks on into an obstacle: whenever
/// one lies ahead, it stops walking and turns around.
pub proof fn walkers_stop_at_obstacles(timer_expired: bool, roll: u32, cliff_or_wall: bool)
    ensures
        spec_villager_step(VillagerState::Walking, timer_expired, true, roll).next
            == VillagerState::Idle,
        spec_villager_step(VillagerState::Walking, timer_expired, true, roll).heading
            == Heading::TurnAround,
        spec_ground_animal_step(AnimalState::Walking, timer_expired, true, cliff_or_wall, roll).next
            == AnimalState::Idle,
        spec_ground_animal_step(AnimalState::Walking, timer_expired, true, cliff_or_wall, roll).heading
            == Heading::TurnAround,
{
}

/// A hostile mob attacks only out of a chase with the player in reach, and
/// whenever it detects the player while idle or wandering it starts chasing.
pub proof fn mobs_attack_only_after_chasing(state: HostileMobState, s: MobSenses, roll: u32)
    ensures
        spec_mob_step(state, s, roll).next == HostileMobState::Attacking ==> (state
            == HostileMobState::Attacking || (state == HostileMobState::Chasing && s.player_in_reach)),
        (state == HostileMobState::Idle || state == HostileMobState::Wandering) && s.player_detected
            ==> spec_mob_step(state, s, roll).next == HostileMobState::Chasing,
{
}


/// Draws the percentile roll the behaviours choose by.
fn roll_percent(rng: &mut ThreadRng) -> (r: u32)
    ensures
        r < 100,
{
    crate::random::gen_range_u32(rng, 0, 100)
}

/// A villager's decision with a fresh roll.
pub fn decide_villager(rng: &mut ThreadRng, state: VillagerState, timer_expired: bool, obstacle: bool) -> (r:
    VillagerStep)
    ensures
        exists|roll: u32| roll < 100 && r == spec_villager_step(state, timer_expired, obstacle, roll),
{
    let roll = roll_percent(rng);
    villager_step(state, timer_expired, obstacle, roll)
}

/// An animal's decision with a fresh roll, by its way of moving. For a
/// walker `obstacle` is a wall, cliff or water ahead and `cliff_or_wall`
/// leaves water out; for a flier `obstacle` is a wall ahead.
pub fn decide_animal(
    rng: &mut ThreadRng,
    movement: MovementType,
    state: AnimalState,
    timer_expired: bool,
    obstacle: bool,
    cliff_or_wall: bool,
    in_water: bool,
) -> (r: AnimalStep)
    ensures
        exists|roll: u32|
            roll < 100 && r == match movement {
                MovementType::Ground => spec_ground_animal_step(
                    state,
                    timer_expired,
                    obstacle,
                    cliff_or_wall,
                    roll,
                ),
                MovementType::Aquatic => spec_aquatic_animal_step(state, timer_expired, in_water, roll),
                MovementType::Flying => spec_flying_animal_step(state, timer_expired, obstacle, roll),
            },
{
    let roll = roll_percent(rng);
    let r = match movement {
        MovementType::Ground => ground_animal_step(state, timer_expired, obstacle, cliff_or_wall, roll),
        MovementType::Aquatic => aquatic_animal_step(state, timer_expired, in_water, roll),
        MovementType::Flying => flying_animal_step(state, timer_expired, obstacle, roll),
    };
    assert(r == match movement {
        MovementType::Ground => spec_ground_animal_step(
            state,
            timer_expired,
            obstacle,
            cliff_or_wall,
            roll,
        ),
        MovementType::Aquatic => spec_aquatic_animal_step(state, timer_expired, in_water, roll),
        MovementType::Flying => spec_flying_animal_step(state, timer_expired, obstacle, roll),
    });
    r
}

/// A hostile mob's decision with a fresh roll.
pub fn decide_mob(rng: &mut ThreadRng, state: HostileMobState, s: MobSenses) -> (r: MobStep)
    ensures
        exists|roll: u32| roll < 100 && r == spec_mob_step(state, s, roll),
{
    let roll = roll_percent(rng);
    mob_step(state, s, roll)
}

/// A hostile mob that is chasing or attacking turns toward the player on
/// every tick, whatever it senses and whatever the roll; an idle or
/// wandering one turns toward the player the moment it detects it, and
/// starts chasing.
pub proof fn engaged_mobs_face_the_player(state: HostileMobState, s: MobSenses, roll: u32)
    ensures
        state == HostileMobState::Chasing ==> spec_mob_step(state, s, roll).heading
            == Heading::FacePlayer,
        state == HostileMobState::Attacking ==> spec_mob_step(state, s, roll).heading
            == Heading::FacePlayer,
        (state == HostileMobState::Idle || state == HostileMobState::Wandering) && s.player_detected
            ==> spec_mob_step(state, s, roll).heading == Heading::FacePlayer && spec_mob_step(
            state,
            s,
            roll,
        ).next == HostileMobState::Chasing,
        (state == HostileMobState::Idle || state == HostileMobState::Wandering) && !s.player_detected
            ==> spec_mob_step(state, s, roll).heading != Heading::FacePlayer,
{
}

} // verus!
