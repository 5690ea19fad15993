use blockworld::ai::{
    after_hit, aquatic_animal_step, can_attack, flying_animal_step, ground_animal_step, mob_step,
    villager_step, Heading, MobSenses, TimerSet,
};
use blockworld::entity::{AnimalState, HostileMobState, MovementType, VillagerState};

fn senses() -> MobSenses {
    MobSenses {
        player_detected: false,
        player_in_reach: false,
        player_lost: false,
        player_escaped: false,
        timer_expired: false,
        blocked: false,
        cliff: false,
        on_ground: true,
    }
}

#[test]
fn idle_villager_chooses_walk_or_look() {
    let s = villager_step(VillagerState::Idle, true, false, 69);
    assert_eq!((s.next, s.heading, s.timer), (VillagerState::Walking, Heading::Randomize, TimerSet::Random(3000, 8000)));
    let s = villager_step(VillagerState::Idle, true, false, 70);
    assert_eq!((s.next, s.timer), (VillagerState::LookingAround, TimerSet::Random(1000, 3000)));
    let s = villager_step(VillagerState::Idle, false, true, 0);
    assert_eq!((s.next, s.heading, s.timer), (VillagerState::Idle, Heading::Keep, TimerSet::Keep));
}

#[test]
fn walking_villager_turns_at_obstacles() {
    let s = villager_step(VillagerState::Walking, false, true, 0);
    assert_eq!((s.next, s.heading, s.timer), (VillagerState::Idle, Heading::TurnAround, TimerSet::Random(500, 1500)));
    let s = villager_step(VillagerState::Walking, true, true, 0);
    assert_eq!((s.next, s.heading, s.timer), (VillagerState::Idle, Heading::TurnAround, TimerSet::Random(1000, 3000)));
    let s = villager_step(VillagerState::LookingAround, false, false, 0);
    assert_eq!((s.next, s.heading), (VillagerState::LookingAround, Heading::Rotate));
}

#[test]
fn ground_animal_choices() {
    assert_eq!(ground_animal_step(AnimalState::Idle, true, false, false, 49).next, AnimalState::Walking);
    let s = ground_animal_step(AnimalState::Idle, true, false, false, 50);
    assert_eq!((s.next, s.timer), (AnimalState::Eating, TimerSet::Random(2000, 4000)));
    let s = ground_animal_step(AnimalState::Idle, true, false, false, 80);
    assert_eq!((s.next, s.timer), (AnimalState::Idle, TimerSet::Random(2000, 5000)));
    let s = ground_animal_step(AnimalState::Running, false, true, true, 0);
    assert_eq!((s.next, s.heading), (AnimalState::Running, Heading::TurnAround));
    let s = ground_animal_step(AnimalState::Swimming, false, false, false, 0);
    assert_eq!((s.next, s.timer), (AnimalState::Idle, TimerSet::Fixed(1000)));
}

#[test]
fn aquatic_animal_choices() {
    let s = aquatic_animal_step(AnimalState::Idle, true, true, 0);
    assert_eq!((s.next, s.redraw_dive), (AnimalState::Swimming, true));
    let s = aquatic_animal_step(AnimalState::Idle, true, false, 0);
    assert_eq!((s.next, s.heading, s.timer), (AnimalState::Idle, Heading::Randomize, TimerSet::Random(500, 1500)));
    let s = aquatic_animal_step(AnimalState::Swimming, false, false, 0);
    assert_eq!((s.next, s.timer), (AnimalState::Idle, TimerSet::Fixed(500)));
    assert_eq!(aquatic_animal_step(AnimalState::Swimming, true, true, 29).next, AnimalState::Idle);
    assert_eq!(aquatic_animal_step(AnimalState::Swimming, true, true, 30).timer, TimerSet::Random(2000, 6000));
}

#[test]
fn flying_animal_choices() {
    assert_eq!(flying_animal_step(AnimalState::Idle, true, false, 39).next, AnimalState::Flying);
    assert_eq!(flying_animal_step(AnimalState::Idle, true, false, 40).next, AnimalState::Hovering);
    assert_eq!(flying_animal_step(AnimalState::Idle, true, false, 70).next, AnimalState::Idle);
    let s = flying_animal_step(AnimalState::Flying, true, true, 0);
    assert_eq!((s.next, s.heading, s.timer), (AnimalState::Hovering, Heading::TurnAround, TimerSet::Random(2000, 4000)));
    assert_eq!(flying_animal_step(AnimalState::Hovering, true, false, 59).next, AnimalState::Flying);
    assert_eq!(flying_animal_step(AnimalState::Eating, false, false, 0).next, AnimalState::Hovering);
}

#[test]
fn hit_walkers_run() {
    assert_eq!(after_hit(AnimalState::Walking, MovementType::Ground, true), (AnimalState::Running, TimerSet::Fixed(3000)));
    assert_eq!(after_hit(AnimalState::Walking, MovementType::Ground, false), (AnimalState::Walking, TimerSet::Keep));
    assert_eq!(after_hit(AnimalState::Swimming, MovementType::Aquatic, true), (AnimalState::Swimming, TimerSet::Keep));
}

#[test]
fn mob_chases_attacks_and_gives_up() {
    let mut s = senses();
    s.player_detected = true;
    let step = mob_step(HostileMobState::Idle, s, 0);
    assert_eq!((step.next, step.heading), (HostileMobState::Chasing, Heading::FacePlayer));
    let mut s = senses();
    s.player_in_reach = true;
    s.blocked = true;
    let step = mob_step(HostileMobState::Chasing, s, 0);
    assert_eq!((step.next, step.jump), (HostileMobState::Attacking, true));
    let mut s = senses();
    s.player_lost = true;
    let step = mob_step(HostileMobState::Chasing, s, 0);
    assert_eq!((step.next, step.timer), (HostileMobState::Idle, TimerSet::Random(2000, 4000)));
    let mut s = senses();
    s.player_escaped = true;
    assert_eq!(mob_step(HostileMobState::Attacking, s, 0).next, HostileMobState::Chasing);
    assert_eq!(mob_step(HostileMobState::Attacking, senses(), 0).next, HostileMobState::Attacking);
}

#[test]
fn mob_wanders_when_idle() {
    let mut s = senses();
    s.timer_expired = true;
    let step = mob_step(HostileMobState::Idle, s, 49);
    assert_eq!((step.next, step.timer), (HostileMobState::Wandering, TimerSet::Random(3000, 6000)));
    let step = mob_step(HostileMobState::Idle, s, 50);
    assert_eq!((step.next, step.timer), (HostileMobState::Idle, TimerSet::Random(2000, 5000)));
    s.cliff = true;
    let step = mob_step(HostileMobState::Wandering, s, 0);
    assert_eq!((step.next, step.heading), (HostileMobState::Idle, Heading::TurnAround));
}

#[test]
fn attacks_need_cooldown_and_attack_state() {
    assert!(can_attack(true, HostileMobState::Attacking));
    assert!(!can_attack(false, HostileMobState::Attacking));
    assert!(!can_attack(true, HostileMobState::Chasing));
}
