use blockworld::audio::{
    break_sound, footstep_sound, mix_samples, place_sound, should_play_track, MusicTrack,
    SoundShape,
};
use blockworld::block::{
    blocks_movement, cell_blocks, face_exposed, face_mask_cell, has_special_geometry,
    is_transparent, texture_index, ui_icon_index, BlockType,
};
use blockworld::particle::{particles_to_spawn, raises_dust, roll_burst_size, Burst, MAX_PARTICLES};

#[test]
fn music_starts_on_change_and_loops_when_done() {
    let day = MusicTrack::CalmDay;
    assert!(should_play_track(true, None, day, false, false, false));
    assert!(should_play_track(true, Some(MusicTrack::CalmNight), day, true, false, false));
    assert!(!should_play_track(true, Some(day), day, true, false, false));
    assert!(!should_play_track(true, Some(day), day, true, true, false));
    assert!(should_play_track(true, Some(day), day, true, true, true));
    assert!(should_play_track(true, Some(day), day, false, false, false));
    assert!(!should_play_track(false, None, MusicTrack::Underwater, false, true, true));
}

#[test]
fn block_sound_shapes() {
    assert_eq!(break_sound(BlockType::Cobblestone), SoundShape { duration_ms: 80, volume_percent: 30 });
    assert_eq!(break_sound(BlockType::Leaves), SoundShape { duration_ms: 40, volume_percent: 15 });
    assert_eq!(break_sound(BlockType::Chest), SoundShape { duration_ms: 70, volume_percent: 25 });
    assert_eq!(footstep_sound(BlockType::Snow), SoundShape { duration_ms: 40, volume_percent: 3 });
    assert_eq!(footstep_sound(BlockType::Ice), SoundShape { duration_ms: 25, volume_percent: 5 });
    assert_eq!(place_sound(BlockType::Wood), (200, SoundShape { duration_ms: 90, volume_percent: 25 }));
    assert_eq!(place_sound(BlockType::Sand), (140, SoundShape { duration_ms: 85, volume_percent: 25 }));
}

#[test]
fn splash_mix_averages_toward_zero() {
    let a = vec![100i16, -3, i16::MAX, i16::MIN, 7];
    let b = vec![50i16, 0, i16::MAX, i16::MIN];
    assert_eq!(mix_samples(&a, &b), vec![75, -1, i16::MAX, i16::MIN]);
    assert_eq!(mix_samples(&b, &Vec::new()), Vec::<i16>::new());
}

#[test]
fn particle_budget_caps_the_pool() {
    assert_eq!(particles_to_spawn(0, 10), 10);
    assert_eq!(particles_to_spawn(495, 10), 5);
    assert_eq!(particles_to_spawn(MAX_PARTICLES, 10), 0);
    assert_eq!(particles_to_spawn(700, 1), 0);
    assert!(!raises_dust(BlockType::Water));
    assert!(raises_dust(BlockType::Grass));
}

#[test]
fn burst_sizes_in_range() {
    let mut rng = rand::thread_rng();
    let mut seen_big = false;
    for _ in 0..300 {
        let n = roll_burst_size(&mut rng, Burst::BlockBreak);
        assert!((8..13).contains(&n));
        seen_big |= n == 12;
        assert!((12..20).contains(&roll_burst_size(&mut rng, Burst::WaterSplash)));
        assert!((3..6).contains(&roll_burst_size(&mut rng, Burst::FootstepDust)));
        assert_eq!(roll_burst_size(&mut rng, Burst::Bubble), 1);
    }
    assert!(seen_big);
}

#[test]
fn block_classes() {
    assert!(blocks_movement(BlockType::Stone));
    assert!(!blocks_movement(BlockType::Water));
    assert!(!cell_blocks(None));
    assert!(cell_blocks(Some(BlockType::Leaves)));
    assert!(is_transparent(BlockType::Lava));
    assert!(!is_transparent(BlockType::GlassPane));
    assert!(has_special_geometry(BlockType::BrickStairs));
    assert!(has_special_geometry(BlockType::IronTrapdoor));
    assert!(!has_special_geometry(BlockType::FenceGate));
    assert!(BlockType::WoodFence.is_fence());
    assert!(face_exposed(None, BlockType::Stone));
    assert!(!face_exposed(Some(BlockType::Water), BlockType::Water));
    assert!(!face_exposed(Some(BlockType::Water), BlockType::Stone));
    assert_eq!(face_mask_cell(BlockType::Grass, Some(BlockType::Air), false), Some(BlockType::Grass));
}

#[test]
fn texture_layers() {
    assert_eq!(texture_index(BlockType::Grass), 0);
    assert_eq!(texture_index(BlockType::Sand), 7);
    assert_eq!(texture_index(BlockType::WoodSlabTop), 44);
    assert_eq!(texture_index(BlockType::IronTrapdoor), 12);
    assert_eq!(texture_index(BlockType::Bed), 0);
    assert_eq!(ui_icon_index(BlockType::Grass), 1);
    assert_eq!(ui_icon_index(BlockType::Torch), 24);
    assert_eq!(ui_icon_index(BlockType::Air), 0);
    assert_eq!(ui_icon_index(BlockType::Chest), 0);
}
