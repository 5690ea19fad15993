use blockworld::block::BlockType;
use blockworld::lighting::{collect_point_lights, light_of, LightKind, MAX_POINT_LIGHTS};

#[test]
fn torches_and_lava_give_light() {
    assert_eq!(light_of(BlockType::Torch), Some(LightKind::Torch));
    assert_eq!(light_of(BlockType::Lava), Some(LightKind::Lava));
    assert_eq!(light_of(BlockType::Stone), None);
    assert_eq!(light_of(BlockType::FurnaceLit), None);
}

#[test]
fn lights_are_kept_in_scan_order() {
    let blocks = vec![
        ((0, 1, 2), BlockType::Stone),
        ((3, 4, 5), BlockType::Torch),
        ((6, 7, 8), BlockType::Air),
        ((-1, 0, 9), BlockType::Lava),
    ];
    assert_eq!(
        collect_point_lights(&blocks),
        vec![((3, 4, 5), LightKind::Torch), ((-1, 0, 9), LightKind::Lava)]
    );
    assert!(collect_point_lights(&Vec::new()).is_empty());
}

#[test]
fn only_the_first_lights_fit_the_table() {
    let mut blocks = Vec::new();
    for i in 0..40 {
        blocks.push(((i, 0, 0), BlockType::Dirt));
        blocks.push(((i, 1, 0), if i % 2 == 0 { BlockType::Torch } else { BlockType::Lava }));
    }
    let lights = collect_point_lights(&blocks);
    assert_eq!(lights.len(), MAX_POINT_LIGHTS);
    for (i, l) in lights.iter().enumerate() {
        let kind = if i % 2 == 0 { LightKind::Torch } else { LightKind::Lava };
        assert_eq!(*l, ((i as i32, 1, 0), kind));
    }
}
