use blockworld::block::BlockType::{self, Dirt, Stone, Water};
use blockworld::mesh::{
    build_face_mask, cube_face_indices, merge_horizontal_faces, merge_vertical_faces, pane_needs_center_post,
    select_chunks_to_mesh, slab_faces, Neighborhood, Quad, SlabFaces,
};

fn q(row: usize, col: usize, rows: usize, cols: usize, block: BlockType) -> Quad {
    Quad { row, col, rows, cols, block }
}

fn sample_mask() -> Vec<Vec<Option<BlockType>>> {
    vec![
        vec![Some(Stone), Some(Stone), Some(Stone), None],
        vec![Some(Stone), Some(Stone), None, None],
        vec![Some(Dirt), Some(Dirt), Some(Dirt), Some(Dirt)],
    ]
}

#[test]
fn vertical_merge_grows_along_rows_first() {
    let quads = merge_vertical_faces(&sample_mask(), 4);
    assert_eq!(quads, vec![q(0, 0, 1, 3, Stone), q(1, 0, 1, 2, Stone), q(2, 0, 1, 4, Dirt)]);
}

#[test]
fn horizontal_merge_grows_along_x_first() {
    let quads = merge_horizontal_faces(&sample_mask(), 4);
    assert_eq!(quads, vec![q(0, 0, 2, 2, Stone), q(0, 2, 1, 1, Stone), q(2, 0, 1, 4, Dirt)]);
}

#[test]
fn uniform_layer_becomes_one_quad() {
    let mask = vec![vec![Some(Stone); 16]; 16];
    assert_eq!(merge_horizontal_faces(&mask, 16), vec![q(0, 0, 16, 16, Stone)]);
    assert_eq!(merge_vertical_faces(&mask, 16), vec![q(0, 0, 16, 16, Stone)]);
}

#[test]
fn empty_layer_has_no_quads() {
    let mask: Vec<Vec<Option<BlockType>>> = vec![vec![None; 16]; 16];
    assert!(merge_horizontal_faces(&mask, 16).is_empty());
    assert!(merge_vertical_faces(&mask, 16).is_empty());
    let none: Vec<Vec<Option<BlockType>>> = Vec::new();
    assert!(merge_vertical_faces(&none, 16).is_empty());
}

#[test]
fn horizontal_water_is_never_merged() {
    let mask = vec![vec![Some(Water), Some(Water)], vec![Some(Water), Some(Water)]];
    assert_eq!(
        merge_horizontal_faces(&mask, 2),
        vec![q(0, 0, 1, 1, Water), q(0, 1, 1, 1, Water), q(1, 0, 1, 1, Water), q(1, 1, 1, 1, Water)]
    );
    assert_eq!(merge_vertical_faces(&mask, 2), vec![q(0, 0, 2, 2, Water)]);
}

#[test]
fn different_blocks_are_not_merged() {
    let mask = vec![vec![Some(Stone), Some(Dirt), Some(Stone)]];
    assert_eq!(
        merge_vertical_faces(&mask, 3),
        vec![q(0, 0, 1, 1, Stone), q(0, 1, 1, 1, Dirt), q(0, 2, 1, 1, Stone)]
    );
}

#[test]
fn merged_quads_tile_the_faces_exactly() {
    let mask = vec![
        vec![Some(Stone), None, Some(Stone), Some(Stone)],
        vec![Some(Stone), Some(Stone), Some(Stone), Some(Dirt)],
        vec![None, Some(Stone), Some(Stone), Some(Dirt)],
    ];
    for quads in [merge_vertical_faces(&mask, 4), merge_horizontal_faces(&mask, 4)] {
        let mut hits = vec![vec![0; 4]; 3];
        for quad in &quads {
            for r in quad.row..quad.row + quad.rows {
                for c in quad.col..quad.col + quad.cols {
                    assert_eq!(mask[r][c], Some(quad.block));
                    hits[r][c] += 1;
                }
            }
        }
        for r in 0..3 {
            for c in 0..4 {
                assert_eq!(hits[r][c], if mask[r][c].is_some() { 1 } else { 0 });
            }
        }
    }
}

#[test]
fn face_mask_skips_special_damaged_and_hidden_faces() {
    let blocks = vec![vec![Stone, BlockType::Torch, Stone, Water, BlockType::StoneSlabTop, Dirt]];
    let neighbors = vec![vec![
        Some(BlockType::Air),
        Some(BlockType::Air),
        Some(Stone),
        Some(Stone),
        Some(BlockType::Air),
        None,
    ]];
    let damaged = vec![vec![false, false, false, false, false, true]];
    let mask = build_face_mask(&blocks, &neighbors, &damaged);
    assert_eq!(mask, vec![vec![Some(Stone), None, None, Some(Water), None, None]]);
}

#[test]
fn torch_and_world_edge_do_not_hide_faces() {
    let blocks = vec![vec![Stone, Stone, Water, Water]];
    let neighbors = vec![vec![Some(BlockType::Torch), None, Some(Water), Some(BlockType::Air)]];
    let damaged = vec![vec![false; 4]];
    let mask = build_face_mask(&blocks, &neighbors, &damaged);
    assert_eq!(mask, vec![vec![Some(Stone), Some(Stone), None, Some(Water)]]);
}

#[test]
fn bottom_slab_draws_top_against_air() {
    let n = Neighborhood {
        own: Some(BlockType::StoneSlabBottom),
        above: Some(BlockType::Air),
        below: Some(Stone),
        right: Some(Stone),
        left: Some(BlockType::Air),
        front: None,
        back: Some(BlockType::Torch),
    };
    assert_eq!(
        slab_faces(BlockType::StoneSlabBottom, n),
        SlabFaces { top: true, bottom: false, right: false, left: true, front: true, back: true }
    );
}

#[test]
fn top_slab_draws_underside_over_air_cell() {
    let n = Neighborhood {
        own: Some(BlockType::Air),
        above: Some(Stone),
        below: Some(Stone),
        right: Some(Stone),
        left: Some(Stone),
        front: Some(Stone),
        back: Some(Stone),
    };
    let faces = slab_faces(BlockType::WoodSlabTop, n);
    assert!(!faces.top);
    assert!(faces.bottom);
    let own_slab = Neighborhood { own: Some(BlockType::WoodSlabTop), ..n };
    assert!(!slab_faces(BlockType::WoodSlabTop, own_slab).bottom);
}

#[test]
fn straight_panes_need_no_post() {
    assert!(!pane_needs_center_post(true, true, false, false));
    assert!(!pane_needs_center_post(false, false, true, true));
    assert!(pane_needs_center_post(true, false, true, false));
    assert!(pane_needs_center_post(false, false, false, false));
    assert!(pane_needs_center_post(true, true, true, true));
}

#[test]
fn only_changed_or_new_chunks_are_meshed_up_to_limit() {
    let chunks = vec![
        ((0, 0), false, true),
        ((1, 0), true, true),
        ((2, 0), false, false),
        ((3, 0), false, true),
        ((4, 0), true, false),
        ((5, 0), true, true),
    ];
    assert_eq!(select_chunks_to_mesh(&chunks, 4), vec![(1, 0), (2, 0), (4, 0), (5, 0)]);
    assert_eq!(select_chunks_to_mesh(&chunks, 2), vec![(1, 0), (2, 0)]);
    assert_eq!(select_chunks_to_mesh(&chunks, 0), Vec::<(i32, i32)>::new());
    assert_eq!(select_chunks_to_mesh(&chunks, usize::MAX).len(), 4);
}

#[test]
fn held_item_index_list_covers_ten_cubes() {
    let r = cube_face_indices(10);
    assert_eq!(r.len(), 360);
    assert_eq!(&r[0..12], &[0, 1, 2, 2, 3, 0, 4, 5, 6, 6, 7, 4]);
    assert_eq!(&r[36..42], &[24, 25, 26, 26, 27, 24]);
    assert_eq!(&r[354..360], &[236, 237, 238, 238, 239, 236]);
    assert!(cube_face_indices(0).is_empty());
}
