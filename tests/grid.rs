use terrain_gen::grid::{GridError, GridLayout, MAX_VERTICES};
use terrain_gen::noise_kind::NoiseFnTypes;
use terrain_gen::slot::TerrainSlot;

#[test]
fn two_by_two_grid_has_four_vertices_and_two_triangles() {
    let layout = GridLayout::new(2, 2).unwrap();
    assert_eq!(layout.vertex_count(), 4);
    assert_eq!(layout.sample_points().len(), 4);
    let indices = layout.triangle_indices();
    assert_eq!(indices.len(), 6);
    assert_eq!(&indices[0..3], &[0, 1, 2]);
    assert_eq!(&indices[3..6], &[1, 3, 2]);
}

#[test]
fn width_of_one_is_refused() {
    assert_eq!(GridLayout::new(1, 5).err(), Some(GridError::WidthTooSmall));
    assert_eq!(GridLayout::new(0, 0).err(), Some(GridError::WidthTooSmall));
}

#[test]
fn height_of_one_is_refused() {
    assert_eq!(GridLayout::new(5, 1).err(), Some(GridError::HeightTooSmall));
    assert_eq!(GridLayout::new(2, 0).err(), Some(GridError::HeightTooSmall));
}

#[test]
fn grid_too_large_to_index_is_refused() {
    assert_eq!(
        GridLayout::new(0x1_0000, 0x1_0000).err(),
        Some(GridError::TooManyVertices)
    );
    assert_eq!(
        GridLayout::new(usize::MAX, usize::MAX).err(),
        Some(GridError::TooManyVertices)
    );
    let largest = GridLayout::new(0xffff, 0x1_0001).unwrap();
    assert_eq!(largest.vertex_count() as u64, MAX_VERTICES);
}

#[test]
fn layout_keeps_its_dimensions() {
    let layout = GridLayout::new(7, 3).unwrap();
    assert_eq!(layout.width(), 7);
    assert_eq!(layout.height(), 3);
    assert_eq!(layout.vertex_count(), 21);
}

#[test]
fn sample_points_divide_by_width_and_wrap_by_height() {
    let layout = GridLayout::new(3, 2).unwrap();
    let points = layout.sample_points();
    assert_eq!(points, vec![(0, 0), (0, 1), (0, 0), (1, 1), (1, 0), (1, 1)]);
    assert_eq!(layout.sample_point(4), (1, 0));
    let square = GridLayout::new(3, 3).unwrap();
    assert_eq!(
        square.sample_points(),
        vec![(0, 0), (0, 1), (0, 2), (1, 0), (1, 1), (1, 2), (2, 0), (2, 1), (2, 2)]
    );
}

#[test]
fn three_by_two_grid_indices_follow_winding() {
    let layout = GridLayout::new(3, 2).unwrap();
    assert_eq!(
        layout.triangle_indices(),
        vec![0, 1, 3, 1, 4, 3, 1, 2, 4, 2, 5, 4]
    );
}

#[test]
fn three_by_three_grid_has_eight_triangles_within_range() {
    let layout = GridLayout::new(3, 3).unwrap();
    let indices = layout.triangle_indices();
    assert_eq!(indices.len(), 24);
    assert_eq!(indices.len() % 3, 0);
    assert!(indices.iter().all(|&i| (i as usize) < layout.vertex_count()));
    assert_eq!(&indices[18..24], &[4, 5, 7, 5, 8, 7]);
}

#[test]
fn large_grid_index_count() {
    let layout = GridLayout::new(1024, 1024).unwrap();
    let indices = layout.triangle_indices();
    assert_eq!(indices.len(), 6 * 1023 * 1023);
    assert_eq!(indices.len() / 3, 2 * 1023 * 1023);
    assert_eq!(*indices.last().unwrap(), 1023 * 1024 + 1022);
}

#[test]
fn slot_starts_empty() {
    assert_eq!(TerrainSlot::new().live(), None);
    assert_eq!(TerrainSlot::default().live(), None);
}

#[test]
fn generating_twice_leaves_one_live_mesh() {
    let mut slot = TerrainSlot::new();
    assert_eq!(slot.install(10), None);
    assert_eq!(slot.live(), Some(10));
    assert_eq!(slot.install(11), Some(10));
    assert_eq!(slot.live(), Some(11));
}

#[test]
fn noise_kind_is_copyable() {
    let kind = NoiseFnTypes::OpenSimplex;
    let copy = kind;
    assert_eq!(kind, copy);
}
