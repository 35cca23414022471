use island_terrain::{
    cell_category, cell_offsets, centred_offset, classify, island_mask, terrain_grid, terrain_value,
    MapDimensions, TerrainCategory, TerrainError, TerrainGrid, NOISE_DIVISOR,
};
use noise::{Fbm, MultiFractal, NoiseFn, Seedable};

fn dims(width: u32, height: u32) -> MapDimensions {
    MapDimensions { width, height }
}

fn noise_samples(offsets: &[(i64, i64)], seed: u32) -> Vec<i64> {
    let fbm = Fbm::new().set_seed(seed).set_frequency(0.2);
    let d = NOISE_DIVISOR as f64;
    offsets
        .iter()
        .map(|&(hx, hy)| (fbm.get([hx as f64 / d, hy as f64 / d]) * 1_000_000.0).ceil() as i64)
        .collect()
}

fn generate(d: MapDimensions, seed: u32) -> Result<TerrainGrid, TerrainError> {
    let offsets = cell_offsets(d)?;
    let samples = noise_samples(&offsets, seed);
    terrain_grid(d, &samples)
}

#[test]
fn classify_boundaries_resolve_downwards() {
    assert_eq!(classify(900_000), TerrainCategory::Rock2);
    assert_eq!(classify(900_001), TerrainCategory::Peak);
    assert_eq!(classify(0), TerrainCategory::Water);
    assert_eq!(classify(1), TerrainCategory::Grass);
    assert_eq!(classify(400_000), TerrainCategory::Grass);
    assert_eq!(classify(400_001), TerrainCategory::Forest);
    assert_eq!(classify(600_000), TerrainCategory::Forest);
    assert_eq!(classify(600_001), TerrainCategory::Rock1);
    assert_eq!(classify(700_000), TerrainCategory::Rock1);
    assert_eq!(classify(700_001), TerrainCategory::Rock2);
    assert_eq!(classify(-5), TerrainCategory::Water);
    assert_eq!(classify(5_000_000), TerrainCategory::Peak);
}

#[test]
fn rank_never_falls_across_breakpoints() {
    let values: [i128; 11] =
        [-1, 0, 1, 400_000, 400_001, 600_000, 600_001, 700_000, 700_001, 900_000, 900_001];
    let ranks: Vec<u8> = values.iter().map(|&n| classify(n).rank()).collect();
    assert_eq!(ranks, vec![0, 0, 1, 1, 2, 2, 3, 3, 4, 4, 5]);
    assert!(!TerrainCategory::Water.is_land());
    assert!(TerrainCategory::Grass.is_land());
}

#[test]
fn island_mask_values() {
    assert_eq!(island_mask(0, 0), 2_200_000);
    assert_eq!(island_mask(60, 0), 1_000_000);
    assert_eq!(island_mask(-30, 10), 1_600_000);
    assert_eq!(island_mask(5, -120), -200_000);
}

#[test]
fn terrain_value_adds_mask_to_sample() {
    assert_eq!(terrain_value(100_000, 30, 0), 700_000);
    assert_eq!(terrain_value(-1_200_000, 0, 0), 0);
    assert_eq!(cell_category(-1_200_000, 0, 0), TerrainCategory::Water);
    assert_eq!(cell_category(-300_000, 0, 0), TerrainCategory::Rock2);
    assert_eq!(cell_category(0, 0, 0), TerrainCategory::Peak);
    assert_eq!(cell_category(0, 60, 60), TerrainCategory::Water);
}

#[test]
fn offsets_are_centred_row_by_row() {
    assert_eq!(centred_offset(0, 4), -2);
    assert_eq!(centred_offset(2, 5), 0);
    let v = cell_offsets(dims(4, 4)).unwrap();
    assert_eq!(v.len(), 16);
    assert_eq!(v[0], (-2, -2));
    assert_eq!(v[5], (-1, -1));
    assert_eq!(v[10], (0, 0));
    assert_eq!(v[15], (1, 1));
    let w = cell_offsets(dims(3, 2)).unwrap();
    assert_eq!(w, vec![(-1, -1), (0, -1), (1, -1), (-1, 0), (0, 0), (1, 0)]);
}

#[test]
fn zero_width_is_invalid() {
    assert_eq!(cell_offsets(dims(0, 4)).unwrap_err(), TerrainError::InvalidDimensions);
    assert_eq!(cell_offsets(dims(4, 0)).unwrap_err(), TerrainError::InvalidDimensions);
    assert_eq!(terrain_grid(dims(0, 4), &vec![]).unwrap_err(), TerrainError::InvalidDimensions);
    assert_eq!(generate(dims(0, 4), 42).unwrap_err(), TerrainError::InvalidDimensions);
}

#[test]
fn sample_count_must_match_cells() {
    let e = terrain_grid(dims(2, 2), &vec![0, 0, 0]).unwrap_err();
    assert_eq!(e, TerrainError::SampleCountMismatch);
}

#[test]
fn grid_from_chosen_samples() {
    let g = terrain_grid(dims(2, 2), &vec![-1_180_000, -500_000, -280_000, -299_999]).unwrap();
    assert_eq!(g.width(), 2);
    assert_eq!(g.height(), 2);
    assert_eq!(g.len(), 4);
    assert_eq!(
        g.as_slice(),
        &[TerrainCategory::Water, TerrainCategory::Rock1, TerrainCategory::Rock2, TerrainCategory::Peak][..]
    );
    assert_eq!(g.get(1, 0), Some(TerrainCategory::Rock1));
    assert_eq!(g.get(0, 1), Some(TerrainCategory::Rock2));
    assert_eq!(g.get(2, 0), None);
    assert_eq!(g.get(0, 2), None);
}

#[test]
fn every_cell_is_covered() {
    let g = generate(dims(5, 3), 9).unwrap();
    assert_eq!(g.len(), 15);
    for y in 0..3 {
        for x in 0..5 {
            assert_eq!(g.get(x, y), Some(g.as_slice()[(y * 5 + x) as usize]));
        }
    }
    assert_eq!(g.get(5, 0), None);
    assert_eq!(g.get(0, 3), None);
}

#[test]
fn same_seed_same_grid() {
    let a = generate(dims(12, 9), 7).unwrap();
    let b = generate(dims(12, 9), 7).unwrap();
    assert_eq!(a.as_slice(), b.as_slice());
}

#[test]
fn square_centre_is_origin() {
    let v = cell_offsets(dims(6, 6)).unwrap();
    assert_eq!(v[3 * 6 + 3], (0, 0));
    assert_eq!(island_mask(0, 0), 2_200_000);
    assert_eq!(terrain_value(250_000, 0, 0), 1_450_000);
    let g = generate(dims(6, 6), 1).unwrap();
    assert!(g.get(3, 3).is_some());
}

#[test]
fn four_by_four_seed_42() {
    let a = generate(dims(4, 4), 42).unwrap();
    let b = generate(dims(4, 4), 42).unwrap();
    assert_eq!(a.len(), 16);
    assert_eq!(a.as_slice(), b.as_slice());
    assert_eq!(a.as_slice(), &[TerrainCategory::Peak; 16][..]);
    let offsets = cell_offsets(dims(4, 4)).unwrap();
    assert_ne!(noise_samples(&offsets, 42), noise_samples(&offsets, 43));
    let c = generate(dims(4, 4), 43).unwrap();
    assert_eq!(c.as_slice(), &[TerrainCategory::Peak; 16][..]);
}

#[test]
fn far_cells_are_water() {
    let g = generate(dims(400, 3), 5).unwrap();
    assert_eq!(g.get(0, 1), Some(TerrainCategory::Water));
    assert_eq!(g.get(399, 1), Some(TerrainCategory::Water));
}
