use gribberish::location::nearest_axis_index;
use gribberish::templates::latlon_template::LatLonGridTemplate;

fn latlon_grid(scanning_mode: u8) -> LatLonGridTemplate {
    let mut g = vec![0u8; 72];
    g[0..4].copy_from_slice(&72u32.to_be_bytes());
    g[4] = 3;
    g[6..10].copy_from_slice(&6u32.to_be_bytes());
    g[12..14].copy_from_slice(&0u16.to_be_bytes());
    g[30..34].copy_from_slice(&3u32.to_be_bytes());
    g[34..38].copy_from_slice(&2u32.to_be_bytes());
    g[46..50].copy_from_slice(&50_000_000u32.to_be_bytes());
    g[50..54].copy_from_slice(&(120_000_000u32 | 0x8000_0000).to_be_bytes());
    g[63..67].copy_from_slice(&1_000_000u32.to_be_bytes());
    g[67..71].copy_from_slice(&2_000_000u32.to_be_bytes());
    g[71] = scanning_mode;
    LatLonGridTemplate::new(g)
}

#[test]
fn nearest_index_on_one_axis() {
    assert_eq!(nearest_axis_index(0, 10, 5, 23), Some(2));
    assert_eq!(nearest_axis_index(0, 10, 5, 26), Some(3));
    // a tie between two coordinates resolves to the lower index
    assert_eq!(nearest_axis_index(0, 10, 5, 25), Some(2));
    // targets beyond either end clamp to the nearest edge
    assert_eq!(nearest_axis_index(0, 10, 5, -500), Some(0));
    assert_eq!(nearest_axis_index(0, 10, 5, 1000), Some(4));
    // a negative step walks the axis downward
    assert_eq!(nearest_axis_index(100, -10, 5, 76), Some(2));
    // an empty axis or a degenerate step has no nearest point
    assert_eq!(nearest_axis_index(0, 10, 0, 3), None);
    assert_eq!(nearest_axis_index(0, 0, 5, 3), None);
}

#[test]
fn nearest_grid_point_row_and_column() {
    let grid = latlon_grid(0b0100_0000);
    // rows at 50 and 52 degrees, columns at -120, -119 and -118
    assert_eq!(grid.nearest_row_column(51_200_000, -118_400_000), Some((1, 2)));
    assert_eq!(grid.nearest_row_column(49_000_000, -121_000_000), Some((0, 0)));
}

#[test]
fn nearest_grid_point_data_index() {
    let grid = latlon_grid(0b0100_0000);
    // row-major scan order: index = row * columns + column
    assert_eq!(grid.nearest_data_index(51_200_000, -118_400_000), Some(5));
    assert_eq!(grid.nearest_data_index(49_000_000, -119_400_000), Some(1));
}

#[test]
fn nearest_grid_point_needs_a_real_grid() {
    let mut g = vec![0u8; 72];
    g[0..4].copy_from_slice(&72u32.to_be_bytes());
    g[4] = 3;
    g[30..34].copy_from_slice(&3u32.to_be_bytes());
    g[34..38].copy_from_slice(&2u32.to_be_bytes());
    // both increments left at zero: no nearest point exists
    let grid = LatLonGridTemplate::new(g);
    assert_eq!(grid.nearest_row_column(50_000_000, -120_000_000), None);
    assert_eq!(grid.nearest_data_index(50_000_000, -120_000_000), None);
}
