use gribberish::error::GribError;
use gribberish::scaled::ScaledValue;
use gribberish::sections::grid_definition::GridDefinitionSection;
use gribberish::templates::grid_tables::{
    normalize_longitude_microdegrees, read_scanning_mode_flags, EarthShape,
};
use gribberish::sections::grid_definition::GridDefinitionTemplate;
use gribberish::templates::horizontal_analysis_template::HorizontalAnalysisForecastTemplate;
use gribberish::templates::latlon_template::LatLonGridTemplate;
use gribberish::templates::lambert_conformal_template::LambertConformalTemplate;
use gribberish::templates::product::{
    meteorological_category, meteorological_parameter, oceanographic_parameter, FixedSurfaceTypes,
    GeneratingProcess, TimeUnit,
};
use gribberish::time::{civil_from_epoch, civil_to_epoch, shift_civil, DateTime};

fn lambert_bytes() -> Vec<u8> {
    let mut g = vec![0u8; 81];
    g[0..4].copy_from_slice(&81u32.to_be_bytes());
    g[4] = 3;
    g[6..10].copy_from_slice(&4u32.to_be_bytes());
    g[12..14].copy_from_slice(&30u16.to_be_bytes());
    g[14] = 6;
    g[30..34].copy_from_slice(&2u32.to_be_bytes());
    g[34..38].copy_from_slice(&3u32.to_be_bytes());
    g[38..42].copy_from_slice(&45_000_000u32.to_be_bytes());
    g[42..46].copy_from_slice(&270_000_000u32.to_be_bytes());
    g[55..59].copy_from_slice(&3_000_000u32.to_be_bytes());
    g[59..63].copy_from_slice(&2_000_000u32.to_be_bytes());
    g[64] = 0b0100_0000;
    g[65..69].copy_from_slice(&30_000_000u32.to_be_bytes());
    g[69..73].copy_from_slice(&60_000_000u32.to_be_bytes());
    g
}

#[test]
fn lambert_template_fields() {
    let t = LambertConformalTemplate::new(lambert_bytes());
    assert_eq!(t.earth_shape(), EarthShape::SphericalAuthalic);
    assert_eq!(t.number_of_points_on_x_axis(), 2);
    assert_eq!(t.number_of_points_on_y_axis(), 3);
    assert_eq!(t.grid_point_count(), 6);
    assert_eq!(t.latitude_count(), 3);
    assert_eq!(t.longitude_count(), 2);
    assert_eq!(t.latitude_of_first_grid_point_microdegrees(), 45_000_000);
    assert_eq!(t.longitude_of_first_grid_point_microdegrees(), 270_000_000);
    assert_eq!(t.latin_1_microdegrees(), 30_000_000);
    assert_eq!(t.latin_2_microdegrees(), 60_000_000);
    assert_eq!(t.x_direction_grid_length_millimeters(), 3_000_000);
    assert_eq!(t.y_direction_grid_length_millimeters(), 2_000_000);
}

#[test]
fn longitude_normalized_before_projection() {
    let t = LambertConformalTemplate::new(lambert_bytes());
    // 270 degrees east of the meridian is treated as 90 degrees west
    assert_eq!(t.normalized_first_grid_point_longitude_microdegrees(), -90_000_000);
    assert_eq!(normalize_longitude_microdegrees(270_000_000), -90_000_000);
    assert_eq!(normalize_longitude_microdegrees(180_000_000), 180_000_000);
    assert_eq!(normalize_longitude_microdegrees(-90_000_000), -90_000_000);
}

#[test]
fn scanning_mode_picks_step_signs() {
    let t = LambertConformalTemplate::new(lambert_bytes());
    let flags = t.scanning_mode_flags();
    assert!(flags.scans_positively_i);
    assert!(flags.scans_positively_j);
    assert_eq!(t.x_step_millimeters(), 3_000_000);
    assert_eq!(t.y_step_millimeters(), 2_000_000);

    let mut g = lambert_bytes();
    g[64] = 0b1000_0000;
    let t2 = LambertConformalTemplate::new(g);
    let flags2 = t2.scanning_mode_flags();
    assert!(!flags2.scans_positively_i);
    assert!(!flags2.scans_positively_j);
    assert_eq!(t2.x_step_millimeters(), -3_000_000);
    assert_eq!(t2.y_step_millimeters(), -2_000_000);

    let f = read_scanning_mode_flags(0b0011_0000);
    assert!(f.scans_positively_i);
    assert!(!f.scans_positively_j);
    assert!(f.adjacent_points_consecutive_j);
    assert!(f.rows_alternate);
}

#[test]
fn unsupported_grid_template_is_explicit() {
    let mut g = lambert_bytes();
    g[12..14].copy_from_slice(&99u16.to_be_bytes());
    let section = GridDefinitionSection::from_data(g);
    assert!(matches!(
        section.grid_definition_template(),
        Err(GribError::UnsupportedTemplate(3, 99))
    ));
}

#[test]
fn supported_grid_template_decodes() {
    let section = GridDefinitionSection::from_data(lambert_bytes());
    assert_eq!(section.grid_definition_template_number(), 30);
    assert_eq!(section.data_point_count(), 4);
    assert!(section.grid_definition_template().is_ok());
}

fn latlon_bytes(scanning_mode: u8) -> Vec<u8> {
    let mut g = vec![0u8; 72];
    g[0..4].copy_from_slice(&72u32.to_be_bytes());
    g[4] = 3;
    g[6..10].copy_from_slice(&6u32.to_be_bytes());
    g[12..14].copy_from_slice(&0u16.to_be_bytes());
    g[14] = 6;
    g[30..34].copy_from_slice(&3u32.to_be_bytes());
    g[34..38].copy_from_slice(&2u32.to_be_bytes());
    g[46..50].copy_from_slice(&50_000_000u32.to_be_bytes());
    g[50..54].copy_from_slice(&(120_000_000u32 | 0x8000_0000).to_be_bytes());
    g[55..59].copy_from_slice(&52_000_000u32.to_be_bytes());
    g[59..63].copy_from_slice(&(118_000_000u32 | 0x8000_0000).to_be_bytes());
    g[63..67].copy_from_slice(&1_000_000u32.to_be_bytes());
    g[67..71].copy_from_slice(&2_000_000u32.to_be_bytes());
    g[71] = scanning_mode;
    g
}

#[test]
fn latlon_template_fields() {
    let t = LatLonGridTemplate::new(latlon_bytes(0b0100_0000));
    assert_eq!(t.number_of_points_on_x_axis(), 3);
    assert_eq!(t.number_of_points_on_y_axis(), 2);
    assert_eq!(t.grid_point_count(), 6);
    assert_eq!(t.latitude_of_first_grid_point_microdegrees(), 50_000_000);
    assert_eq!(t.longitude_of_first_grid_point_microdegrees(), -120_000_000);
    assert_eq!(t.latitude_of_last_grid_point_microdegrees(), 52_000_000);
    assert_eq!(t.longitude_of_last_grid_point_microdegrees(), -118_000_000);
    assert_eq!(t.x_step_microdegrees(), 1_000_000);
    assert_eq!(t.y_step_microdegrees(), 2_000_000);
}

#[test]
fn latlon_coordinate_table_row_major() {
    // adjacent points share a row: the longitude varies fastest
    let t = LatLonGridTemplate::new(latlon_bytes(0b0100_0000));
    let table = t.latlng_microdegrees();
    assert_eq!(
        table,
        vec![
            (50_000_000, -120_000_000),
            (50_000_000, -119_000_000),
            (50_000_000, -118_000_000),
            (52_000_000, -120_000_000),
            (52_000_000, -119_000_000),
            (52_000_000, -118_000_000),
        ]
    );
}

#[test]
fn latlon_coordinate_table_column_major() {
    // adjacent points share a column: the latitude varies fastest
    let t = LatLonGridTemplate::new(latlon_bytes(0b0110_0000));
    let table = t.latlng_microdegrees();
    assert_eq!(
        table,
        vec![
            (50_000_000, -120_000_000),
            (52_000_000, -120_000_000),
            (50_000_000, -119_000_000),
            (52_000_000, -119_000_000),
            (50_000_000, -118_000_000),
            (52_000_000, -118_000_000),
        ]
    );
}

#[test]
fn latlon_scan_direction_signs() {
    // neither direction bit set: west and south of the first point
    let t = LatLonGridTemplate::new(latlon_bytes(0b0000_0000));
    assert_eq!(t.x_step_microdegrees(), 1_000_000);
    assert_eq!(t.y_step_microdegrees(), -2_000_000);
    let table = t.latlng_microdegrees();
    assert_eq!(table[0], (50_000_000, -120_000_000));
    assert_eq!(table[3], (48_000_000, -120_000_000));
}

#[test]
fn latlon_template_dispatches() {
    let section = GridDefinitionSection::from_data(latlon_bytes(0b0100_0000));
    assert_eq!(section.grid_definition_template_number(), 0);
    assert!(matches!(
        section.grid_definition_template(),
        Ok(GridDefinitionTemplate::LatLon(_))
    ));
}

fn product_bytes() -> Vec<u8> {
    let mut p = vec![0u8; 34];
    p[0..4].copy_from_slice(&34u32.to_be_bytes());
    p[4] = 4;
    p[9] = 0;
    p[10] = 6;
    p[12] = 2;
    p[14..16].copy_from_slice(&3u16.to_be_bytes());
    p[16] = 30;
    p[17] = 1;
    p[18..22].copy_from_slice(&5u32.to_be_bytes());
    p[22] = 241;
    p[23] = 2;
    p[24..28].copy_from_slice(&3u32.to_be_bytes());
    p[28] = 1;
    p[29] = 0x82;
    p[30..34].copy_from_slice(&150u32.to_be_bytes());
    p
}

#[test]
fn horizontal_template_fields() {
    let t = HorizontalAnalysisForecastTemplate::new(product_bytes(), 0);
    assert_eq!(t.category_value(), 0);
    assert_eq!(t.parameter_value(), 6);
    assert_eq!(t.category(), "temperature");
    let p = t.parameter().unwrap();
    assert_eq!(p.name, "Dewpoint Temperature");
    assert_eq!(p.abbreviation, "DPT");
    assert_eq!(p.unit, "K");
    assert_eq!(t.generating_process(), Some(GeneratingProcess::Forecast));
    assert_eq!(t.observation_cutoff_hours_after_reference_time(), 3);
    assert_eq!(t.observation_cutoff_minutes_after_cutoff_time(), 30);
    assert_eq!(t.time_unit(), Some(TimeUnit::Hour));
    assert_eq!(t.forecast_time(), 5);
}

#[test]
fn fixed_surfaces_and_array_index() {
    let t = HorizontalAnalysisForecastTemplate::new(product_bytes(), 0);
    assert_eq!(t.first_fixed_surface_type(), Some(FixedSurfaceTypes::OrderedSequence));
    assert_eq!(t.first_fixed_surface_scale_factor(), 2);
    assert_eq!(t.first_fixed_surface_scaled_value(), 3);
    assert_eq!(t.first_fixed_surface_value(), Some(ScaledValue { value: 3, factor: 2 }));
    // an ordered-sequence surface repurposes its scaled value as an index
    assert_eq!(t.array_index(), Some(3));

    assert_eq!(t.second_fixed_surface_type(), Some(FixedSurfaceTypes::GroundOrWater));
    assert_eq!(t.second_fixed_surface_scale_factor(), -2);
    assert_eq!(t.second_fixed_surface_scaled_value(), 150);
    assert_eq!(t.second_fixed_surface_value(), Some(ScaledValue { value: 150, factor: -2 }));

    let mut p = product_bytes();
    p[22] = 1;
    let t2 = HorizontalAnalysisForecastTemplate::new(p, 0);
    assert_eq!(t2.array_index(), None);
}

#[test]
fn forecast_datetime_shifts_reference() {
    let t = HorizontalAnalysisForecastTemplate::new(product_bytes(), 0);
    let reference = DateTime { year: 2020, month: 1, day: 1, hour: 0, minute: 0, second: 0 };
    assert_eq!(t.forecast_offset_seconds(), Some(5 * 3600));
    assert_eq!(
        t.forecast_datetime(reference),
        Some(DateTime { year: 2020, month: 1, day: 1, hour: 5, minute: 0, second: 0 })
    );
}

#[test]
fn civil_epoch_round_trip() {
    let dt = DateTime { year: 2020, month: 1, day: 1, hour: 0, minute: 0, second: 0 };
    assert_eq!(civil_to_epoch(dt), Some(1577836800));
    assert_eq!(civil_from_epoch(1577836800), Some(dt));
    // shifting across a month boundary
    let end_of_january = DateTime { year: 2020, month: 1, day: 31, hour: 23, minute: 0, second: 0 };
    assert_eq!(
        shift_civil(end_of_january, 2 * 3600),
        Some(DateTime { year: 2020, month: 2, day: 1, hour: 1, minute: 0, second: 0 })
    );
    // an invalid civil date is no instant
    let bad = DateTime { year: 2020, month: 13, day: 1, hour: 0, minute: 0, second: 0 };
    assert_eq!(civil_to_epoch(bad), None);
    assert_eq!(shift_civil(bad, 60), None);
}

#[test]
fn time_unit_step_lengths() {
    assert_eq!(TimeUnit::Minute.seconds(), 60);
    assert_eq!(TimeUnit::Hour.seconds(), 3600);
    assert_eq!(TimeUnit::Day.seconds(), 86400);
    assert_eq!(TimeUnit::ThreeHours.seconds(), 3 * 3600);
    assert_eq!(TimeUnit::TwelveHours.seconds(), 12 * 3600);
    assert_eq!(TimeUnit::from_value(1), Some(TimeUnit::Hour));
    assert_eq!(TimeUnit::from_value(99), None);
}

#[test]
fn parameter_tables() {
    let p = meteorological_parameter(0, 0).unwrap();
    assert_eq!((p.name, p.abbreviation, p.unit), ("Temperature", "TMP", "K"));
    let w = meteorological_parameter(2, 1).unwrap();
    assert_eq!((w.name, w.abbreviation, w.unit), ("Wind Speed", "WIND", "m s-1"));
    assert!(meteorological_parameter(0, 99).is_none());
    assert!(meteorological_parameter(77, 0).is_none());
    assert_eq!(meteorological_category(1), "moisture");
    assert_eq!(meteorological_category(200), "");

    let h = oceanographic_parameter(0, 3).unwrap();
    assert_eq!((h.name, h.abbreviation, h.unit), ("Significant Wave Height", "HTSGW", "m"));
    assert!(oceanographic_parameter(1, 3).is_none());
}
