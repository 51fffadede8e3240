// The projection engine that consumes the Lambert Conformal template's
// decoded fields is floating-point and lives outside the verified library;
// this exercises the projection it is built on, with the same parallels and
// origin a decoded template supplies.
use mappers::projections::LambertConformalConic;
use mappers::Projection;

#[test]
fn lambert_round_trip() {
    let projection = LambertConformalConic::builder()
        .ref_lonlat(-90.0, 45.0)
        .standard_parallels(30.0, 60.0)
        .initialize_projection()
        .unwrap();
    let (x, y) = projection.project(-80.0, 40.0).unwrap();
    let (lon, lat) = projection.inverse_project(x, y).unwrap();
    assert!((lon - -80.0).abs() < 1e-6);
    assert!((lat - 40.0).abs() < 1e-6);
}

#[test]
fn degenerate_parallels_fail_explicitly() {
    let result = LambertConformalConic::builder()
        .ref_lonlat(-90.0, 45.0)
        .standard_parallels(-30.0, 30.0)
        .initialize_projection();
    assert!(result.is_err());
}
