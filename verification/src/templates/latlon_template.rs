use vstd::prelude::*;
use crate::location::{axis_distance, nearest_axis_index};
use crate::templates::grid_tables::{
    earth_shape_of, read_scanning_mode_flags, scanning_mode_of, EarthShape, ScanningModeFlags,
};
use crate::templates::lambert_conformal_template::signed_field;
use crate::utils::{
    be_bytes_to_nat, lemma_be_bytes_bound, pow256, read_sign_magnitude_i32, read_u32_from_bytes,
};

verus! {

/// The fewest bytes a grid-definition section must hold for every fixed
/// field of the equirectangular latitude/longitude template to lie inside
/// it.
pub const LATLON_GRID_TEMPLATE_LEN: usize = 72;

/// The grid-definition template of an equirectangular latitude/longitude
/// grid: rows of constant latitude and columns of constant longitude, with
/// constant increments along each axis. All angles are exposed in
/// microdegrees, exactly as stored, and the whole coordinate table is
/// integer arithmetic.
pub struct LatLonGridTemplate {
    data: Vec<u8>,
}

impl View for LatLonGridTemplate {
    type V = Seq<u8>;

    closed spec fn view(&self) -> Seq<u8> {
        self.data@
    }
}

/// The x-axis (longitude) step in microdegrees, its sign chosen from the
/// scanning-mode flags.
pub open spec fn latlon_x_step(s: Seq<u8>) -> int {
    if scanning_mode_of(s[71]).scans_positively_i {
        be_bytes_to_nat(s, 63, 4) as int
    } else {
        -(be_bytes_to_nat(s, 63, 4) as int)
    }
}

/// The y-axis (latitude) step in microdegrees, its sign chosen from the
/// scanning-mode flags.
pub open spec fn latlon_y_step(s: Seq<u8>) -> int {
    if scanning_mode_of(s[71]).scans_positively_j {
        be_bytes_to_nat(s, 67, 4) as int
    } else {
        -(be_bytes_to_nat(s, 67, 4) as int)
    }
}

/// The (latitude, longitude) pair, in microdegrees, of the grid point at
/// position `k` of the scan order the scanning-mode flags dictate: by
/// default adjacent points share a row, otherwise they share a column.
pub open spec fn latlon_point(s: Seq<u8>, k: int) -> (int, int) {
    let ni = be_bytes_to_nat(s, 30, 4) as int;
    let nj = be_bytes_to_nat(s, 34, 4) as int;
    let flags = scanning_mode_of(s[71]);
    let i = if flags.adjacent_points_consecutive_j {
        k / nj
    } else {
        k % ni
    };
    let j = if flags.adjacent_points_consecutive_j {
        k % nj
    } else {
        k / ni
    };
    (signed_field(s, 46) + j * latlon_y_step(s), signed_field(s, 50) + i * latlon_x_step(s))
}

impl LatLonGridTemplate {
    /// The view always covers all fixed template fields.
    #[verifier::type_invariant]
    pub open spec fn wf(&self) -> bool {
        self@.len() >= 72
    }

    /// Wraps the bytes of a grid-definition section that carries this
    /// template.
    pub fn new(data: Vec<u8>) -> (r: Self)
        requires
            data@.len() >= LATLON_GRID_TEMPLATE_LEN,
        ensures
            r@ == data@,
    {
        LatLonGridTemplate { data }
    }

    /// The bytes this template is a view of.
    pub fn data(&self) -> (r: &[u8])
        ensures
            r@ == self@,
    {
        self.data.as_slice()
    }

    /// The earth-shape code at its fixed offset.
    pub fn earth_shape(&self) -> (r: EarthShape)
        ensures
            r == earth_shape_of(self@[14]),
    {
        proof {
            use_type_invariant(self);
        }
        EarthShape::from_value(self.data[14])
    }

    /// The declared point count along a parallel.
    pub fn number_of_points_on_x_axis(&self) -> (r: u32)
        ensures
            r as nat == be_bytes_to_nat(self@, 30, 4),
    {
        self.read_u32_field(30)
    }

    /// The declared point count along a meridian.
    pub fn number_of_points_on_y_axis(&self) -> (r: u32)
        ensures
            r as nat == be_bytes_to_nat(self@, 34, 4),
    {
        self.read_u32_field(34)
    }

    /// The latitude of the first grid point, in microdegrees.
    pub fn latitude_of_first_grid_point_microdegrees(&self) -> (r: i32)
        ensures
            r as int == signed_field(self@, 46),
    {
        proof {
            use_type_invariant(self);
        }
        read_sign_magnitude_i32(self.data.as_slice(), 46)
    }

    /// The longitude of the first grid point, in microdegrees, as stored.
    pub fn longitude_of_first_grid_point_microdegrees(&self) -> (r: i32)
        ensures
            r as int == signed_field(self@, 50),
    {
        proof {
            use_type_invariant(self);
        }
        read_sign_magnitude_i32(self.data.as_slice(), 50)
    }

    /// The latitude of the last grid point, in microdegrees.
    pub fn latitude_of_last_grid_point_microdegrees(&self) -> (r: i32)
        ensures
            r as int == signed_field(self@, 55),
    {
        proof {
            use_type_invariant(self);
        }
        read_sign_magnitude_i32(self.data.as_slice(), 55)
    }

    /// The longitude of the last grid point, in microdegrees, as stored.
    pub fn longitude_of_last_grid_point_microdegrees(&self) -> (r: i32)
        ensures
            r as int == signed_field(self@, 59),
    {
        proof {
            use_type_invariant(self);
        }
        read_sign_magnitude_i32(self.data.as_slice(), 59)
    }

    /// The stored longitude increment, in microdegrees.
    pub fn x_increment_microdegrees(&self) -> (r: u32)
        ensures
            r as nat == be_bytes_to_nat(self@, 63, 4),
    {
        self.read_u32_field(63)
    }

    /// The stored latitude increment, in microdegrees.
    pub fn y_increment_microdegrees(&self) -> (r: u32)
        ensures
            r as nat == be_bytes_to_nat(self@, 67, 4),
    {
        self.read_u32_field(67)
    }

    /// The scanning-mode flags at their fixed offset.
    pub fn scanning_mode_flags(&self) -> (r: ScanningModeFlags)
        ensures
            r == scanning_mode_of(self@[71]),
    {
        proof {
            use_type_invariant(self);
        }
        read_scanning_mode_flags(self.data[71])
    }

    /// The x-axis step with its sign already chosen from the scanning-mode
    /// flags.
    pub fn x_step_microdegrees(&self) -> (r: i64)
        ensures
            r as int == latlon_x_step(self@),
    {
        let inc = self.x_increment_microdegrees();
        if self.scanning_mode_flags().scans_positively_i {
            inc as i64
        } else {
            -(inc as i64)
        }
    }

    /// The y-axis step with its sign already chosen from the scanning-mode
    /// flags.
    pub fn y_step_microdegrees(&self) -> (r: i64)
        ensures
            r as int == latlon_y_step(self@),
    {
        let inc = self.y_increment_microdegrees();
        if self.scanning_mode_flags().scans_positively_j {
            inc as i64
        } else {
            -(inc as i64)
        }
    }

    /// The number of points in the whole grid.
    pub fn grid_point_count(&self) -> (r: u64)
        ensures
            r as nat == be_bytes_to_nat(self@, 30, 4) * be_bytes_to_nat(self@, 34, 4),
    {
        proof {
            lemma_be_bytes_bound(self@, 30, 4);
            lemma_be_bytes_bound(self@, 34, 4);
            assert(pow256(4) == 0x1_0000_0000) by {
                reveal_with_fuel(pow256, 5);
            }
        }
        let nx = self.number_of_points_on_x_axis() as u64;
        let ny = self.number_of_points_on_y_axis() as u64;
        assert(nx * ny <= 0xffff_ffffu64 * 0xffff_ffffu64) by (nonlinear_arith)
            requires
                nx <= 0xffff_ffffu64,
                ny <= 0xffff_ffffu64,
        ;
        nx * ny
    }

    /// The full ordered coordinate table: one (latitude, longitude) pair in
    /// microdegrees per grid point, in exactly the scan order the
    /// scanning-mode flags dictate.
    pub fn latlng_microdegrees(&self) -> (r: Vec<(i128, i128)>)
        ensures
            r@.len() == be_bytes_to_nat(self@, 30, 4) * be_bytes_to_nat(self@, 34, 4),
            forall|k: int|
                0 <= k < r@.len() ==> ((#[trigger] r@[k]).0 as int, r@[k].1 as int) == latlon_point(
                    self@,
                    k,
                ),
    {
        let ni = self.number_of_points_on_x_axis();
        let nj = self.number_of_points_on_y_axis();
        let lat1 = self.latitude_of_first_grid_point_microdegrees() as i64;
        let lon1 = self.longitude_of_first_grid_point_microdegrees() as i64;
        let di = self.x_step_microdegrees();
        let dj = self.y_step_microdegrees();
        let consecutive_j = self.scanning_mode_flags().adjacent_points_consecutive_j;
        let ghost s = self@;
        let mut out: Vec<(i128, i128)> = Vec::new();
        proof {
            assert((be_bytes_to_nat(s, 30, 4) * be_bytes_to_nat(s, 34, 4)) as int == (ni as int) * (
            nj as int));
            lemma_be_bytes_bound(s, 63, 4);
            lemma_be_bytes_bound(s, 67, 4);
            assert(pow256(4) == 0x1_0000_0000) by {
                reveal_with_fuel(pow256, 5);
            }
        }
        if consecutive_j {
            let mut i: u32 = 0;
            while i < ni
                invariant
                    i <= ni,
                    consecutive_j == scanning_mode_of(s[71]).adjacent_points_consecutive_j,
                    consecutive_j,
                    ni as nat == be_bytes_to_nat(s, 30, 4),
                    nj as nat == be_bytes_to_nat(s, 34, 4),
                    lat1 as int == signed_field(s, 46),
                    lon1 as int == signed_field(s, 50),
                    di as int == latlon_x_step(s),
                    dj as int == latlon_y_step(s),
                    -0x1_0000_0000 < di < 0x1_0000_0000,
                    -0x1_0000_0000 < dj < 0x1_0000_0000,
                    -0x8000_0000 <= lat1 < 0x8000_0000,
                    -0x8000_0000 <= lon1 < 0x8000_0000,
                    s == self@,
                    out@.len() == i * nj,
                    forall|k: int|
                        0 <= k < out@.len() ==> ((#[trigger] out@[k]).0 as int, out@[k].1 as int)
                            == latlon_point(s, k),
                decreases ni - i,
            {
                let mut j: u32 = 0;
                while j < nj
                    invariant
                        j <= nj,
                        i < ni,
                        consecutive_j == scanning_mode_of(s[71]).adjacent_points_consecutive_j,
                        consecutive_j,
                        ni as nat == be_bytes_to_nat(s, 30, 4),
                        nj as nat == be_bytes_to_nat(s, 34, 4),
                        lat1 as int == signed_field(s, 46),
                        lon1 as int == signed_field(s, 50),
                        di as int == latlon_x_step(s),
                        dj as int == latlon_y_step(s),
                        -0x1_0000_0000 < di < 0x1_0000_0000,
                        -0x1_0000_0000 < dj < 0x1_0000_0000,
                        -0x8000_0000 <= lat1 < 0x8000_0000,
                        -0x8000_0000 <= lon1 < 0x8000_0000,
                        s == self@,
                        out@.len() == i * nj + j,
                        forall|k: int|
                            0 <= k < out@.len() ==> ((#[trigger] out@[k]).0 as int, out@[k].1
                                as int) == latlon_point(s, k),
                    decreases nj - j,
                {
                    let point = grid_point(lat1, lon1, di, dj, i, j);
                    proof {
                        vstd::arithmetic::div_mod::lemma_fundamental_div_mod_converse(
                            (i as int) * (nj as int) + (j as int),
                            nj as int,
                            i as int,
                            j as int,
                        );
                    }
                    out.push(point);
                    j = j + 1;
                }
                proof {
                    assert(i * nj + nj == (i + 1) * nj) by (nonlinear_arith);
                }
                i = i + 1;
            }
            proof {
                assert(out@.len() == (ni as int) * (nj as int));
            }
        } else {
            let mut j: u32 = 0;
            while j < nj
                invariant
                    j <= nj,
                    consecutive_j == scanning_mode_of(s[71]).adjacent_points_consecutive_j,
                    !consecutive_j,
                    ni as nat == be_bytes_to_nat(s, 30, 4),
                    nj as nat == be_bytes_to_nat(s, 34, 4),
                    lat1 as int == signed_field(s, 46),
                    lon1 as int == signed_field(s, 50),
                    di as int == latlon_x_step(s),
                    dj as int == latlon_y_step(s),
                    -0x1_0000_0000 < di < 0x1_0000_0000,
                    -0x1_0000_0000 < dj < 0x1_0000_0000,
                    -0x8000_0000 <= lat1 < 0x8000_0000,
                    -0x8000_0000 <= lon1 < 0x8000_0000,
                    s == self@,
                    out@.len() == j * ni,
                    forall|k: int|
                        0 <= k < out@.len() ==> ((#[trigger] out@[k]).0 as int, out@[k].1 as int)
                            == latlon_point(s, k),
                decreases nj - j,
            {
                let mut i: u32 = 0;
                while i < ni
                    invariant
                        i <= ni,
                        j < nj,
                        consecutive_j == scanning_mode_of(s[71]).adjacent_points_consecutive_j,
                        !consecutive_j,
                        ni as nat == be_bytes_to_nat(s, 30, 4),
                        nj as nat == be_bytes_to_nat(s, 34, 4),
                        lat1 as int == signed_field(s, 46),
                        lon1 as int == signed_field(s, 50),
                        di as int == latlon_x_step(s),
                        dj as int == latlon_y_step(s),
                        -0x1_0000_0000 < di < 0x1_0000_0000,
                        -0x1_0000_0000 < dj < 0x1_0000_0000,
                        -0x8000_0000 <= lat1 < 0x8000_0000,
                        -0x8000_0000 <= lon1 < 0x8000_0000,
                        s == self@,
                        out@.len() == j * ni + i,
                        forall|k: int|
                            0 <= k < out@.len() ==> ((#[trigger] out@[k]).0 as int, out@[k].1
                                as int) == latlon_point(s, k),
                    decreases ni - i,
                {
                    let point = grid_point(lat1, lon1, di, dj, i, j);
                    proof {
                        vstd::arithmetic::div_mod::lemma_fundamental_div_mod_converse(
                            (j as int) * (ni as int) + (i as int),
                            ni as int,
                            j as int,
                            i as int,
                        );
                    }
                    out.push(point);
                    i = i + 1;
                }
                proof {
                    assert(j * ni + ni == (j + 1) * ni) by (nonlinear_arith);
                }
                j = j + 1;
            }
            proof {
                assert((nj as int) * (ni as int) == (ni as int) * (nj as int)) by (nonlinear_arith);
                assert(out@.len() == (ni as int) * (nj as int));
            }
        }
        out
    }

    /// Finds the grid point nearest a (latitude, longitude) pair given in
    /// microdegrees, as its (row, column) position: no row lies nearer in
    /// latitude and no column lies nearer in longitude. Nothing on an empty
    /// or degenerate grid.
    pub fn nearest_row_column(&self, lat: i64, lon: i64) -> (r: Option<(u32, u32)>)
        ensures
            r is Some <==> be_bytes_to_nat(self@, 30, 4) > 0 && be_bytes_to_nat(self@, 34, 4) > 0
                && latlon_x_step(self@) != 0 && latlon_y_step(self@) != 0,
            r matches Some((row, col)) ==> {
                &&& (row as nat) < be_bytes_to_nat(self@, 34, 4)
                &&& (col as nat) < be_bytes_to_nat(self@, 30, 4)
                &&& forall|m: int|
                    0 <= m < be_bytes_to_nat(self@, 34, 4) ==> axis_distance(
                        signed_field(self@, 46),
                        latlon_y_step(self@),
                        row as int,
                        lat as int,
                    ) <= axis_distance(signed_field(self@, 46), latlon_y_step(self@), m, lat as int)
                &&& forall|m: int|
                    0 <= m < be_bytes_to_nat(self@, 30, 4) ==> axis_distance(
                        signed_field(self@, 50),
                        latlon_x_step(self@),
                        col as int,
                        lon as int,
                    ) <= axis_distance(signed_field(self@, 50), latlon_x_step(self@), m, lon as int)
            },
    {
        let lat1 = self.latitude_of_first_grid_point_microdegrees() as i64;
        let lon1 = self.longitude_of_first_grid_point_microdegrees() as i64;
        let dj = self.y_step_microdegrees();
        let di = self.x_step_microdegrees();
        let nj = self.number_of_points_on_y_axis();
        let ni = self.number_of_points_on_x_axis();
        match (nearest_axis_index(lat1, dj, nj, lat), nearest_axis_index(lon1, di, ni, lon)) {
            (Some(row), Some(col)) => Some((row, col)),
            _ => None,
        }
    }

    /// Finds the position in the data array of the grid point nearest a
    /// (latitude, longitude) pair given in microdegrees, following the scan
    /// order the scanning-mode flags dictate.
    pub fn nearest_data_index(&self, lat: i64, lon: i64) -> (r: Option<u64>)
        ensures
            r is Some <==> self.nearest_row_column_exists(),
            r matches Some(index) ==> self.spec_is_nearest_data_index(lat, lon, index),
    {
        let consecutive_j = self.scanning_mode_flags().adjacent_points_consecutive_j;
        let nj = self.number_of_points_on_y_axis();
        let ni = self.number_of_points_on_x_axis();
        match self.nearest_row_column(lat, lon) {
            Some((row, col)) => {
                let index: u64 = if consecutive_j {
                    assert((col as u64) * (nj as u64) + (row as u64) <= 0xffff_ffffu64
                        * 0xffff_ffffu64 + 0xffff_ffffu64) by (nonlinear_arith)
                        requires
                            col <= 0xffff_ffffu64,
                            nj <= 0xffff_ffffu64,
                            row <= 0xffff_ffffu64,
                    ;
                    (col as u64) * (nj as u64) + (row as u64)
                } else {
                    assert((row as u64) * (ni as u64) + (col as u64) <= 0xffff_ffffu64
                        * 0xffff_ffffu64 + 0xffff_ffffu64) by (nonlinear_arith)
                        requires
                            row <= 0xffff_ffffu64,
                            ni <= 0xffff_ffffu64,
                            col <= 0xffff_ffffu64,
                    ;
                    (row as u64) * (ni as u64) + (col as u64)
                };
                proof {
                    assert(self.spec_nearest_index_of(row, col, index));
                    assert(Some((row, col)) == self.spec_nearest_row_column_bound(
                        lat,
                        lon,
                        row,
                        col,
                    ));
                    assert(self.spec_is_nearest_data_index(lat, lon, index));
                }
                Some(index)
            },
            None => None,
        }
    }

    /// True when `index` is the data-array position of a grid point whose
    /// row lies nearest the target latitude and whose column lies nearest
    /// the target longitude.
    pub open spec fn spec_is_nearest_data_index(&self, lat: i64, lon: i64, index: u64) -> bool {
        exists|row: u32, col: u32|
            {
                &&& #[trigger] self.spec_nearest_index_of(row, col, index)
                &&& Some((row, col)) == self.spec_nearest_row_column_bound(lat, lon, row, col)
            }
    }

    /// True when the grid has a nearest point at all: both axes are
    /// populated and neither step is degenerate.
    pub open spec fn nearest_row_column_exists(&self) -> bool {
        &&& be_bytes_to_nat(self@, 30, 4) > 0
        &&& be_bytes_to_nat(self@, 34, 4) > 0
        &&& latlon_x_step(self@) != 0
        &&& latlon_y_step(self@) != 0
    }

    /// The flat data-array position of the grid point in the given row and
    /// column, under the scan order the scanning-mode flags dictate.
    pub open spec fn spec_nearest_index_of(&self, row: u32, col: u32, index: u64) -> bool {
        if scanning_mode_of(self@[71]).adjacent_points_consecutive_j {
            index == col * be_bytes_to_nat(self@, 34, 4) + row
        } else {
            index == row * be_bytes_to_nat(self@, 30, 4) + col
        }
    }

    /// What `nearest_row_column` returns when it returns the given row and
    /// column; ties the flat index back to the nearest-point property.
    pub open spec fn spec_nearest_row_column_bound(
        &self,
        lat: i64,
        lon: i64,
        row: u32,
        col: u32,
    ) -> Option<(u32, u32)> {
        if {
            &&& (row as nat) < be_bytes_to_nat(self@, 34, 4)
            &&& (col as nat) < be_bytes_to_nat(self@, 30, 4)
            &&& forall|m: int|
                0 <= m < be_bytes_to_nat(self@, 34, 4) ==> axis_distance(
                    signed_field(self@, 46),
                    latlon_y_step(self@),
                    row as int,
                    lat as int,
                ) <= axis_distance(signed_field(self@, 46), latlon_y_step(self@), m, lat as int)
            &&& forall|m: int|
                0 <= m < be_bytes_to_nat(self@, 30, 4) ==> axis_distance(
                    signed_field(self@, 50),
                    latlon_x_step(self@),
                    col as int,
                    lon as int,
                ) <= axis_distance(signed_field(self@, 50), latlon_x_step(self@), m, lon as int)
        } {
            Some((row, col))
        } else {
            None
        }
    }

    /// Reads an unsigned 4-byte field at a fixed offset of the template.
    fn read_u32_field(&self, offset: usize) -> (r: u32)
        requires
            offset + 4 <= 72,
        ensures
            r as nat == be_bytes_to_nat(self@, offset as int, 4),
    {
        proof {
            use_type_invariant(self);
            lemma_be_bytes_bound(self@, offset as int, 4);
            assert(pow256(4) == 0x1_0000_0000) by {
                reveal_with_fuel(pow256, 5);
            }
        }
        match read_u32_from_bytes(self.data.as_slice(), offset) {
            Some(v) => v,
            None => 0,
        }
    }
}

/// The coordinates of the grid point in row `j` and column `i`: the first
/// point moved `j` latitude steps and `i` longitude steps.
fn grid_point(lat1: i64, lon1: i64, di: i64, dj: i64, i: u32, j: u32) -> (r: (i128, i128))
    requires
        -0x1_0000_0000 < di < 0x1_0000_0000,
        -0x1_0000_0000 < dj < 0x1_0000_0000,
        -0x8000_0000 <= lat1 < 0x8000_0000,
        -0x8000_0000 <= lon1 < 0x8000_0000,
    ensures
        r.0 as int == lat1 + (j as int) * dj,
        r.1 as int == lon1 + (i as int) * di,
{
    assert(-0x1_0000_0000_0000_0000i128 < (j as i128) * (dj as i128)
        < 0x1_0000_0000_0000_0000i128 && -0x1_0000_0000_0000_0000i128 < (i as i128) * (di as i128)
        < 0x1_0000_0000_0000_0000i128) by (nonlinear_arith)
        requires
            0 <= i < 0x1_0000_0000i128,
            0 <= j < 0x1_0000_0000i128,
            -0x1_0000_0000i128 < di < 0x1_0000_0000i128,
            -0x1_0000_0000i128 < dj < 0x1_0000_0000i128,
    ;
    let lat_wide: i128 = (lat1 as i128) + (j as i128) * (dj as i128);
    let lon_wide: i128 = (lon1 as i128) + (i as i128) * (di as i128);
    (lat_wide, lon_wide)
}

} // verus!
