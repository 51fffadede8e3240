use vstd::prelude::*;
use crate::templates::grid_tables::{
    earth_shape_of, normalized_longitude, projection_center_of, read_projection_center_flags,
    read_scanning_mode_flags, scanning_mode_of, EarthShape, ProjectionCenterFlags,
    ScanningModeFlags,
};
use crate::utils::{
    be_bytes_to_nat, bit_array_from_bytes, byte_bit, lemma_be_bytes_bound, pow256,
    read_sign_magnitude_i32, read_u32_from_bytes, sign_magnitude_val,
};
use vstd::slice::slice_subrange;

verus! {

/// The fewest bytes a grid-definition section must hold for every fixed
/// field of the Lambert Conformal Conic template to lie inside it.
pub const LAMBERT_CONFORMAL_TEMPLATE_LEN: usize = 81;

/// The grid-definition template of a Lambert Conformal Conic grid: a view
/// of the grid-definition section's bytes, with every field at a fixed
/// offset. Angles are exposed in microdegrees and grid lengths in
/// millimeters, exactly as stored; turning them into real numbers is left
/// to the projection layer.
pub struct LambertConformalTemplate {
    data: Vec<u8>,
}

impl View for LambertConformalTemplate {
    type V = Seq<u8>;

    closed spec fn view(&self) -> Seq<u8> {
        self.data@
    }
}

/// The big-endian unsigned field of `n` bytes at `offset`, read under the
/// sign-plus-magnitude convention; how every signed template field is laid
/// out.
pub open spec fn signed_field(s: Seq<u8>, offset: int) -> int {
    sign_magnitude_val(be_bytes_to_nat(s, offset, 4), 0x8000_0000)
}

impl LambertConformalTemplate {
    /// The view always covers all fixed template fields.
    #[verifier::type_invariant]
    pub open spec fn wf(&self) -> bool {
        self@.len() >= 81
    }

    /// Wraps the bytes of a grid-definition section that carries this
    /// template.
    pub fn new(data: Vec<u8>) -> (r: Self)
        requires
            data@.len() >= LAMBERT_CONFORMAL_TEMPLATE_LEN,
        ensures
            r@ == data@,
    {
        LambertConformalTemplate { data }
    }

    /// The bytes this template is a view of.
    pub fn data(&self) -> (r: &[u8])
        ensures
            r@ == self@,
    {
        self.data.as_slice()
    }

    /// The name of this template.
    pub fn template_name(&self) -> &'static str {
        "Lambert Conformal"
    }

    /// The earth-shape code at its fixed offset.
    pub fn earth_shape(&self) -> (r: EarthShape)
        ensures
            r == earth_shape_of(self@[14]),
    {
        proof {
            use_type_invariant(self);
        }
        EarthShape::from_value(self.data[14])
    }

    /// The scale factor of the spherical earth radius.
    pub fn earth_radius_scale_factor(&self) -> (r: u8)
        ensures
            r == self@[15],
    {
        proof {
            use_type_invariant(self);
        }
        self.data[15]
    }

    /// The scaled value of the spherical earth radius.
    pub fn earth_radius_scaled_value(&self) -> (r: u32)
        ensures
            r as nat == be_bytes_to_nat(self@, 16, 4),
    {
        self.read_u32_field(16)
    }

    /// The scale factor of the oblate-earth major axis.
    pub fn earth_major_axis_scale_factor(&self) -> (r: u8)
        ensures
            r == self@[20],
    {
        proof {
            use_type_invariant(self);
        }
        self.data[20]
    }

    /// The scaled value of the oblate-earth major axis.
    pub fn earth_major_axis_scaled_value(&self) -> (r: u32)
        ensures
            r as nat == be_bytes_to_nat(self@, 21, 4),
    {
        self.read_u32_field(21)
    }

    /// The scale factor of the oblate-earth minor axis.
    pub fn earth_minor_axis_scale_factor(&self) -> (r: u8)
        ensures
            r == self@[25],
    {
        proof {
            use_type_invariant(self);
        }
        self.data[25]
    }

    /// The scaled value of the oblate-earth minor axis.
    pub fn earth_minor_axis_scaled_value(&self) -> (r: u32)
        ensures
            r as nat == be_bytes_to_nat(self@, 26, 4),
    {
        self.read_u32_field(26)
    }

    /// The declared point count along the x axis.
    pub fn number_of_points_on_x_axis(&self) -> (r: u32)
        ensures
            r as nat == be_bytes_to_nat(self@, 30, 4),
    {
        self.read_u32_field(30)
    }

    /// The declared point count along the y axis.
    pub fn number_of_points_on_y_axis(&self) -> (r: u32)
        ensures
            r as nat == be_bytes_to_nat(self@, 34, 4),
    {
        self.read_u32_field(34)
    }

    /// The latitude of the first grid point, in microdegrees.
    pub fn latitude_of_first_grid_point_microdegrees(&self) -> (r: i32)
        ensures
            r as int == signed_field(self@, 38),
    {
        self.read_signed_field(38)
    }

    /// The longitude of the first grid point, in microdegrees, as stored.
    pub fn longitude_of_first_grid_point_microdegrees(&self) -> (r: i32)
        ensures
            r as int == signed_field(self@, 42),
    {
        self.read_signed_field(42)
    }

    /// The resolution and component flag bits, most significant first.
    pub fn resolution_component_flags(&self) -> (r: Vec<u8>)
        ensures
            r@.len() == 8,
            forall|i: int| 0 <= i < 8 ==> #[trigger] r@[i] == byte_bit(self@[46], i),
    {
        proof {
            use_type_invariant(self);
        }
        let byte = slice_subrange(self.data.as_slice(), 46, 47);
        bit_array_from_bytes(byte)
    }

    /// The latitude where the grid lengths apply, in microdegrees.
    pub fn latitude_of_dx_dy_microdegrees(&self) -> (r: i32)
        ensures
            r as int == signed_field(self@, 47),
    {
        self.read_signed_field(47)
    }

    /// The longitude of the meridian parallel to which latitude increases,
    /// in microdegrees.
    pub fn longitude_of_paralell_meridian_to_latitude_increase_microdegrees(&self) -> (r: i32)
        ensures
            r as int == signed_field(self@, 51),
    {
        self.read_signed_field(51)
    }

    /// The grid length along the x axis, in millimeters.
    pub fn x_direction_grid_length_millimeters(&self) -> (r: i32)
        ensures
            r as int == signed_field(self@, 55),
    {
        self.read_signed_field(55)
    }

    /// The grid length along the y axis, in millimeters.
    pub fn y_direction_grid_length_millimeters(&self) -> (r: i32)
        ensures
            r as int == signed_field(self@, 59),
    {
        self.read_signed_field(59)
    }

    /// The projection-centre flags at their fixed offset.
    pub fn projection_centre_flags(&self) -> (r: ProjectionCenterFlags)
        ensures
            r == projection_center_of(self@[63]),
    {
        proof {
            use_type_invariant(self);
        }
        read_projection_center_flags(self.data[63])
    }

    /// The scanning-mode flags at their fixed offset.
    pub fn scanning_mode_flags(&self) -> (r: ScanningModeFlags)
        ensures
            r == scanning_mode_of(self@[64]),
    {
        proof {
            use_type_invariant(self);
        }
        read_scanning_mode_flags(self.data[64])
    }

    /// The first standard parallel, in microdegrees.
    pub fn latin_1_microdegrees(&self) -> (r: i32)
        ensures
            r as int == signed_field(self@, 65),
    {
        self.read_signed_field(65)
    }

    /// The second standard parallel, in microdegrees.
    pub fn latin_2_microdegrees(&self) -> (r: i32)
        ensures
            r as int == signed_field(self@, 69),
    {
        self.read_signed_field(69)
    }

    /// The latitude of the southern pole of projection, in microdegrees.
    pub fn latitude_of_southern_pole_microdegrees(&self) -> (r: i32)
        ensures
            r as int == signed_field(self@, 73),
    {
        self.read_signed_field(73)
    }

    /// The longitude of the southern pole of projection, in microdegrees.
    pub fn longitude_of_southern_pole_microdegrees(&self) -> (r: i32)
        ensures
            r as int == signed_field(self@, 77),
    {
        self.read_signed_field(77)
    }

    /// The first-grid-point longitude normalized into -180 to 180 degrees,
    /// in microdegrees: what the projection is actually built from.
    pub fn normalized_first_grid_point_longitude_microdegrees(&self) -> (r: i32)
        ensures
            r as int == normalized_longitude(signed_field(self@, 42)),
    {
        let lon = self.longitude_of_first_grid_point_microdegrees();
        crate::templates::grid_tables::normalize_longitude_microdegrees(lon)
    }

    /// The x-axis step with its sign already chosen from the scanning-mode
    /// flags: positive when points scan in the +i direction.
    pub fn x_step_millimeters(&self) -> (r: i64)
        ensures
            r as int == (if scanning_mode_of(self@[64]).scans_positively_i {
                signed_field(self@, 55)
            } else {
                -signed_field(self@, 55)
            }),
    {
        let len = self.x_direction_grid_length_millimeters();
        if self.scanning_mode_flags().scans_positively_i {
            len as i64
        } else {
            -(len as i64)
        }
    }

    /// The y-axis step with its sign already chosen from the scanning-mode
    /// flags: positive when points scan in the +j direction.
    pub fn y_step_millimeters(&self) -> (r: i64)
        ensures
            r as int == (if scanning_mode_of(self@[64]).scans_positively_j {
                signed_field(self@, 59)
            } else {
                -signed_field(self@, 59)
            }),
    {
        let len = self.y_direction_grid_length_millimeters();
        if self.scanning_mode_flags().scans_positively_j {
            len as i64
        } else {
            -(len as i64)
        }
    }

    /// The number of points in the whole grid.
    pub fn grid_point_count(&self) -> (r: u64)
        ensures
            r as nat == be_bytes_to_nat(self@, 30, 4) * be_bytes_to_nat(self@, 34, 4),
    {
        proof {
            lemma_be_bytes_bound(self@, 30, 4);
            lemma_be_bytes_bound(self@, 34, 4);
            assert(pow256(4) == 0x1_0000_0000) by {
                reveal_with_fuel(pow256, 5);
            }
        }
        let nx = self.number_of_points_on_x_axis() as u64;
        let ny = self.number_of_points_on_y_axis() as u64;
        assert(nx * ny <= 0xffff_ffffu64 * 0xffff_ffffu64) by (nonlinear_arith)
            requires
                nx <= 0xffff_ffffu64,
                ny <= 0xffff_ffffu64,
        ;
        nx * ny
    }

    /// The number of rows, that is of points along the y axis.
    pub fn latitude_count(&self) -> (r: u32)
        ensures
            r as nat == be_bytes_to_nat(self@, 34, 4),
    {
        self.number_of_points_on_y_axis()
    }

    /// The number of columns, that is of points along the x axis.
    pub fn longitude_count(&self) -> (r: u32)
        ensures
            r as nat == be_bytes_to_nat(self@, 30, 4),
    {
        self.number_of_points_on_x_axis()
    }

    /// Reads an unsigned 4-byte field at a fixed offset of the template.
    fn read_u32_field(&self, offset: usize) -> (r: u32)
        requires
            offset + 4 <= 81,
        ensures
            r as nat == be_bytes_to_nat(self@, offset as int, 4),
    {
        proof {
            use_type_invariant(self);
            lemma_be_bytes_bound(self@, offset as int, 4);
            assert(pow256(4) == 0x1_0000_0000) by {
                reveal_with_fuel(pow256, 5);
            }
        }
        match read_u32_from_bytes(self.data.as_slice(), offset) {
            Some(v) => v,
            None => 0,
        }
    }

    /// Reads a signed 4-byte field at a fixed offset of the template.
    fn read_signed_field(&self, offset: usize) -> (r: i32)
        requires
            offset + 4 <= 81,
        ensures
            r as int == signed_field(self@, offset as int),
    {
        proof {
            use_type_invariant(self);
        }
        read_sign_magnitude_i32(self.data.as_slice(), offset)
    }
}

} // verus!
