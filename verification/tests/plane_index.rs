use ome_companion::error::CompanionError;
use ome_companion::model::Pixels;
use ome_companion::plane_index::{
    checked_linear_index, get_relative_ifd_index, parse_dimension_order, DimensionOrder, Selection,
};

fn shape(order: &str, size_z: usize, size_c: usize, size_t: usize) -> Pixels {
    Pixels {
        id: String::from("Pixels:0"),
        pixel_type: String::from("uint16"),
        size_x: 4,
        size_y: 4,
        size_z,
        size_c,
        size_t,
        physical_size_x: None,
        physical_size_x_unit: None,
        physical_size_y: None,
        physical_size_y_unit: None,
        physical_size_z: None,
        physical_size_z_unit: None,
        dimension_order: String::from(order),
        channels: Vec::new(),
        tiff_data: Vec::new(),
    }
}

fn index(order: &str, sizes: (usize, usize, usize), z: usize, c: usize, t: usize) -> usize {
    get_relative_ifd_index(Selection { t, z, c }, &shape(order, sizes.0, sizes.1, sizes.2)).unwrap()
}

#[test]
fn documented_example_of_xyzct() {
    assert_eq!(index("XYZCT", (2, 3, 1), 1, 2, 0), 5);
}

#[test]
fn unit_volume_has_index_zero_in_every_order() {
    for order in ["XYZCT", "XYZTC", "XYCTZ", "XYCZT", "XYTCZ", "XYTZC"] {
        assert_eq!(index(order, (1, 1, 1), 0, 0, 0), 0);
    }
}

#[test]
fn table_of_indices_for_sizes_2_3_4() {
    // sizes Z=2, C=3, T=4; selection z=1, c=2, t=3
    assert_eq!(index("XYZCT", (2, 3, 4), 1, 2, 3), 1 + 2 * 2 + 2 * 3 * 3);
    assert_eq!(index("XYZCT", (2, 3, 4), 1, 2, 3), 23);
    assert_eq!(index("XYZTC", (2, 3, 4), 1, 2, 3), 1 + 2 * 3 + 2 * 4 * 2);
    assert_eq!(index("XYZTC", (2, 3, 4), 1, 2, 3), 23);
    assert_eq!(index("XYCTZ", (2, 3, 4), 1, 2, 3), 2 + 3 * 3 + 3 * 4 * 1);
    assert_eq!(index("XYCZT", (2, 3, 4), 1, 2, 3), 2 + 3 * 1 + 3 * 2 * 3);
    assert_eq!(index("XYTCZ", (2, 3, 4), 1, 2, 3), 3 + 4 * 2 + 4 * 3 * 1);
    assert_eq!(index("XYTZC", (2, 3, 4), 1, 2, 3), 3 + 4 * 1 + 4 * 2 * 2);
}

#[test]
fn table_of_indices_for_an_inner_plane() {
    // sizes Z=5, C=2, T=3; selection z=3, c=1, t=2
    assert_eq!(index("XYZCT", (5, 2, 3), 3, 1, 2), 28);
    assert_eq!(index("XYZTC", (5, 2, 3), 3, 1, 2), 28);
    assert_eq!(index("XYCTZ", (5, 2, 3), 3, 1, 2), 23);
    assert_eq!(index("XYCZT", (5, 2, 3), 3, 1, 2), 27);
    assert_eq!(index("XYTCZ", (5, 2, 3), 3, 1, 2), 23);
    assert_eq!(index("XYTZC", (5, 2, 3), 3, 1, 2), 26);
}

#[test]
fn an_axis_of_size_one_still_multiplies_through() {
    assert_eq!(index("XYZCT", (1, 3, 2), 0, 2, 1), 0 + 1 * 2 + 1 * 3 * 1);
    assert_eq!(index("XYCZT", (4, 1, 2), 3, 0, 1), 0 + 1 * 3 + 1 * 4 * 1);
    assert_eq!(index("XYTZC", (3, 2, 1), 2, 1, 0), 0 + 1 * 2 + 1 * 3 * 1);
}

#[test]
fn every_plane_of_a_volume_has_its_own_index_below_the_plane_count() {
    for order in ["XYZCT", "XYZTC", "XYCTZ", "XYCZT", "XYTCZ", "XYTZC"] {
        let mut seen = vec![false; 2 * 3 * 4];
        for z in 0..2 {
            for c in 0..3 {
                for t in 0..4 {
                    let i = index(order, (2, 3, 4), z, c, t);
                    assert!(i < 24);
                    assert!(!seen[i]);
                    seen[i] = true;
                }
            }
        }
    }
}

#[test]
fn selection_beyond_the_sizes_gives_the_formula_value() {
    assert_eq!(index("XYZCT", (2, 3, 1), 7, 5, 2), 7 + 2 * 5 + 2 * 3 * 2);
}

#[test]
fn invalid_dimension_order_is_rejected() {
    for order in ["", "XYZ", "XYCZ", "ZCTXY", "XYZCC", "xyzct", "XYZCTT", "XYZCT ", "YXZCT", "XYµCT"] {
        assert_eq!(
            get_relative_ifd_index(Selection { t: 0, z: 0, c: 0 }, &shape(order, 1, 1, 1)),
            Err(CompanionError::InvalidDimensionOrder)
        );
    }
}

#[test]
fn the_six_orders_are_read() {
    assert_eq!(parse_dimension_order("XYZCT"), Some(DimensionOrder::XYZCT));
    assert_eq!(parse_dimension_order("XYZTC"), Some(DimensionOrder::XYZTC));
    assert_eq!(parse_dimension_order("XYCTZ"), Some(DimensionOrder::XYCTZ));
    assert_eq!(parse_dimension_order("XYCZT"), Some(DimensionOrder::XYCZT));
    assert_eq!(parse_dimension_order("XYTCZ"), Some(DimensionOrder::XYTCZ));
    assert_eq!(parse_dimension_order("XYTZC"), Some(DimensionOrder::XYTZC));
    assert_eq!(parse_dimension_order("XYZZZ"), None);
}

#[test]
fn index_too_large_for_a_word_is_an_error() {
    assert_eq!(
        get_relative_ifd_index(
            Selection { t: 0, z: 0, c: 2 },
            &shape("XYZCT", usize::MAX, 3, 1)
        ),
        Err(CompanionError::IndexOverflow)
    );
    assert_eq!(
        get_relative_ifd_index(
            Selection { t: 1, z: 0, c: 0 },
            &shape("XYZCT", usize::MAX, 2, 1)
        ),
        Err(CompanionError::IndexOverflow)
    );
}

#[test]
fn large_sizes_do_not_fail_where_the_index_fits() {
    // The product of the two fast sizes does not fit, but it is not needed.
    assert_eq!(
        get_relative_ifd_index(
            Selection { t: 0, z: 5, c: 1 },
            &shape("XYZCT", usize::MAX / 2, usize::MAX, 1)
        ),
        Ok(5 + usize::MAX / 2)
    );
    assert_eq!(checked_linear_index(usize::MAX, 7, 0, 9, 0), Some(usize::MAX));
    assert_eq!(checked_linear_index(usize::MAX, 1, 1, 1, 0), None);
    assert_eq!(checked_linear_index(1, 2, 3, 4, 5), Some(1 + 2 * 3 + 2 * 4 * 5));
}
