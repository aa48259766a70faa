use ome_companion::error::CompanionError;
use ome_companion::filename::{decimal_len, push_decimal, push_zero_padded, substitute_token, StackConfig};

fn stack(size_z: usize, template: &str) -> StackConfig {
    StackConfig {
        size_z,
        physical_size_z: f64::to_bits(1.0),
        physical_size_z_unit: String::from("µm"),
        filename_template: String::from(template),
    }
}

#[test]
fn ten_slices_are_numbered_with_two_digits() {
    let c = stack(10, "stack_{z}.tif");
    let first = c.filename(0).unwrap();
    let last = c.filename(9).unwrap();
    assert_eq!(first, "stack_01.tif");
    assert_eq!(last, "stack_10.tif");
    assert_ne!(first, last);
}

#[test]
fn a_hundred_and_fifty_slices_are_numbered_with_three_digits() {
    let c = stack(150, "stack_{z}.tif");
    assert_eq!(c.filename(0).unwrap(), "stack_001.tif");
    assert_eq!(c.filename(9).unwrap(), "stack_010.tif");
    assert_eq!(c.filename(99).unwrap(), "stack_100.tif");
    assert_eq!(c.filename(149).unwrap(), "stack_150.tif");
}

#[test]
fn fewer_than_ten_slices_are_numbered_with_two_digits_too() {
    let c = stack(5, "s{z}");
    assert_eq!(c.filename(0).unwrap(), "s01");
    assert_eq!(c.filename(4).unwrap(), "s05");
    assert_eq!(stack(1, "{z}").filename(0).unwrap(), "01");
    assert_eq!(stack(9, "{z}").filename(8).unwrap(), "09");
}

#[test]
fn the_width_changes_between_99_and_100_slices() {
    assert_eq!(stack(99, "{z}").filename(0).unwrap(), "01");
    assert_eq!(stack(99, "{z}").filename(98).unwrap(), "99");
    assert_eq!(stack(100, "{z}").filename(0).unwrap(), "001");
    assert_eq!(stack(100, "{z}").filename(99).unwrap(), "100");
    assert_eq!(stack(999, "{z}").filename(998).unwrap(), "999");
}

#[test]
fn unsupported_depth_counts_have_no_file_names() {
    assert_eq!(stack(0, "{z}").filename(0), Err(CompanionError::UnsupportedDepthCount));
    assert_eq!(stack(1000, "{z}").filename(0), Err(CompanionError::UnsupportedDepthCount));
    assert_eq!(stack(usize::MAX, "{z}").filename(3), Err(CompanionError::UnsupportedDepthCount));
}

#[test]
fn every_placeholder_is_replaced_and_the_rest_is_kept() {
    let c = stack(12, "{z}/plane-{z}-{z}{z}.ome.tif");
    assert_eq!(c.filename(6).unwrap(), "07/plane-07-0707.ome.tif");
    assert_eq!(stack(12, "plain.tif").filename(3).unwrap(), "plain.tif");
    assert_eq!(stack(12, "").filename(3).unwrap(), "");
}

#[test]
fn text_that_only_resembles_the_placeholder_is_kept() {
    let c = stack(12, "{z{z}}_{Z}_{z _{{z}_z}");
    assert_eq!(c.filename(0).unwrap(), "{z01}_{Z}_{z _{01_z}");
}

#[test]
fn characters_outside_ascii_are_kept() {
    let c = stack(12, "µ-Scheibe_{z}_é.tif");
    assert_eq!(c.filename(10).unwrap(), "µ-Scheibe_11_é.tif");
}

#[test]
fn a_depth_beyond_the_count_keeps_all_its_digits() {
    assert_eq!(stack(10, "{z}").filename(122).unwrap(), "123");
    assert_eq!(stack(10, "{z}").filename(usize::MAX).unwrap(), (usize::MAX as u128 + 1).to_string());
}

#[test]
fn file_name_agrees_with_std_formatting() {
    for size_z in [1usize, 9, 10, 99, 100, 999] {
        let c = stack(size_z, "a_{z}_b");
        for z in 0..size_z {
            let expected = if size_z <= 99 {
                "a_{z}_b".replace("{z}", &format!("{:02}", z + 1))
            } else {
                "a_{z}_b".replace("{z}", &format!("{:03}", z + 1))
            };
            assert_eq!(c.filename(z).unwrap(), expected);
        }
    }
}

#[test]
fn decimal_digits_are_appended() {
    let mut s = String::from("n=");
    push_decimal(&mut s, 0);
    assert_eq!(s, "n=0");
    push_decimal(&mut s, 1234567890);
    assert_eq!(s, "n=01234567890");
    let mut t = String::new();
    push_decimal(&mut t, u128::MAX);
    assert_eq!(t, u128::MAX.to_string());
    assert_eq!(decimal_len(0), 1);
    assert_eq!(decimal_len(9), 1);
    assert_eq!(decimal_len(10), 2);
    assert_eq!(decimal_len(u128::MAX), 39);
}

#[test]
fn padding_fills_up_to_the_width_only() {
    let mut s = String::new();
    push_zero_padded(&mut s, 7, 3);
    assert_eq!(s, "007");
    let mut t = String::from("x");
    push_zero_padded(&mut t, 1234, 3);
    assert_eq!(t, "x1234");
    let mut u = String::new();
    push_zero_padded(&mut u, 0, 0);
    assert_eq!(u, "0");
}

#[test]
fn substitution_reads_from_the_left() {
    assert_eq!(substitute_token("{z}{z}", "{z}"), "{z}{z}");
    assert_eq!(substitute_token("a{z}b", ""), "ab");
    assert_eq!(substitute_token("{{z}}", "1"), "{1}");
}
