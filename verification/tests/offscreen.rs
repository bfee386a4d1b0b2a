use presenter::compute::{first_mismatch, FACTOR};
use presenter::offscreen::{holds_image, rgba_byte_len, workgroup_counts, BYTES_PER_PIXEL};
use presenter::resources::Extent;

#[test]
fn compute_output_as_expected() {
    assert_eq!(FACTOR, 12);
    assert_eq!(first_mismatch(&[]), None);
    assert_eq!(first_mismatch(&[0]), None);
    assert_eq!(first_mismatch(&[0, 12, 24, 36]), None);
    let all: Vec<u32> = (0..65_536u32).map(|n| n * 12).collect();
    assert_eq!(first_mismatch(&all), None);
    assert_eq!(all[65_535], 786_420);
}

#[test]
fn compute_output_first_mismatch_is_reported() {
    assert_eq!(first_mismatch(&[1]), Some(0));
    assert_eq!(first_mismatch(&[0, 12, 25, 36]), Some(2));
    assert_eq!(first_mismatch(&[0, 12, 25, 37]), Some(2));
    assert_eq!(first_mismatch(&[0, 1, 2, 3]), Some(1));
    assert_eq!(first_mismatch(&[0, 12, 24, 0]), Some(3));
    let mut all: Vec<u32> = (0..65_536u32).map(|n| n * 12).collect();
    all[40_000] += 1;
    assert_eq!(first_mismatch(&all), Some(40_000));
    all[40_000] = 40_000;
    assert_eq!(first_mismatch(&all), Some(40_000));
}

#[test]
fn rgba_byte_len_of_square_image() {
    assert_eq!(BYTES_PER_PIXEL, 4);
    assert_eq!(rgba_byte_len(Extent { width: 1024, height: 1024 }), Some(4_194_304));
    assert_eq!(rgba_byte_len(Extent { width: 512, height: 768 }), Some(1_572_864));
    assert_eq!(rgba_byte_len(Extent { width: 0, height: 9 }), Some(0));
    assert_eq!(rgba_byte_len(Extent { width: 1, height: 1 }), Some(4));
}

#[test]
fn rgba_byte_len_that_does_not_fit() {
    assert_eq!(rgba_byte_len(Extent { width: 65_536, height: 65_536 }), None);
    assert_eq!(rgba_byte_len(Extent { width: 32_768, height: 32_768 }), None);
    assert_eq!(rgba_byte_len(Extent { width: 32_768, height: 32_767 }), Some(4_294_836_224));
    assert_eq!(rgba_byte_len(Extent { width: u32::MAX, height: 1 }), None);
    assert_eq!(rgba_byte_len(Extent { width: 1_073_741_823, height: 1 }), Some(4_294_967_292));
    assert_eq!(rgba_byte_len(Extent { width: 1_073_741_824, height: 1 }), None);
}

#[test]
fn buffer_holds_image_when_long_enough() {
    let extent = Extent { width: 1024, height: 1024 };
    assert!(holds_image(4_194_304, extent));
    assert!(holds_image(4_194_305, extent));
    assert!(!holds_image(4_194_303, extent));
    assert!(!holds_image(0, extent));
    assert!(holds_image(0, Extent { width: 0, height: 5 }));
    assert!(!holds_image(7, Extent { width: 2, height: 1 }));
    assert!(holds_image(8, Extent { width: 2, height: 1 }));
}

#[test]
fn workgroups_cover_whole_groups_only() {
    assert_eq!(workgroup_counts(Extent { width: 1024, height: 1024 }, 8, 8), [128, 128, 1]);
    assert_eq!(workgroup_counts(Extent { width: 1023, height: 17 }, 8, 8), [127, 2, 1]);
    assert_eq!(workgroup_counts(Extent { width: 7, height: 0 }, 8, 8), [0, 0, 1]);
    assert_eq!(workgroup_counts(Extent { width: 65_536, height: 1 }, 64, 1), [1024, 1, 1]);
}
