use dragonfox_vpn::icons::{pixel_offset, pixel_region, PixelRegion, ICON_SIZE};

#[test]
fn corners_are_outside_and_centre_inside() {
    assert_eq!(pixel_region(0, 0), PixelRegion::Outside);
    assert_eq!(pixel_region(63, 0), PixelRegion::Outside);
    assert_eq!(pixel_region(0, 63), PixelRegion::Outside);
    assert_eq!(pixel_region(63, 63), PixelRegion::Outside);
    assert_eq!(pixel_region(32, 32), PixelRegion::Interior);
}

#[test]
fn ring_lies_between_radius_26_and_28() {
    assert_eq!(pixel_region(32 + 26, 32), PixelRegion::Interior);
    assert_eq!(pixel_region(32 + 27, 32), PixelRegion::Border);
    assert_eq!(pixel_region(32 + 28, 32), PixelRegion::Border);
    assert_eq!(pixel_region(32 + 29, 32), PixelRegion::Outside);
    assert_eq!(pixel_region(32, 32 - 28), PixelRegion::Border);
}

#[test]
fn many_pixels_are_inside() {
    let mut inside = 0;
    for y in 0..ICON_SIZE {
        for x in 0..ICON_SIZE {
            if pixel_region(x, y) != PixelRegion::Outside {
                inside += 1;
            }
        }
    }
    assert!(inside > 100);
}

#[test]
fn pixel_offsets_are_row_major() {
    assert_eq!(pixel_offset(0, 0), 0);
    assert_eq!(pixel_offset(63, 63), (63 * 64 + 63) * 4);
    assert_eq!(pixel_offset(1, 2), (2 * 64 + 1) * 4);
}
