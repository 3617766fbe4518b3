use std::convert::TryInto;

use morton3d::MAX_DEPTH;
use morton3d::Morton3D;
use morton3d::morton64::COORD_MAX;
use morton3d::morton64::FLAG;
use morton3d::morton64::MASK;

#[test]
fn test_flag() {
    let mut morton = Morton3D(0);
    morton.set_flag();
    assert!(morton.is_flag_set());
    morton.unset_flag();
    assert_eq!(morton, Morton3D(0));
    assert!(!morton.is_flag_set());
}

#[test]
fn test_max() {
    let mut morton = Morton3D(0);
    for _ in 0..(2_u64.pow(MAX_DEPTH.try_into().unwrap()) - 1) {
        morton = morton.increase_x();
        morton = morton.increase_y();
        morton = morton.increase_z();
    }
    assert_eq!(
        morton,
        Morton3D(
            0b0_111_111_111_111_111_111_111_111_111_111_111_111_111_111_111_111_111_111_111_111_111
        )
    );
}

#[test]
fn test_inc() {
    let morton = Morton3D(0b000_001);

    let morton = morton.increase_y();
    assert_eq!(morton, Morton3D(0b000_011));

    let morton = morton.increase_y();
    assert_eq!(morton, Morton3D(0b010_001));

    let morton = morton.increase_y();
    assert_eq!(morton, Morton3D(0b010_011));

    let morton = morton.increase_y().increase_z();
    assert_eq!(morton, Morton3D(0b010_000_101));
}

#[test]
fn test_dec() {
    let morton = Morton3D(0b010_000_101);

    let morton = morton.decrease_y();
    assert_eq!(morton, Morton3D(0b000_010_111));

    let morton = morton.decrease_y();
    assert_eq!(morton, Morton3D(0b000_010_101));

    let morton = morton.decrease_z().decrease_y();
    assert_eq!(morton, Morton3D(0b000_000_011));

    let morton = morton.decrease_y();
    assert_eq!(morton, Morton3D(0b000_000_001));
}

#[test]
fn test_mask_partition() {
    let mx = Morton3D::mask_n(0);
    let my = Morton3D::mask_n(1);
    let mz = Morton3D::mask_n(2);
    assert_eq!(mx, MASK);
    assert_eq!(mx & my, 0);
    assert_eq!(mx & mz, 0);
    assert_eq!(my & mz, 0);
    assert_eq!(mx | my | mz, !FLAG);
}

#[test]
fn test_mask_n_wraps_axis_index() {
    assert_eq!(Morton3D::mask_n(3), Morton3D::mask_n(0));
    assert_eq!(Morton3D::mask_n(4), Morton3D::mask_n(1));
    assert_eq!(Morton3D::mask_n(5), Morton3D::mask_n(2));
}

#[test]
fn test_round_trip() {
    let morton = Morton3D(0b010_000_101);
    assert_eq!(morton.increase_x().decrease_x(), morton);
    assert_eq!(morton.increase_y().decrease_y(), morton);
    assert_eq!(morton.increase_z().decrease_z(), morton);
    assert_eq!(morton.decrease_y().increase_y(), morton);
    assert_eq!(morton.decrease_z().increase_z(), morton);
}

#[test]
fn test_wrap_at_boundary() {
    // x at COORD_MAX: every x bit set; one more increase wraps x to 0,
    // leaving y, z and the flag untouched.
    let all_x = Morton3D(MASK);
    assert_eq!(all_x.increase_x(), Morton3D(0));

    // x at 0: a decrease wraps x to COORD_MAX.
    let zero = Morton3D(0);
    assert_eq!(zero.decrease_x(), Morton3D(MASK));
    assert_eq!(zero.decrease_y(), Morton3D(MASK << 1));
    assert_eq!(zero.decrease_z(), Morton3D(MASK << 2));

    // The wrap of one axis leaves a set flag alone.
    let mut flagged = Morton3D(MASK);
    flagged.set_flag();
    assert_eq!(flagged.increase_x(), Morton3D(FLAG));
    assert_eq!(COORD_MAX, 0x1F_FFFF);
}

#[test]
fn test_flag_independence_under_arithmetic() {
    // A long mixed sequence of axis arithmetic never touches the flag,
    // and flag changes never touch the coordinates.
    let mut morton = Morton3D(0b010_000_101);
    morton.set_flag();
    let stepped = morton
        .increase_x()
        .increase_y()
        .decrease_z()
        .increase_x()
        .decrease_y()
        .increase_z();
    assert!(stepped.is_flag_set());
    let mut back = stepped.decrease_x().increase_y().decrease_x();
    assert!(back.is_flag_set());
    let coords_before = back.0 & !FLAG;
    back.unset_flag();
    assert!(!back.is_flag_set());
    assert_eq!(back.0 & !FLAG, coords_before);
}

#[test]
fn test_is_flag_set_reads_only_the_top_bit() {
    // All coordinate bits set, flag clear.
    assert!(!Morton3D(!FLAG).is_flag_set());
    // All coordinate bits clear, flag set.
    assert!(Morton3D(FLAG).is_flag_set());
}

#[test]
fn test_raw_conversion() {
    let raw: u64 = 0b010_000_101;
    let morton = Morton3D::from(raw);
    let back: u64 = morton.into();
    assert_eq!(back, raw);
    assert_eq!(Morton3D::default(), Morton3D(0));
}
