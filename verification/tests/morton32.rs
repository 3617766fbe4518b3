use std::convert::TryInto;

use morton3d::Morton3D32;
use morton3d::morton32::FLAG;
use morton3d::morton32::MASK;
use morton3d::morton32::MAX_DEPTH;
use morton3d::morton32::SPARE;

#[test]
fn lib_test_max() {
    let mut morton = Morton3D32(0);
    for _ in 0..(2_u64.pow(MAX_DEPTH.try_into().unwrap()) - 1) {
        morton = morton.increase_x();
        morton = morton.increase_y();
        morton = morton.increase_z();
    }
    assert_eq!(
        morton,
        Morton3D32(0b00_111_111_111_111_111_111_111_111_111_111)
    );
}

#[test]
fn test_flag_32() {
    let mut morton = Morton3D32(0);
    morton.set_flag();
    assert!(morton.is_flag_set());
    morton.unset_flag();
    assert_eq!(morton, Morton3D32(0));
    assert!(!morton.is_flag_set());
}

#[test]
fn test_inc_32() {
    let morton = Morton3D32(0b000_001);

    let morton = morton.increase_y();
    assert_eq!(morton, Morton3D32(0b000_011));

    let morton = morton.increase_y();
    assert_eq!(morton, Morton3D32(0b010_001));

    let morton = morton.increase_y();
    assert_eq!(morton, Morton3D32(0b010_011));

    let morton = morton.increase_y().increase_z();
    assert_eq!(morton, Morton3D32(0b010_000_101));
}

#[test]
fn test_dec_32() {
    let morton = Morton3D32(0b010_000_101);

    let morton = morton.decrease_y();
    assert_eq!(morton, Morton3D32(0b000_010_111));

    let morton = morton.decrease_y();
    assert_eq!(morton, Morton3D32(0b000_010_101));

    let morton = morton.decrease_z().decrease_y();
    assert_eq!(morton, Morton3D32(0b000_000_011));

    let morton = morton.decrease_y();
    assert_eq!(morton, Morton3D32(0b000_000_001));
}

#[test]
fn test_mask_partition_32() {
    let mx = Morton3D32::mask_n(0);
    let my = Morton3D32::mask_n(1);
    let mz = Morton3D32::mask_n(2);
    assert_eq!(mx, MASK);
    assert_eq!(mx & my, 0);
    assert_eq!(mx & mz, 0);
    assert_eq!(my & mz, 0);
    assert_eq!(mx | my | mz, !(FLAG | SPARE));
}

#[test]
fn test_wrap_at_boundary_32() {
    // x at COORD_MAX: one more increase wraps x to 0; x at 0: a decrease
    // wraps x back to COORD_MAX.  The spare bit and flag stay untouched.
    let all_x = Morton3D32(MASK);
    assert_eq!(all_x.increase_x(), Morton3D32(0));
    let zero = Morton3D32(0);
    assert_eq!(zero.decrease_x(), Morton3D32(MASK));
    let mut flagged = Morton3D32(MASK);
    flagged.set_flag();
    assert_eq!(flagged.increase_x(), Morton3D32(FLAG));
}

#[test]
fn test_round_trip_32() {
    let morton = Morton3D32(0b010_000_101);
    assert_eq!(morton.increase_x().decrease_x(), morton);
    assert_eq!(morton.increase_y().decrease_y(), morton);
    assert_eq!(morton.increase_z().decrease_z(), morton);
    assert_eq!(morton.decrease_y().increase_y(), morton);
    assert_eq!(morton.decrease_z().increase_z(), morton);
}

#[test]
fn test_raw_conversion_32() {
    let raw: u32 = 0b010_000_101;
    let morton = Morton3D32::from(raw);
    let back: u32 = morton.into();
    assert_eq!(back, raw);
    assert_eq!(Morton3D32::default(), Morton3D32(0));
}
