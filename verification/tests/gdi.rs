use extras::gdi::{
    inset_amounts, RegionOperation, DC_PEN, HOLLOW_BRUSH, MM_MAX, MM_MIN, NULL_BRUSH, RGN_AND,
    RGN_COPY, RGN_DIFF, RGN_MAX, RGN_MIN, RGN_OR, RGN_XOR, STOCK_LAST,
};

const ALL: [RegionOperation; 5] = [
    RegionOperation::Copy,
    RegionOperation::Intersect,
    RegionOperation::Subtract,
    RegionOperation::Union,
    RegionOperation::Xor,
];

#[test]
fn region_operations_choose_their_modes() {
    assert_eq!(RegionOperation::Copy.combine_mode(), RGN_COPY);
    assert_eq!(RegionOperation::Intersect.combine_mode(), RGN_AND);
    assert_eq!(RegionOperation::Subtract.combine_mode(), RGN_DIFF);
    assert_eq!(RegionOperation::Union.combine_mode(), RGN_OR);
    assert_eq!(RegionOperation::Xor.combine_mode(), RGN_XOR);
}

#[test]
fn region_modes_are_distinct_and_valid() {
    for a in ALL.iter() {
        assert!(RGN_MIN <= a.combine_mode() && a.combine_mode() <= RGN_MAX);
        for b in ALL.iter() {
            assert_eq!(a.combine_mode() == b.combine_mode(), a == b);
        }
    }
}

#[test]
fn only_copy_ignores_the_second_region() {
    assert!(!RegionOperation::Copy.uses_second_source());
    assert!(RegionOperation::Intersect.uses_second_source());
    assert!(RegionOperation::Subtract.uses_second_source());
    assert!(RegionOperation::Union.uses_second_source());
    assert!(RegionOperation::Xor.uses_second_source());
}

#[test]
fn inset_negates_both_amounts() {
    assert_eq!(inset_amounts(3, -4), (-3, 4));
    assert_eq!(inset_amounts(0, 0), (0, 0));
    assert_eq!(inset_amounts(i32::MAX, 1), (-i32::MAX, -1));
}

#[test]
fn aliases_among_constants() {
    assert_eq!(HOLLOW_BRUSH, NULL_BRUSH);
    assert_eq!(STOCK_LAST, DC_PEN);
    assert_eq!(MM_MIN, 1);
    assert_eq!(MM_MAX, 8);
}
