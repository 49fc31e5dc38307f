use db_pool::id::DatabaseId;
use std::collections::HashSet;

#[test]
fn name_is_prefix_and_hex_digits() {
    let id = DatabaseId { value: 0x0123_4567_89ab_cdef_fedc_ba98_7654_3210 };
    assert_eq!(id.db_name(), "db_pool_0123456789abcdeffedcba9876543210");
}

#[test]
fn name_of_zero_id_keeps_leading_zeros() {
    let id = DatabaseId { value: 0 };
    assert_eq!(id.db_name(), "db_pool_00000000000000000000000000000000");
}

#[test]
fn name_of_largest_id() {
    let id = DatabaseId { value: u128::MAX };
    assert_eq!(id.db_name(), "db_pool_ffffffffffffffffffffffffffffffff");
}

#[test]
fn generated_ids_have_distinct_names() {
    let mut names = HashSet::new();
    for _ in 0..200 {
        let id = DatabaseId::generate();
        assert!(names.insert(id.db_name()));
    }
    assert_eq!(names.len(), 200);
}

#[test]
fn neighbouring_ids_have_distinct_names() {
    let a = DatabaseId { value: 16 };
    let b = DatabaseId { value: 1 };
    assert_ne!(a.db_name(), b.db_name());
    assert_eq!(a.db_name(), "db_pool_00000000000000000000000000000010");
}

#[test]
fn generated_ids_carry_version_and_variant_bits() {
    for _ in 0..50 {
        let v = DatabaseId::generate().value;
        assert_eq!((v >> 76) & 0xf, 4);
        assert_eq!((v >> 62) & 0x3, 2);
    }
}
