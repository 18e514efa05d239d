use indexer_facade::base_types::{IdError, ObjectID};

fn id(low: u64) -> ObjectID {
    let mut bytes = [0u8; 32];
    bytes[24..].copy_from_slice(&low.to_be_bytes());
    ObjectID::new(bytes)
}

fn id_from(prefix: u8, last: u8) -> ObjectID {
    let mut bytes = [prefix; 32];
    bytes[31] = last;
    ObjectID::new(bytes)
}

#[test]
fn next_increment_adds_one() {
    assert_eq!(id(0).next_increment(), Ok(id(1)));
    assert_eq!(id(41).next_increment(), Ok(id(42)));
    assert_eq!(id(254).next_increment(), Ok(id(255)));
}

#[test]
fn next_increment_carries() {
    assert_eq!(id(255).next_increment(), Ok(id(256)));
    assert_eq!(id(0xffff).next_increment(), Ok(id(0x1_0000)));
    let mut before = [0u8; 32];
    for byte in before.iter_mut().skip(1) {
        *byte = 0xff;
    }
    let mut after = [0u8; 32];
    after[0] = 1;
    assert_eq!(ObjectID::new(before).next_increment(), Ok(ObjectID::new(after)));
    let mut before = [0xffu8; 32];
    before[0] = 0xfe;
    let mut after = [0u8; 32];
    after[0] = 0xff;
    assert_eq!(ObjectID::new(before).next_increment(), Ok(ObjectID::new(after)));
}

#[test]
fn next_increment_of_the_last_id_fails() {
    assert_eq!(ObjectID::new([0xff; 32]).next_increment(), Err(IdError::Overflow));
    assert_eq!(id_from(0xff, 0xfe).next_increment(), Ok(ObjectID::new([0xff; 32])));
}

#[test]
fn in_range_of_no_id_is_empty_and_never_fails() {
    assert_eq!(ObjectID::in_range(id(5), 0), Ok(Vec::new()));
    assert_eq!(ObjectID::in_range(ObjectID::new([0xff; 32]), 0), Ok(Vec::new()));
}

#[test]
fn in_range_starts_at_the_offset_and_counts_up() {
    assert_eq!(ObjectID::in_range(id(5), 1), Ok(vec![id(5)]));
    assert_eq!(ObjectID::in_range(id(254), 4), Ok(vec![id(254), id(255), id(256), id(257)]));
    let row = ObjectID::in_range(id(1000), 5000).unwrap();
    assert_eq!(row.len(), 5000);
    for (i, entry) in row.iter().enumerate() {
        assert_eq!(*entry, id(1000 + i as u64));
    }
}

#[test]
fn in_range_up_to_the_last_id_succeeds() {
    assert_eq!(
        ObjectID::in_range(ObjectID::new([0xff; 32]), 1),
        Ok(vec![ObjectID::new([0xff; 32])])
    );
    assert_eq!(
        ObjectID::in_range(id_from(0xff, 0xfd), 3),
        Ok(vec![id_from(0xff, 0xfd), id_from(0xff, 0xfe), ObjectID::new([0xff; 32])])
    );
}

#[test]
fn in_range_behind_the_last_id_fails() {
    assert_eq!(ObjectID::in_range(ObjectID::new([0xff; 32]), 2), Err(IdError::Overflow));
    assert_eq!(ObjectID::in_range(id_from(0xff, 0xfd), 4), Err(IdError::Overflow));
}

#[test]
fn to_words_splits_the_id_in_two() {
    assert_eq!(id(0).to_words(), (0, 0));
    assert_eq!(id(42).to_words(), (0, 42));
    assert_eq!(ObjectID::new([0xff; 32]).to_words(), (u128::MAX, u128::MAX));
    let mut bytes = [0u8; 32];
    bytes[15] = 1;
    bytes[16] = 2;
    assert_eq!(ObjectID::new(bytes).to_words(), (1, 2u128 << 120));
    let mut bytes = [0u8; 32];
    for (i, byte) in bytes.iter_mut().enumerate() {
        *byte = i as u8;
    }
    assert_eq!(
        ObjectID::new(bytes).to_words(),
        (0x0001_0203_0405_0607_0809_0a0b_0c0d_0e0f, 0x1011_1213_1415_1617_1819_1a1b_1c1d_1e1f)
    );
}

#[test]
fn same_is_byte_exact() {
    assert!(id(7).same(&id(7)));
    assert!(!id(7).same(&id(8)));
    let mut high = [0u8; 32];
    high[0] = 1;
    assert!(!ObjectID::new(high).same(&id(0)));
    assert!(ObjectID::new([0xab; 32]).same(&ObjectID::new([0xab; 32])));
}

#[test]
fn less_than_is_the_order_of_the_bytes() {
    assert!(id(7).less_than(&id(8)));
    assert!(!id(8).less_than(&id(7)));
    assert!(!id(7).less_than(&id(7)));
    assert!(id(255).less_than(&id(256)));
    let mut high = [0u8; 32];
    high[0] = 1;
    assert!(id(u64::MAX).less_than(&ObjectID::new(high)));
    assert!(!ObjectID::new(high).less_than(&id(u64::MAX)));
    assert!(id_from(0xfe, 0xff).less_than(&id_from(0xff, 0x00)));
}

#[test]
fn less_than_agrees_with_the_derived_order() {
    let samples = [id(0), id(1), id(255), id(256), id(u64::MAX), id_from(1, 0), id_from(0xff, 0)];
    for a in samples {
        for b in samples {
            assert_eq!(a.less_than(&b), a < b);
            assert_eq!(a.same(&b), a == b);
        }
    }
}
