use tessellation::BitSet;


#[test]
fn merge() {
    assert_eq!(
        BitSet::zero().merge(BitSet::zero()),
        BitSet::zero()
    );
    assert_eq!(
        BitSet(0b01).merge(BitSet(0b00)),
        BitSet(0b01)
    );
    assert_eq!(
        BitSet(0b00).merge(BitSet(0b10)),
        BitSet(0b10)
    );
    assert_eq!(
        BitSet(0b01).merge(BitSet(0b10)),
        BitSet(0b11)
    );
    assert_eq!(
        BitSet(0b11).merge(BitSet(0b11)),
        BitSet(0b11)
    );
}

#[test]
fn intersect() {
    assert_eq!(
        BitSet::zero().intersect(BitSet::zero()),
        BitSet::zero()
    );
    assert_eq!(
        BitSet(0b01).intersect(BitSet(0b00)),
        BitSet(0b00)
    );
    assert_eq!(
        BitSet(0b00).intersect(BitSet(0b10)),
        BitSet(0b00)
    );
    assert_eq!(
        BitSet(0b01).intersect(BitSet(0b10)),
        BitSet(0b00)
    );
    assert_eq!(
        BitSet(0b11).intersect(BitSet(0b11)),
        BitSet(0b11)
    );
}

#[test]
fn invert() {
    assert_eq!(
        BitSet(0b0000_0000_0000_0000_0000_0000_0000_0000).invert(),
        BitSet(0b1111_1111_1111_1111_1111_1111_1111_1111)
    );
    assert_eq!(
        BitSet(0b1111_1111_1111_1111_1111_1111_1111_1111).invert(),
        BitSet(0b0000_0000_0000_0000_0000_0000_0000_0000)
    );
    assert_eq!(
        BitSet(0b1111_1111_1111_1111_0000_0000_0000_0000).invert(),
        BitSet(0b0000_0000_0000_0000_1111_1111_1111_1111)
    );
}

#[test]
fn count() {
    assert_eq!(
        BitSet(0b0000_0000_0000_0000_0000_0000_0000_0000).count(),
        0
    );
    assert_eq!(
        BitSet(0b1111_1111_1111_1111_1111_1111_1111_1111).count(),
        32
    );
    assert_eq!(
        BitSet(0b1111_1111_1111_1111_0000_0000_0000_0000).count(),
        16
    );
    assert_eq!(
        BitSet(0b0000_0000_0000_0000_1111_1111_1111_1111).count(),
        16
    );
}

#[test]
fn lowest() {
    assert_eq!(
        BitSet(0b0000_0000_0000_0000_0000_0000_0000_0000).lowest(),
        None
    );
    assert_eq!(
        BitSet(0b1111_1111_1111_1111_1111_1111_1111_1111).lowest(),
        Some(0)
    );
    assert_eq!(
        BitSet(0b1111_1111_1111_1111_0000_0000_0000_0000).lowest(),
        Some(16)
    );
}

#[test]
fn empty() {
    assert_eq!(BitSet(0b0000_0000).empty(), true);
    assert_eq!(BitSet(0b1000_0000).empty(), false);
    assert_eq!(BitSet(0b0100_1100).empty(), false);
    assert_eq!(BitSet(0b1100_1101).empty(), false);
    assert_eq!(BitSet(0b1111_1111).empty(), false);
}

#[test]
fn iterate() {
    let mut b = BitSet(0b0100_1010);
    assert_eq!(b.next(), Some(1));
    assert_eq!(b.next(), Some(3));
    assert_eq!(b.next(), Some(6));
    assert_eq!(b.next(), None);
}

#[test]
fn from_bits_sets_exactly_the_given_indices() {
    assert_eq!(BitSet::from_3bits(0, 2, 31), BitSet(0x8000_0005));
    assert_eq!(BitSet::from_4bits(1, 1, 4, 8), BitSet(0b1_0001_0010));
    assert_eq!(BitSet::from_4bits(0, 1, 2, 3).count(), 4);
}

#[test]
fn set_and_get() {
    let mut b = BitSet::zero();
    b.set(5);
    b.set(5);
    b.set(31);
    assert!(b.get(5));
    assert!(b.get(31));
    assert!(!b.get(0));
    assert!(!b.get(30));
    assert_eq!(b.as_u32(), 0x8000_0020);
    assert_eq!(BitSet::from_u32(7).as_u32(), 7);
}

#[test]
fn iterate_highest_bit_and_empty() {
    let mut b = BitSet(0x8000_0000);
    assert_eq!(b.lowest(), Some(31));
    assert_eq!(b.next(), Some(31));
    assert!(b.empty());
    assert_eq!(b.next(), None);
    assert_eq!(b, BitSet::zero());
}

#[test]
fn text_lists_bits_up_to_the_highest() {
    assert_eq!(BitSet(0).to_string(), "BitSet[zeros]");
    assert_eq!(BitSet(0b101).to_string(), "BitSet[1, 0, 1, zeros]");
    assert_eq!(BitSet(0b1000).to_string(), "BitSet[0, 0, 0, 1, zeros]");
}
