use flagset::FlagSet;
use std::cmp::Ordering;
use std::collections::hash_map::DefaultHasher;
use std::hash::Hash;
use std::hash::Hasher;

fn hash_of(set: FlagSet<u16>) -> u64 {
    let mut hasher = DefaultHasher::new();
    set.hash(&mut hasher);
    hasher.finish()
}

#[test]
fn sets_with_the_same_bits_are_equal() {
    let built = FlagSet::<u16>::from_bits_unchecked(0x0f) | FlagSet::from_bits_unchecked(0xf0);
    let direct = FlagSet::<u16>::from_bits_unchecked(0xff);
    assert_eq!(built, direct);
    assert!(built == direct);
    assert!(!(built != direct));
    assert_ne!(direct, FlagSet::from_bits_unchecked(0xfe));
}

#[test]
fn sets_with_the_same_bits_hash_alike() {
    let built = FlagSet::<u16>::from_bits_unchecked(0x0f) | FlagSet::from_bits_unchecked(0xf0);
    let direct = FlagSet::<u16>::from_bits_unchecked(0xff);
    assert_eq!(hash_of(built), hash_of(direct));
}

#[test]
fn sets_are_ordered_as_their_integers() {
    let small = FlagSet::<u8>::from_bits_unchecked(0b0111);
    let large = FlagSet::<u8>::from_bits_unchecked(0b1000);
    assert!(small < large);
    assert!(large > small);
    assert!(small <= small);
    assert!(small >= small);
    assert_eq!(small.partial_cmp(&large), Some(Ordering::Less));
    assert_eq!(large.partial_cmp(&small), Some(Ordering::Greater));
    assert_eq!(small.partial_cmp(&small), Some(Ordering::Equal));
    assert_eq!(small.cmp(&large), Ordering::Less);
    assert_eq!(large.cmp(&small), Ordering::Greater);
    assert_eq!(small.cmp(&small), Ordering::Equal);
}

#[test]
fn sorting_orders_by_bits() {
    let mut sets = vec![
        FlagSet::<u32>::from_bits_unchecked(9),
        FlagSet::from_bits_unchecked(0),
        FlagSet::from_bits_unchecked(0xffff_ffff),
        FlagSet::from_bits_unchecked(3),
    ];
    sets.sort();
    let bits: Vec<u32> = sets.iter().map(|s| s.bits()).collect();
    assert_eq!(bits, vec![0, 3, 9, 0xffff_ffff]);
}

#[test]
fn a_copy_is_independent() {
    let first = FlagSet::<u8>::from_bits_unchecked(0b01);
    let mut copy = first;
    copy.insert(FlagSet::from_bits_unchecked(0b10));
    assert_eq!(first.bits(), 0b01);
    assert_eq!(copy.bits(), 0b11);
    assert_eq!(first.clone(), first);
}
