use flagset::Declaration;
use flagset::FlagSet;

fn abc() -> Declaration<u8> {
    Declaration::new("Flags").with("A", 0b001).with("B", 0b010).with("C", 0b100).with("ABC", 0b111)
}

fn named(decl: &Declaration<u8>, name: &str) -> FlagSet<u8> {
    decl.flag(name).unwrap()
}

#[test]
fn union_of_two_flags_has_both_bits() {
    let decl = abc();
    let ab = named(&decl, "A").union(named(&decl, "B"));
    assert_eq!(ab.bits(), 0b011);
}

#[test]
fn intersection_keeps_common_bits() {
    let x = FlagSet::<u8>::from_bits_unchecked(0b0110);
    let y = FlagSet::<u8>::from_bits_unchecked(0b1100);
    assert_eq!(x.intersection(y).bits(), 0b0100);
}

#[test]
fn difference_clears_the_other_bits() {
    let x = FlagSet::<u8>::from_bits_unchecked(0b0110);
    let y = FlagSet::<u8>::from_bits_unchecked(0b1100);
    assert_eq!(x.difference(y).bits(), 0b0010);
    assert_eq!(y.difference(x).bits(), 0b1000);
}

#[test]
fn symmetric_difference_keeps_bits_in_exactly_one() {
    let x = FlagSet::<u8>::from_bits_unchecked(0b0110);
    let y = FlagSet::<u8>::from_bits_unchecked(0b1100);
    assert_eq!(x.symmetric_difference(y).bits(), 0b1010);
}

#[test]
fn intersection_of_a_union_with_itself_is_the_union() {
    let decl = abc();
    let a = named(&decl, "A");
    let b = named(&decl, "B");
    assert_eq!((a | b) & (a | b), a | b);
}

#[test]
fn union_and_intersection_commute() {
    let x = FlagSet::<u16>::from_bits_unchecked(0x0f0f);
    let y = FlagSet::<u16>::from_bits_unchecked(0x00ff);
    assert_eq!(x | y, y | x);
    assert_eq!(x & y, y & x);
    assert_eq!((x | y).bits(), 0x0fff);
    assert_eq!((x & y).bits(), 0x000f);
}

#[test]
fn union_is_associative() {
    let x = FlagSet::<u32>::from_bits_unchecked(0x1);
    let y = FlagSet::<u32>::from_bits_unchecked(0x30);
    let z = FlagSet::<u32>::from_bits_unchecked(0x700);
    assert_eq!(x | (y | z), (x | y) | z);
    assert_eq!((x | (y | z)).bits(), 0x731);
}

#[test]
fn a_set_minus_itself_is_empty() {
    let x = FlagSet::<u8>::from_bits_unchecked(0b1011);
    assert_eq!(x - x, FlagSet::empty());
    assert_eq!(x ^ x, FlagSet::empty());
}

#[test]
fn double_complement_of_a_declared_set_is_the_set() {
    let decl = abc();
    let ac = named(&decl, "A") | named(&decl, "C");
    assert_eq!(ac.complement(&decl).bits(), 0b010);
    assert_eq!(ac.complement(&decl).complement(&decl), ac);
}

#[test]
fn double_complement_drops_undeclared_bits() {
    let decl = abc();
    let odd = FlagSet::<u8>::from_bits_unchecked(0b1000_0101);
    assert_eq!(odd.complement(&decl).bits(), 0b010);
    assert_eq!(odd.complement(&decl).complement(&decl).bits(), 0b101);
    assert_eq!(odd.complement(&decl).complement(&decl), odd & decl.all());
}

#[test]
fn complement_of_empty_is_all() {
    let decl = abc();
    assert_eq!(FlagSet::<u8>::empty().complement(&decl), decl.all());
    assert_eq!(decl.all().complement(&decl), FlagSet::empty());
}

#[test]
fn operators_agree_with_methods() {
    let x = FlagSet::<u64>::from_bits_unchecked(0xff00);
    let y = FlagSet::<u64>::from_bits_unchecked(0x0ff0);
    assert_eq!(x | y, x.union(y));
    assert_eq!(x & y, x.intersection(y));
    assert_eq!(x ^ y, x.symmetric_difference(y));
    assert_eq!(x - y, x.difference(y));
    assert_eq!((x - y).bits(), 0xf000);
}

#[test]
fn insert_adds_bits_in_place() {
    let mut x = FlagSet::<u8>::from_bits_unchecked(0b001);
    x.insert(FlagSet::from_bits_unchecked(0b110));
    assert_eq!(x.bits(), 0b111);
}

#[test]
fn remove_clears_bits_in_place() {
    let mut x = FlagSet::<u8>::from_bits_unchecked(0b111);
    x.remove(FlagSet::from_bits_unchecked(0b1010));
    assert_eq!(x.bits(), 0b101);
}

#[test]
fn toggle_flips_the_bits_of_the_mask() {
    let mut x = FlagSet::<u8>::from_bits_unchecked(0b0011);
    x.toggle(FlagSet::from_bits_unchecked(0b0110));
    assert_eq!(x.bits(), 0b0101);
    x.toggle(FlagSet::from_bits_unchecked(0b0110));
    assert_eq!(x.bits(), 0b0011);
}

#[test]
fn set_inserts_or_removes() {
    let mut x = FlagSet::<u8>::from_bits_unchecked(0b0001);
    x.set(FlagSet::from_bits_unchecked(0b0110), true);
    assert_eq!(x.bits(), 0b0111);
    x.set(FlagSet::from_bits_unchecked(0b0011), false);
    assert_eq!(x.bits(), 0b0100);
}

#[test]
fn queries_on_bits() {
    let x = FlagSet::<u8>::from_bits_unchecked(0b0110);
    assert!(x.contains(FlagSet::from_bits_unchecked(0b0100)));
    assert!(x.contains(x));
    assert!(!x.contains(FlagSet::from_bits_unchecked(0b0101)));
    assert!(x.intersects(FlagSet::from_bits_unchecked(0b0101)));
    assert!(!x.intersects(FlagSet::from_bits_unchecked(0b1001)));
    assert!(!x.intersects(FlagSet::empty()));
    assert!(!x.is_empty());
    assert!(FlagSet::<u8>::empty().is_empty());
    assert_eq!(FlagSet::<u8>::empty().bits(), 0);
}

#[test]
fn is_all_means_exactly_the_declared_bits() {
    let decl = abc();
    assert!(decl.all().is_all(&decl));
    assert!(named(&decl, "ABC").is_all(&decl));
    assert!(!named(&decl, "A").is_all(&decl));
    assert!(!FlagSet::<u8>::from_bits_unchecked(0b1111).is_all(&decl));
    assert!(!FlagSet::<u8>::empty().is_all(&decl));
}

#[test]
fn a_flag_without_bits_is_contained_in_every_set() {
    let decl = Declaration::<u32>::new("Flags").with("NONE", 0).with("SOME", 1);
    let none = decl.flag("NONE").unwrap();
    let some = decl.flag("SOME").unwrap();
    let empty = FlagSet::<u32>::empty();
    assert!(empty.contains(none));
    assert!(none.contains(none));
    assert!(some.contains(none));
    assert!(FlagSet::<u32>::from_bits_unchecked(0xffff_0000).contains(none));
    assert!(none.is_empty());
    assert!(empty.is_empty());
    assert!(!some.intersects(none));
}

#[test]
fn collect_is_the_union_of_the_sequence() {
    let decl = abc();
    let a = named(&decl, "A");
    let b = named(&decl, "B");
    let sets = vec![a, b, FlagSet::empty()];
    assert_eq!(FlagSet::collect(&sets), a | b);
    assert_eq!(FlagSet::collect(&sets).bits(), 0b011);
}

#[test]
fn collect_of_nothing_is_empty() {
    let sets: Vec<FlagSet<u8>> = Vec::new();
    assert_eq!(FlagSet::collect(&sets), FlagSet::empty());
}

#[test]
fn extend_adds_every_set() {
    let mut x = FlagSet::<u8>::from_bits_unchecked(0b1000);
    x.extend(&[FlagSet::from_bits_unchecked(0b0001), FlagSet::from_bits_unchecked(0b0100)]);
    assert_eq!(x.bits(), 0b1101);
    x.extend(&[]);
    assert_eq!(x.bits(), 0b1101);
}

#[test]
fn three_flags_over_eight_bits() {
    let decl = abc();
    let a = named(&decl, "A");
    let b = named(&decl, "B");
    let c = named(&decl, "C");
    let e1 = a | c;
    let e2 = b | c;
    assert_eq!(e1 | e2, named(&decl, "ABC"));
    assert_eq!(e1 & e2, c);
    assert_eq!(e1 - e2, a);
    assert_eq!(e2.complement(&decl), a);
    assert_eq!(decl.render(a | b), "A | B");
    assert!(decl.from_bits(0b1000).is_err());
    assert_eq!(decl.from_bits_truncate(0b1001), a);
}

#[test]
fn every_width_keeps_its_top_bit() {
    let top8 = FlagSet::<u8>::from_bits_unchecked(0x80);
    let top16 = FlagSet::<u16>::from_bits_unchecked(0x8000);
    let top32 = FlagSet::<u32>::from_bits_unchecked(0x8000_0000);
    let top64 = FlagSet::<u64>::from_bits_unchecked(0x8000_0000_0000_0000);
    let top128 = FlagSet::<u128>::from_bits_unchecked(1u128 << 127);
    assert_eq!((top8 | FlagSet::from_bits_unchecked(1)).bits(), 0x81);
    assert_eq!((top16 | FlagSet::from_bits_unchecked(1)).bits(), 0x8001);
    assert_eq!((top32 | FlagSet::from_bits_unchecked(1)).bits(), 0x8000_0001);
    assert_eq!((top64 | FlagSet::from_bits_unchecked(1)).bits(), 0x8000_0000_0000_0001);
    assert_eq!((top128 | FlagSet::from_bits_unchecked(1)).bits(), (1u128 << 127) | 1);
    assert_eq!((FlagSet::<u8>::from_bits_unchecked(0xff) - top8).bits(), 0x7f);
    assert_eq!((FlagSet::<u128>::from_bits_unchecked(u128::MAX) - top128).bits(), u128::MAX >> 1);
}

#[test]
fn assigning_operators_change_the_receiver() {
    let mut x = FlagSet::<u8>::from_bits_unchecked(0b0011);
    x |= FlagSet::from_bits_unchecked(0b0100);
    assert_eq!(x.bits(), 0b0111);
    x &= FlagSet::from_bits_unchecked(0b1110);
    assert_eq!(x.bits(), 0b0110);
    x ^= FlagSet::from_bits_unchecked(0b1100);
    assert_eq!(x.bits(), 0b1010);
    x -= FlagSet::from_bits_unchecked(0b0010);
    assert_eq!(x.bits(), 0b1000);
}

#[test]
fn pointer_sized_sets_keep_their_top_bit() {
    let top = FlagSet::<usize>::from_bits_unchecked(!(usize::MAX >> 1));
    let all = FlagSet::<usize>::from_bits_unchecked(usize::MAX);
    assert_eq!((top | FlagSet::from_bits_unchecked(1)).bits(), !(usize::MAX >> 1) | 1);
    assert_eq!((all - top).bits(), usize::MAX >> 1);
    assert_eq!(all.to_lower_hex(), format!("{:x}", usize::MAX));
}
