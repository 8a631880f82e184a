use std::borrow::Borrow;
use std::cmp::Ordering;
use std::collections::hash_map::DefaultHasher;
use std::collections::BTreeSet;
use std::collections::HashSet;
use std::hash::Hash;
use std::hash::Hasher;
use vast_enum::VastEnum;

/// Not `Copy`, not `Clone`, not `Hash` and without an order: none of these is asked
/// of the enum.
#[derive(Debug, PartialEq)]
enum Color {
    Red,
    Yellow,
    Green,
}

impl From<Color> for u8 {
    fn from(color: Color) -> u8 {
        match color {
            Color::Red => 0,
            Color::Yellow => 1,
            Color::Green => 2,
        }
    }
}

impl TryFrom<u8> for Color {
    type Error = ();

    fn try_from(raw: u8) -> Result<Color, ()> {
        match raw {
            0 => Ok(Color::Red),
            1 => Ok(Color::Yellow),
            2 => Ok(Color::Green),
            _ => Err(()),
        }
    }
}

#[derive(Debug, Copy, Clone, PartialEq, Eq, PartialOrd, Ord, Hash)]
enum Switch {
    Off,
    On,
}

impl From<Switch> for u8 {
    fn from(switch: Switch) -> u8 {
        match switch {
            Switch::Off => 0,
            Switch::On => 1,
        }
    }
}

impl TryFrom<u8> for Switch {
    type Error = ();

    fn try_from(raw: u8) -> Result<Switch, ()> {
        match raw {
            0 => Ok(Switch::Off),
            1 => Ok(Switch::On),
            _ => Err(()),
        }
    }
}

fn hash_of<T: Hash>(value: &T) -> u64 {
    let mut hasher = DefaultHasher::new();
    value.hash(&mut hasher);
    hasher.finish()
}

#[test]
fn equal_integers_make_equal_wrappers() {
    for left in 0..=u8::MAX {
        for right in [0, 1, 2, 3, 254, 255] {
            let a = VastEnum::<Color, u8>::from_int(left);
            let b = VastEnum::<Color, u8>::from_int(right);
            assert_eq!(a == b, left == right);
            assert_eq!(a != b, left != right);
        }
    }
}

#[test]
fn equality_ignores_the_enum_the_wrapper_came_from() {
    for raw in 0..=u8::MAX {
        let color = VastEnum::<Color, u8>::from_int(raw);
        let switch = VastEnum::<Switch, u8>::from_int(raw);
        assert!(color.cast::<Switch>() == switch);
        assert!(switch.cast::<Color>() == color);
    }
}

#[test]
fn wrappers_hash_as_their_integers() {
    for raw in 0..=u8::MAX {
        let color = VastEnum::<Color, u8>::from_int(raw);
        let switch = VastEnum::<Switch, u8>::from_int(raw);
        assert_eq!(hash_of(&color), hash_of(&switch));
        assert_eq!(hash_of(&color), hash_of(&raw));
    }
}

#[test]
fn wrappers_of_different_integers_hash_apart() {
    let one = VastEnum::<Color, u8>::from_int(1);
    let two = VastEnum::<Color, u8>::from_int(2);
    assert_ne!(hash_of(&one), hash_of(&two));
}

#[test]
fn a_hash_set_tells_wrappers_by_integer() {
    let mut seen = HashSet::new();
    assert!(seen.insert(VastEnum::<Color, u8>::from_int(5)));
    assert!(seen.insert(VastEnum::<Color, u8>::from_variant(Color::Green)));
    assert!(!seen.insert(VastEnum::<Color, u8>::from_int(2)));
    assert!(seen.contains(&VastEnum::from_int(5)));
    assert_eq!(seen.len(), 2);
}

#[test]
fn partial_order_is_the_order_of_the_integers() {
    for left in [0u8, 1, 2, 5, 255] {
        for right in [0u8, 1, 2, 5, 255] {
            let a = VastEnum::<Color, u8>::from_int(left);
            let b = VastEnum::<Color, u8>::from_int(right);
            assert_eq!(a.partial_cmp(&b), left.partial_cmp(&right));
            assert_eq!(a < b, left < right);
            assert_eq!(a <= b, left <= right);
            assert_eq!(a > b, left > right);
            assert_eq!(a >= b, left >= right);
        }
    }
}

#[test]
fn total_order_is_the_order_of_the_integers() {
    for left in [0u8, 1, 2, 5, 255] {
        for right in [0u8, 1, 2, 5, 255] {
            let a = VastEnum::<Switch, u8>::from_int(left);
            let b = VastEnum::<Switch, u8>::from_int(right);
            assert_eq!(a.cmp(&b), left.cmp(&right));
        }
    }
    let on = VastEnum::<Switch, u8>::from_variant(Switch::On);
    let off = VastEnum::<Switch, u8>::from_variant(Switch::Off);
    assert_eq!(off.cmp(&on), Ordering::Less);
    assert_eq!(on.cmp(&on), Ordering::Equal);
    assert_eq!(on.max(off).to_int(), 1);
}

#[test]
fn sorting_puts_wrappers_in_integer_order() {
    let mut wrappers: Vec<VastEnum<Switch, u8>> =
        [9u8, 0, 255, 1, 1, 3].iter().map(|raw| VastEnum::from_int(*raw)).collect();
    wrappers.sort();
    let sorted: Vec<u8> = wrappers.iter().map(|w| w.to_int()).collect();
    assert_eq!(sorted, vec![0, 1, 1, 3, 9, 255]);

    let set: BTreeSet<VastEnum<Switch, u8>> = wrappers.into_iter().collect();
    let distinct: Vec<u8> = set.iter().map(|w| w.to_int()).collect();
    assert_eq!(distinct, vec![0, 1, 3, 9, 255]);
}

#[test]
fn default_wraps_the_default_integer() {
    let wrapped = VastEnum::<Color, u8>::default();
    assert_eq!(wrapped.to_int(), 0);
    assert_eq!(wrapped.variant(), Some(Color::Red));
}

#[test]
fn wrappers_copy_though_the_enum_does_not() {
    let source = VastEnum::<Color, u8>::from_int(5);
    let copy = source;
    let clone = source.clone();
    assert_eq!(source.to_int(), 5);
    assert_eq!(copy.to_int(), 5);
    assert_eq!(clone.to_int(), 5);
    assert!(copy == clone);
}

#[test]
fn a_copy_is_independent_of_its_source() {
    let mut source = VastEnum::<Color, u8>::from_int(1);
    let copy = source;
    *source.int_mut() = 4;
    assert_eq!(source.to_int(), 4);
    assert_eq!(copy.to_int(), 1);
}

#[test]
fn a_variant_converts_into_its_wrapper() {
    let wrapped: VastEnum<Color, u8> = Color::Green.into();
    assert_eq!(wrapped.to_int(), 2);
    assert_eq!(wrapped.variant(), Some(Color::Green));
    let again = VastEnum::<Color, u8>::from(Color::Yellow);
    assert_eq!(again.to_int(), 1);
    assert!(again == VastEnum::from_variant(Color::Yellow));
}

#[test]
fn as_ref_and_borrow_show_the_integer() {
    let wrapped = VastEnum::<Color, u8>::from_int(77);
    let by_ref: &u8 = wrapped.as_ref();
    assert_eq!(*by_ref, 77);
    let borrowed: &u8 = wrapped.borrow();
    assert_eq!(*borrowed, 77);
}

#[test]
fn as_mut_writes_the_integer() {
    let mut wrapped = VastEnum::<Color, u8>::from_variant(Color::Red);
    {
        let raw: &mut u8 = wrapped.as_mut();
        assert_eq!(*raw, 0);
        *raw = 2;
    }
    assert_eq!(wrapped.variant(), Some(Color::Green));
    *wrapped.as_mut() = 200;
    assert_eq!(wrapped.variant(), None);
    assert_eq!(wrapped.to_int(), 200);
}

fn takes_repr<T: AsRef<u8>>(value: T) -> u8 {
    *value.as_ref()
}

#[test]
fn a_wrapper_serves_where_an_integer_reference_is_asked() {
    assert_eq!(takes_repr(VastEnum::<Color, u8>::from_int(31)), 31);
}
