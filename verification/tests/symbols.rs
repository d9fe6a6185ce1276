use core::mem::size_of;
use string_interner::DefaultSymbol;
use string_interner::Symbol;
use string_interner::SymbolU16;
use string_interner::SymbolU32;
use string_interner::SymbolUsize;

#[test]
fn same_size_as_u32() {
    assert_eq!(size_of::<DefaultSymbol>(), size_of::<u32>());
}

#[test]
fn same_size_as_optional() {
    assert_eq!(size_of::<DefaultSymbol>(), size_of::<Option<DefaultSymbol>>());
}

#[test]
fn u16_symbol_is_two_bytes_with_niche() {
    assert_eq!(size_of::<SymbolU16>(), size_of::<u16>());
    assert_eq!(size_of::<SymbolU16>(), size_of::<Option<SymbolU16>>());
}

#[test]
fn usize_symbol_is_pointer_sized_with_niche() {
    assert_eq!(size_of::<SymbolUsize>(), size_of::<usize>());
    assert_eq!(size_of::<SymbolUsize>(), size_of::<Option<SymbolUsize>>());
}

#[test]
fn round_trip_through_usize() {
    for index in [0usize, 1, 2, 41, 65_533] {
        let sym = SymbolU16::try_from_usize(index).unwrap();
        assert_eq!(sym.to_usize(), index);
        let sym = SymbolU32::try_from_usize(index).unwrap();
        assert_eq!(sym.to_usize(), index);
        let sym = SymbolUsize::try_from_usize(index).unwrap();
        assert_eq!(sym.to_usize(), index);
    }
}

#[test]
fn u16_limit_is_max_minus_sentinel() {
    assert!(SymbolU16::try_from_usize(65_534).is_some());
    assert!(SymbolU16::try_from_usize(65_535).is_none());
    assert!(SymbolU16::try_from_usize(1_000_000).is_none());
}

#[test]
fn u32_limit_is_max_minus_sentinel() {
    assert!(SymbolU32::try_from_usize((u32::MAX as usize) - 1).is_some());
    assert!(SymbolU32::try_from_usize(u32::MAX as usize).is_none());
}

#[test]
fn usize_limit_is_max_minus_sentinel() {
    assert!(SymbolUsize::try_from_usize(usize::MAX - 1).is_some());
    assert!(SymbolUsize::try_from_usize(usize::MAX).is_none());
}

#[test]
fn equality_follows_index() {
    let a = SymbolU32::try_from_usize(7).unwrap();
    let b = SymbolU32::try_from_usize(7).unwrap();
    let c = SymbolU32::try_from_usize(8).unwrap();
    assert!(a == b);
    assert!(a != c);
}

#[test]
fn order_follows_index() {
    let a = SymbolU32::try_from_usize(3).unwrap();
    let b = SymbolU32::try_from_usize(4).unwrap();
    assert!(a < b);
    assert!(b > a);
    assert!(a <= a);
}

#[test]
fn symbols_work_as_hash_map_keys() {
    let a = SymbolU32::try_from_usize(0).unwrap();
    let b = SymbolU32::try_from_usize(1).unwrap();
    let mut map = std::collections::HashMap::new();
    map.insert(a, "first");
    map.insert(b, "second");
    assert_eq!(map.get(&a), Some(&"first"));
    assert_eq!(map.get(&b), Some(&"second"));
}
