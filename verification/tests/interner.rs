use std::collections::hash_map::RandomState;
use string_interner::DefaultStringInterner;
use string_interner::StringInterner;
use string_interner::Symbol;
use string_interner::SymbolU16;
use string_interner::SymbolU32;

#[test]
fn intern_and_resolve_scenario() {
    let mut interner = DefaultStringInterner::new();
    assert_eq!(interner.len(), 0);
    assert!(interner.is_empty());
    let a = interner.get_or_intern("Elephant");
    let b = interner.get_or_intern("Tiger");
    let c = interner.get_or_intern("Horse");
    let b2 = interner.get_or_intern("Tiger");
    assert!(b2 == b);
    assert!(a != b);
    assert!(a != c);
    assert!(b != c);
    assert_eq!(interner.len(), 3);
    assert!(!interner.is_empty());
    assert_eq!(interner.resolve(b), Some("Tiger"));
    assert!(interner.get("Zebra").is_none());
}

#[test]
fn interning_twice_is_idempotent() {
    let mut interner = DefaultStringInterner::new();
    let first = interner.get_or_intern("Banana");
    let len_after_first = interner.len();
    let second = interner.get_or_intern("Banana");
    assert!(first == second);
    assert_eq!(interner.len(), len_after_first);
}

#[test]
fn distinct_strings_get_distinct_symbols() {
    let mut interner = DefaultStringInterner::new();
    let a = interner.get_or_intern("alpha");
    let b = interner.get_or_intern("beta");
    let g = interner.get_or_intern("gamma");
    assert!(a != b);
    assert!(b != g);
    assert!(a != g);
}

#[test]
fn symbols_are_assigned_in_first_seen_order() {
    let mut interner = DefaultStringInterner::new();
    let syms: Vec<usize> = ["a", "b", "a", "c"]
        .iter()
        .map(|s| interner.get_or_intern(s).to_usize())
        .collect();
    assert_eq!(syms, vec![0, 1, 0, 2]);
    assert_eq!(interner.len(), 3);
}

#[test]
fn resolve_round_trips_every_symbol() {
    let mut interner = DefaultStringInterner::new();
    let words = ["Earth", "Water", "Fire", "Air", "Water"];
    for word in words {
        let sym = interner.get_or_intern(word);
        assert_eq!(interner.resolve(sym), Some(word));
    }
}

#[test]
fn get_returns_the_interned_symbol() {
    let mut interner = DefaultStringInterner::new();
    let sym = interner.get_or_intern("Banana");
    assert!(interner.get("Banana") == Some(sym));
    assert!(interner.get("Apple").is_none());
}

#[test]
fn resolve_of_foreign_symbol_is_none() {
    let mut small = DefaultStringInterner::new();
    small.get_or_intern("only");
    let mut other = DefaultStringInterner::new();
    other.get_or_intern("x");
    other.get_or_intern("y");
    let stray = other.get_or_intern("z");
    assert!(small.resolve(stray).is_none());
}

#[test]
fn resolved_content_survives_later_insertions() {
    let mut interner = DefaultStringInterner::new();
    let sym = interner.get_or_intern("stable");
    let before = interner.resolve(sym).unwrap().to_string();
    for i in 0..100 {
        interner.get_or_intern(&format!("filler-{}", i));
    }
    assert_eq!(interner.resolve(sym).unwrap(), before);
    assert_eq!(interner.len(), 101);
}

#[test]
fn clone_resolves_identically_and_is_independent() {
    let mut original = DefaultStringInterner::new();
    let syms = [
        original.get_or_intern("one"),
        original.get_or_intern("two"),
        original.get_or_intern("three"),
    ];
    let mut clone = original.clone();
    for sym in syms {
        assert_eq!(clone.resolve(sym), original.resolve(sym));
    }
    clone.get_or_intern("four");
    assert_eq!(original.len(), 3);
    assert_eq!(clone.len(), 4);
    assert!(original.get("four").is_none());
}

#[test]
fn reserve_zero_changes_nothing_observable() {
    let mut interner = DefaultStringInterner::new();
    let a = interner.get_or_intern("kept");
    interner.reserve(0);
    assert_eq!(interner.len(), 1);
    assert_eq!(interner.resolve(a), Some("kept"));
    assert!(interner.get("kept") == Some(a));
}

#[test]
fn shrink_to_fit_preserves_all_mappings() {
    let mut interner = DefaultStringInterner::with_capacity(64);
    let a = interner.get_or_intern("one");
    let b = interner.get_or_intern("two");
    interner.shrink_to_fit();
    assert_eq!(interner.len(), 2);
    assert_eq!(interner.resolve(a), Some("one"));
    assert_eq!(interner.resolve(b), Some("two"));
}

#[test]
fn capacity_is_at_least_len() {
    let mut interner = DefaultStringInterner::with_capacity(10);
    assert!(interner.capacity() >= 0);
    interner.get_or_intern("a");
    interner.get_or_intern("b");
    assert!(interner.capacity() >= interner.len());
    interner.reserve(100);
    assert!(interner.capacity() >= interner.len());
}

#[test]
fn construction_variants_start_empty() {
    let from_new = DefaultStringInterner::new();
    assert!(from_new.is_empty());
    let from_cap = DefaultStringInterner::with_capacity(16);
    assert!(from_cap.is_empty());
    let from_hasher: StringInterner<SymbolU32, RandomState> =
        StringInterner::with_hasher(RandomState::new());
    assert!(from_hasher.is_empty());
    let from_both: StringInterner<SymbolU32, RandomState> =
        StringInterner::with_capacity_and_hasher(16, RandomState::new());
    assert!(from_both.is_empty());
    let from_default = DefaultStringInterner::default();
    assert!(from_default.is_empty());
}

#[test]
fn hasher_choice_does_not_change_behavior() {
    let mut keyed: StringInterner<SymbolU32, RandomState> =
        StringInterner::with_hasher(RandomState::new());
    let a = keyed.get_or_intern("a");
    let b = keyed.get_or_intern("b");
    let a2 = keyed.get_or_intern("a");
    assert!(a == a2);
    assert_eq!(a.to_usize(), 0);
    assert_eq!(b.to_usize(), 1);
    assert_eq!(keyed.resolve(a), Some("a"));
}

#[test]
fn equality_is_content_and_order() {
    let mut left = DefaultStringInterner::new();
    left.get_or_intern("a");
    left.get_or_intern("b");
    let mut same = DefaultStringInterner::with_capacity(32);
    same.get_or_intern("a");
    same.get_or_intern("b");
    assert!(left == same);
    let mut reordered = DefaultStringInterner::new();
    reordered.get_or_intern("b");
    reordered.get_or_intern("a");
    assert!(left != reordered);
    let mut shorter = DefaultStringInterner::new();
    shorter.get_or_intern("a");
    assert!(left != shorter);
}

#[test]
fn from_iter_deduplicates_in_first_seen_order() {
    let items = vec![
        String::from("Elephant"),
        String::from("Tiger"),
        String::from("Horse"),
        String::from("Tiger"),
    ];
    let interner: DefaultStringInterner = StringInterner::from_iter(&items);
    assert_eq!(interner.len(), 3);
    let a = interner.get("Elephant").unwrap();
    let b = interner.get("Tiger").unwrap();
    let c = interner.get("Horse").unwrap();
    assert_eq!(a.to_usize(), 0);
    assert_eq!(b.to_usize(), 1);
    assert_eq!(c.to_usize(), 2);
}

#[test]
fn extend_interns_in_order() {
    let mut interner = DefaultStringInterner::new();
    interner.get_or_intern("zero");
    let items = vec![String::from("one"), String::from("zero"), String::from("two")];
    interner.extend(&items);
    assert_eq!(interner.len(), 3);
    assert_eq!(interner.get("one").unwrap().to_usize(), 1);
    assert_eq!(interner.get("two").unwrap().to_usize(), 2);
}

#[test]
fn iter_yields_pairs_in_symbol_order() {
    let mut interner = DefaultStringInterner::new();
    interner.get_or_intern("Earth");
    interner.get_or_intern("Water");
    interner.get_or_intern("Fire");
    let mut iter = interner.iter();
    assert_eq!(iter.size_hint(), (3, Some(3)));
    let mut seen: Vec<(usize, String)> = Vec::new();
    while let Some((sym, text)) = iter.next() {
        seen.push((sym.to_usize(), text.to_string()));
    }
    assert_eq!(
        seen,
        vec![
            (0, String::from("Earth")),
            (1, String::from("Water")),
            (2, String::from("Fire")),
        ]
    );
    assert_eq!(iter.size_hint(), (0, Some(0)));
}

#[test]
fn iter_is_restartable() {
    let mut interner = DefaultStringInterner::new();
    interner.get_or_intern("a");
    let mut first = interner.iter();
    while first.next().is_some() {}
    let mut fresh = interner.iter();
    assert!(fresh.next().is_some());
    assert!(fresh.next().is_none());
}

#[test]
fn iter_values_yields_strings_in_symbol_order() {
    let mut interner = DefaultStringInterner::new();
    interner.get_or_intern("Earth");
    interner.get_or_intern("Water");
    let mut values = interner.iter_values();
    assert_eq!(values.size_hint(), (2, Some(2)));
    assert_eq!(values.next(), Some("Earth"));
    assert_eq!(values.next(), Some("Water"));
    assert_eq!(values.next(), None);
}

#[test]
fn into_iter_consumes_in_symbol_order() {
    let mut interner = DefaultStringInterner::new();
    interner.get_or_intern("Earth");
    interner.get_or_intern("Water");
    let mut into_iter = interner.into_iter();
    assert_eq!(into_iter.size_hint(), (2, Some(2)));
    let (sym, text) = into_iter.next().unwrap();
    assert_eq!(sym.to_usize(), 0);
    assert_eq!(text, String::from("Earth"));
    let (sym, text) = into_iter.next().unwrap();
    assert_eq!(sym.to_usize(), 1);
    assert_eq!(text, String::from("Water"));
    assert!(into_iter.next().is_none());
}

#[test]
fn resolve_unchecked_matches_resolve() {
    let mut interner = DefaultStringInterner::new();
    let a = interner.get_or_intern("checked");
    assert_eq!(interner.resolve_unchecked(a), interner.resolve(a).unwrap());
}

#[test]
fn narrow_symbol_type_interner_works() {
    let mut interner: StringInterner<SymbolU16, RandomState> = StringInterner::new();
    let a = interner.get_or_intern("narrow");
    assert_eq!(a.to_usize(), 0);
    assert_eq!(interner.resolve(a), Some("narrow"));
}
