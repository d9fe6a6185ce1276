//! Caches strings efficiently, with minimal memory footprint, and associates
//! them with unique symbols. These symbols allow constant time comparisons
//! and look-ups to the underlying interned strings.
//!
//! Each unique string is stored once, in an append-only sequence of owned
//! buffers, and is identified by the dense index at which it was first seen.
//! A symbol packs that index into a niche-optimized handle; resolving a
//! symbol reads the buffer at its index. Entries are never moved or mutated
//! after insertion, so the mapping from symbols to strings only ever grows.
//!
//! Deduplication keys on string content: a candidate is compared against the
//! stored values themselves, so no secondary structure ever references the
//! store's memory, and growing the store cannot invalidate anything.

mod nonzero;
mod symbol;

pub use crate::symbol::DefaultSymbol;
pub use crate::symbol::Symbol;
pub use crate::symbol::SymbolU16;
pub use crate::symbol::SymbolU32;
pub use crate::symbol::SymbolUsize;

use crate::symbol::expect_valid_symbol;
use core::hash::BuildHasher;
use core::marker::PhantomData;
use std::collections::hash_map::RandomState;
use vstd::prelude::*;

verus! {

/// `StringInterner` that uses [`DefaultSymbol`] as its underlying symbol type.
pub type DefaultStringInterner = StringInterner<DefaultSymbol>;

/// True when no string occurs twice in `v`.
pub open spec fn all_distinct(v: Seq<Seq<char>>) -> bool {
    forall|i: int, j: int| 0 <= i < j < v.len() ==> v[i] != v[j]
}

/// The store after interning `t` into `v`: unchanged on a hit,
/// extended by `t` on a miss.
pub open spec fn interned_store(v: Seq<Seq<char>>, t: Seq<char>) -> Seq<Seq<char>> {
    if v.contains(t) {
        v
    } else {
        v.push(t)
    }
}

/// The index of the symbol that interning `t` into `v` yields:
/// the index of the existing entry on a hit, the next fresh index on a miss.
pub open spec fn interned_index(v: Seq<Seq<char>>, t: Seq<char>) -> int {
    if v.contains(t) {
        v.index_of(t)
    } else {
        v.len() as int
    }
}

/// The store after interning each of `items` in order into `v`.
pub open spec fn interned_all(v: Seq<Seq<char>>, items: Seq<Seq<char>>) -> Seq<Seq<char>>
    decreases items.len(),
{
    if items.len() == 0 {
        v
    } else {
        interned_all(interned_store(v, items[0]), items.drop_first())
    }
}

/// Interning a text a second time changes nothing: the store stays as it
/// was, and the symbol index issued is the same as the first time.
pub proof fn lemma_intern_idempotent(v: Seq<Seq<char>>, t: Seq<char>)
    ensures
        interned_store(interned_store(v, t), t) == interned_store(v, t),
        interned_index(interned_store(v, t), t) == interned_index(v, t),
{
    if !v.contains(t) {
        let v1 = v.push(t);
        assert(v1[v.len() as int] == t);
        assert(v1.contains(t));
        let k = v1.index_of(t);
        assert(0 <= k < v1.len() && v1[k] == t);
        if k < v.len() {
            assert(v[k] == t);
            assert(false);
        }
    }
}

/// The symbol index issued for a text points at that very text: interning
/// followed by resolving gives back what was interned.
pub proof fn lemma_resolve_round_trip(v: Seq<Seq<char>>, t: Seq<char>)
    ensures
        0 <= interned_index(v, t) < interned_store(v, t).len(),
        interned_store(v, t)[interned_index(v, t)] == t,
{
    if v.contains(t) {
        let k = v.index_of(t);
        assert(0 <= k < v.len() && v[k] == t);
    }
}

/// Distinct texts receive distinct symbols: the index issued for `t1`, and
/// the index issued for a different `t2` right after, never coincide.
pub proof fn lemma_unique_symbols(v: Seq<Seq<char>>, t1: Seq<char>, t2: Seq<char>)
    requires
        t1 != t2,
    ensures
        interned_index(v, t1) != interned_index(interned_store(v, t1), t2),
{
    let v1 = interned_store(v, t1);
    let v2 = interned_store(v1, t2);
    let i1 = interned_index(v, t1);
    let i2 = interned_index(v1, t2);
    lemma_resolve_round_trip(v, t1);
    lemma_resolve_round_trip(v1, t2);
    assert(v2[i1] == v1[i1]);
    assert(v2[i1] == t1 && v2[i2] == t2);
}

/// Interning can only extend the store: every entry already present keeps
/// its index and its content, however many further texts are interned.
pub proof fn lemma_entries_stable(v: Seq<Seq<char>>, items: Seq<Seq<char>>, i: int)
    requires
        0 <= i < v.len(),
    ensures
        v.len() <= interned_all(v, items).len(),
        interned_all(v, items)[i] == v[i],
    decreases items.len(),
{
    if items.len() > 0 {
        let v1 = interned_store(v, items[0]);
        assert(v1[i] == v[i]);
        lemma_entries_stable(v1, items.drop_first(), i);
    }
}

/// The store grows by at most one entry per interned text.
pub proof fn lemma_interned_all_len(v: Seq<Seq<char>>, items: Seq<Seq<char>>)
    ensures
        v.len() <= interned_all(v, items).len() <= v.len() + items.len(),
    decreases items.len(),
{
    if items.len() > 0 {
        lemma_interned_all_len(interned_store(v, items[0]), items.drop_first());
    }
}

/// Interning a batch and then one more text is interning the longer batch.
proof fn lemma_interned_all_push(v: Seq<Seq<char>>, items: Seq<Seq<char>>, t: Seq<char>)
    ensures
        interned_all(v, items.push(t)) == interned_store(interned_all(v, items), t),
    decreases items.len(),
{
    if items.len() == 0 {
        assert(items.push(t)[0] == t);
        assert(items.push(t).drop_first().len() == 0);
        assert(interned_all(v, items.push(t)) == interned_all(
            interned_store(v, t),
            items.push(t).drop_first(),
        ));
    } else {
        assert(items.push(t)[0] == items[0]);
        assert(items.push(t).drop_first() =~= items.drop_first().push(t));
        lemma_interned_all_push(interned_store(v, items[0]), items.drop_first(), t);
        assert(interned_all(v, items.push(t)) == interned_all(
            interned_store(v, items[0]),
            items.push(t).drop_first(),
        ));
        assert(interned_all(v, items) == interned_all(
            interned_store(v, items[0]),
            items.drop_first(),
        ));
    }
}

/// Caches strings efficiently, with minimal memory footprint, and associates
/// them with unique symbols. These symbols allow constant time comparisons
/// and look-ups to the underlying interned strings.
pub struct StringInterner<S, H = RandomState> {
    values: Vec<String>,
    hasher: H,
    mark: PhantomData<S>,
}

impl<S, H> View for StringInterner<S, H> {
    type V = Seq<Seq<char>>;

    /// The interned strings, in first-seen order; the string for symbol
    /// index `i` is at position `i`.
    closed spec fn view(&self) -> Seq<Seq<char>> {
        self.values.deep_view()
    }
}

impl<S: Symbol, H> StringInterner<S, H> {
    /// Each stored string appears exactly once, and the store has not
    /// outgrown what the symbol type can index.
    pub open spec fn wf(&self) -> bool {
        all_distinct(self@) && self@.len() <= S::spec_limit()
    }
}

impl<S: Symbol> StringInterner<S> {
    /// Creates a new empty `StringInterner`.
    pub fn new() -> (r: StringInterner<S, RandomState>)
        ensures
            r@ == Seq::<Seq<char>>::empty(),
            r.wf(),
    {
        StringInterner { values: Vec::new(), hasher: random_state(), mark: PhantomData }
    }

    /// Creates a new `StringInterner` with the given initial capacity.
    pub fn with_capacity(cap: usize) -> (r: Self)
        ensures
            r@ == Seq::<Seq<char>>::empty(),
            r.wf(),
    {
        StringInterner { values: Vec::with_capacity(cap), hasher: random_state(), mark: PhantomData }
    }

    /// Returns the number of elements the `StringInterner` can hold without
    /// reallocating.
    pub fn capacity(&self) -> (r: usize)
        ensures
            r >= self@.len(),
    {
        string_vec_capacity(&self.values)
    }

    /// Reserves capacity for at least `additional` more elements to be
    /// interned into `self`.
    ///
    /// The collection may reserve more space to avoid frequent allocations.
    /// Reserving changes nothing observable: the interned strings, and every
    /// symbol issued so far, stay exactly as they were.
    pub fn reserve(&mut self, additional: usize)
        ensures
            final(self)@ == old(self)@,
    {
        self.values.reserve(additional);
    }
}

impl<S: Symbol, H: BuildHasher> StringInterner<S, H> {
    /// Creates a new empty `StringInterner` with the given hasher.
    ///
    /// The hashing strategy is a performance knob only: it never changes
    /// which symbols are issued or what they resolve to.
    pub fn with_hasher(hash_builder: H) -> (r: StringInterner<S, H>)
        ensures
            r@ == Seq::<Seq<char>>::empty(),
            r.wf(),
    {
        StringInterner { values: Vec::new(), hasher: hash_builder, mark: PhantomData }
    }

    /// Creates a new empty `StringInterner` with the given initial capacity
    /// and the given hasher.
    pub fn with_capacity_and_hasher(cap: usize, hash_builder: H) -> (r: StringInterner<S, H>)
        ensures
            r@ == Seq::<Seq<char>>::empty(),
            r.wf(),
    {
        StringInterner { values: Vec::with_capacity(cap), hasher: hash_builder, mark: PhantomData }
    }

    /// Returns the position of `val` in the store, scanning in insertion
    /// order, or `None` if `val` was never interned.
    #[verifier::loop_isolation(false)]
    fn find_index(&self, val: &str) -> (r: Option<usize>)
        ensures
            r is Some <==> self@.contains(val@),
            r matches Some(i) ==> 0 <= i < self@.len() && self@[i as int] == val@ && (forall|
                j: int,
            | 0 <= j < i ==> self@[j] != val@),
    {
        let n = self.values.len();
        let mut i: usize = 0;
        while i < n
            invariant
                i <= n,
                forall|j: int| 0 <= j < i ==> self@[j] != val@,
            decreases n - i,
        {
            if str_eq(self.values[i].as_str(), val) {
                proof {
                    assert(self@[i as int] == val@);
                    assert(self@.contains(val@));
                }
                return Some(i);
            }
            i = i + 1;
        }
        proof {
            assert(forall|j: int| 0 <= j < self@.len() ==> self@[j] != val@);
        }
        None
    }

    /// Returns the symbol associated with the given string for this interner
    /// if existent, otherwise returns `None`.
    pub fn get(&self, val: &str) -> (r: Option<S>)
        requires
            self.wf(),
        ensures
            r is Some <==> self@.contains(val@),
            r matches Some(s) ==> s == S::spec_from_index(self@.index_of(val@) as nat)
                && s.spec_to_index() == self@.index_of(val@) && s.spec_to_index() < self@.len()
                && self@[s.spec_to_index() as int] == val@,
    {
        match self.find_index(val) {
            Some(i) => {
                proof {
                    let k = self@.index_of(val@);
                    assert(0 <= k < self@.len() && self@[k] == val@);
                    assert(k == i);
                }
                Some(expect_valid_symbol(i))
            },
            None => None,
        }
    }

    /// Interns the given value.
    ///
    /// Returns a symbol to access it within this interner: the symbol of the
    /// existing entry when `val` was seen before, otherwise the next fresh
    /// symbol, under which `val` is now stored.
    pub fn get_or_intern(&mut self, val: &str) -> (r: S)
        requires
            old(self).wf(),
            old(self)@.contains(val@) || old(self)@.len() < S::spec_limit(),
        ensures
            final(self).wf(),
            final(self)@ == interned_store(old(self)@, val@),
            r == S::spec_from_index(interned_index(old(self)@, val@) as nat),
            r.spec_to_index() == interned_index(old(self)@, val@),
            final(self)@[r.spec_to_index() as int] == val@,
    {
        match self.find_index(val) {
            Some(i) => {
                proof {
                    let k = self@.index_of(val@);
                    assert(0 <= k < self@.len() && self@[k] == val@);
                    assert(k == i);
                }
                expect_valid_symbol(i)
            },
            None => self.intern(val),
        }
    }

    /// Interns the given value without checking for an existing entry.
    ///
    /// Returns the fresh symbol under which `val` is now stored.
    fn intern(&mut self, val: &str) -> (r: S)
        requires
            old(self).wf(),
            !old(self)@.contains(val@),
            old(self)@.len() < S::spec_limit(),
        ensures
            final(self).wf(),
            final(self)@ == old(self)@.push(val@),
            r == S::spec_from_index(old(self)@.len()),
            r.spec_to_index() == old(self)@.len(),
    {
        let new_id: S = self.make_symbol();
        self.values.push(val.to_owned());
        proof {
            assert(self@ =~= old(self)@.push(val@));
        }
        new_id
    }

    /// Creates a new symbol for the current state of the interner.
    fn make_symbol(&self) -> (r: S)
        requires
            self@.len() < S::spec_limit(),
        ensures
            r == S::spec_from_index(self@.len()),
            r.spec_to_index() == self@.len(),
    {
        expect_valid_symbol(self.len())
    }

    /// Returns the string slice associated with the given symbol if available,
    /// otherwise returns `None`.
    ///
    /// `None` is returned exactly when the symbol's index lies outside this
    /// interner's store, as for a symbol issued by a different interner.
    pub fn resolve(&self, symbol: S) -> (r: Option<&str>)
        ensures
            r is Some <==> symbol.spec_to_index() < self@.len(),
            r matches Some(s) ==> s@ == self@[symbol.spec_to_index() as int],
    {
        let i = symbol.to_usize();
        if i < self.values.len() {
            Some(self.values[i].as_str())
        } else {
            None
        }
    }

    /// Returns the string slice associated with the given symbol, without a
    /// run-time bounds check.
    ///
    /// The caller must guarantee that the symbol was issued by this interner
    /// instance; the proof obligation replaces the check that [`resolve`]
    /// performs.
    ///
    /// [`resolve`]: StringInterner::resolve
    pub fn resolve_unchecked(&self, symbol: S) -> (r: &str)
        requires
            symbol.spec_to_index() < self@.len(),
        ensures
            r@ == self@[symbol.spec_to_index() as int],
    {
        self.values[symbol.to_usize()].as_str()
    }

    /// Returns the number of uniquely interned strings within this interner.
    pub fn len(&self) -> (r: usize)
        ensures
            r == self@.len(),
    {
        self.values.len()
    }

    /// Returns true if the string interner holds no elements.
    pub fn is_empty(&self) -> (r: bool)
        ensures
            r == (self@.len() == 0),
    {
        self.len() == 0
    }

    /// Shrinks the capacity of the interner as much as possible.
    ///
    /// Shrinking changes nothing observable: every symbol issued so far still
    /// resolves to the same string.
    pub fn shrink_to_fit(&mut self)
        ensures
            final(self)@ == old(self)@,
    {
        string_vec_shrink_to_fit(&mut self.values);
    }
}

impl<S: Symbol> StringInterner<S> {
    /// Builds an interner from an ordered sequence of text items,
    /// deduplicating as it goes; symbol assignment order equals first-seen
    /// order in the input.
    pub fn from_iter(items: &Vec<String>) -> (r: Self)
        requires
            items.deep_view().len() <= S::spec_limit(),
        ensures
            r.wf(),
            r@ == interned_all(Seq::<Seq<char>>::empty(), items.deep_view()),
    {
        let mut interner: StringInterner<S, RandomState> = Self::with_capacity(items.len());
        interner.extend(items);
        interner
    }
}

impl<S: Symbol, H: BuildHasher> StringInterner<S, H> {
    /// Interns each of `items` in order, deduplicating as it goes,
    /// equivalent to repeated [`get_or_intern`](StringInterner::get_or_intern)
    /// calls.
    #[verifier::loop_isolation(false)]
    pub fn extend(&mut self, items: &Vec<String>)
        requires
            old(self).wf(),
            old(self)@.len() + items.deep_view().len() <= S::spec_limit(),
        ensures
            final(self).wf(),
            final(self)@ == interned_all(old(self)@, items.deep_view()),
    {
        let ghost all = items.deep_view();
        let n = items.len();
        let mut k: usize = 0;
        while k < n
            invariant
                k <= n,
                self.wf(),
                self@ == interned_all(old(self)@, all.take(k as int)),
            decreases n - k,
        {
            proof {
                lemma_interned_all_len(old(self)@, all.take(k as int));
                lemma_interned_all_push(old(self)@, all.take(k as int), all[k as int]);
                assert(all.take(k as int).push(all[k as int]) =~= all.take(k + 1));
            }
            self.get_or_intern(items[k].as_str());
            k = k + 1;
        }
        proof {
            assert(all.take(n as int) =~= all);
        }
    }
}

/// Iterator over the pairs of associated symbols and interned strings for a
/// `StringInterner`, in ascending symbol order.
pub struct Iter<'a, S> {
    values: &'a Vec<String>,
    pos: usize,
    mark: PhantomData<S>,
}

impl<'a, S: Symbol> Iter<'a, S> {
    /// The strings being walked, in symbol order.
    pub closed spec fn spec_values(&self) -> Seq<Seq<char>> {
        self.values.deep_view()
    }

    /// How many pairs have been yielded already.
    pub closed spec fn spec_pos(&self) -> nat {
        self.pos as nat
    }

    /// The position lies within the walk, and every index in the walk has a
    /// representable symbol.
    pub open spec fn wf(&self) -> bool {
        self.spec_pos() <= self.spec_values().len() && self.spec_values().len() <= S::spec_limit()
    }

    /// Creates a new iterator for the given interner over pairs of symbols
    /// and their associated interned string.
    fn new<H>(interner: &'a StringInterner<S, H>) -> (r: Self)
        requires
            interner.wf(),
        ensures
            r.wf(),
            r.spec_values() == interner@,
            r.spec_pos() == 0,
    {
        Iter { values: &interner.values, pos: 0, mark: PhantomData }
    }

    /// Yields the next pair: the symbol whose index is the current position,
    /// and the string stored at that index; `None` once the walk is done.
    pub fn next(&mut self) -> (r: Option<(S, &'a str)>)
        requires
            old(self).wf(),
        ensures
            final(self).wf(),
            final(self).spec_values() == old(self).spec_values(),
            r is Some <==> old(self).spec_pos() < old(self).spec_values().len(),
            r matches Some(p) ==> final(self).spec_pos() == old(self).spec_pos() + 1
                && p.0 == S::spec_from_index(old(self).spec_pos())
                && p.0.spec_to_index() == old(self).spec_pos()
                && p.1@ == old(self).spec_values()[old(self).spec_pos() as int],
            r is None ==> final(self).spec_pos() == old(self).spec_pos(),
    {
        let vals = self.values;
        if self.pos < vals.len() {
            let sym: S = expect_valid_symbol(self.pos);
            let s: &'a str = vals[self.pos].as_str();
            self.pos = self.pos + 1;
            Some((sym, s))
        } else {
            None
        }
    }

    /// The exact number of pairs still to come, as lower and upper bound.
    pub fn size_hint(&self) -> (r: (usize, Option<usize>))
        requires
            self.wf(),
        ensures
            r.0 == self.spec_values().len() - self.spec_pos(),
            r.1 == Some(r.0),
    {
        let rem = self.values.len() - self.pos;
        (rem, Some(rem))
    }
}

/// Iterator over the interned strings of a `StringInterner`, in ascending
/// symbol order.
pub struct Values<'a, S> {
    values: &'a Vec<String>,
    pos: usize,
    mark: PhantomData<S>,
}

impl<'a, S: Symbol> Values<'a, S> {
    /// The strings being walked, in symbol order.
    pub closed spec fn spec_values(&self) -> Seq<Seq<char>> {
        self.values.deep_view()
    }

    /// How many strings have been yielded already.
    pub closed spec fn spec_pos(&self) -> nat {
        self.pos as nat
    }

    /// The position lies within the walk.
    pub open spec fn wf(&self) -> bool {
        self.spec_pos() <= self.spec_values().len()
    }

    /// Creates a new iterator for the given interner over its interned
    /// strings.
    fn new<H>(interner: &'a StringInterner<S, H>) -> (r: Self)
        ensures
            r.wf(),
            r.spec_values() == interner@,
            r.spec_pos() == 0,
    {
        Values { values: &interner.values, pos: 0, mark: PhantomData }
    }

    /// Yields the string stored at the current position; `None` once the
    /// walk is done.
    pub fn next(&mut self) -> (r: Option<&'a str>)
        requires
            old(self).wf(),
        ensures
            final(self).wf(),
            final(self).spec_values() == old(self).spec_values(),
            r is Some <==> old(self).spec_pos() < old(self).spec_values().len(),
            r matches Some(s) ==> final(self).spec_pos() == old(self).spec_pos() + 1
                && s@ == old(self).spec_values()[old(self).spec_pos() as int],
            r is None ==> final(self).spec_pos() == old(self).spec_pos(),
    {
        let vals = self.values;
        if self.pos < vals.len() {
            let s: &'a str = vals[self.pos].as_str();
            self.pos = self.pos + 1;
            Some(s)
        } else {
            None
        }
    }

    /// The exact number of strings still to come, as lower and upper bound.
    pub fn size_hint(&self) -> (r: (usize, Option<usize>))
        requires
            self.wf(),
        ensures
            r.0 == self.spec_values().len() - self.spec_pos(),
            r.1 == Some(r.0),
    {
        let rem = self.values.len() - self.pos;
        (rem, Some(rem))
    }
}

/// Iterator over the pairs of associated symbols and owned strings.
///
/// Consumes the `StringInterner` upon usage.
pub struct IntoIter<S> {
    values: Vec<String>,
    emitted: usize,
    mark: PhantomData<S>,
}

impl<S: Symbol> IntoIter<S> {
    /// The strings not yet yielded, in symbol order.
    pub closed spec fn spec_remaining(&self) -> Seq<Seq<char>> {
        self.values.deep_view()
    }

    /// How many pairs have been yielded already.
    pub closed spec fn spec_emitted(&self) -> nat {
        self.emitted as nat
    }

    /// Every string still to come has a representable symbol index.
    pub open spec fn wf(&self) -> bool {
        self.spec_emitted() + self.spec_remaining().len() <= S::spec_limit()
            && self.spec_emitted() + self.spec_remaining().len() <= usize::MAX
    }

    /// Yields the next pair: the symbol whose index counts the pairs yielded
    /// before it, and the owned string stored under it; `None` once all
    /// strings are handed out.
    pub fn next(&mut self) -> (r: Option<(S, String)>)
        requires
            old(self).wf(),
        ensures
            final(self).wf(),
            r is Some <==> old(self).spec_remaining().len() > 0,
            r matches Some(p) ==> p.0 == S::spec_from_index(old(self).spec_emitted())
                && p.0.spec_to_index() == old(self).spec_emitted()
                && p.1@ == old(self).spec_remaining()[0]
                && final(self).spec_remaining() == old(self).spec_remaining().drop_first()
                && final(self).spec_emitted() == old(self).spec_emitted() + 1,
            r is None ==> final(self).spec_remaining() == old(self).spec_remaining()
                && final(self).spec_emitted() == old(self).spec_emitted(),
    {
        if self.values.len() > 0 {
            let s = self.values.remove(0);
            let sym: S = expect_valid_symbol(self.emitted);
            self.emitted = self.emitted + 1;
            proof {
                assert(self.values.deep_view() =~= old(self).spec_remaining().drop_first());
            }
            Some((sym, s))
        } else {
            None
        }
    }

    /// The exact number of pairs still to come, as lower and upper bound.
    pub fn size_hint(&self) -> (r: (usize, Option<usize>))
        ensures
            r.0 == self.spec_remaining().len(),
            r.1 == Some(r.0),
    {
        let rem = self.values.len();
        (rem, Some(rem))
    }
}

impl<S: Symbol, H: BuildHasher> StringInterner<S, H> {
    /// Returns an iterator over the pairs of symbols and their associated
    /// interned strings, in ascending symbol order.
    pub fn iter<'a>(&'a self) -> (r: Iter<'a, S>)
        requires
            self.wf(),
        ensures
            r.wf(),
            r.spec_values() == self@,
            r.spec_pos() == 0,
    {
        Iter::new(self)
    }

    /// Returns an iterator over the interned strings, in ascending symbol
    /// order.
    pub fn iter_values<'a>(&'a self) -> (r: Values<'a, S>)
        ensures
            r.wf(),
            r.spec_values() == self@,
            r.spec_pos() == 0,
    {
        Values::new(self)
    }

    /// Turns the interner into a consuming iterator over pairs of symbols
    /// and owned strings, in ascending symbol order.
    pub fn into_iter(self) -> (r: IntoIter<S>)
        requires
            self.wf(),
        ensures
            r.wf(),
            r.spec_remaining() == self@,
            r.spec_emitted() == 0,
    {
        let n = self.values.len();
        proof {
            assert(self@.len() == n);
        }
        IntoIter { values: self.values, emitted: 0, mark: PhantomData }
    }
}

impl Default for StringInterner<DefaultSymbol, RandomState> {
    /// Creates an empty interner with the default symbol type and the
    /// default hashing strategy.
    fn default() -> (r: Self)
        ensures
            r@ == Seq::<Seq<char>>::empty(),
            r.wf(),
    {
        StringInterner::new()
    }
}

impl<S: Symbol, H: Clone> Clone for StringInterner<S, H> {
    /// Clones the interner. The clone holds equal strings under equal
    /// symbols, and the two interners are independent afterwards.
    ///
    /// Nothing in the interner references the store's memory, so cloning is
    /// a plain deep copy of the stored strings; there is no cross-reference
    /// to re-derive.
    fn clone(&self) -> (r: Self)
        ensures
            r@ == self@,
    {
        let values = self.values.clone();
        proof {
            assert forall|i: int| 0 <= i < values@.len() implies values@[i]@ == self.values@[i]@ by {
                assert(cloned::<String>(self.values@[i], values@[i]));
            }
            assert(values.deep_view() =~= self.values.deep_view());
            vstd::std_specs::vec::vec_clone_deep_view_proof(self.values, values);
        }
        StringInterner { values, hasher: self.hasher.clone(), mark: PhantomData }
    }
}

impl<S: Symbol, H> PartialEq for StringInterner<S, H> {
    /// Two interners are equal when they hold the same strings in the same
    /// first-seen order; capacity and hashing strategy take no part.
    #[verifier::loop_isolation(false)]
    fn eq(&self, other: &Self) -> (r: bool) {
        let n = self.values.len();
        if n != other.values.len() {
            proof {
                assert(self@.len() != other@.len());
            }
            return false;
        }
        let mut i: usize = 0;
        while i < n
            invariant
                i <= n,
                forall|j: int| 0 <= j < i ==> self@[j] == other@[j],
            decreases n - i,
        {
            if !str_eq(self.values[i].as_str(), other.values[i].as_str()) {
                proof {
                    assert(self@[i as int] != other@[i as int]);
                }
                return false;
            }
            i = i + 1;
        }
        proof {
            assert(self@ =~= other@);
        }
        true
    }
}

impl<S: Symbol, H> vstd::std_specs::cmp::PartialEqSpecImpl for StringInterner<S, H> {
    open spec fn obeys_eq_spec() -> bool {
        true
    }

    open spec fn eq_spec(&self, other: &Self) -> bool {
        self@ == other@
    }
}

impl<S: Symbol, H> Eq for StringInterner<S, H> {

}

/// Relies on `std::collections::hash_map::RandomState::new`: builds the
/// default randomly seeded hashing strategy.
#[verifier::external_body]
fn random_state() -> RandomState {
    RandomState::new()
}

/// Relies on `PartialEq` for `str`: equal exactly when the character
/// sequences are equal.
#[verifier::external_body]
fn str_eq(a: &str, b: &str) -> (r: bool)
    ensures
        r == (a@ == b@),
{
    a == b
}

/// Relies on `Vec::capacity`: the store can hold at least its current
/// length without reallocating.
#[verifier::external_body]
fn string_vec_capacity(v: &Vec<String>) -> (r: usize)
    ensures
        r >= v@.len(),
{
    v.capacity()
}

/// Relies on `Vec::shrink_to_fit`: drops spare capacity, keeping the
/// elements untouched.
#[verifier::external_body]
fn string_vec_shrink_to_fit(v: &mut Vec<String>)
    ensures
        final(v)@ == old(v)@,
{
    v.shrink_to_fit();
}

} // verus!
