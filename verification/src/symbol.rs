//! Symbol types handed out by the [`StringInterner`](crate::StringInterner).
//!
//! A symbol is a compact, copyable handle for one uniquely interned string.
//! It packs a dense index, shifted up by one, into a non-zero integer of a
//! chosen width, so that an `Option` of a symbol costs no extra space.

use crate::nonzero::NonZeroU16;
use crate::nonzero::NonZeroU32;
use crate::nonzero::NonZeroUsize;
use crate::nonzero::nonzero_u16_get;
use crate::nonzero::nonzero_u16_new;
use crate::nonzero::nonzero_u16_value;
use crate::nonzero::nonzero_u16_with;
use crate::nonzero::nonzero_u32_get;
use crate::nonzero::nonzero_u32_new;
use crate::nonzero::nonzero_u32_value;
use crate::nonzero::nonzero_u32_with;
use crate::nonzero::nonzero_usize_get;
use crate::nonzero::nonzero_usize_new;
use crate::nonzero::nonzero_usize_value;
use crate::nonzero::nonzero_usize_with;
use vstd::prelude::*;

verus! {

/// Types implementing this trait can be used as symbols for string interners.
///
/// A symbol type converts between a dense non-negative index and a compact
/// copyable handle. Conversion succeeds for every index below
/// [`spec_limit`](Symbol::spec_limit), the number of representable indices,
/// and the handle determines its index exactly.
pub trait Symbol: Copy + Eq + Sized {
    /// The number of indices this symbol type can represent:
    /// indices `0 ..= spec_limit() - 1` have a symbol, larger ones do not.
    spec fn spec_limit() -> nat;

    /// The symbol standing for a given representable index.
    spec fn spec_from_index(i: nat) -> Self;

    /// The index this symbol stands for.
    spec fn spec_to_index(self) -> nat;

    /// Creates a symbol from a `usize`.
    ///
    /// Returns `None` if `index` is out of bounds for the symbol.
    fn try_from_usize(index: usize) -> (r: Option<Self>)
        ensures
            r is Some <==> (index as nat) < Self::spec_limit(),
            r matches Some(s) ==> s == Self::spec_from_index(index as nat)
                && s.spec_to_index() == index as nat,
    ;

    /// Returns the `usize` representation of `self`.
    fn to_usize(self) -> (r: usize)
        ensures
            r as nat == self.spec_to_index(),
    ;
}

/// Creates the symbol `S` from the given `usize`.
///
/// The index must be representable in `S`; the interner guarantees this by
/// never growing past the symbol type's limit.
pub(crate) fn expect_valid_symbol<S: Symbol>(index: usize) -> (r: S)
    requires
        (index as nat) < S::spec_limit(),
    ensures
        r == S::spec_from_index(index as nat),
        r.spec_to_index() == index as nat,
{
    S::try_from_usize(index).unwrap()
}

/// The symbol type that is used by default.
pub type DefaultSymbol = SymbolU32;

/// Symbol that is 16-bit in size.
///
/// Is space-optimized for use in `Option`.
#[derive(Copy, Clone, PartialEq, Eq, PartialOrd, Hash)]
pub struct SymbolU16 {
    value: NonZeroU16,
}

impl Symbol for SymbolU16 {
    open spec fn spec_limit() -> nat {
        u16::MAX as nat
    }

    closed spec fn spec_from_index(i: nat) -> Self {
        SymbolU16 { value: nonzero_u16_with((i + 1) as u16) }
    }

    closed spec fn spec_to_index(self) -> nat {
        (nonzero_u16_value(self.value) - 1) as nat
    }

    fn try_from_usize(index: usize) -> (r: Option<Self>) {
        if index < u16::MAX as usize {
            match nonzero_u16_new(index as u16 + 1) {
                Some(value) => Some(SymbolU16 { value }),
                None => None,
            }
        } else {
            None
        }
    }

    fn to_usize(self) -> (r: usize) {
        nonzero_u16_get(self.value) as usize - 1
    }
}

/// Symbol that is 32-bit in size.
///
/// Is space-optimized for use in `Option`.
#[derive(Copy, Clone, PartialEq, Eq, PartialOrd, Hash)]
pub struct SymbolU32 {
    value: NonZeroU32,
}

impl Symbol for SymbolU32 {
    open spec fn spec_limit() -> nat {
        u32::MAX as nat
    }

    closed spec fn spec_from_index(i: nat) -> Self {
        SymbolU32 { value: nonzero_u32_with((i + 1) as u32) }
    }

    closed spec fn spec_to_index(self) -> nat {
        (nonzero_u32_value(self.value) - 1) as nat
    }

    fn try_from_usize(index: usize) -> (r: Option<Self>) {
        if index < u32::MAX as usize {
            match nonzero_u32_new(index as u32 + 1) {
                Some(value) => Some(SymbolU32 { value }),
                None => None,
            }
        } else {
            None
        }
    }

    fn to_usize(self) -> (r: usize) {
        nonzero_u32_get(self.value) as usize - 1
    }
}

/// Symbol that is the same size as a pointer (`usize`).
///
/// Is space-optimized for use in `Option`.
#[derive(Copy, Clone, PartialEq, Eq, PartialOrd, Hash)]
pub struct SymbolUsize {
    value: NonZeroUsize,
}

impl Symbol for SymbolUsize {
    open spec fn spec_limit() -> nat {
        usize::MAX as nat
    }

    closed spec fn spec_from_index(i: nat) -> Self {
        SymbolUsize { value: nonzero_usize_with((i + 1) as usize) }
    }

    closed spec fn spec_to_index(self) -> nat {
        (nonzero_usize_value(self.value) - 1) as nat
    }

    fn try_from_usize(index: usize) -> (r: Option<Self>) {
        if index < usize::MAX {
            match nonzero_usize_new(index + 1) {
                Some(value) => Some(SymbolUsize { value }),
                None => None,
            }
        } else {
            None
        }
    }

    fn to_usize(self) -> (r: usize) {
        nonzero_usize_get(self.value) - 1
    }
}

} // verus!
