//! Primitives for a bounded, generational slot map: a wraparound-aware
//! ordering on 16-bit version counters, precondition-checked extraction from
//! `Option` and `Result`, a capacity-exhaustion error, and an uninhabited
//! error type for statically dead error paths.

use vstd::prelude::*;

verus! {

use vstd::arithmetic::div_mod::lemma_fundamental_div_mod_converse_mod;
use vstd::set_lib::lemma_int_range;
use vstd::set_lib::lemma_set_disjoint_lens;
use vstd::set_lib::set_int_range;

/// Forward cyclic distance from `b` to `a` on a wrapping 16-bit counter:
/// `(a - b) mod 2^16`.
pub open spec fn version_distance(a: u16, b: u16) -> int {
    (a - b) % 0x10000
}

/// `a` is an older version than `b` exactly when the forward cyclic distance
/// from `b` to `a` is at least half the counter range.
pub open spec fn spec_is_older_version(a: u16, b: u16) -> bool {
    version_distance(a, b) >= 0x8000
}

/// Returns if a is an older version than b, taking into account wrapping of
/// versions.
///
/// The result is meaningful only while the true generational gap between the
/// two counters stays within half the counter range; past that, wraparound
/// ambiguity is inherent to a fixed-width counter.
pub fn is_older_version(a: u16, b: u16) -> (older: bool)
    ensures
        older == spec_is_older_version(a, b),
{
    let diff = a.wrapping_sub(b);
    diff >= 0x8000
}

/// The forward cyclic distance is the plain difference `a - b`, shifted up by
/// the counter range when it would be negative.
pub proof fn lemma_version_distance(a: u16, b: u16)
    ensures
        version_distance(a, b) == if a >= b {
            a - b
        } else {
            a - b + 0x10000
        },
{
    if a >= b {
        lemma_fundamental_div_mod_converse_mod(a - b, 0x10000, 0, a - b);
    } else {
        lemma_fundamental_div_mod_converse_mod(a - b, 0x10000, -1, a - b + 0x10000);
    }
}

/// Law: no version counter is older than itself.
pub proof fn lemma_is_older_version_irreflexive(a: u16)
    ensures
        !spec_is_older_version(a, a),
{
    lemma_version_distance(a, a);
}

/// Law: for a fixed counter `b`, exactly half of the 2^16 possible counters
/// compare as older than `b`.
pub proof fn lemma_exactly_half_older(b: u16)
    ensures
        Set::new(|a: int| 0 <= a < 0x10000 && spec_is_older_version(a as u16, b)).len()
            == 0x8000,
{
    let older = Set::new(|a: int| 0 <= a < 0x10000 && spec_is_older_version(a as u16, b));
    assert forall|a: u16|
        version_distance(a, b) == (if a >= b {
            a - b
        } else {
            a - b + 0x10000
        }) by {
        lemma_version_distance(a, b);
    }
    if b < 0x8000 {
        let high = set_int_range(b + 0x8000, 0x10000);
        let low = set_int_range(0, b as int);
        assert(older =~= high + low);
        lemma_int_range(b + 0x8000, 0x10000);
        lemma_int_range(0, b as int);
        lemma_set_disjoint_lens(high, low);
    } else {
        let mid = set_int_range(b - 0x8000, b as int);
        assert(older =~= mid);
        lemma_int_range(b - 0x8000, b as int);
    }
}

/// Error raised when a bounded container has run out of room.
#[derive(Clone, Copy, Debug, PartialEq, Eq, Structural)]
pub enum SlotMapError {
    OutOfCapacity,
}

/// Law: `SlotMapError` has exactly one value, so any two capacity errors are
/// equal.
pub proof fn lemma_slot_map_error_is_single(e1: SlotMapError, e2: SlotMapError)
    ensures
        e1 == e2,
{
}

/// Internal stable replacement for `!`: a type with no constructible values,
/// standing for an error that cannot occur. Constructing one would require
/// proving its unsatisfiable type invariant, so none ever exists.
#[derive(Debug)]
pub struct Never {
    no_value: (),
}

impl Never {
    /// Every constructed `Never` would have to satisfy this invariant, so no
    /// code path can produce one.
    #[verifier::type_invariant]
    spec fn vacuous(self) -> bool {
        false
    }
}

/// A `Result` whose error is `Never` always holds a success value; extracting
/// it needs no runtime branch for the error, since that arm is statically
/// dead.
pub fn unwrap_never<T>(r: Result<T, Never>) -> (v: T)
    ensures
        r == Ok::<T, Never>(v),
{
    match r {
        Ok(v) => v,
        Err(n) => {
            proof {
                use_type_invariant(&n);
            }
            vstd::pervasive::unreached()
        },
    }
}

/// The statically dead conversion out of `SlotMapError`: a result already
/// known to hold a value is re-typed so that its error is `Never`. The error
/// arm is proved unreachable, instead of aborting at runtime as an unchecked
/// conversion would.
pub fn erase_capacity_error<T>(r: Result<T, SlotMapError>) -> (out: Result<T, Never>)
    requires
        r is Ok,
    ensures
        out == Ok::<T, Never>(r->Ok_0),
{
    match r {
        Ok(v) => Ok(v),
        Err(_) => vstd::pervasive::unreached(),
    }
}

/// An unwrapper that extracts a container's value with no runtime branch for
/// the absent case; the caller discharges the presence precondition at
/// verification time instead.
pub trait UnwrapUnchecked<T>: Sized {
    /// The container holds a value to extract.
    spec fn holds_value(self) -> bool;

    /// The value the container holds, meaningful when `holds_value` does.
    spec fn held_value(self) -> T;

    /// Extracts the held value. The presence precondition replaces both the
    /// debug-build check and the release-build unchecked trust of an ordinary
    /// unwrapper: a violation is impossible, not undefined behavior.
    ///
    /// The trailing underscore keeps the name clear of the standard library's
    /// `unwrap_unchecked`.
    fn unwrap_unchecked_(self) -> (v: T)
        requires
            self.holds_value(),
        ensures
            v == self.held_value(),
    ;
}

impl<T> UnwrapUnchecked<T> for Option<T> {
    open spec fn holds_value(self) -> bool {
        self is Some
    }

    open spec fn held_value(self) -> T {
        self->Some_0
    }

    fn unwrap_unchecked_(self) -> (v: T) {
        match self {
            Some(v) => v,
            None => vstd::pervasive::unreached(),
        }
    }
}

impl<T, E: core::fmt::Debug> UnwrapUnchecked<T> for Result<T, E> {
    open spec fn holds_value(self) -> bool {
        self is Ok
    }

    open spec fn held_value(self) -> T {
        self->Ok_0
    }

    fn unwrap_unchecked_(self) -> (v: T) {
        match self {
            Ok(v) => v,
            Err(_) => vstd::pervasive::unreached(),
        }
    }
}

} // verus!
