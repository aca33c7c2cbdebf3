//! A minimal persistent counter store.
//!
//! An [`Incrementer`] holds one shared signed counter together with a ledger
//! that tracks an individual signed counter for each caller identity. A
//! caller identity is an opaque token supplied by whoever embeds the store;
//! it is only ever used as a map key. Ledger entries are created lazily: an
//! identity that was never written has the logical value 0, and reads never
//! create entries.
//!
//! Overflow policy: all counter arithmetic wraps around in two's complement
//! (the result of adding `b` to `a` is `a + b` reduced into the `i32` range).
//! The same policy applies to the shared counter and to every ledger entry,
//! so no operation can fail.

use vstd::prelude::*;
use std::collections::HashMap;

verus! {

broadcast use vstd::std_specs::hash::group_hash_axioms;

/// An opaque caller identity. The store never interprets it; it only serves
/// as a ledger key.
pub type CallerId = u64;

/// The width of the `i32` range, used to state the wraparound policy.
pub open spec fn i32_range() -> int {
    0x1_0000_0000
}

/// Two's-complement wrapping addition on the `i32` range: the mathematical
/// sum, brought back into `i32::MIN ..= i32::MAX` when it falls outside.
pub open spec fn wrap_add(a: int, b: int) -> int {
    let s = a + b;
    if s > i32::MAX as int {
        s - i32_range()
    } else if s < i32::MIN as int {
        s + i32_range()
    } else {
        s
    }
}

/// A store holding one shared counter and one lazily populated per-caller
/// ledger.
pub struct Incrementer {
    /// The shared counter.
    value: i32,
    /// The per-caller ledger; an absent identity logically holds 0.
    my_value: HashMap<CallerId, i32>,
}

impl Incrementer {
    /// The shared counter, as a mathematical integer.
    pub closed spec fn counter(self) -> int {
        self.value as int
    }

    /// The ledger's stored entries: exactly the identities that have been
    /// written, each with its stored value.
    pub closed spec fn ledger(self) -> Map<CallerId, i32> {
        self.my_value@
    }

    /// The logical ledger value of an identity: its stored entry, or 0 when
    /// it was never written.
    pub open spec fn entry(self, id: CallerId) -> int {
        if self.ledger().dom().contains(id) {
            self.ledger()[id] as int
        } else {
            0
        }
    }

    /// Constructs a store whose shared counter starts at `init_value` and
    /// whose ledger is empty.
    pub fn new(init_value: i32) -> (s: Self)
        ensures
            s.counter() == init_value as int,
            s.ledger() == Map::<CallerId, i32>::empty(),
    {
        Self { value: init_value, my_value: HashMap::new() }
    }

    /// Constructs a store whose shared counter starts at 0 and whose ledger
    /// is empty; it is equivalent to `new(0)`.
    pub fn default() -> (s: Self)
        ensures
            s.counter() == 0,
            s.ledger() == Map::<CallerId, i32>::empty(),
    {
        Self { value: 0, my_value: HashMap::new() }
    }

    /// Returns the shared counter.
    pub fn get(&self) -> (r: i32)
        ensures
            r as int == self.counter(),
    {
        self.value
    }

    /// Toggles the shared counter between its "true-like" and "false-like"
    /// representations by taking the two's-complement bitwise complement,
    /// `value -> -1 - value` (so 0 and -1 toggle into each other). The
    /// complement of an `i32` always fits in an `i32`, so this never wraps.
    /// The ledger is untouched.
    pub fn flip(&mut self)
        ensures
            final(self).counter() == -1 - old(self).counter(),
            final(self).ledger() == old(self).ledger(),
    {
        self.value = -1 - self.value;
    }

    /// Adds `v` to the shared counter, wrapping around on overflow. The
    /// ledger is untouched.
    pub fn increment(&mut self, v: i32)
        ensures
            final(self).counter() == wrap_add(old(self).counter(), v as int),
            final(self).ledger() == old(self).ledger(),
    {
        self.value = self.value.wrapping_add(v);
    }

    /// The ledger value of the identity `of`: the stored entry where one
    /// exists, and 0 otherwise. Shared by the read path (`get_mine`) and the
    /// write path (`incre_mine`), so absence means 0 on both.
    pub fn my_value_or_zero(&self, of: &CallerId) -> (r: i32)
        ensures
            r as int == self.entry(*of),
    {
        match self.my_value.get(of) {
            Some(v) => *v,
            None => 0,
        }
    }

    /// Returns the ledger value of `caller`, 0 if that identity was never
    /// written. A pure read: it takes the store by shared reference and can
    /// create no entry.
    pub fn get_mine(&self, caller: CallerId) -> (r: i32)
        ensures
            r as int == self.entry(caller),
    {
        self.my_value_or_zero(&caller)
    }

    /// Adds `amount` to the ledger value of `caller`, wrapping around on
    /// overflow, creating the entry on the first write for that identity.
    /// Every other identity's value and the shared counter are untouched.
    pub fn incre_mine(&mut self, caller: CallerId, amount: i32)
        ensures
            final(self).counter() == old(self).counter(),
            final(self).entry(caller) == wrap_add(old(self).entry(caller), amount as int),
            forall|other: CallerId| other != caller
                ==> final(self).entry(other) == old(self).entry(other),
            final(self).ledger().dom() == old(self).ledger().dom().insert(caller),
    {
        let my_value = self.my_value_or_zero(&caller);
        self.my_value.insert(caller, my_value.wrapping_add(amount));
    }
}

/// Constructing a store with `new(a)` and then reading the shared counter
/// with `get` yields exactly `a`, for every initial value `a`. The first
/// premise is `new`'s postcondition on the constructed store `s`; the second
/// is `get`'s postcondition on its result `r`.
pub proof fn lemma_new_then_get(a: i32, s: Incrementer, r: i32)
    requires
        s.counter() == a as int,
        r as int == s.counter(),
    ensures
        r == a,
{
}

/// A store built by `default()` is indistinguishable from one built by
/// `new(0)`: the shared counters agree (both 0) and every identity's ledger
/// value agrees. The premises are the two constructors' postconditions on
/// `d` and `n`.
pub proof fn lemma_default_is_new_zero(d: Incrementer, n: Incrementer)
    requires
        d.counter() == 0,
        d.ledger() == Map::<CallerId, i32>::empty(),
        n.counter() == 0,
        n.ledger() == Map::<CallerId, i32>::empty(),
    ensures
        d.counter() == n.counter(),
        d.ledger() == n.ledger(),
        forall|id: CallerId| d.entry(id) == n.entry(id),
{
}

/// Starting from `new(a)`, calling `increment(b)` and then `get` yields the
/// wrapped sum of `a` and `b`. The premises are, in order, `new`'s
/// postcondition on `s0`, `increment`'s postcondition relating `s0` to `s1`,
/// and `get`'s postcondition on its result `r`.
pub proof fn lemma_new_increment_get(a: i32, b: i32, s0: Incrementer, s1: Incrementer, r: i32)
    requires
        s0.counter() == a as int,
        s1.counter() == wrap_add(s0.counter(), b as int),
        s1.ledger() == s0.ledger(),
        r as int == s1.counter(),
    ensures
        r as int == wrap_add(a as int, b as int),
{
}

/// On a freshly constructed store every identity reads 0: the ledger is
/// empty, so `get_mine` returns 0 for any identity, and distinct identities
/// are independent. The premises are a constructor's postcondition on the
/// ledger of `s` and `get_mine`'s postcondition on its result `r` for the
/// identity `id`.
pub proof fn lemma_fresh_store_reads_zero(s: Incrementer, id: CallerId, r: i32)
    requires
        s.ledger() == Map::<CallerId, i32>::empty(),
        r as int == s.entry(id),
    ensures
        r == 0,
{
}

/// Starting from a store where identity `x` holds 0, `incre_mine(x, a)` then
/// `incre_mine(x, b)` leaves `x` at the wrapped sum of `a` and `b`, which a
/// following `get_mine(x)` returns, while every other identity's value is
/// exactly what it was at the start. The premises are `incre_mine`'s
/// postconditions relating `s0` to `s1` and `s1` to `s2`, and `get_mine`'s
/// postcondition on its result `r`.
pub proof fn lemma_incre_mine_accumulates(
    a: i32,
    b: i32,
    x: CallerId,
    s0: Incrementer,
    s1: Incrementer,
    s2: Incrementer,
    r: i32,
)
    requires
        s0.entry(x) == 0,
        s1.entry(x) == wrap_add(s0.entry(x), a as int),
        forall|other: CallerId| other != x ==> s1.entry(other) == s0.entry(other),
        s2.entry(x) == wrap_add(s1.entry(x), b as int),
        forall|other: CallerId| other != x ==> s2.entry(other) == s1.entry(other),
        r as int == s2.entry(x),
    ensures
        r as int == wrap_add(a as int, b as int),
        forall|other: CallerId| other != x ==> s2.entry(other) == s0.entry(other),
{
}

/// Reading a ledger value is pure: `get_mine` takes the store by shared
/// reference, so it cannot change any entry nor the default-to-zero rule,
/// and any number of consecutive reads of the same identity on the same
/// store return the same value. The premises are `get_mine`'s postcondition
/// on the results `r1` and `r2` of two such reads.
pub proof fn lemma_get_mine_is_stable(s: Incrementer, id: CallerId, r1: i32, r2: i32)
    requires
        r1 as int == s.entry(id),
        r2 as int == s.entry(id),
    ensures
        r1 == r2,
{
}

} // verus!
