//! The store itself: a growable sequence of slots addressed through tokens.
//!
//! Each slot pairs its optional content with a stamp that counts how often the
//! position has been occupied. A token remembers the slot index and the stamp
//! minted for its occupant; the token is live exactly while that occupant is
//! still in place. Removing an occupant frees the slot, and the next insertion
//! reuses the lowest free slot under a fresh stamp, so every token minted for
//! the old occupant stays dead forever.
//!
//! The liveness checks inside the access methods are provably unreachable for
//! callers that meet the preconditions; they are kept so that a caller outside
//! the verifier's reach who presents a dead token fails fatally instead of
//! reading a slot's later occupant.

use core::marker::PhantomData;
use vstd::prelude::*;

use crate::value::Storable;
use crate::value::Value;

verus! {

/// One storage position: the stamp of its current or last occupant, and the
/// occupant itself while one is in place.
pub struct Slot {
    /// The stamp minted for the position's current or last occupant: a fresh
    /// position starts at zero, and every reuse mints the successor.
    pub stamp: u64,
    /// The erased occupant, or `None` while the position is free.
    pub content: Option<Value>,
}

/// A store of type-erased values, addressed through typed tokens.
pub struct Store {
    slots: Vec<Slot>,
}

/// A clonable handle to one value held by a [`Store`].
///
/// All clones of a token carry the same slot index and stamp, so removing the
/// value through any one clone leaves every other clone dead. The type
/// parameter records, at compile time alone, the type that was inserted.
pub struct Token<V> {
    id: usize,
    stamp: u64,
    binding: PhantomData<V>,
}

/// Whether a free slot may be occupied again: its stamp must still have a
/// successor to mint, else the position is retired.
pub open spec fn reusable(s: Slot) -> bool {
    s.content is None && s.stamp < u64::MAX
}

/// The slot an insertion fills: the lowest reusable index, or `s.len()` when
/// none is free and a new slot must be appended.
pub open spec fn fit_index(s: Seq<Slot>) -> int
    decreases s.len(),
{
    if s.len() == 0 {
        0
    } else if reusable(s[0]) {
        0
    } else {
        1 + fit_index(s.drop_first())
    }
}

/// The stamp an insertion mints: the successor of the reused slot's stamp, or
/// zero for a freshly appended slot.
pub open spec fn minted_stamp(s: Seq<Slot>) -> u64 {
    if fit_index(s) < s.len() {
        (s[fit_index(s)].stamp + 1) as u64
    } else {
        0
    }
}

/// The slots after inserting the erased value `v`.
pub open spec fn insert_model(s: Seq<Slot>, v: Value) -> Seq<Slot> {
    let filled = Slot { stamp: minted_stamp(s), content: Some(v) };
    if fit_index(s) < s.len() {
        s.update(fit_index(s), filled)
    } else {
        s.push(filled)
    }
}

/// The slots after overwriting the occupant of slot `i` with `v` in place.
pub open spec fn write_model(s: Seq<Slot>, i: int, v: Value) -> Seq<Slot> {
    s.update(i, Slot { stamp: s[i].stamp, content: Some(v) })
}

/// The slots after removing the occupant of slot `i`: the position is freed
/// and keeps its stamp, so no token minted for the occupant is ever live again.
pub open spec fn remove_model(s: Seq<Slot>, i: int) -> Seq<Slot> {
    s.update(i, Slot { stamp: s[i].stamp, content: None })
}

/// Whether a token with the given index and stamp is live in slots `s`: its
/// slot is occupied and the occupant is the one the token was minted for.
pub open spec fn live_model(s: Seq<Slot>, id: int, stamp: u64) -> bool {
    &&& 0 <= id < s.len()
    &&& s[id].content is Some
    &&& s[id].stamp == stamp
}

/// `fit_index` is in bounds, lands on a reusable slot whenever one exists,
/// and skips nothing reusable below it.
pub proof fn lemma_fit_index(s: Seq<Slot>)
    ensures
        0 <= fit_index(s) <= s.len(),
        fit_index(s) < s.len() ==> reusable(s[fit_index(s)]),
        forall|j: int| 0 <= j < fit_index(s) ==> !reusable(s[j]),
    decreases s.len(),
{
    if s.len() > 0 && !reusable(s[0]) {
        lemma_fit_index(s.drop_first());
        assert forall|j: int| 0 <= j < fit_index(s) implies !reusable(s[j]) by {
            if j > 0 {
                assert(s.drop_first()[j - 1] == s[j]);
            }
        }
    }
}

/// A linear scan that found no reusable slot below `i`, and a reusable slot at
/// `i` if `i` is in bounds, has found exactly `fit_index`.
pub proof fn lemma_fit_index_found(s: Seq<Slot>, i: int)
    requires
        0 <= i <= s.len(),
        forall|j: int| 0 <= j < i ==> !reusable(s[j]),
        i < s.len() ==> reusable(s[i]),
    ensures
        fit_index(s) == i,
    decreases s.len(),
{
    if s.len() > 0 && !reusable(s[0]) {
        assert forall|j: int| 0 <= j < i - 1 implies !reusable(s.drop_first()[j]) by {
            assert(s.drop_first()[j] == s[j + 1]);
        }
        lemma_fit_index_found(s.drop_first(), i - 1);
    }
}

impl View for Store {
    type V = Seq<Slot>;

    closed spec fn view(&self) -> Seq<Slot> {
        self.slots@
    }
}

impl<V> Token<V> {
    /// The index of the slot this token refers to.
    pub closed spec fn id(self) -> int {
        self.id as int
    }

    /// The stamp minted when this token's value was inserted.
    pub closed spec fn stamp(self) -> u64 {
        self.stamp
    }

    /// The index of the slot this token refers to, as a runtime value.
    pub fn slot(&self) -> (i: usize)
        ensures
            i as int == self.id(),
    {
        self.id
    }
}

impl<V> Clone for Token<V> {
    /// An equivalent handle: same slot, same stamp, hence the same liveness
    /// in every store, now and after any sequence of operations.
    fn clone(&self) -> (r: Self)
        ensures
            r == *self,
    {
        Token { id: self.id, stamp: self.stamp, binding: PhantomData }
    }
}

impl Store {
    /// Whether `t` is live in this store: the occupant it was minted for is
    /// still in place.
    pub open spec fn live<V>(self, t: Token<V>) -> bool {
        live_model(self@, t.id(), t.stamp())
    }

    /// The erased occupant of slot `i`.
    pub open spec fn value_at(self, i: int) -> Value {
        self@[i].content->Some_0
    }

    /// Whether access through `t` is permitted: `t` is live and its slot's
    /// occupant carries `V`'s tag. Every token handed out by [`Store::insert`]
    /// satisfies this until the value is removed through some clone of it.
    pub open spec fn owns<V: Storable>(self, t: Token<V>) -> bool {
        &&& self.live(t)
        &&& V::accepts(self.value_at(t.id()))
    }

    /// How many slots the store has grown to: the high-water mark of
    /// simultaneously held values, counting freed slots that await reuse.
    pub fn slot_count(&self) -> (n: usize)
        ensures
            n as int == self@.len(),
    {
        self.slots.len()
    }

    /// Create an empty store.
    pub fn new() -> (s: Store)
        ensures
            s@ == Seq::<Slot>::empty(),
    {
        Store { slots: Vec::new() }
    }

    /// Insert a value, filling the lowest free slot or appending a new one,
    /// and mint a token for it.
    ///
    /// The token is bound to the new occupant alone: it owns the slot, and no
    /// other slot changes.
    pub fn insert<V: Storable>(&mut self, value: V) -> (t: Token<V>)
        ensures
            final(self)@ == insert_model(old(self)@, value.erased()),
            t.id() == fit_index(old(self)@),
            t.stamp() == minted_stamp(old(self)@),
            final(self).owns(t),
            final(self).value_at(t.id()) == value.erased(),
    {
        proof {
            value.lemma_erased_accepted();
        }
        let erased = value.erase();
        let mut i: usize = 0;
        while i < self.slots.len()
            invariant
                *self == *old(self),
                i <= self.slots.len(),
                forall|j: int| 0 <= j < i ==> !reusable(self@[j]),
                erased == value.erased(),
                V::accepts(value.erased()),
            decreases self.slots.len() - i,
        {
            let slot = &self.slots[i];
            if slot.content.is_none() && slot.stamp < u64::MAX {
                let stamp: u64 = slot.stamp + 1;
                proof {
                    lemma_fit_index_found(self@, i as int);
                }
                self.slots[i] = Slot { stamp, content: Some(erased) };
                return Token { id: i, stamp, binding: PhantomData };
            }
            i = i + 1;
        }
        proof {
            lemma_fit_index_found(self@, self@.len() as int);
        }
        let stamp: u64 = 0;
        self.slots.push(Slot { stamp, content: Some(erased) });
        return Token { id: self.slots.len() - 1, stamp, binding: PhantomData };
    }

    /// Read the value a live token refers to.
    pub fn get<V: Storable>(&self, token: &Token<V>) -> (r: &V)
        requires
            self.owns(*token),
        ensures
            r.erased() == self.value_at(token.id()),
    {
        let slot = &self.slots[token.id];
        if slot.stamp != token.stamp {
            return vstd::pervasive::unreached();
        }
        match &slot.content {
            Some(v) => V::restore_ref(v),
            None => vstd::pervasive::unreached(),
        }
    }

    /// Mutably borrow the value a live token refers to; writes through the
    /// borrow land in the token's slot, which keeps its stamp, so the token
    /// stays live and later reads observe the written value.
    pub fn get_mut<V: Storable>(&mut self, token: &Token<V>) -> (r: &mut V)
        requires
            old(self).owns(*token),
        ensures
            (*r).erased() == old(self).value_at(token.id()),
            final(self)@ == write_model(old(self)@, token.id(), final(r).erased()),
    {
        let slot = &mut self.slots[token.id];
        if slot.stamp != token.stamp {
            return vstd::pervasive::unreached();
        }
        match &mut slot.content {
            Some(v) => V::restore_mut(v),
            None => vstd::pervasive::unreached(),
        }
    }

    /// Remove the value a live token refers to and hand it back, freeing the
    /// slot. The slot keeps its stamp, so the consumed token and all its
    /// clones are dead from here on.
    pub fn remove<V: Storable>(&mut self, token: Token<V>) -> (v: V)
        requires
            old(self).owns(token),
        ensures
            v.erased() == old(self).value_at(token.id()),
            final(self)@ == remove_model(old(self)@, token.id()),
    {
        let slot = &mut self.slots[token.id];
        if slot.stamp != token.stamp {
            return vstd::pervasive::unreached();
        }
        let taken = slot.content.take();
        match taken {
            Some(v) => V::restore(v),
            None => vstd::pervasive::unreached(),
        }
    }
}

} // verus!
