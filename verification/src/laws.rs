//! The laws the store obeys, proved over the slot model.
//!
//! Each law is stated against the model transitions of [`crate::store`]
//! (`insert_model`, `write_model`, `remove_model`) that the executable
//! operations are specified by, so the laws carry over to any sequence of
//! calls on a [`crate::store::Store`].

use vstd::prelude::*;

use crate::store::Slot;
use crate::store::Token;
use crate::store::fit_index;
use crate::store::insert_model;
use crate::store::lemma_fit_index;
use crate::store::live_model;
use crate::store::minted_stamp;
use crate::store::remove_model;
use crate::store::reusable;
use crate::store::write_model;
use crate::value::Storable;
use crate::value::Value;

verus! {

/// Round trip: a value read back through the token its insertion minted is
/// the value that was inserted. The premise is what the contracts of
/// `insert` and `get` together yield for `get(insert(v))`.
pub proof fn round_trip<V: Storable>(s: Seq<Slot>, v: V, r: V)
    requires
        r.erased() == insert_model(s, v.erased())[fit_index(s)].content->Some_0,
    ensures
        r == v,
{
    lemma_fit_index(s);
    r.lemma_erased_injective(v);
}

/// Mutation visibility: after the occupant of a slot is overwritten in place
/// with `w`, a read of that slot observes `w`. The premise is what the
/// contracts of `get_mut` and `get` together yield once the borrow returned
/// by `get_mut` has been used to leave `w` in the slot.
pub proof fn mutation_visible<V: Storable>(s: Seq<Slot>, i: int, w: V, r: V)
    requires
        0 <= i < s.len(),
        r.erased() == write_model(s, i, w.erased())[i].content->Some_0,
    ensures
        r == w,
{
    r.lemma_erased_injective(w);
}

/// Clone-shared liveness: a token and any clone of it are live together, and
/// removing the value through either one leaves the other dead, so every
/// later access through it is ruled out.
pub proof fn clone_shared_liveness<V>(s: Seq<Slot>, t: Token<V>, u: Token<V>)
    requires
        t.id() == u.id(),
        t.stamp() == u.stamp(),
        live_model(s, u.id(), u.stamp()),
    ensures
        live_model(s, t.id(), t.stamp()),
        !live_model(remove_model(s, u.id()), t.id(), t.stamp()),
{
}

/// No double removal: after a live token's value is removed, neither that
/// token nor any clone of it satisfies the precondition of `remove` again.
pub proof fn no_double_removal<V>(s: Seq<Slot>, t: Token<V>, u: Token<V>)
    requires
        t.id() == u.id(),
        t.stamp() == u.stamp(),
        live_model(s, t.id(), t.stamp()),
    ensures
        !live_model(remove_model(s, t.id()), u.id(), u.stamp()),
{
}

/// Independence after reuse: removing a live token's value and then inserting
/// another leaves the old token dead — even when the insertion reuses the very
/// slot, its fresh stamp never matches the old token's — while the new
/// insertion's slot is live and holds the new value.
pub proof fn independent_after_reuse<V>(s: Seq<Slot>, t: Token<V>, v: Value)
    requires
        live_model(s, t.id(), t.stamp()),
    ensures
        ({
            let freed = remove_model(s, t.id());
            let reused = insert_model(freed, v);
            &&& !live_model(freed, t.id(), t.stamp())
            &&& !live_model(reused, t.id(), t.stamp())
            &&& live_model(reused, fit_index(freed), minted_stamp(freed))
            &&& reused[fit_index(freed)].content == Some(v)
        }),
{
    let freed = remove_model(s, t.id());
    lemma_fit_index(freed);
}

/// Live tokens are undisturbed by insertion: a new value goes to a free slot
/// or to a fresh one, so every live token stays live and its slot — content,
/// stamp, and the type tag inside — is exactly what it was.
pub proof fn insertion_leaves_live_tokens_alone<V>(s: Seq<Slot>, t: Token<V>, v: Value)
    requires
        live_model(s, t.id(), t.stamp()),
    ensures
        live_model(insert_model(s, v), t.id(), t.stamp()),
        insert_model(s, v)[t.id()] == s[t.id()],
{
    lemma_fit_index(s);
}

/// How many slots are free for reuse.
pub open spec fn reusable_count(s: Seq<Slot>) -> int
    decreases s.len(),
{
    if s.len() == 0 {
        0
    } else {
        reusable_count(s.drop_first()) + if reusable(s[0]) {
            1int
        } else {
            0int
        }
    }
}

/// Replacing one slot changes the reusable count by the reusability it takes
/// away and the reusability it brings.
proof fn lemma_reusable_count_update(s: Seq<Slot>, i: int, x: Slot)
    requires
        0 <= i < s.len(),
    ensures
        reusable_count(s.update(i, x)) == reusable_count(s) - (if reusable(s[i]) {
            1int
        } else {
            0int
        }) + (if reusable(x) {
            1int
        } else {
            0int
        }),
    decreases s.len(),
{
    if i == 0 {
        assert(s.update(0, x).drop_first() =~= s.drop_first());
    } else {
        assert(s.update(i, x).drop_first() =~= s.drop_first().update(i - 1, x));
        lemma_reusable_count_update(s.drop_first(), i - 1, x);
    }
}

/// A store with a reusable slot lets the next insertion fit inside.
proof fn lemma_reusable_count_fits(s: Seq<Slot>)
    requires
        reusable_count(s) > 0,
    ensures
        fit_index(s) < s.len(),
    decreases s.len(),
{
    if s.len() > 0 && !reusable(s[0]) {
        lemma_reusable_count_fits(s.drop_first());
    }
}

/// The slots after inserting each value of `vs` in turn.
pub open spec fn insert_all(s: Seq<Slot>, vs: Seq<Value>) -> Seq<Slot>
    decreases vs.len(),
{
    if vs.len() == 0 {
        s
    } else {
        insert_all(insert_model(s, vs[0]), vs.drop_first())
    }
}

/// Slot reuse bounds growth: as long as no more values are inserted than
/// slots are reusable, every insertion fills a freed slot and the slot count
/// does not grow. In particular, after inserting N values into an empty store
/// and removing all N, inserting up to N new values leaves the count at N.
pub proof fn slot_reuse_bound(s: Seq<Slot>, vs: Seq<Value>)
    requires
        vs.len() <= reusable_count(s),
    ensures
        insert_all(s, vs).len() == s.len(),
    decreases vs.len(),
{
    if vs.len() > 0 {
        lemma_reusable_count_fits(s);
        lemma_fit_index(s);
        let filled = Slot { stamp: minted_stamp(s), content: Some(vs[0]) };
        lemma_reusable_count_update(s, fit_index(s), filled);
        slot_reuse_bound(insert_model(s, vs[0]), vs.drop_first());
    }
}

/// Every slot reusable means every slot counts.
proof fn lemma_all_reusable(s: Seq<Slot>)
    requires
        forall|j: int| 0 <= j < s.len() ==> reusable(s[j]),
    ensures
        reusable_count(s) == s.len(),
    decreases s.len(),
{
    if s.len() > 0 {
        assert forall|j: int| 0 <= j < s.drop_first().len() implies reusable(
            s.drop_first()[j],
        ) by {
            assert(s.drop_first()[j] == s[j + 1]);
        }
        lemma_all_reusable(s.drop_first());
    }
}

/// The slot-reuse bound in the shape the store has once all its occupants
/// have been removed: every slot is free, so inserting no more values than
/// there are slots leaves the slot count exactly where it was.
pub proof fn slot_reuse_bound_after_removal(s: Seq<Slot>, vs: Seq<Value>)
    requires
        forall|j: int| 0 <= j < s.len() ==> reusable(s[j]),
        vs.len() <= s.len(),
    ensures
        insert_all(s, vs).len() == s.len(),
{
    lemma_all_reusable(s);
    slot_reuse_bound(s, vs);
}

/// Removing a slot's occupant frees the slot for reuse, as long as its stamp
/// is not exhausted.
pub proof fn removal_frees_slot(s: Seq<Slot>, i: int)
    requires
        0 <= i < s.len(),
        s[i].content is Some,
        s[i].stamp < u64::MAX,
    ensures
        reusable_count(remove_model(s, i)) == reusable_count(s) + 1,
{
    lemma_reusable_count_update(s, i, Slot { stamp: s[i].stamp, content: None });
}

} // verus!
