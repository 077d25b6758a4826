//! The tagged representation behind the store's type erasure.
//!
//! A stored value is kept as a `Value`: a tag plus the owned payload. The
//! `Storable` trait binds each storable Rust type to its tag, so that a typed
//! view of a slot can be recovered with a checked match instead of a downcast.

use vstd::prelude::*;

verus! {

/// The type-erased representation of one stored value.
pub enum Value {
    /// A signed 32-bit integer.
    Int(i32),
    /// An unsigned 64-bit integer.
    Uint(u64),
    /// A boolean.
    Flag(bool),
    /// An owned string.
    Text(String),
    /// A borrowed string with static lifetime, such as a literal.
    Str(&'static str),
}

/// A type whose values the store can hold.
///
/// Each implementation fixes an injection `erased` of the type into `Value`
/// and a tag check `accepts` that recognises exactly the images of that
/// injection's variant. Together they make the round trip through the store
/// lossless: `restore` applied to `x.erased()` yields `x` again.
pub trait Storable: Sized {
    /// The erased image of `self`.
    spec fn erased(self) -> Value;

    /// Whether `v` carries this type's tag, so that `restore` may be applied.
    spec fn accepts(v: Value) -> bool;

    /// Every erased value carries this type's tag.
    proof fn lemma_erased_accepted(self)
        ensures
            Self::accepts(self.erased()),
    ;

    /// Erasure loses nothing: equal images come from equal values.
    proof fn lemma_erased_injective(self, other: Self)
        requires
            self.erased() == other.erased(),
        ensures
            self == other,
    ;

    /// Erase `self` into its tagged representation.
    fn erase(self) -> (v: Value)
        ensures
            v == self.erased(),
    ;

    /// Recover the owned value out of its tagged representation.
    fn restore(v: Value) -> (r: Self)
        requires
            Self::accepts(v),
        ensures
            r.erased() == v,
    ;

    /// Borrow the value inside its tagged representation.
    fn restore_ref(v: &Value) -> (r: &Self)
        requires
            Self::accepts(*v),
        ensures
            r.erased() == *v,
    ;

    /// Borrow the value inside its tagged representation mutably; writes
    /// through the result land in the representation.
    fn restore_mut(v: &mut Value) -> (r: &mut Self)
        requires
            Self::accepts(*old(v)),
        ensures
            (*r).erased() == *old(v),
            *final(v) == final(r).erased(),
    ;
}

impl Storable for i32 {
    open spec fn erased(self) -> Value {
        Value::Int(self)
    }

    open spec fn accepts(v: Value) -> bool {
        v is Int
    }

    proof fn lemma_erased_accepted(self) {
    }

    proof fn lemma_erased_injective(self, other: Self) {
    }

    fn erase(self) -> (v: Value) {
        Value::Int(self)
    }

    fn restore(v: Value) -> (r: Self) {
        match v {
            Value::Int(x) => x,
            _ => vstd::pervasive::unreached(),
        }
    }

    fn restore_ref(v: &Value) -> (r: &Self) {
        match v {
            Value::Int(x) => x,
            _ => vstd::pervasive::unreached(),
        }
    }

    fn restore_mut(v: &mut Value) -> (r: &mut Self) {
        match v {
            Value::Int(x) => x,
            _ => vstd::pervasive::unreached(),
        }
    }
}

impl Storable for u64 {
    open spec fn erased(self) -> Value {
        Value::Uint(self)
    }

    open spec fn accepts(v: Value) -> bool {
        v is Uint
    }

    proof fn lemma_erased_accepted(self) {
    }

    proof fn lemma_erased_injective(self, other: Self) {
    }

    fn erase(self) -> (v: Value) {
        Value::Uint(self)
    }

    fn restore(v: Value) -> (r: Self) {
        match v {
            Value::Uint(x) => x,
            _ => vstd::pervasive::unreached(),
        }
    }

    fn restore_ref(v: &Value) -> (r: &Self) {
        match v {
            Value::Uint(x) => x,
            _ => vstd::pervasive::unreached(),
        }
    }

    fn restore_mut(v: &mut Value) -> (r: &mut Self) {
        match v {
            Value::Uint(x) => x,
            _ => vstd::pervasive::unreached(),
        }
    }
}

impl Storable for bool {
    open spec fn erased(self) -> Value {
        Value::Flag(self)
    }

    open spec fn accepts(v: Value) -> bool {
        v is Flag
    }

    proof fn lemma_erased_accepted(self) {
    }

    proof fn lemma_erased_injective(self, other: Self) {
    }

    fn erase(self) -> (v: Value) {
        Value::Flag(self)
    }

    fn restore(v: Value) -> (r: Self) {
        match v {
            Value::Flag(x) => x,
            _ => vstd::pervasive::unreached(),
        }
    }

    fn restore_ref(v: &Value) -> (r: &Self) {
        match v {
            Value::Flag(x) => x,
            _ => vstd::pervasive::unreached(),
        }
    }

    fn restore_mut(v: &mut Value) -> (r: &mut Self) {
        match v {
            Value::Flag(x) => x,
            _ => vstd::pervasive::unreached(),
        }
    }
}

impl Storable for String {
    open spec fn erased(self) -> Value {
        Value::Text(self)
    }

    open spec fn accepts(v: Value) -> bool {
        v is Text
    }

    proof fn lemma_erased_accepted(self) {
    }

    proof fn lemma_erased_injective(self, other: Self) {
    }

    fn erase(self) -> (v: Value) {
        Value::Text(self)
    }

    fn restore(v: Value) -> (r: Self) {
        match v {
            Value::Text(x) => x,
            _ => vstd::pervasive::unreached(),
        }
    }

    fn restore_ref(v: &Value) -> (r: &Self) {
        match v {
            Value::Text(x) => x,
            _ => vstd::pervasive::unreached(),
        }
    }

    fn restore_mut(v: &mut Value) -> (r: &mut Self) {
        match v {
            Value::Text(x) => x,
            _ => vstd::pervasive::unreached(),
        }
    }
}

impl Storable for &'static str {
    open spec fn erased(self) -> Value {
        Value::Str(self)
    }

    open spec fn accepts(v: Value) -> bool {
        v is Str
    }

    proof fn lemma_erased_accepted(self) {
    }

    proof fn lemma_erased_injective(self, other: Self) {
    }

    fn erase(self) -> (v: Value) {
        Value::Str(self)
    }

    fn restore(v: Value) -> (r: Self) {
        match v {
            Value::Str(x) => x,
            _ => vstd::pervasive::unreached(),
        }
    }

    fn restore_ref(v: &Value) -> (r: &Self) {
        match v {
            Value::Str(x) => x,
            _ => vstd::pervasive::unreached(),
        }
    }

    fn restore_mut(v: &mut Value) -> (r: &mut Self) {
        match v {
            Value::Str(x) => x,
            _ => vstd::pervasive::unreached(),
        }
    }
}

} // verus!
