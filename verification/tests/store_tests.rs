use token_store::Storable;
use token_store::Store;
use token_store::Value;

#[test]
fn insert_and_retrieve() {
    let mut store = Store::new();
    let token1 = store.insert(42);
    let token2 = store.insert("I like trains".to_owned());
    assert_eq!(*store.get(&token1), 42);
    assert_eq!(store.get(&token2), "I like trains");
}

#[test]
fn mutate() {
    let mut store = Store::new();
    let token = store.insert(42);
    {
        let v = store.get_mut(&token);
        *v += 5;
    }
    assert_eq!(*store.get(&token), 47);
}

#[test]
#[should_panic]
fn no_access_removed() {
    let mut store = Store::new();
    let token = store.insert(42);
    let token2 = token.clone();
    store.remove(token2);
    let _v = store.get(&token);
}

#[test]
fn place_reuse() {
    let mut store = Store::new();
    let token = store.insert(42);
    store.remove(token);
    let token = store.insert("I like trains");
    assert_eq!(store.slot_count(), 1);
    assert_eq!(*store.get(&token), "I like trains");
}

#[test]
fn round_trip_every_storable_type() {
    let mut store = Store::new();
    let ti = store.insert(-7i32);
    let tu = store.insert(7u64);
    let tb = store.insert(true);
    let ts = store.insert(String::from("owned"));
    let tl = store.insert("borrowed");
    assert_eq!(*store.get(&ti), -7);
    assert_eq!(*store.get(&tu), 7);
    assert!(*store.get(&tb));
    assert_eq!(store.get(&ts), "owned");
    assert_eq!(*store.get(&tl), "borrowed");
    assert_eq!(store.remove(ti), -7);
    assert_eq!(store.remove(tu), 7);
    assert!(store.remove(tb));
    assert_eq!(store.remove(ts), "owned");
    assert_eq!(store.remove(tl), "borrowed");
}

#[test]
fn scenario_mixed_types_and_reuse() {
    let mut store = Store::new();
    let token1 = store.insert(42);
    let token2 = store.insert("x");
    assert_eq!(*store.get(&token1), 42);
    assert_eq!(*store.get(&token2), "x");
    {
        let v = store.get_mut(&token1);
        *v += 5;
    }
    assert_eq!(*store.get(&token1), 47);
    let former = token1.slot();
    assert_eq!(store.remove(token1), 47);
    let token3 = store.insert(String::from("replacement"));
    assert_eq!(token3.slot(), former);
    assert_eq!(store.slot_count(), 2);
    assert_eq!(store.get(&token3), "replacement");
}

#[test]
fn mutation_seen_through_a_clone() {
    let mut store = Store::new();
    let token = store.insert(String::from("ab"));
    let twin = token.clone();
    store.get_mut(&token).push('c');
    assert_eq!(store.get(&twin), "abc");
    assert_eq!(store.remove(twin), "abc");
}

#[test]
fn first_fit_picks_the_lowest_free_slot() {
    let mut store = Store::new();
    let ta = store.insert(1u64);
    let tb = store.insert(2u64);
    let tc = store.insert(3u64);
    assert_eq!((ta.slot(), tb.slot(), tc.slot()), (0, 1, 2));
    store.remove(tb);
    store.remove(ta);
    let td = store.insert(4u64);
    assert_eq!(td.slot(), 0);
    let te = store.insert(5u64);
    assert_eq!(te.slot(), 1);
    assert_eq!(store.slot_count(), 3);
    assert_eq!(*store.get(&tc), 3);
    assert_eq!(*store.get(&td), 4);
    assert_eq!(*store.get(&te), 5);
}

#[test]
fn slot_count_is_the_high_water_mark() {
    let mut store = Store::new();
    assert_eq!(store.slot_count(), 0);
    let mut tokens = Vec::new();
    for i in 0..4u64 {
        tokens.push(store.insert(i));
    }
    assert_eq!(store.slot_count(), 4);
    for token in tokens {
        store.remove(token);
    }
    assert_eq!(store.slot_count(), 4);
    let t1 = store.insert(10u64);
    let t2 = store.insert(11u64);
    assert_eq!(store.slot_count(), 4);
    assert_eq!(*store.get(&t1), 10);
    assert_eq!(*store.get(&t2), 11);
}

#[test]
fn erasure_round_trips_through_the_tagged_representation() {
    let erased = Storable::erase(-3i32);
    assert!(matches!(erased, Value::Int(-3)));
    assert_eq!(<i32 as Storable>::restore(erased), -3);
    let erased = Storable::erase(String::from("tag"));
    assert!(matches!(erased, Value::Text(ref s) if s == "tag"));
    assert_eq!(<String as Storable>::restore(erased), "tag");
    let erased = Storable::erase(false);
    assert!(matches!(erased, Value::Flag(false)));
    assert!(!<bool as Storable>::restore(erased));
}

#[test]
fn reused_slot_holds_an_independent_value() {
    let mut store = Store::new();
    let ta = store.insert(String::from("old"));
    let slot = ta.slot();
    assert_eq!(store.remove(ta), "old");
    let tb = store.insert(String::from("new"));
    assert_eq!(tb.slot(), slot);
    assert_eq!(store.get(&tb), "new");
    assert_eq!(store.remove(tb), "new");
}
