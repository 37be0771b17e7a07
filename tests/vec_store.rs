use tuple_space::error::Error;
use tuple_space::query_types::QueryTypes;
use tuple_space::store::Store;
use tuple_space::store_model::Fraction;
use tuple_space::tuple::Tuple;
use tuple_space::vec_store::{
    VecStore, VecStoreBuilder, DEFAULT_COMPACT_MARGIN_DENOMINATOR, DEFAULT_COMPACT_MARGIN_NUMERATOR,
};

fn integer_tuple(value: i64) -> Tuple {
    Tuple::builder().integer(value).build()
}

fn first_integer(tuple: &Tuple) -> i64 {
    match tuple.get(0) {
        QueryTypes::ExactInteger(i) => *i,
        _ => panic!("not an integer tuple"),
    }
}

#[test]
fn test_store() -> Result<(), Error> {
    let mut tuple_store = VecStore::builder()
        .compact_margin(Fraction { numerator: 85, denominator: 100 })
        .build();

    match tuple_store.write(&Tuple::builder().any_integer().build()) {
        Err(Error::NonConcreteTuple(_)) => (),
        Ok(_) => panic!("Ok not expected"),
    }

    tuple_store.write(&Tuple::builder().integer(5).build())?;
    tuple_store.write(&Tuple::builder().integer(2).build())?;

    assert_eq!(2, tuple_store.size()?);
    assert_eq!(2, tuple_store.tuple_count());

    match tuple_store.read(&Tuple::builder().integer(2).build())? {
        Some(_tuple) => (),
        None => panic!("No tuple found"),
    }

    assert_eq!(2, tuple_store.size()?);
    assert_eq!(2, tuple_store.tuple_count());

    match tuple_store.take(&Tuple::builder().integer(5).build())? {
        Some(_tuple) => (),
        None => panic!("No tuple found"),
    }

    assert_eq!(1, tuple_store.size()?);
    assert_eq!(1, tuple_store.tuple_count());

    match tuple_store.take(&Tuple::builder().any_integer().build())? {
        Some(_tuple) => (),
        None => panic!("No tuple found"),
    }

    assert_eq!(0, tuple_store.size()?);
    assert_eq!(0, tuple_store.tuple_count());

    match tuple_store.take(&Tuple::builder().any_integer().build())? {
        Some(_tuple) => panic!("Tuple found"),
        None => (),
    }
    assert_eq!(0, tuple_store.size()?);
    assert_eq!(0, tuple_store.tuple_count());

    Ok(())
}

#[test]
fn two_integers_scenario() {
    let mut store = VecStore::default();
    store.write(&integer_tuple(1)).unwrap();
    store.write(&integer_tuple(2)).unwrap();
    assert_eq!(2, store.size().unwrap());

    let any_integer = Tuple::builder().any_integer().build();
    let read = store.read(&any_integer).unwrap().expect("a tuple");
    let value = first_integer(&read);
    assert!(value == 1 || value == 2);
    assert_eq!(2, store.size().unwrap());

    let taken = store.take(&Tuple::builder().integer(1).build()).unwrap().expect("a tuple");
    assert_eq!(1, first_integer(&taken));
    assert_eq!(1, store.size().unwrap());

    let taken = store.take(&any_integer).unwrap().expect("a tuple");
    assert_eq!(2, first_integer(&taken));
    assert_eq!(0, store.size().unwrap());

    assert!(store.take(&any_integer).unwrap().is_none());
    assert_eq!(0, store.size().unwrap());
}

#[test]
fn compaction_scenario() {
    let mut store = VecStore::builder()
        .compact_margin(Fraction { numerator: 85, denominator: 100 })
        .build();
    for i in 0..10 {
        store.write(&integer_tuple(i)).unwrap();
    }
    assert_eq!(10, store.slot_count());
    for i in 0..9 {
        assert!(store.take(&integer_tuple(i)).unwrap().is_some());
    }
    assert_eq!(1, store.tuple_count());
    assert_eq!(10, store.slot_count());

    store.write(&integer_tuple(100)).unwrap();
    // the nine tombstones are dropped, then the new tuple is appended
    assert_eq!(2, store.slot_count());
    assert_eq!(2, store.tuple_count());
    assert_eq!(9, first_integer(&store.read(&Tuple::builder().any_integer().build()).unwrap().unwrap()));
}

#[test]
fn no_compaction_at_or_above_margin() {
    let mut store = VecStore::default();
    for i in 0..10 {
        store.write(&integer_tuple(i)).unwrap();
    }
    store.take(&integer_tuple(0)).unwrap();
    // nine live tuples in ten slots: exactly the default margin, not below it
    store.write(&integer_tuple(10)).unwrap();
    assert_eq!(11, store.slot_count());
    store.take(&integer_tuple(1)).unwrap();
    // nine live tuples in eleven slots: below the margin
    store.write(&integer_tuple(11)).unwrap();
    assert_eq!(10, store.slot_count());
    assert_eq!(10, store.tuple_count());
}

#[test]
fn default_margin_is_nine_tenths() {
    let store = VecStore::default();
    let margin = store.compact_margin();
    assert_eq!(margin, Fraction { numerator: 9, denominator: 10 });
    assert_eq!(DEFAULT_COMPACT_MARGIN_NUMERATOR, 9);
    assert_eq!(DEFAULT_COMPACT_MARGIN_DENOMINATOR, 10);
    assert_eq!(VecStoreBuilder::new().build().compact_margin(), margin);
    assert_eq!(0, store.slot_count());
    assert_eq!(0, store.tuple_count());
}

#[test]
fn write_on_empty_store_does_not_compact() {
    let mut store = VecStore::builder()
        .compact_margin(Fraction { numerator: 1, denominator: 1 })
        .build();
    store.write(&integer_tuple(1)).unwrap();
    assert_eq!(1, store.slot_count());
}

#[test]
fn round_trip_returns_written_tuple() {
    let mut store = VecStore::default();
    store.write(&Tuple::builder().string("other").build()).unwrap();
    let before = store.size().unwrap();
    let tuple = Tuple::builder().integer(4).string("four").boolean(true).build();
    store.write(&tuple).unwrap();
    let taken = store
        .take(&Tuple::builder().integer(4).any_string().any().build())
        .unwrap()
        .expect("a tuple");
    assert_eq!(taken, tuple);
    assert_eq!(taken.len(), 3);
    assert!(matches!(taken.get(1), QueryTypes::ExactString(s) if s == "four"));
    assert_eq!(before, store.size().unwrap());
}

#[test]
fn wildcard_write_is_rejected() {
    let mut store = VecStore::default();
    store.write(&integer_tuple(1)).unwrap();
    let wildcard = Tuple::builder().integer(1).any().build();
    match store.write(&wildcard) {
        Err(Error::NonConcreteTuple(t)) => {
            assert_eq!(t.len(), 2);
            assert!(matches!(t.get(1), QueryTypes::Any));
        },
        Ok(_) => panic!("Ok not expected"),
    }
    assert_eq!(1, store.size().unwrap());
    assert_eq!(1, store.slot_count());
}

#[test]
fn repeated_reads_agree() {
    let mut store = VecStore::default();
    store.write(&integer_tuple(3)).unwrap();
    store.write(&integer_tuple(4)).unwrap();
    let query = Tuple::builder().any_integer().build();
    let first = store.read(&query).unwrap().unwrap();
    for _ in 0..5 {
        let again = store.read(&query).unwrap().unwrap();
        assert_eq!(first_integer(&again), first_integer(&first));
        assert_eq!(again, query);
        assert_eq!(2, store.size().unwrap());
    }
}

#[test]
fn only_one_take_wins() {
    let mut store = VecStore::default();
    store.write(&Tuple::builder().integer(1).string("job").build()).unwrap();
    let query = Tuple::builder().any_integer().string("job").build();
    assert!(store.take(&query).unwrap().is_some());
    assert!(store.take(&query).unwrap().is_none());
    assert!(store.read(&query).unwrap().is_none());
}

#[test]
fn size_counts_writes_and_takes() {
    let mut store = VecStore::builder()
        .compact_margin(Fraction { numerator: 1, denominator: 2 })
        .build();
    let mut writes = 0;
    let mut takes = 0;
    for round in 0..6 {
        for i in 0..5 {
            store.write(&integer_tuple(round * 10 + i)).unwrap();
            writes += 1;
        }
        for _ in 0..4 {
            if store.take(&Tuple::builder().any_integer().build()).unwrap().is_some() {
                takes += 1;
            }
        }
        assert!(store.write(&Tuple::builder().any().build()).is_err());
        assert_eq!(writes - takes, store.size().unwrap());
        assert_eq!(writes - takes, store.tuple_count());
    }
}

#[test]
fn compaction_keeps_matches() {
    let mut store = VecStore::default();
    store.write(&integer_tuple(1)).unwrap();
    store.write(&Tuple::builder().string("a").build()).unwrap();
    store.write(&integer_tuple(2)).unwrap();
    store.take(&integer_tuple(1)).unwrap();
    let integer = Tuple::builder().any_integer().build();
    let string = Tuple::builder().any_string().build();
    let before_integer = first_integer(&store.read(&integer).unwrap().unwrap());
    assert!(store.read(&string).unwrap().is_some());
    // two live tuples in three slots: the next write compacts
    store.write(&Tuple::builder().boolean(true).build()).unwrap();
    assert_eq!(3, store.slot_count());
    assert_eq!(before_integer, first_integer(&store.read(&integer).unwrap().unwrap()));
    assert!(store.read(&string).unwrap().is_some());
    assert!(store.read(&integer_tuple(1)).unwrap().is_none());
}

#[test]
fn length_mismatch_never_matches() {
    let mut store = VecStore::default();
    store.write(&Tuple::builder().integer(1).integer(2).build()).unwrap();
    assert!(store.read(&Tuple::builder().any().build()).unwrap().is_none());
    assert!(store.read(&Tuple::builder().any().any().any().build()).unwrap().is_none());
    assert!(store.read(&Tuple::builder().any().any().build()).unwrap().is_some());
}
