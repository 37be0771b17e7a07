use tuple_space::mutex_store::MutexStore;
use tuple_space::store::Store;
use tuple_space::store_model::Fraction;
use tuple_space::tuple::Tuple;
use tuple_space::vec_store::VecStore;

#[test]
fn clones_share_one_store() {
    let mut tuple_space = MutexStore::<VecStore>::default();
    let mut clone = tuple_space.clone();

    tuple_space.write(&Tuple::builder().integer(5).build()).unwrap();
    clone.write(&Tuple::builder().integer(2).build()).unwrap();
    assert_eq!(2, tuple_space.size().unwrap());
    assert_eq!(2, clone.size().unwrap());

    assert!(clone.read(&Tuple::builder().integer(2).build()).unwrap().is_some());
    assert_eq!(2, tuple_space.size().unwrap());

    assert!(tuple_space.take(&Tuple::builder().integer(5).build()).unwrap().is_some());
    assert_eq!(1, clone.size().unwrap());

    let wildcard = Tuple::builder().any_integer().build();
    assert!(clone.take(&wildcard).unwrap().is_some());
    assert_eq!(0, tuple_space.size().unwrap());
    assert!(tuple_space.take(&wildcard).unwrap().is_none());
}

#[test]
fn shared_store_rejects_wildcards() {
    let mut tuple_space = MutexStore::new(
        VecStore::builder().compact_margin(Fraction { numerator: 85, denominator: 100 }).build(),
    );
    assert!(tuple_space.write(&Tuple::builder().any().build()).is_err());
    assert_eq!(0, tuple_space.size().unwrap());
}
