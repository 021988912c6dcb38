use extendr_wrappers::externalptr::{finalizer, ExternalPtr, PtrError, Robj, Rtype, Store};

fn tag(name: &str) -> Robj {
    Robj::Str(name.to_string())
}

fn pointer(addr: usize, tag: Robj) -> Robj {
    Robj::ExternalPtr { addr, tag: Box::new(tag), prot: Box::new(Robj::Null) }
}

#[test]
fn value_survives_the_way_through_r() {
    let mut store: Store<i32> = Store::new("i32");
    let extptr = ExternalPtr::new(&mut store, 1);
    assert_eq!(*extptr.deref(&store), 1);
    let robj: Robj = extptr.into();
    let extptr2: ExternalPtr<i32> = ExternalPtr::try_from(&robj, &store).ok().unwrap();
    assert_eq!(*extptr2.deref(&store), 1);
    assert_eq!(*extptr2.addr(&store), 1);
}

#[test]
fn object_can_be_given_away() {
    let mut store: Store<i32> = Store::new("i32");
    let robj: Robj = ExternalPtr::new(&mut store, 4).into();
    let ptr: ExternalPtr<i32> = ExternalPtr::try_from_robj(robj, &store).ok().unwrap();
    assert_eq!(*ptr.addr(&store), 4);
    match ExternalPtr::try_from_robj(Robj::Null, &store) {
        Err(e) => assert_eq!(e, PtrError::ExpectedExternalPtr(Robj::Null)),
        Ok(_) => panic!(),
    }
    match ExternalPtr::try_from_robj(pointer(1, tag("u8")), &store) {
        Err(e) => assert_eq!(
            e,
            PtrError::ExpectedExternalPtrType(pointer(1, tag("u8")), "i32".to_string())
        ),
        Ok(_) => panic!(),
    }
}

#[test]
fn new_pointers_are_apart() {
    let mut store: Store<i32> = Store::new("i32");
    let a = ExternalPtr::new(&mut store, 1);
    let mut b = ExternalPtr::new(&mut store, 1);
    assert!(a != b);
    assert_ne!(a.as_robj(), b.as_robj());
    assert_eq!((*a.addr(&store), *b.addr(&store)), (1, 1));
    *b.addr_mut(&mut store) = 9;
    assert_eq!((*a.addr(&store), *b.addr(&store)), (1, 9));
    assert!(store.room());
}

#[test]
fn new_pointer_is_tagged_and_keeps_nothing() {
    let mut store: Store<i32> = Store::new("i32");
    let extptr = ExternalPtr::new(&mut store, 7);
    assert_eq!(extptr.tag(), tag("i32"));
    assert_eq!(extptr.protected(), Robj::Null);
    assert_eq!(extptr.as_robj().rtype(), Rtype::ExternalPtr);
    assert!(extptr.as_robj().check_external_ptr_type("i32"));
    assert!(!extptr.as_robj().check_external_ptr_type("u32"));
}

#[test]
fn writes_are_seen_through_clones_and_nowhere_else() {
    let mut store: Store<String> = Store::new("String");
    let mut a = ExternalPtr::new(&mut store, "a".to_string());
    let b = ExternalPtr::new(&mut store, "b".to_string());
    let mut copy = a.clone();
    assert!(a == copy);
    assert!(a != b);
    a.addr_mut(&mut store).push('!');
    copy.deref_mut(&mut store).push('?');
    assert_eq!(a.addr(&store), "a!?");
    assert_eq!(copy.addr(&store), "a!?");
    assert_eq!(b.addr(&store), "b");
}

#[test]
fn other_objects_are_no_external_pointers() {
    let store: Store<i32> = Store::new("i32");
    for robj in vec![Robj::Null, tag("i32"), Robj::Object(12)] {
        match ExternalPtr::try_from(&robj, &store) {
            Err(PtrError::ExpectedExternalPtr(r)) => assert_eq!(r, robj),
            _ => panic!(),
        }
    }
}

#[test]
fn pointers_to_another_type_are_told_by_their_tag() {
    let store: Store<i32> = Store::new("i32");
    for robj in vec![pointer(1, tag("f64")), pointer(1, Robj::Null), pointer(1, Robj::Object(3))] {
        match ExternalPtr::try_from(&robj, &store) {
            Err(PtrError::ExpectedExternalPtrType(r, name)) => {
                assert_eq!(r, robj);
                assert_eq!(name, "i32");
            }
            _ => panic!(),
        }
    }
    // The tag decides alone, even where the address leads nowhere.
    let robj = pointer(40, tag("i32"));
    let ptr = ExternalPtr::try_from(&robj, &store).ok().unwrap();
    assert_eq!(*ptr.as_robj(), robj);
    assert!(!store.contains(40));
}

#[test]
fn finalizer_clears_the_pointer_and_hands_the_value_back() {
    let value = std::rc::Rc::new(5);
    let mut store: Store<std::rc::Rc<i32>> = Store::new("Rc");
    let kept = ExternalPtr::new(&mut store, std::rc::Rc::new(6));
    let ptr = ExternalPtr::new(&mut store, value.clone());
    assert_eq!(std::rc::Rc::strong_count(&value), 2);
    let mut robj: Robj = ptr.into();
    let addr = match &robj {
        Robj::ExternalPtr { addr, .. } => *addr,
        _ => panic!(),
    };
    assert!(store.contains(addr));
    let taken = finalizer(&mut robj, &mut store);
    assert_eq!(robj, pointer(0, Robj::Null));
    assert_eq!(*taken, 5);
    assert_eq!(std::rc::Rc::strong_count(&value), 2);
    drop(taken);
    assert_eq!(std::rc::Rc::strong_count(&value), 1);
    assert!(!store.contains(addr));
    assert!(!store.contains(0));
    assert!(store.room());
    assert_eq!(**kept.addr(&store), 6);
}

#[test]
fn addresses_in_use_differ_and_are_used_again() {
    let mut store: Store<usize> = Store::new("usize");
    let pointers: Vec<ExternalPtr<usize>> =
        (0..10).map(|i| ExternalPtr::new(&mut store, i)).collect();
    for (i, p) in pointers.iter().enumerate() {
        assert_eq!(*p.addr(&store), i);
    }
    let mut gone = pointers[3].as_robj().clone();
    assert_eq!(finalizer(&mut gone, &mut store), 3);
    let again = ExternalPtr::new(&mut store, 33);
    assert_eq!(*again.addr(&store), 33);
    assert_eq!(again.as_robj(), pointers[3].as_robj());
    for i in vec![0, 1, 2, 4, 5, 6, 7, 8, 9] {
        assert_eq!(*pointers[i].addr(&store), i);
        assert!(pointers[i] != again);
    }
}

#[test]
fn contained_object_can_be_replaced() {
    let mut store: Store<i32> = Store::new("i32");
    let a = ExternalPtr::new(&mut store, 1);
    let mut b = ExternalPtr::new(&mut store, 2);
    *b.as_robj_mut() = a.as_robj().clone();
    assert_eq!(*b.addr(&store), 1);
}
