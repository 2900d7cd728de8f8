use tarpc::extensions::Extensions;

#[test]
fn test_extensions() {
    #[derive(Clone, Debug, PartialEq)]
    struct MyType(i32);

    let mut extensions = Extensions::new();

    assert_eq!(extensions.insert(5i32), None);
    assert_eq!(extensions.insert(MyType(10)), None);

    assert_eq!(extensions.get(), Some(&5i32));
    assert_eq!(extensions.get_mut(), Some(&mut 5i32));

    assert_eq!(extensions.remove::<i32>(), Some(5i32));
    assert!(extensions.get::<i32>().is_none());

    assert_eq!(extensions.get::<bool>(), None);
    assert_eq!(extensions.get(), Some(&MyType(10)));
}

#[test]
fn extension_insert_replaces_value_of_same_type() {
    let mut ext = Extensions::new();
    assert!(ext.insert(5i32).is_none());
    assert!(ext.insert(4u8).is_none());
    assert_eq!(ext.insert(9i32), Some(5i32));
    assert_eq!(ext.get::<i32>(), Some(&9));
    assert_eq!(ext.get::<u8>(), Some(&4));
}

#[test]
fn extension_get_mut_changes_value() {
    let mut ext = Extensions::new();
    ext.insert(String::from("Hello"));
    ext.get_mut::<String>().unwrap().push_str(" World");
    assert_eq!(ext.get::<String>().unwrap(), "Hello World");
}

#[test]
fn extension_remove_and_clear() {
    let mut ext = Extensions::new();
    assert_eq!(ext.remove::<i32>(), None);
    ext.insert(5i32);
    assert_eq!(ext.remove::<i32>(), Some(5i32));
    assert!(ext.get::<i32>().is_none());
    ext.insert(1u64);
    ext.insert(true);
    ext.clear();
    assert!(ext.get::<u64>().is_none());
    assert!(ext.get::<bool>().is_none());
    ext.clear();
    assert!(Extensions::default().get::<u64>().is_none());
}

#[test]
fn extension_clone_is_independent() {
    let mut a = Extensions::new();
    a.insert(vec![1u8]);
    let mut b = a.clone();
    b.get_mut::<Vec<u8>>().unwrap().push(2);
    assert_eq!(a.get::<Vec<u8>>(), Some(&vec![1u8]));
    assert_eq!(b.get::<Vec<u8>>(), Some(&vec![1u8, 2]));
    assert_eq!(b.remove::<Vec<u8>>(), Some(vec![1u8, 2]));
    assert_eq!(a.remove::<Vec<u8>>(), Some(vec![1u8]));
}

#[test]
fn insert_after_clear_finds_nothing_before() {
    let mut ext = Extensions::new();
    ext.insert(1i32);
    ext.clear();
    assert_eq!(ext.insert(2i32), None);
    assert_eq!(ext.get::<i32>(), Some(&2));
}
