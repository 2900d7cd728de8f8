use tarpc::util::{ArcService, Message};

#[test]
fn message_holds_its_text() {
    let m = Message::from(String::from("oops"));
    assert_eq!(m.0, "oops");
    assert_eq!(Message::from_str_slice("uh oh").0, "uh oh");
}

#[test]
fn arc_service_shares_one_service() {
    let s = ArcService::new(vec![1, 2, 3]);
    let t = s.clone();
    assert_eq!(&*s, &vec![1, 2, 3]);
    assert!(std::ptr::eq(&*s, &*t));
    let shared = t.into_arc();
    assert_eq!(*shared, vec![1, 2, 3]);
    let back = ArcService::from_arc(shared);
    assert!(std::ptr::eq(&*s, &*back));
}
