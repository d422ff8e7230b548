use mownstr::MownStr;
use std::borrow::Cow;
use std::cmp::Ordering;
use std::rc::Rc;

#[test]
fn scenario_hello() {
    let mown1 = MownStr::from("hello");
    assert!(mown1.is_borrowed());
    assert_eq!(mown1.len(), 5);
    assert_eq!(mown1.real_len(), 5);
    assert_eq!(mown1.to_string(), "hello");
    assert_eq!(mown1.to_debug_string(), "\"hello\"");

    let mown2 = MownStr::from("hello".to_string());
    assert!(mown2.is_owned());
    assert_eq!(mown2.len(), 5);
    assert_eq!(mown2.to_string(), "hello");
    assert_eq!(mown2.to_debug_string(), "\"hello\"");

    assert_eq!(mown1, mown2);
    assert_eq!(mown1, "hello");
    assert_eq!(mown2, "hello");
}

#[test]
fn from_str_alias() {
    let mown = MownStr::from_str("hello");
    assert!(mown.is_borrowed());
    assert_eq!(mown, "hello");
}

#[test]
fn round_trip_bytes() {
    let src = "maybe owned";
    let borrowed = MownStr::from(src);
    assert_eq!(borrowed.as_str(), src);
    let owned = MownStr::from(src.to_string());
    assert_eq!(owned.as_str(), src);
}

#[test]
fn empty_owned() {
    let mown = MownStr::from(String::new());
    assert!(mown.is_owned());
    assert_eq!(mown.real_len(), 0);
    assert_eq!(mown.to_string(), "");
}

#[test]
fn clone_borrowed_aliases_same_bytes() {
    let mown = MownStr::from("hello");
    let copy = mown.clone();
    assert!(copy.is_borrowed());
    assert_eq!(copy, mown);
    assert_eq!(mown.as_str().as_ptr(), copy.as_str().as_ptr());
}

#[test]
fn clone_owned_is_independent() {
    let mown = MownStr::from("hello".to_string());
    let copy = mown.clone();
    assert!(copy.is_owned());
    assert_eq!(copy, mown);
    assert_ne!(mown.as_str().as_ptr(), copy.as_str().as_ptr());
}

#[test]
fn downgrade_shares_bytes_and_spares_the_buffer() {
    let owner = MownStr::from("hello".to_string());
    {
        let view = owner.borrowed();
        assert!(view.is_borrowed());
        assert_eq!(view, owner);
        assert_eq!(view.as_str().as_ptr(), owner.as_str().as_ptr());
    }
    assert_eq!(owner, "hello");
}

#[test]
fn order_exact_values() {
    let a = MownStr::from("abc");
    let b = MownStr::from("abd".to_string());
    assert_eq!(a.partial_cmp(&b), Some(Ordering::Less));
    assert_eq!(b.partial_cmp(&a), Some(Ordering::Greater));
    assert_eq!(a.partial_cmp(&a), Some(Ordering::Equal));
    assert!(a < b);
    assert!(MownStr::from("ab") < MownStr::from("abc"));
    assert!(a < "abd");
    assert!("abd" > a);
}

#[test]
fn debug_form_escapes() {
    let tricky = "a\"b\\c\n";
    let mown = MownStr::from(tricky);
    assert_eq!(mown.to_debug_string(), "\"a\\\"b\\\\c\\n\"");
}

#[test]
fn to_reference_counted() {
    let rc = MownStr::from("hello world").to::<Rc<str>>();
    assert_eq!(&*rc, "hello world");
    let rc2 = MownStr::from("hello world".to_string()).to::<Rc<str>>();
    assert_eq!(&*rc2, "hello world");
}

#[test]
fn convert_out_of_the_handle() {
    let s = String::from(MownStr::from("hello"));
    assert_eq!(s, "hello");
    let bx = Box::<str>::from(MownStr::from("hello".to_string()));
    assert_eq!(&*bx, "hello");
    let cow1 = Cow::from(MownStr::from("hello"));
    assert!(matches!(cow1, Cow::Borrowed(_)));
    assert_eq!(cow1, "hello");
    let cow2 = Cow::from(MownStr::from("hello".to_string()));
    assert!(matches!(cow2, Cow::Owned(_)));
    assert_eq!(cow2, "hello");
}

fn shared_across_threads<T: Send + Sync>(value: T) -> T {
    value
}

#[test]
fn read_only_sharing() {
    let owned = shared_across_threads(MownStr::from("hello".to_string()));
    assert_eq!(owned, "hello");
    let borrowed = shared_across_threads(MownStr::from("hello"));
    assert_eq!(borrowed, "hello");
}

#[test]
fn box_taken_over_keeps_characters() {
    let bx: Box<str> = "hello".into();
    let mown = MownStr::from(bx);
    assert!(mown.is_owned());
    assert_eq!(mown, "hello");
}
