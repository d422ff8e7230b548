use mownstr::MownStr;
use std::borrow::Cow;
use std::collections::HashSet;

#[test]
fn niche() {
    assert_eq!(
        std::mem::size_of::<MownStr<'static>>(),
        std::mem::size_of::<Option<MownStr<'static>>>(),
    );
}

#[test]
fn empty_string() {
    let empty = String::new();
    let _ = MownStr::from(empty);
}

#[test]
fn build_borrowed_empty() {
    let mown: MownStr = "".into();
    assert!(mown.is_borrowed());
    assert_eq!(mown, "");
}

#[test]
fn build_borrowed() {
    let mown: MownStr = "hello".into();
    assert!(mown.is_borrowed());
}

#[test]
fn build_owned_from_box() {
    let bx: Box<str> = "hello".into();
    let mown: MownStr = bx.into();
    assert!(mown.is_owned());
}

#[test]
fn build_owned_from_string() {
    let mown: MownStr = "hello".to_string().into();
    assert!(mown.is_owned());
}

#[test]
fn build_borrowed_from_cow() {
    let mown: MownStr = Cow::Borrowed("hello").into();
    assert!(mown.is_borrowed());
}

#[test]
fn build_owned_from_cow() {
    let mown: MownStr = Cow::<str>::Owned("hello".to_string()).into();
    assert!(mown.is_owned());
}

#[test]
fn borrowed() {
    let mown1: MownStr = "hello".to_string().into();
    let mown2 = mown1.borrowed();
    assert!(mown2.is_borrowed());
    assert_eq!(mown1, mown2);
}

#[test]
fn deref() {
    let txt = "hello";
    let mown1: MownStr = txt.into();
    assert_eq!(&*mown1, txt);
    assert_eq!(&mown1[..], txt);
    let mown2: MownStr = txt.to_string().into();
    assert_eq!(&*mown2, txt);
    assert_eq!(&mown2[..], txt);
}

#[test]
fn hash() {
    let txt = "hello";
    let mown1: MownStr = txt.into();
    let mown2: MownStr = txt.to_string().into();

    let mut set = HashSet::new();
    set.insert(mown1.clone());
    assert!(set.contains(&mown1));
    assert!(set.contains(&mown2));
    assert!(set.contains(txt));

    let mut set = HashSet::new();
    set.insert(mown2.clone());
    assert!(set.contains(&mown1));
    assert!(set.contains(&mown2));
    assert!(set.contains(txt));
}

#[test]
fn eq() {
    let txt = "hello";
    let mown1: MownStr = txt.into();
    let mown2: MownStr = txt.to_string().into();

    assert_eq!(mown1, txt);
    assert_eq!(mown1, mown1);
    assert_eq!(mown1, mown2);
    assert_eq!(mown2, txt);
    assert_eq!(mown2, mown1);
    assert_eq!(mown2, mown2);
    assert_eq!(txt, mown1);
    assert_eq!(txt, mown2);
}

#[test]
fn order() {
    let txt = "hello";
    let mown1: MownStr = txt[..4].into();
    let mown2: MownStr = txt[..3].to_string().into();

    assert!(mown1 <= txt);
    assert!(mown1 <= mown1);
    assert!(mown1 >= mown2);
    assert!(mown2 <= txt);
    assert!(mown2 <= mown1);
    assert!(mown2 >= mown2);
    assert!(txt >= mown1);
    assert!(txt >= mown2);
}

#[test]
fn display() {
    let mown1: MownStr = "hello".into();
    let mown2: MownStr = "hello".to_string().into();
    assert_eq!(mown1.to_debug_string(), "\"hello\"");
    assert_eq!(mown2.to_debug_string(), "\"hello\"");
    assert_eq!(mown1.to_string(), "hello");
    assert_eq!(mown2.to_string(), "hello");
}

#[test]
fn no_double_free() {
    let bx = {
        let mown = MownStr::from("hello world".to_string());
        assert_eq!(&mown[..4], "hell");
        mown.to::<Box<str>>()
    };
    assert_eq!(&bx[..4], "hell");
}
