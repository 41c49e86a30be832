use twine::Twine;

#[test]
fn size_of() {
    let size_of_usize = core::mem::size_of::<usize>();
    let size_of_twine = core::mem::size_of::<Twine<'static>>();
    let size_of_str = core::mem::size_of::<&str>();
    assert_eq!(size_of_twine, 6 * size_of_usize);
    assert_eq!(size_of_twine, 3 * &size_of_str);
}

#[test]
fn null_is_null() {
    assert_eq!(Twine::null().is_null(), true);
    assert_eq!(Twine::empty().is_null(), false);
    assert_eq!(Twine::from("foo").is_null(), false);
    assert_eq!(Twine::from(("foo", "bar")).is_null(), false);
}

#[test]
fn nullary_predicate() {
    assert_eq!(Twine::null().is_nullary(), true);
    assert_eq!(Twine::empty().is_nullary(), true);
    assert_eq!(Twine::from("foo").is_nullary(), false);
}

#[test]
fn unary_predicate() {
    assert_eq!(Twine::null().is_unary(), false);
    assert_eq!(Twine::empty().is_unary(), false);
    assert_eq!(Twine::from("foo").is_unary(), true);
    assert_eq!(Twine::from(("foo", "bar")).is_unary(), false);
}

#[test]
fn binary_predicate() {
    assert_eq!(Twine::null().is_binary(), false);
    assert_eq!(Twine::empty().is_binary(), false);
    assert_eq!(Twine::from("foo").is_binary(), false);
    assert_eq!(Twine::from(("foo", "bar")).is_binary(), true);
}

#[test]
fn empty_string_normalizes_to_empty() {
    // The tree built from "" is structurally the empty tree, and behaves
    // exactly like the one `empty` builds.
    let a = Twine::from("");
    assert!(a.is_nullary());
    assert!(!a.is_null());
    assert!(a.is_trivially_empty());
    assert_eq!(a.to_string(), "");
    assert_eq!(a.estimated_capacity(), 0);
    let e = Twine::empty();
    assert_eq!(e.is_nullary(), a.is_nullary());
    assert_eq!(e.to_string(), a.to_string());
    assert_eq!(e.estimated_capacity(), a.estimated_capacity());
}

#[test]
fn pair_normalization() {
    assert!(Twine::from(("", "")).is_nullary());
    assert!(!Twine::from(("", "")).is_null());

    let left_only = Twine::from(("foo", ""));
    assert!(left_only.is_unary());
    assert_eq!(left_only.as_single_str(), Some("foo"));

    let right_only = Twine::from(("", "foo"));
    assert!(right_only.is_unary());
    assert_eq!(right_only.as_single_str(), Some("foo"));

    let both = Twine::from(("foo", "bar"));
    assert!(both.is_binary());
    assert_eq!(both.to_string(), "foobar");
}

#[test]
fn single_str_accessor() {
    assert_eq!(Twine::null().as_single_str(), None);
    assert_eq!(Twine::empty().as_single_str(), Some(""));
    assert_eq!(Twine::from("").as_single_str(), Some(""));
    assert_eq!(Twine::from("foo").as_single_str(), Some("foo"));
    assert_eq!(Twine::from(("foo", "bar")).as_single_str(), None);
    assert_eq!(Twine::from(&'x').as_single_str(), None);
    assert_eq!(Twine::from(&42u32).as_single_str(), None);
}

#[test]
fn single_str_predicate() {
    assert_eq!(Twine::null().is_single_str(), false);
    assert_eq!(Twine::empty().is_single_str(), true);
    assert_eq!(Twine::from("").is_single_str(), true);
    assert_eq!(Twine::from("foo").is_single_str(), true);
    assert_eq!(Twine::from(("foo", "bar")).is_single_str(), false);
}

#[test]
fn trivially_empty_predicate() {
    assert_eq!(Twine::null().is_trivially_empty(), true);
    assert_eq!(Twine::empty().is_trivially_empty(), true);
    assert_eq!(Twine::from("").is_trivially_empty(), true);
    assert_eq!(Twine::from("foo").is_trivially_empty(), false);
    assert_eq!(Twine::from(("foo", "bar")).is_trivially_empty(), false);
    assert_eq!(Twine::from(("", "")).is_trivially_empty(), true);
}

#[test]
fn exact_emptiness() {
    assert_eq!(Twine::null().is_empty(), true);
    assert_eq!(Twine::empty().is_empty(), true);
    assert_eq!(Twine::from("").is_empty(), true);
    assert_eq!(Twine::from("foo").is_empty(), false);
    assert_eq!(Twine::from(("foo", "bar")).is_empty(), false);
    assert_eq!(Twine::from(("", "")).is_empty(), true);
    assert_eq!(Twine::from(&'x').is_empty(), false);
    assert_eq!(Twine::from(&0u16).is_empty(), false);
}

#[test]
fn estimated_capacities() {
    assert_eq!(Twine::null().estimated_capacity(), 0);
    assert_eq!(Twine::empty().estimated_capacity(), 0);
    assert_eq!(Twine::from("").estimated_capacity(), 0);
    assert_eq!(Twine::from("foo").estimated_capacity(), 3);
    assert_eq!(Twine::from(("foo", "bar")).estimated_capacity(), 6);
    assert_eq!(Twine::from(("", "")).estimated_capacity(), 0);
    assert!(Twine::from(&42u32).estimated_capacity() >= 1);
    // The numeric estimate stays the cheap constant 1 no matter how many
    // digits the value really renders to.
    assert_eq!(Twine::from(&18446744073709551615u64).estimated_capacity(), 1);
    assert_eq!(Twine::hex_u64(&18446744073709551615u64).estimated_capacity(), 1);
}

#[test]
fn char_capacity_is_utf8_length() {
    assert_eq!(Twine::from(&'x').estimated_capacity(), 1);
    assert_eq!(Twine::from(&'\u{e9}').estimated_capacity(), 2);
    assert_eq!(Twine::from(&'\u{20ac}').estimated_capacity(), 3);
    assert_eq!(Twine::from(&'\u{1d11e}').estimated_capacity(), 4);
}

#[test]
fn nested_capacity_sums() {
    let a = Twine::from("1234");
    let b = Twine::from(&56u32);
    let c = a.concat(&b);
    assert_eq!(c.estimated_capacity(), 5);
    let d = c.concat(&c);
    assert_eq!(d.estimated_capacity(), 10);
}

#[test]
fn from_owned_string() {
    let s = String::from("hello");
    let t = Twine::from(&s);
    assert!(t.is_unary());
    assert_eq!(t.as_single_str(), Some("hello"));
    assert_eq!(t.to_string(), "hello");
}
