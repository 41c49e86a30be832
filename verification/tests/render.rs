use twine::{Sink, StringSink, Twine};

#[test]
fn concat_renders_in_order() {
    // The flattening optimization keeps left-to-right render order.
    let a = Twine::from("a");
    let b = Twine::from("b");
    let ab = a.concat(&b);
    let c = Twine::from("c");
    let abc = ab.concat(&c);
    assert_eq!(abc.to_string(), "abc");
}

#[test]
fn null_absorbs_either_side() {
    let null = Twine::null();
    let x = Twine::from(("foo", "bar"));
    let left = null.concat(&x);
    assert!(left.is_null());
    assert_eq!(left.to_string(), "");
    let right = x.concat(&null);
    assert!(right.is_null());
    assert_eq!(right.to_string(), "");
}

#[test]
fn null_wins_over_empty() {
    let null = Twine::null();
    let empty = Twine::empty();
    assert!(null.concat(&empty).is_null());
    assert!(empty.concat(&null).is_null());
}

#[test]
fn empty_is_identity() {
    let empty = Twine::empty();
    let x = Twine::from(("foo", "bar"));
    assert_eq!(empty.concat(&x).to_string(), x.to_string());
    assert_eq!(x.concat(&empty).to_string(), x.to_string());
    let y = Twine::from(&'y');
    assert_eq!(empty.concat(&y).to_string(), y.to_string());
    assert_eq!(y.concat(&empty).to_string(), y.to_string());
}

#[test]
fn concat_strings_and_numbers() {
    let a = Twine::from("1234");
    let b = Twine::from(&56u32);
    let c = a.concat(&b);
    assert_eq!(c.to_string(), "123456");
    let null = Twine::null();
    let d = a.concat(&null);
    assert_eq!(d.is_null(), true);
    assert_eq!(d.to_string(), "");
}

#[test]
fn new_concat_and_operator_agree() {
    let a = Twine::from("left-");
    let b = Twine::from("right");
    let named = Twine::new_concat(&a, &b);
    let method = a.concat(&b);
    let infix = &a + &b;
    assert_eq!(named.to_string(), "left-right");
    assert_eq!(method.to_string(), "left-right");
    assert_eq!(infix.to_string(), "left-right");
}

#[test]
fn decimal_rendering() {
    assert_eq!(Twine::from(&0u16).to_string(), "0");
    assert_eq!(Twine::from(&56u32).to_string(), "56");
    assert_eq!(Twine::from(&65535u16).to_string(), "65535");
    assert_eq!(Twine::from(&4294967295u32).to_string(), "4294967295");
    assert_eq!(Twine::from(&18446744073709551615u64).to_string(), "18446744073709551615");
    assert_eq!(Twine::from(&7usize).to_string(), "7");
}

#[test]
fn signed_decimal_rendering() {
    assert_eq!(Twine::from(&0i16).to_string(), "0");
    assert_eq!(Twine::from(&-1i32).to_string(), "-1");
    assert_eq!(Twine::from(&-123i64).to_string(), "-123");
    assert_eq!(Twine::from(&i16::MIN).to_string(), "-32768");
    assert_eq!(Twine::from(&i32::MIN).to_string(), "-2147483648");
    assert_eq!(Twine::from(&i64::MIN).to_string(), "-9223372036854775808");
    assert_eq!(Twine::from(&i64::MAX).to_string(), "9223372036854775807");
    assert_eq!(Twine::from(&-42isize).to_string(), "-42");
}

#[test]
fn hex_rendering() {
    // Lower case, no prefix, no leading zero padding.
    assert_eq!(Twine::hex_u64(&0x42).to_string(), "42");
    assert_eq!(Twine::hex_usize(&0x42).to_string(), "42");
    assert_eq!(Twine::hex_u64(&0).to_string(), "0");
    assert_eq!(Twine::hex_u64(&0xdeadbeef).to_string(), "deadbeef");
    assert_eq!(Twine::hex_u64(&u64::MAX).to_string(), "ffffffffffffffff");
    assert_eq!(Twine::hex_usize(&255).to_string(), "ff");
}

#[test]
fn char_rendering() {
    assert_eq!(Twine::from(&'x').to_string(), "x");
    assert_eq!(Twine::from(&'\u{20ac}').to_string(), "\u{20ac}");
    let c = 'q';
    let t = Twine::from(&c);
    let u = Twine::from("uv");
    assert_eq!(t.concat(&u).to_string(), "quv");
}

#[test]
fn write_to_string_sink() {
    let a = Twine::from("1234");
    let b = Twine::from(&56u32);
    let c = a.concat(&b);
    let mut s = StringSink { buf: String::new() };
    let r = c.write_to(&mut s);
    assert!(r.is_ok());
    assert_eq!(s.buf, "123456");
    // Rendering does not consume the tree; a second render appends again.
    let r2 = c.write_to(&mut s);
    assert!(r2.is_ok());
    assert_eq!(s.buf, "123456123456");
}

#[test]
fn preallocating_render() {
    let a = Twine::from("1234");
    let b = Twine::from(&56u32);
    let c = a.concat(&b);
    let s = c.to_string_preallocating();
    assert_eq!(s, "123456");
    assert!(s.capacity() >= c.estimated_capacity());
    assert_eq!(s.capacity(), 8);
}

#[test]
fn round_trip_renderings_agree() {
    // Both renderers must produce identical byte sequences.
    let a = Twine::from("alpha ");
    let c = 'b';
    let b = Twine::from(&c);
    let ab = a.concat(&b);
    let tail = Twine::from(("-", "tail"));
    let all = ab.concat(&tail);
    assert_eq!(all.to_string(), all.to_string_preallocating());
    assert_eq!(all.to_string(), "alpha b-tail");

    let n = Twine::from(&1234u64);
    let h = Twine::hex_u64(&0xabc);
    let nh = n.concat(&h);
    assert_eq!(nh.to_string(), nh.to_string_preallocating());
    assert_eq!(nh.to_string(), "1234abc");
}

#[test]
fn deep_tree_renders_in_order() {
    let parts = ["one", ",two", ",three", ",four", ",five"];
    let t0 = Twine::from(parts[0]);
    let t1 = Twine::from(parts[1]);
    let t2 = Twine::from(parts[2]);
    let t3 = Twine::from(parts[3]);
    let t4 = Twine::from(parts[4]);
    let a = t0.concat(&t1);
    let b = a.concat(&t2);
    let c = b.concat(&t3);
    let d = c.concat(&t4);
    assert_eq!(d.to_string(), "one,two,three,four,five");
    assert!(!d.is_empty());
}

#[test]
fn string_in_bumpalo() {
    let bump = bumpalo::Bump::new();
    let base = bump.alloc_str("bumpalloc-");
    let t = &*bump.alloc(Twine::from(&*base));
    let t1 = t + &*bump.alloc(Twine::hex_u64(&1));
    let s1 = t1.to_string_preallocating();
    assert_eq!(s1, "bumpalloc-1");
    assert!(s1.capacity() >= 11);
}
