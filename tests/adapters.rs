use serde_detach::{
    detach, Deserializer, Detach, EnumAccess, MapAccess, Seed, SeqAccess, VariantAccess, Visitor,
};

#[test]
fn detach_unwraps_value() {
    assert_eq!(detach(Detach(42u32)), 42);
    assert_eq!(detach(Detach(String::from("value"))), "value");
    assert_eq!(detach(Detach(vec![1u8, 2, 3])), vec![1u8, 2, 3]);
}

#[test]
fn deserializer_wraps_and_unwraps() {
    let mut d: Deserializer<'_, Vec<u8>> = Deserializer::new(vec![1, 2]);
    assert_eq!(d.inner(), &vec![1u8, 2]);
    d.inner_mut().push(3);
    assert_eq!(d.inner(), &vec![1u8, 2, 3]);
    assert_eq!(d.into_inner(), vec![1u8, 2, 3]);
}

#[test]
fn visitor_holds_wrapped_value() {
    let v = Visitor("expecting a string");
    assert_eq!(v.0, "expecting a string");
}

#[test]
fn seq_access_wraps_and_unwraps() {
    let mut a: SeqAccess<'_, Vec<i32>> = SeqAccess::new(vec![-1]);
    assert_eq!(a.inner(), &vec![-1]);
    *a.inner_mut() = vec![7, 8];
    assert_eq!(a.into_inner(), vec![7, 8]);
}

#[test]
fn map_access_wraps_and_unwraps() {
    let mut a: MapAccess<'_, (String, u64)> = MapAccess::new((String::from("key"), 1));
    assert_eq!(a.inner().0, "key");
    a.inner_mut().1 += 1;
    assert_eq!(a.into_inner(), (String::from("key"), 2));
}

#[test]
fn enum_access_wraps_and_unwraps() {
    let mut a: EnumAccess<'_, Option<char>> = EnumAccess::new(Some('a'));
    assert_eq!(a.inner(), &Some('a'));
    *a.inner_mut() = None;
    assert_eq!(a.into_inner(), None);
}

#[test]
fn variant_access_wraps_and_unwraps() {
    let mut a: VariantAccess<'_, u8> = VariantAccess::new(0);
    assert_eq!(*a.inner(), 0);
    *a.inner_mut() = 255;
    assert_eq!(a.into_inner(), 255);
}

#[test]
fn seed_wraps_and_unwraps() {
    let s = Seed::new(String::from("seed"));
    assert_eq!(s.into_inner(), "seed");
}
