use llvm_views::types::{
    Array, Double, Float, Function, Half, Integer, Int, Label, Metadata, Pointer, Struct, Token,
    UInt, Vector, Void, FP128, PPC_FP128, X86_FP80, X86_MMX,
};
use llvm_views::{Kind, RawHandle, Subtype, Type, TypeKind};

const ALL_KINDS: [TypeKind; 17] = [
    TypeKind::Void,
    TypeKind::Half,
    TypeKind::Float,
    TypeKind::Double,
    TypeKind::X86_FP80,
    TypeKind::FP128,
    TypeKind::PPC_FP128,
    TypeKind::Label,
    TypeKind::Integer,
    TypeKind::Function,
    TypeKind::Struct,
    TypeKind::Array,
    TypeKind::Pointer,
    TypeKind::Vector,
    TypeKind::Metadata,
    TypeKind::X86_MMX,
    TypeKind::Token,
];

fn handle(addr: usize) -> RawHandle {
    RawHandle { addr }
}

fn narrows_to(t: &Type, kind: TypeKind) -> Vec<bool> {
    vec![
        t.try_narrow::<Void>(kind).is_some(),
        t.try_narrow::<Half>(kind).is_some(),
        t.try_narrow::<Float>(kind).is_some(),
        t.try_narrow::<Double>(kind).is_some(),
        t.try_narrow::<X86_FP80>(kind).is_some(),
        t.try_narrow::<FP128>(kind).is_some(),
        t.try_narrow::<PPC_FP128>(kind).is_some(),
        t.try_narrow::<Label>(kind).is_some(),
        t.try_narrow::<Integer>(kind).is_some(),
        t.try_narrow::<Function>(kind).is_some(),
        t.try_narrow::<Struct>(kind).is_some(),
        t.try_narrow::<Array>(kind).is_some(),
        t.try_narrow::<Pointer>(kind).is_some(),
        t.try_narrow::<Vector>(kind).is_some(),
        t.try_narrow::<Metadata>(kind).is_some(),
        t.try_narrow::<X86_MMX>(kind).is_some(),
        t.try_narrow::<Token>(kind).is_some(),
    ]
}

#[test]
fn tags_follow_the_binary_interface() {
    for (i, k) in ALL_KINDS.iter().enumerate() {
        assert_eq!(k.tag(), i as u32);
        assert_eq!(TypeKind::from_tag(i as u32), Some(*k));
    }
    assert_eq!(TypeKind::Integer.tag(), 8);
    assert_eq!(TypeKind::Function.tag(), 9);
    assert_eq!(TypeKind::Token.tag(), 16);
}

#[test]
fn unknown_tags_are_refused() {
    assert_eq!(TypeKind::from_tag(17), None);
    assert_eq!(TypeKind::from_tag(20), None);
    assert_eq!(TypeKind::from_tag(u32::MAX), None);
}

#[test]
fn upcast_gives_the_view_of_the_same_object() {
    let h = handle(0x1000);
    let direct = Type::from_raw(h);
    let int = Int::from_raw(h);
    assert!(int.as_type() == direct);
    assert!(int.upcast().as_type() == direct);
    assert_eq!(int.as_raw(), h);
    assert_eq!(int.upcast().as_raw(), h);
    let uint = UInt::from_raw(h);
    assert!(uint.as_type() == direct);
    assert!(Function::from_raw(h).as_type() == direct);
    assert_eq!(format!("{:?}", int.as_type()), format!("{:?}", direct));
}

#[test]
fn downcast_takes_the_arm_of_the_reported_kind() {
    let h = handle(0x2000);
    let t = Type::from_raw(h);
    for k in ALL_KINDS.iter() {
        let d = t.downcast(*k);
        assert_eq!(d.kind(), *k);
        assert!(d.as_type() == t);
        assert_eq!(d.as_type().as_raw(), h);
    }
    assert!(matches!(t.downcast(TypeKind::Integer), Kind::Integer(_)));
    assert!(matches!(t.downcast(TypeKind::Void), Kind::Void(_)));
    assert!(matches!(t.downcast(TypeKind::Token), Kind::Token(_)));
}

#[test]
fn downcast_of_a_decoded_tag_matches_that_tag() {
    let t = Type::from_raw(handle(0x2800));
    for tag in 0..17u32 {
        let kind = TypeKind::from_tag(tag).unwrap();
        assert_eq!(t.downcast(kind).kind().tag(), tag);
    }
}

#[test]
fn narrowing_succeeds_only_for_the_reported_kind() {
    let t = Type::from_raw(handle(0x3000));
    for (i, k) in ALL_KINDS.iter().enumerate() {
        let hits = narrows_to(&t, *k);
        for (j, hit) in hits.iter().enumerate() {
            assert_eq!(*hit, i == j);
        }
    }
    let v = t.try_narrow::<Integer>(TypeKind::Integer).unwrap();
    assert!(v.as_type() == t);
}

#[test]
fn signed_and_unsigned_views_narrow_from_integers() {
    let t = Type::from_raw(handle(0x3800));
    assert!(t.try_narrow::<Int>(TypeKind::Integer).is_some());
    assert!(t.try_narrow::<UInt>(TypeKind::Integer).is_some());
    assert!(t.try_narrow::<Int>(TypeKind::Float).is_none());
    assert!(t.try_narrow::<UInt>(TypeKind::Pointer).is_none());
    let i = t.try_narrow::<Int>(TypeKind::Integer).unwrap();
    assert!(i.upcast().as_type() == t);
}

#[test]
fn equality_compares_identity() {
    let a = Type::from_raw(handle(0x4000));
    let b = Type::from_raw(handle(0x4000));
    let c = Type::from_raw(handle(0x4008));
    assert!(a == b);
    assert!(a != c);
    assert!(Int::from_raw(handle(0x4000)).as_type() == b);
    assert!(Int::from_raw(handle(0x4008)).as_type() != a);
}

#[test]
fn integer_scenario_in_a_context() {
    // A context hands out its one 64-bit integer type twice, at one address,
    // and a function type built from it at another.
    let i64_raw = handle(0x5000);
    let i64_type = Int::from_raw(i64_raw);
    let again = Int::from_raw(i64_raw);
    assert!(i64_type.as_type() == again.as_type());

    let base = i64_type.as_type();
    let reported = TypeKind::from_tag(8).unwrap();
    assert!(matches!(base.downcast(reported), Kind::Integer(_)));
    assert!(base.try_narrow::<Function>(reported).is_none());

    let fn_raw = handle(0x5100);
    let function = Function::from_raw(fn_raw);
    assert_eq!(TypeKind::from_tag(9), Some(TypeKind::Function));
    let fn_base = function.as_type();
    assert_eq!(fn_base.downcast(TypeKind::Function).kind(), TypeKind::Function);
    assert!(fn_base != base);
}

#[test]
fn null_handles() {
    assert!(RawHandle::null().is_null());
    assert_eq!(RawHandle::null().addr, 0);
    assert!(!handle(8).is_null());
}
