//! The closed set of kinds in the foreign type hierarchy, and their tags.
use vstd::prelude::*;

verus! {

/// The kind of a foreign type object, as the foreign runtime reports it.
///
/// Every live type object has exactly one kind, and it never changes.
#[allow(non_camel_case_types)]
#[derive(Clone, Copy, Debug, PartialEq, Eq, Structural)]
pub enum TypeKind {
    Void,
    Half,
    Float,
    Double,
    X86_FP80,
    FP128,
    PPC_FP128,
    Label,
    Integer,
    Function,
    Struct,
    Array,
    Pointer,
    Vector,
    Metadata,
    X86_MMX,
    Token,
}

/// The number of kinds, and so one more than the largest tag.
pub const KIND_COUNT: u32 = 17;

impl TypeKind {
    /// The integer tag of this kind in the foreign library's binary interface.
    pub open spec fn tag_spec(self) -> u32 {
        match self {
            TypeKind::Void => 0,
            TypeKind::Half => 1,
            TypeKind::Float => 2,
            TypeKind::Double => 3,
            TypeKind::X86_FP80 => 4,
            TypeKind::FP128 => 5,
            TypeKind::PPC_FP128 => 6,
            TypeKind::Label => 7,
            TypeKind::Integer => 8,
            TypeKind::Function => 9,
            TypeKind::Struct => 10,
            TypeKind::Array => 11,
            TypeKind::Pointer => 12,
            TypeKind::Vector => 13,
            TypeKind::Metadata => 14,
            TypeKind::X86_MMX => 15,
            TypeKind::Token => 16,
        }
    }

    /// The kind whose tag is `tag`, if `tag` belongs to the closed set.
    pub open spec fn from_tag_spec(tag: u32) -> Option<TypeKind> {
        if exists|k: TypeKind| k.tag_spec() == tag {
            Some(choose|k: TypeKind| k.tag_spec() == tag)
        } else {
            None
        }
    }

    /// The integer tag of this kind in the foreign library's binary interface.
    pub fn tag(self) -> (r: u32)
        ensures
            r == self.tag_spec(),
    {
        match self {
            TypeKind::Void => 0,
            TypeKind::Half => 1,
            TypeKind::Float => 2,
            TypeKind::Double => 3,
            TypeKind::X86_FP80 => 4,
            TypeKind::FP128 => 5,
            TypeKind::PPC_FP128 => 6,
            TypeKind::Label => 7,
            TypeKind::Integer => 8,
            TypeKind::Function => 9,
            TypeKind::Struct => 10,
            TypeKind::Array => 11,
            TypeKind::Pointer => 12,
            TypeKind::Vector => 13,
            TypeKind::Metadata => 14,
            TypeKind::X86_MMX => 15,
            TypeKind::Token => 16,
        }
    }

    /// Decodes a tag that the foreign runtime reported.
    ///
    /// `None` means that the tag lies outside the closed set: the foreign
    /// library does not match the interface that this crate was written for.
    pub fn from_tag(tag: u32) -> (r: Option<TypeKind>)
        ensures
            r == TypeKind::from_tag_spec(tag),
            r is Some <==> tag < KIND_COUNT,
            r is Some ==> r->Some_0.tag_spec() == tag,
    {
        let r = match tag {
            0 => Some(TypeKind::Void),
            1 => Some(TypeKind::Half),
            2 => Some(TypeKind::Float),
            3 => Some(TypeKind::Double),
            4 => Some(TypeKind::X86_FP80),
            5 => Some(TypeKind::FP128),
            6 => Some(TypeKind::PPC_FP128),
            7 => Some(TypeKind::Label),
            8 => Some(TypeKind::Integer),
            9 => Some(TypeKind::Function),
            10 => Some(TypeKind::Struct),
            11 => Some(TypeKind::Array),
            12 => Some(TypeKind::Pointer),
            13 => Some(TypeKind::Vector),
            14 => Some(TypeKind::Metadata),
            15 => Some(TypeKind::X86_MMX),
            16 => Some(TypeKind::Token),
            _ => None,
        };
        proof {
            lemma_tag_bounded_and_unique();
            if let Some(k) = r {
                assert(k.tag_spec() == tag);
            } else {
                assert(!exists|k: TypeKind| k.tag_spec() == tag);
            }
        }
        r
    }
}

/// Tags lie below the kind count, and no two kinds share a tag.
pub proof fn lemma_tag_bounded_and_unique()
    ensures
        forall|k: TypeKind| #[trigger] k.tag_spec() < KIND_COUNT,
        forall|a: TypeKind, b: TypeKind| a.tag_spec() == b.tag_spec() ==> a == b,
{
}

/// Decoding the tag of a kind gives back that kind.
pub proof fn lemma_tag_round_trip(k: TypeKind)
    ensures
        TypeKind::from_tag_spec(k.tag_spec()) == Some(k),
{
    lemma_tag_bounded_and_unique();
}

} // verus!
