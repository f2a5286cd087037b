//! Typed views of the foreign type hierarchy.
//!
//! The foreign library represents every type as one kind of object,
//! discriminated at run time by a [`TypeKind`] tag. Here each kind has a view
//! of its own. A view holds nothing but the identity of the object and a
//! lifetime that ties it to the context that owns the object, so that views
//! copy freely, widen to [`Type`] at no cost, and narrow only through a kind.
use std::marker::PhantomData;
use vstd::prelude::*;
use vstd::std_specs::cmp::PartialEqSpec;

use crate::context::Context;
use crate::handle::RawHandle;
use crate::kind::{TypeKind, KIND_COUNT};

verus! {

/// A view of some type object of a context, its kind unknown statically.
///
/// Two views are equal exactly when they name the same object; since a
/// context keeps at most one object for each type, that is type equality.
#[derive(Clone, Copy, Debug)]
pub struct Type<'ctx> {
    raw: RawHandle,
    ctx: PhantomData<&'ctx Context>,
}

impl<'ctx> View for Type<'ctx> {
    type V = RawHandle;

    /// The object that this view names.
    closed spec fn view(&self) -> RawHandle {
        self.raw
    }
}

impl<'ctx> Type<'ctx> {
    /// The base view of the object at `raw`.
    pub closed spec fn of(raw: RawHandle) -> Type<'ctx> {
        Type { raw, ctx: PhantomData }
    }

    /// Views the type object at `raw`, whatever its kind.
    ///
    /// Every type object is a `Type`, so this is always a valid view. The
    /// caller picks a lifetime within that of the context that owns `raw`.
    pub fn from_raw(raw: RawHandle) -> (r: Type<'ctx>)
        ensures
            r == Type::<'ctx>::of(raw),
            r@ == raw,
    {
        Type { raw, ctx: PhantomData }
    }

    /// The identity of the object, to hand back to the foreign library.
    pub fn as_raw(&self) -> (r: RawHandle)
        ensures
            r == self@,
    {
        self.raw
    }

    /// Narrows this view to the one of its kind.
    ///
    /// `kind` is what the foreign runtime reports for this object; the result
    /// is the arm of that kind, naming the same object.
    pub fn downcast(&self, kind: TypeKind) -> (r: Kind<'ctx>)
        ensures
            r == self.downcast_spec(kind),
            r.kind_spec() == kind,
            r@ == self@,
    {
        match kind {
            TypeKind::Void => Kind::Void(Void { base: *self }),
            TypeKind::Half => Kind::Half(Half { base: *self }),
            TypeKind::Float => Kind::Float(Float { base: *self }),
            TypeKind::Double => Kind::Double(Double { base: *self }),
            TypeKind::X86_FP80 => Kind::X86_FP80(X86_FP80 { base: *self }),
            TypeKind::FP128 => Kind::FP128(FP128 { base: *self }),
            TypeKind::PPC_FP128 => Kind::PPC_FP128(PPC_FP128 { base: *self }),
            TypeKind::Label => Kind::Label(Label { base: *self }),
            TypeKind::Integer => Kind::Integer(Integer { base: *self }),
            TypeKind::Function => Kind::Function(Function { base: *self }),
            TypeKind::Struct => Kind::Struct(Struct { base: *self }),
            TypeKind::Array => Kind::Array(Array { base: *self }),
            TypeKind::Pointer => Kind::Pointer(Pointer { base: *self }),
            TypeKind::Vector => Kind::Vector(Vector { base: *self }),
            TypeKind::Metadata => Kind::Metadata(Metadata { base: *self }),
            TypeKind::X86_MMX => Kind::X86_MMX(X86_MMX { base: *self }),
            TypeKind::Token => Kind::Token(Token { base: *self }),
        }
    }

    /// The arm of `kind` that narrows this view.
    pub closed spec fn downcast_spec(self, kind: TypeKind) -> Kind<'ctx> {
        match kind {
            TypeKind::Void => Kind::Void(Void { base: self }),
            TypeKind::Half => Kind::Half(Half { base: self }),
            TypeKind::Float => Kind::Float(Float { base: self }),
            TypeKind::Double => Kind::Double(Double { base: self }),
            TypeKind::X86_FP80 => Kind::X86_FP80(X86_FP80 { base: self }),
            TypeKind::FP128 => Kind::FP128(FP128 { base: self }),
            TypeKind::PPC_FP128 => Kind::PPC_FP128(PPC_FP128 { base: self }),
            TypeKind::Label => Kind::Label(Label { base: self }),
            TypeKind::Integer => Kind::Integer(Integer { base: self }),
            TypeKind::Function => Kind::Function(Function { base: self }),
            TypeKind::Struct => Kind::Struct(Struct { base: self }),
            TypeKind::Array => Kind::Array(Array { base: self }),
            TypeKind::Pointer => Kind::Pointer(Pointer { base: self }),
            TypeKind::Vector => Kind::Vector(Vector { base: self }),
            TypeKind::Metadata => Kind::Metadata(Metadata { base: self }),
            TypeKind::X86_MMX => Kind::X86_MMX(X86_MMX { base: self }),
            TypeKind::Token => Kind::Token(Token { base: self }),
        }
    }

    /// Narrows this view to `T`, if `kind`, the kind that the foreign runtime
    /// reports for this object, is the one that `T` stands for.
    pub fn try_narrow<T: Subtype<'ctx>>(&self, kind: TypeKind) -> (r: Option<T>)
        ensures
            r is Some <==> kind == T::kind_spec(),
            r is Some ==> r->Some_0@ == self@,
    {
        if kind == T::kind() {
            Some(T::from_raw(self.raw))
        } else {
            None
        }
    }
}

impl<'ctx> PartialEq for Type<'ctx> {
    fn eq(&self, other: &Type<'ctx>) -> (r: bool) {
        self.raw == other.raw
    }
}

impl<'ctx> vstd::std_specs::cmp::PartialEqSpecImpl for Type<'ctx> {
    open spec fn obeys_eq_spec() -> bool {
        true
    }

    open spec fn eq_spec(&self, other: &Type<'ctx>) -> bool {
        self@ == other@
    }
}

impl<'ctx> Eq for Type<'ctx> {
}

/// A view of a type object of one designated kind.
///
/// Such a view is valid only for an object of that kind. The checked ways to
/// get one are [`Type::downcast`] and [`Type::try_narrow`]; the foreign
/// library's constructors whose result kind is fixed use [`Subtype::from_raw`].
pub trait Subtype<'ctx>: Sized + View<V = RawHandle> {
    /// The kind of the objects that this view may stand for.
    spec fn kind_spec() -> TypeKind;

    /// The kind of the objects that this view may stand for.
    fn kind() -> (r: TypeKind)
        ensures
            r == Self::kind_spec(),
    ;

    /// Views the object at `raw` as one of this kind, without a check.
    ///
    /// The caller must already know that the object has this kind, as it does
    /// of the result of a foreign constructor that only makes such objects.
    fn from_raw(raw: RawHandle) -> (r: Self)
        ensures
            r@ == raw,
    ;

    /// Widens this view to the base view of the same object.
    fn as_type(&self) -> (r: Type<'ctx>)
        ensures
            r == Type::<'ctx>::of(self@),
            r@ == self@,
    ;

    /// The identity of the object, to hand back to the foreign library.
    fn as_raw(&self) -> (r: RawHandle)
        ensures
            r == self@,
    ;
}

/// Type with no size.
#[derive(Clone, Copy, Debug)]
pub struct Void<'ctx> {
    base: Type<'ctx>,
}

impl<'ctx> View for Void<'ctx> {
    type V = RawHandle;

    closed spec fn view(&self) -> RawHandle {
        self.base@
    }
}

impl<'ctx> Subtype<'ctx> for Void<'ctx> {
    open spec fn kind_spec() -> TypeKind {
        TypeKind::Void
    }

    fn kind() -> (r: TypeKind) {
        TypeKind::Void
    }

    fn from_raw(raw: RawHandle) -> (r: Self) {
        Void { base: Type::from_raw(raw) }
    }

    fn as_type(&self) -> (r: Type<'ctx>) {
        self.base
    }

    fn as_raw(&self) -> (r: RawHandle) {
        self.base.raw
    }
}

/// 16 bit floating point type.
#[derive(Clone, Copy, Debug)]
pub struct Half<'ctx> {
    base: Type<'ctx>,
}

impl<'ctx> View for Half<'ctx> {
    type V = RawHandle;

    closed spec fn view(&self) -> RawHandle {
        self.base@
    }
}

impl<'ctx> Subtype<'ctx> for Half<'ctx> {
    open spec fn kind_spec() -> TypeKind {
        TypeKind::Half
    }

    fn kind() -> (r: TypeKind) {
        TypeKind::Half
    }

    fn from_raw(raw: RawHandle) -> (r: Self) {
        Half { base: Type::from_raw(raw) }
    }

    fn as_type(&self) -> (r: Type<'ctx>) {
        self.base
    }

    fn as_raw(&self) -> (r: RawHandle) {
        self.base.raw
    }
}

/// 32 bit floating point type.
#[derive(Clone, Copy, Debug)]
pub struct Float<'ctx> {
    base: Type<'ctx>,
}

impl<'ctx> View for Float<'ctx> {
    type V = RawHandle;

    closed spec fn view(&self) -> RawHandle {
        self.base@
    }
}

impl<'ctx> Subtype<'ctx> for Float<'ctx> {
    open spec fn kind_spec() -> TypeKind {
        TypeKind::Float
    }

    fn kind() -> (r: TypeKind) {
        TypeKind::Float
    }

    fn from_raw(raw: RawHandle) -> (r: Self) {
        Float { base: Type::from_raw(raw) }
    }

    fn as_type(&self) -> (r: Type<'ctx>) {
        self.base
    }

    fn as_raw(&self) -> (r: RawHandle) {
        self.base.raw
    }
}

/// 64 bit floating point type.
#[derive(Clone, Copy, Debug)]
pub struct Double<'ctx> {
    base: Type<'ctx>,
}

impl<'ctx> View for Double<'ctx> {
    type V = RawHandle;

    closed spec fn view(&self) -> RawHandle {
        self.base@
    }
}

impl<'ctx> Subtype<'ctx> for Double<'ctx> {
    open spec fn kind_spec() -> TypeKind {
        TypeKind::Double
    }

    fn kind() -> (r: TypeKind) {
        TypeKind::Double
    }

    fn from_raw(raw: RawHandle) -> (r: Self) {
        Double { base: Type::from_raw(raw) }
    }

    fn as_type(&self) -> (r: Type<'ctx>) {
        self.base
    }

    fn as_raw(&self) -> (r: RawHandle) {
        self.base.raw
    }
}

/// 80 bit floating point type (X87).
#[allow(non_camel_case_types)]
#[derive(Clone, Copy, Debug)]
pub struct X86_FP80<'ctx> {
    base: Type<'ctx>,
}

impl<'ctx> View for X86_FP80<'ctx> {
    type V = RawHandle;

    closed spec fn view(&self) -> RawHandle {
        self.base@
    }
}

impl<'ctx> Subtype<'ctx> for X86_FP80<'ctx> {
    open spec fn kind_spec() -> TypeKind {
        TypeKind::X86_FP80
    }

    fn kind() -> (r: TypeKind) {
        TypeKind::X86_FP80
    }

    fn from_raw(raw: RawHandle) -> (r: Self) {
        X86_FP80 { base: Type::from_raw(raw) }
    }

    fn as_type(&self) -> (r: Type<'ctx>) {
        self.base
    }

    fn as_raw(&self) -> (r: RawHandle) {
        self.base.raw
    }
}

/// 128 bit floating point type (112-bit mantissa).
#[allow(non_camel_case_types)]
#[derive(Clone, Copy, Debug)]
pub struct FP128<'ctx> {
    base: Type<'ctx>,
}

impl<'ctx> View for FP128<'ctx> {
    type V = RawHandle;

    closed spec fn view(&self) -> RawHandle {
        self.base@
    }
}

impl<'ctx> Subtype<'ctx> for FP128<'ctx> {
    open spec fn kind_spec() -> TypeKind {
        TypeKind::FP128
    }

    fn kind() -> (r: TypeKind) {
        TypeKind::FP128
    }

    fn from_raw(raw: RawHandle) -> (r: Self) {
        FP128 { base: Type::from_raw(raw) }
    }

    fn as_type(&self) -> (r: Type<'ctx>) {
        self.base
    }

    fn as_raw(&self) -> (r: RawHandle) {
        self.base.raw
    }
}

/// 128 bit floating point type (two 64-bits).
#[allow(non_camel_case_types)]
#[derive(Clone, Copy, Debug)]
pub struct PPC_FP128<'ctx> {
    base: Type<'ctx>,
}

impl<'ctx> View for PPC_FP128<'ctx> {
    type V = RawHandle;

    closed spec fn view(&self) -> RawHandle {
        self.base@
    }
}

impl<'ctx> Subtype<'ctx> for PPC_FP128<'ctx> {
    open spec fn kind_spec() -> TypeKind {
        TypeKind::PPC_FP128
    }

    fn kind() -> (r: TypeKind) {
        TypeKind::PPC_FP128
    }

    fn from_raw(raw: RawHandle) -> (r: Self) {
        PPC_FP128 { base: Type::from_raw(raw) }
    }

    fn as_type(&self) -> (r: Type<'ctx>) {
        self.base
    }

    fn as_raw(&self) -> (r: RawHandle) {
        self.base.raw
    }
}

/// Labels.
#[derive(Clone, Copy, Debug)]
pub struct Label<'ctx> {
    base: Type<'ctx>,
}

impl<'ctx> View for Label<'ctx> {
    type V = RawHandle;

    closed spec fn view(&self) -> RawHandle {
        self.base@
    }
}

impl<'ctx> Subtype<'ctx> for Label<'ctx> {
    open spec fn kind_spec() -> TypeKind {
        TypeKind::Label
    }

    fn kind() -> (r: TypeKind) {
        TypeKind::Label
    }

    fn from_raw(raw: RawHandle) -> (r: Self) {
        Label { base: Type::from_raw(raw) }
    }

    fn as_type(&self) -> (r: Type<'ctx>) {
        self.base
    }

    fn as_raw(&self) -> (r: RawHandle) {
        self.base.raw
    }
}

/// Arbitrary bit width integers.
#[derive(Clone, Copy, Debug)]
pub struct Integer<'ctx> {
    base: Type<'ctx>,
}

impl<'ctx> View for Integer<'ctx> {
    type V = RawHandle;

    closed spec fn view(&self) -> RawHandle {
        self.base@
    }
}

impl<'ctx> Subtype<'ctx> for Integer<'ctx> {
    open spec fn kind_spec() -> TypeKind {
        TypeKind::Integer
    }

    fn kind() -> (r: TypeKind) {
        TypeKind::Integer
    }

    fn from_raw(raw: RawHandle) -> (r: Self) {
        Integer { base: Type::from_raw(raw) }
    }

    fn as_type(&self) -> (r: Type<'ctx>) {
        self.base
    }

    fn as_raw(&self) -> (r: RawHandle) {
        self.base.raw
    }
}

/// Function types: a return type and a list of parameter types.
#[derive(Clone, Copy, Debug)]
pub struct Function<'ctx> {
    base: Type<'ctx>,
}

impl<'ctx> View for Function<'ctx> {
    type V = RawHandle;

    closed spec fn view(&self) -> RawHandle {
        self.base@
    }
}

impl<'ctx> Subtype<'ctx> for Function<'ctx> {
    open spec fn kind_spec() -> TypeKind {
        TypeKind::Function
    }

    fn kind() -> (r: TypeKind) {
        TypeKind::Function
    }

    fn from_raw(raw: RawHandle) -> (r: Self) {
        Function { base: Type::from_raw(raw) }
    }

    fn as_type(&self) -> (r: Type<'ctx>) {
        self.base
    }

    fn as_raw(&self) -> (r: RawHandle) {
        self.base.raw
    }
}

/// Structures.
#[derive(Clone, Copy, Debug)]
pub struct Struct<'ctx> {
    base: Type<'ctx>,
}

impl<'ctx> View for Struct<'ctx> {
    type V = RawHandle;

    closed spec fn view(&self) -> RawHandle {
        self.base@
    }
}

impl<'ctx> Subtype<'ctx> for Struct<'ctx> {
    open spec fn kind_spec() -> TypeKind {
        TypeKind::Struct
    }

    fn kind() -> (r: TypeKind) {
        TypeKind::Struct
    }

    fn from_raw(raw: RawHandle) -> (r: Self) {
        Struct { base: Type::from_raw(raw) }
    }

    fn as_type(&self) -> (r: Type<'ctx>) {
        self.base
    }

    fn as_raw(&self) -> (r: RawHandle) {
        self.base.raw
    }
}

/// Arrays.
#[derive(Clone, Copy, Debug)]
pub struct Array<'ctx> {
    base: Type<'ctx>,
}

impl<'ctx> View for Array<'ctx> {
    type V = RawHandle;

    closed spec fn view(&self) -> RawHandle {
        self.base@
    }
}

impl<'ctx> Subtype<'ctx> for Array<'ctx> {
    open spec fn kind_spec() -> TypeKind {
        TypeKind::Array
    }

    fn kind() -> (r: TypeKind) {
        TypeKind::Array
    }

    fn from_raw(raw: RawHandle) -> (r: Self) {
        Array { base: Type::from_raw(raw) }
    }

    fn as_type(&self) -> (r: Type<'ctx>) {
        self.base
    }

    fn as_raw(&self) -> (r: RawHandle) {
        self.base.raw
    }
}

/// Pointers.
#[derive(Clone, Copy, Debug)]
pub struct Pointer<'ctx> {
    base: Type<'ctx>,
}

impl<'ctx> View for Pointer<'ctx> {
    type V = RawHandle;

    closed spec fn view(&self) -> RawHandle {
        self.base@
    }
}

impl<'ctx> Subtype<'ctx> for Pointer<'ctx> {
    open spec fn kind_spec() -> TypeKind {
        TypeKind::Pointer
    }

    fn kind() -> (r: TypeKind) {
        TypeKind::Pointer
    }

    fn from_raw(raw: RawHandle) -> (r: Self) {
        Pointer { base: Type::from_raw(raw) }
    }

    fn as_type(&self) -> (r: Type<'ctx>) {
        self.base
    }

    fn as_raw(&self) -> (r: RawHandle) {
        self.base.raw
    }
}

/// SIMD 'packed' format, or other vector type.
#[derive(Clone, Copy, Debug)]
pub struct Vector<'ctx> {
    base: Type<'ctx>,
}

impl<'ctx> View for Vector<'ctx> {
    type V = RawHandle;

    closed spec fn view(&self) -> RawHandle {
        self.base@
    }
}

impl<'ctx> Subtype<'ctx> for Vector<'ctx> {
    open spec fn kind_spec() -> TypeKind {
        TypeKind::Vector
    }

    fn kind() -> (r: TypeKind) {
        TypeKind::Vector
    }

    fn from_raw(raw: RawHandle) -> (r: Self) {
        Vector { base: Type::from_raw(raw) }
    }

    fn as_type(&self) -> (r: Type<'ctx>) {
        self.base
    }

    fn as_raw(&self) -> (r: RawHandle) {
        self.base.raw
    }
}

/// Metadata.
#[derive(Clone, Copy, Debug)]
pub struct Metadata<'ctx> {
    base: Type<'ctx>,
}

impl<'ctx> View for Metadata<'ctx> {
    type V = RawHandle;

    closed spec fn view(&self) -> RawHandle {
        self.base@
    }
}

impl<'ctx> Subtype<'ctx> for Metadata<'ctx> {
    open spec fn kind_spec() -> TypeKind {
        TypeKind::Metadata
    }

    fn kind() -> (r: TypeKind) {
        TypeKind::Metadata
    }

    fn from_raw(raw: RawHandle) -> (r: Self) {
        Metadata { base: Type::from_raw(raw) }
    }

    fn as_type(&self) -> (r: Type<'ctx>) {
        self.base
    }

    fn as_raw(&self) -> (r: RawHandle) {
        self.base.raw
    }
}

/// X86 MMX.
#[allow(non_camel_case_types)]
#[derive(Clone, Copy, Debug)]
pub struct X86_MMX<'ctx> {
    base: Type<'ctx>,
}

impl<'ctx> View for X86_MMX<'ctx> {
    type V = RawHandle;

    closed spec fn view(&self) -> RawHandle {
        self.base@
    }
}

impl<'ctx> Subtype<'ctx> for X86_MMX<'ctx> {
    open spec fn kind_spec() -> TypeKind {
        TypeKind::X86_MMX
    }

    fn kind() -> (r: TypeKind) {
        TypeKind::X86_MMX
    }

    fn from_raw(raw: RawHandle) -> (r: Self) {
        X86_MMX { base: Type::from_raw(raw) }
    }

    fn as_type(&self) -> (r: Type<'ctx>) {
        self.base
    }

    fn as_raw(&self) -> (r: RawHandle) {
        self.base.raw
    }
}

/// Tokens.
#[derive(Clone, Copy, Debug)]
pub struct Token<'ctx> {
    base: Type<'ctx>,
}

impl<'ctx> View for Token<'ctx> {
    type V = RawHandle;

    closed spec fn view(&self) -> RawHandle {
        self.base@
    }
}

impl<'ctx> Subtype<'ctx> for Token<'ctx> {
    open spec fn kind_spec() -> TypeKind {
        TypeKind::Token
    }

    fn kind() -> (r: TypeKind) {
        TypeKind::Token
    }

    fn from_raw(raw: RawHandle) -> (r: Self) {
        Token { base: Type::from_raw(raw) }
    }

    fn as_type(&self) -> (r: Type<'ctx>) {
        self.base
    }

    fn as_raw(&self) -> (r: RawHandle) {
        self.base.raw
    }
}

/// Signed integer view of an integer type.
///
/// Integer types carry no sign: signedness is how a view reads their values,
/// so this is a further narrowing of [`Integer`] under the same kind.
#[derive(Clone, Copy, Debug)]
pub struct Int<'ctx> {
    integer: Integer<'ctx>,
}

impl<'ctx> View for Int<'ctx> {
    type V = RawHandle;

    closed spec fn view(&self) -> RawHandle {
        self.integer@
    }
}

impl<'ctx> Subtype<'ctx> for Int<'ctx> {
    open spec fn kind_spec() -> TypeKind {
        TypeKind::Integer
    }

    fn kind() -> (r: TypeKind) {
        TypeKind::Integer
    }

    fn from_raw(raw: RawHandle) -> (r: Self) {
        Int { integer: Integer::from_raw(raw) }
    }

    fn as_type(&self) -> (r: Type<'ctx>) {
        self.integer.as_type()
    }

    fn as_raw(&self) -> (r: RawHandle) {
        self.integer.as_raw()
    }
}

impl<'ctx> Int<'ctx> {
    /// Widens this view to the integer view of the same object.
    pub fn upcast(&self) -> (r: Integer<'ctx>)
        ensures
            r@ == self@,
    {
        self.integer
    }
}

/// Unsigned integer view of an integer type.
///
/// Integer types carry no sign: signedness is how a view reads their values,
/// so this is a further narrowing of [`Integer`] under the same kind.
#[derive(Clone, Copy, Debug)]
pub struct UInt<'ctx> {
    integer: Integer<'ctx>,
}

impl<'ctx> View for UInt<'ctx> {
    type V = RawHandle;

    closed spec fn view(&self) -> RawHandle {
        self.integer@
    }
}

impl<'ctx> Subtype<'ctx> for UInt<'ctx> {
    open spec fn kind_spec() -> TypeKind {
        TypeKind::Integer
    }

    fn kind() -> (r: TypeKind) {
        TypeKind::Integer
    }

    fn from_raw(raw: RawHandle) -> (r: Self) {
        UInt { integer: Integer::from_raw(raw) }
    }

    fn as_type(&self) -> (r: Type<'ctx>) {
        self.integer.as_type()
    }

    fn as_raw(&self) -> (r: RawHandle) {
        self.integer.as_raw()
    }
}

impl<'ctx> UInt<'ctx> {
    /// Widens this view to the integer view of the same object.
    pub fn upcast(&self) -> (r: Integer<'ctx>)
        ensures
            r@ == self@,
    {
        self.integer
    }
}

/// A type view narrowed to its kind: one arm for each kind, each holding the
/// view of that kind.
#[allow(non_camel_case_types)]
#[derive(Clone, Copy, Debug)]
pub enum Kind<'ctx> {
    Void(Void<'ctx>),
    Half(Half<'ctx>),
    Float(Float<'ctx>),
    Double(Double<'ctx>),
    X86_FP80(X86_FP80<'ctx>),
    FP128(FP128<'ctx>),
    PPC_FP128(PPC_FP128<'ctx>),
    Label(Label<'ctx>),
    Integer(Integer<'ctx>),
    Function(Function<'ctx>),
    Struct(Struct<'ctx>),
    Array(Array<'ctx>),
    Pointer(Pointer<'ctx>),
    Vector(Vector<'ctx>),
    Metadata(Metadata<'ctx>),
    X86_MMX(X86_MMX<'ctx>),
    Token(Token<'ctx>),
}

impl<'ctx> View for Kind<'ctx> {
    type V = RawHandle;

    /// The object that the arm's view names.
    open spec fn view(&self) -> RawHandle {
        match self {
            Kind::Void(v) => v@,
            Kind::Half(v) => v@,
            Kind::Float(v) => v@,
            Kind::Double(v) => v@,
            Kind::X86_FP80(v) => v@,
            Kind::FP128(v) => v@,
            Kind::PPC_FP128(v) => v@,
            Kind::Label(v) => v@,
            Kind::Integer(v) => v@,
            Kind::Function(v) => v@,
            Kind::Struct(v) => v@,
            Kind::Array(v) => v@,
            Kind::Pointer(v) => v@,
            Kind::Vector(v) => v@,
            Kind::Metadata(v) => v@,
            Kind::X86_MMX(v) => v@,
            Kind::Token(v) => v@,
        }
    }
}

impl<'ctx> Kind<'ctx> {
    /// The kind of this arm.
    pub open spec fn kind_spec(&self) -> TypeKind {
        match self {
            Kind::Void(_) => TypeKind::Void,
            Kind::Half(_) => TypeKind::Half,
            Kind::Float(_) => TypeKind::Float,
            Kind::Double(_) => TypeKind::Double,
            Kind::X86_FP80(_) => TypeKind::X86_FP80,
            Kind::FP128(_) => TypeKind::FP128,
            Kind::PPC_FP128(_) => TypeKind::PPC_FP128,
            Kind::Label(_) => TypeKind::Label,
            Kind::Integer(_) => TypeKind::Integer,
            Kind::Function(_) => TypeKind::Function,
            Kind::Struct(_) => TypeKind::Struct,
            Kind::Array(_) => TypeKind::Array,
            Kind::Pointer(_) => TypeKind::Pointer,
            Kind::Vector(_) => TypeKind::Vector,
            Kind::Metadata(_) => TypeKind::Metadata,
            Kind::X86_MMX(_) => TypeKind::X86_MMX,
            Kind::Token(_) => TypeKind::Token,
        }
    }

    /// The kind of this arm.
    pub fn kind(&self) -> (r: TypeKind)
        ensures
            r == self.kind_spec(),
    {
        match self {
            Kind::Void(_) => TypeKind::Void,
            Kind::Half(_) => TypeKind::Half,
            Kind::Float(_) => TypeKind::Float,
            Kind::Double(_) => TypeKind::Double,
            Kind::X86_FP80(_) => TypeKind::X86_FP80,
            Kind::FP128(_) => TypeKind::FP128,
            Kind::PPC_FP128(_) => TypeKind::PPC_FP128,
            Kind::Label(_) => TypeKind::Label,
            Kind::Integer(_) => TypeKind::Integer,
            Kind::Function(_) => TypeKind::Function,
            Kind::Struct(_) => TypeKind::Struct,
            Kind::Array(_) => TypeKind::Array,
            Kind::Pointer(_) => TypeKind::Pointer,
            Kind::Vector(_) => TypeKind::Vector,
            Kind::Metadata(_) => TypeKind::Metadata,
            Kind::X86_MMX(_) => TypeKind::X86_MMX,
            Kind::Token(_) => TypeKind::Token,
        }
    }

    /// Widens the arm's view back to the base view of the same object.
    pub fn as_type(&self) -> (r: Type<'ctx>)
        ensures
            r == Type::<'ctx>::of(self@),
            r@ == self@,
    {
        match self {
            Kind::Void(v) => v.as_type(),
            Kind::Half(v) => v.as_type(),
            Kind::Float(v) => v.as_type(),
            Kind::Double(v) => v.as_type(),
            Kind::X86_FP80(v) => v.as_type(),
            Kind::FP128(v) => v.as_type(),
            Kind::PPC_FP128(v) => v.as_type(),
            Kind::Label(v) => v.as_type(),
            Kind::Integer(v) => v.as_type(),
            Kind::Function(v) => v.as_type(),
            Kind::Struct(v) => v.as_type(),
            Kind::Array(v) => v.as_type(),
            Kind::Pointer(v) => v.as_type(),
            Kind::Vector(v) => v.as_type(),
            Kind::Metadata(v) => v.as_type(),
            Kind::X86_MMX(v) => v.as_type(),
            Kind::Token(v) => v.as_type(),
        }
    }
}

/// A base view is nothing but the object it names: views of one object are
/// one value, and `==` on views holds exactly when they name the same object.
pub proof fn lemma_equality_is_identity<'ctx>(a: Type<'ctx>, b: Type<'ctx>)
    ensures
        a == Type::<'ctx>::of(a@),
        Type::<'ctx>::of(a@)@ == a@,
        (a == b) <==> (a@ == b@),
        a.eq_spec(&b) <==> (a == b),
{
}

/// Widening any view of an object gives the base view that wraps that object
/// directly: the two compare equal, so they print alike too.
pub proof fn lemma_upcast_identity<'ctx, T: Subtype<'ctx>>(v: T, direct: Type<'ctx>)
    requires
        v@ == direct@,
    ensures
        Type::<'ctx>::of(v@) == direct,
        Type::<'ctx>::of(v@).eq_spec(&direct),
{
    lemma_equality_is_identity(direct, direct);
}

/// Downcasting is total over the closed set of kinds: every tag in it decodes
/// to a kind, and the downcast by that kind is the one arm whose tag it is,
/// over the same object, widening back to the view it came from.
pub proof fn lemma_downcast_total<'ctx>(t: Type<'ctx>, tag: u32)
    requires
        tag < KIND_COUNT,
    ensures
        TypeKind::from_tag_spec(tag) is Some,
        t.downcast_spec(TypeKind::from_tag_spec(tag)->Some_0).kind_spec().tag_spec() == tag,
        t.downcast_spec(TypeKind::from_tag_spec(tag)->Some_0)@ == t@,
        Type::<'ctx>::of(t.downcast_spec(TypeKind::from_tag_spec(tag)->Some_0)@) == t,
{
    crate::kind::lemma_tag_bounded_and_unique();
    let k = TypeKind::from_tag_spec(tag);
    assert(exists|k: TypeKind| k.tag_spec() == tag) by {
        let w = match tag {
            0 => TypeKind::Void,
            1 => TypeKind::Half,
            2 => TypeKind::Float,
            3 => TypeKind::Double,
            4 => TypeKind::X86_FP80,
            5 => TypeKind::FP128,
            6 => TypeKind::PPC_FP128,
            7 => TypeKind::Label,
            8 => TypeKind::Integer,
            9 => TypeKind::Function,
            10 => TypeKind::Struct,
            11 => TypeKind::Array,
            12 => TypeKind::Pointer,
            13 => TypeKind::Vector,
            14 => TypeKind::Metadata,
            15 => TypeKind::X86_MMX,
            _ => TypeKind::Token,
        };
        assert(w.tag_spec() == tag);
    }
}

} // verus!
