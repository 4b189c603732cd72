//! Closed enumerations of the abstract syntax tree that declarations carry.

use vstd::prelude::*;

verus! {

/// How a function is called.
#[derive(Clone, Copy, Debug, PartialEq, Eq, Structural)]
pub enum CallType {
    Cnormal,
    CuserFunc,
}

/// The reactivity of a function.
#[derive(Clone, Copy, Debug, PartialEq, Eq, Structural)]
pub enum FuncReactive {
    FReactive,
    FLocal,
    FShallow,
    FNonreactive,
}

/// The mutability of a parameter.
#[derive(Clone, Copy, Debug, PartialEq, Eq, Structural)]
pub enum ParamMutability {
    PMutable,
    POwnedMutable,
    PMaybeMutable,
}

/// The form of a file import.
#[derive(Clone, Copy, Debug, PartialEq, Eq, Structural)]
pub enum ImportFlavor {
    Include,
    Require,
    IncludeOnce,
    RequireOnce,
}

/// The repetition of an XHP child.
#[derive(Clone, Copy, Debug, PartialEq, Eq, Structural)]
pub enum XhpChildOp {
    ChildStar,
    ChildPlus,
    ChildQuestion,
}

/// A primitive type.
#[derive(Clone, Copy, Debug, PartialEq, Eq, Structural)]
pub enum Tprim {
    Tnull,
    Tvoid,
    Tint,
    Tbool,
    Tfloat,
    Tstring,
    Tresource,
    Tnum,
    Tarraykey,
    Tnoreturn,
}

/// A keyed collection literal.
#[derive(Clone, Copy, Debug, PartialEq, Eq, Structural)]
pub enum KvcKind {
    Map_,
    ImmMap,
    Dict,
}

/// A value collection literal.
#[derive(Clone, Copy, Debug, PartialEq, Eq, Structural)]
pub enum VcKind {
    Vector,
    ImmVector,
    Vec,
    Set_,
    ImmSet,
    Pair_,
    Keyset,
}

/// The visibility of a class member.
#[derive(Clone, Copy, Debug, PartialEq, Eq, Structural)]
pub enum Visibility {
    Private,
    Public,
    Protected,
}

/// The visibility given by a trait `use as` clause.
#[derive(Clone, Copy, Debug, PartialEq, Eq, Structural)]
pub enum UseAsVisibility {
    UseAsPublic,
    UseAsPrivate,
    UseAsProtected,
    UseAsFinal,
}

/// The visibility of a type alias.
#[derive(Clone, Copy, Debug, PartialEq, Eq, Structural)]
pub enum TypedefVisibility {
    Transparent,
    Opaque,
}

} // verus!
