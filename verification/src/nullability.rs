//! Nullability made explicit. A schema marks a type non-null by wrapping
//! it; the resolved form carries at every level, named type or list,
//! whether that level may be absent.

use vstd::prelude::*;
use crate::schema::{Type, TypeModel};

verus! {

/// Whether a value of a type may be absent.
#[derive(Debug, Clone, Copy, PartialEq, Eq)]
pub enum Nullability {
    NotNull,
    Nullable,
}

/// A type expression with the nullability of each level written out.
#[derive(Debug, PartialEq, Eq)]
pub enum TypeWithNullability {
    NamedType(String, Nullability),
    ListType(Box<TypeWithNullability>, Nullability),
}

/// The mathematical value of a [`TypeWithNullability`].
pub enum TypeWithNullabilityModel {
    NamedType(Seq<char>, Nullability),
    ListType(Box<TypeWithNullabilityModel>, Nullability),
}

/// The resolved form of `t` when the markers around it say `nullability`.
/// A name or a list takes that nullability; the elements of a list start
/// afresh as nullable; a non-null marker makes what it wraps non-null, so
/// markers written twice count once.
pub open spec fn resolve_inner(
    t: TypeModel,
    nullability: Nullability,
) -> TypeWithNullabilityModel
    decreases t,
{
    match t {
        TypeModel::NamedType(name) => TypeWithNullabilityModel::NamedType(name, nullability),
        TypeModel::ListType(inner) => TypeWithNullabilityModel::ListType(
            Box::new(resolve_inner(*inner, Nullability::Nullable)),
            nullability,
        ),
        TypeModel::NonNullType(inner) => resolve_inner(*inner, Nullability::NotNull),
    }
}

/// The resolved form of a whole type expression: nullable unless marked.
pub open spec fn resolve(t: TypeModel) -> TypeWithNullabilityModel {
    resolve_inner(t, Nullability::Nullable)
}

/// The type expression that is written for a resolved type: a non-null
/// marker around each level that is not nullable, and nowhere else.
pub open spec fn resolve_inverse(t: TypeWithNullabilityModel) -> TypeModel
    decreases t,
{
    match t {
        TypeWithNullabilityModel::NamedType(name, Nullability::Nullable) => TypeModel::NamedType(
            name,
        ),
        TypeWithNullabilityModel::NamedType(name, Nullability::NotNull) => TypeModel::NonNullType(
            Box::new(TypeModel::NamedType(name)),
        ),
        TypeWithNullabilityModel::ListType(inner, Nullability::Nullable) => TypeModel::ListType(
            Box::new(resolve_inverse(*inner)),
        ),
        TypeWithNullabilityModel::ListType(inner, Nullability::NotNull) => TypeModel::NonNullType(
            Box::new(TypeModel::ListType(Box::new(resolve_inverse(*inner)))),
        ),
    }
}

impl TypeWithNullability {
    /// The value of a resolved type, level by level.
    pub open spec fn model(self) -> TypeWithNullabilityModel
        decreases self,
    {
        match self {
            TypeWithNullability::NamedType(name, nullability) => {
                TypeWithNullabilityModel::NamedType(name@, nullability)
            },
            TypeWithNullability::ListType(inner, nullability) => {
                TypeWithNullabilityModel::ListType(Box::new((*inner).model()), nullability)
            },
        }
    }

    /// Resolves a whole type expression.
    pub fn from_root_type(field_type: Type) -> (resolved: Self)
        ensures
            resolved@ == resolve(field_type@),
        decreases field_type, 1int,
    {
        match field_type {
            Type::NamedType(name) => TypeWithNullability::NamedType(name, Nullability::Nullable),
            Type::ListType(inner) => {
                let element = Self::from_root_type(*inner);
                TypeWithNullability::ListType(Box::new(element), Nullability::Nullable)
            },
            Type::NonNullType(inner) => Self::from_inner_type(*inner, Nullability::NotNull),
        }
    }

    /// Resolves what stands inside markers that say `nullability`.
    pub fn from_inner_type(field_type: Type, nullability: Nullability) -> (resolved: Self)
        ensures
            resolved@ == resolve_inner(field_type@, nullability),
        decreases field_type, 0int,
    {
        match field_type {
            Type::NamedType(name) => TypeWithNullability::NamedType(name, nullability),
            Type::ListType(inner) => {
                let element = Self::from_root_type(*inner);
                TypeWithNullability::ListType(Box::new(element), nullability)
            },
            Type::NonNullType(inner) => Self::from_inner_type(*inner, Nullability::NotNull),
        }
    }

    /// Writes a resolved type back as a type expression.
    pub fn into_raw_type(self) -> (raw: Type)
        ensures
            raw@ == resolve_inverse(self@),
        decreases self,
    {
        proof {
            reveal_with_fuel(Type::model, 2);
        }
        match self {
            TypeWithNullability::NamedType(name, Nullability::Nullable) => Type::NamedType(name),
            TypeWithNullability::NamedType(name, Nullability::NotNull) => {
                Type::NonNullType(Box::new(Type::NamedType(name)))
            },
            TypeWithNullability::ListType(inner, Nullability::Nullable) => {
                Type::ListType(Box::new((*inner).into_raw_type()))
            },
            TypeWithNullability::ListType(inner, Nullability::NotNull) => {
                Type::NonNullType(Box::new(Type::ListType(Box::new((*inner).into_raw_type()))))
            },
        }
    }
}

impl Clone for TypeWithNullability {
    fn clone(&self) -> (copy: Self)
        ensures
            copy@ == self@,
        decreases self,
    {
        match self {
            TypeWithNullability::NamedType(name, nullability) => {
                TypeWithNullability::NamedType(name.clone(), *nullability)
            },
            TypeWithNullability::ListType(inner, nullability) => {
                TypeWithNullability::ListType(Box::new((&**inner).clone()), *nullability)
            },
        }
    }
}

impl View for TypeWithNullability {
    type V = TypeWithNullabilityModel;

    open spec fn view(&self) -> TypeWithNullabilityModel {
        self.model()
    }
}

/// Whether no non-null marker stands directly inside another.
pub open spec fn marked_once(t: TypeModel) -> bool
    decreases t,
{
    match t {
        TypeModel::NamedType(_) => true,
        TypeModel::ListType(inner) => marked_once(*inner),
        TypeModel::NonNullType(inner) => !(*inner is NonNullType) && marked_once(*inner),
    }
}

/// Resolving what was written for a resolved type gives that type back:
/// no level loses its nullability, however deep the lists nest.
pub proof fn lemma_resolve_after_inverse(t: TypeWithNullabilityModel)
    ensures
        resolve(resolve_inverse(t)) == t,
        marked_once(resolve_inverse(t)),
    decreases t,
{
    reveal_with_fuel(resolve_inner, 2);
    reveal_with_fuel(marked_once, 2);
    match t {
        TypeWithNullabilityModel::NamedType(_, _) => {},
        TypeWithNullabilityModel::ListType(inner, _) => {
            lemma_resolve_after_inverse(*inner);
        },
    }
}

/// Writing a resolved type back gives the expression it came from,
/// provided that no marker was written twice in a row.
pub proof fn lemma_inverse_after_resolve(t: TypeModel)
    requires
        marked_once(t),
    ensures
        resolve_inverse(resolve(t)) == t,
    decreases t,
{
    reveal_with_fuel(resolve_inner, 2);
    reveal_with_fuel(marked_once, 2);
    match t {
        TypeModel::NamedType(_) => {},
        TypeModel::ListType(inner) => {
            lemma_inverse_after_resolve(*inner);
        },
        TypeModel::NonNullType(inner) => {
            match *inner {
                TypeModel::NamedType(_) => {},
                TypeModel::ListType(element) => {
                    lemma_inverse_after_resolve(*element);
                },
                TypeModel::NonNullType(_) => {},
            }
        },
    }
}

/// A non-null marker written twice says what one marker says.
pub proof fn lemma_repeated_marker_collapses(t: TypeModel, nullability: Nullability)
    ensures
        resolve_inner(
            TypeModel::NonNullType(Box::new(TypeModel::NonNullType(Box::new(t)))),
            nullability,
        ) == resolve_inner(TypeModel::NonNullType(Box::new(t)), nullability),
{
    reveal_with_fuel(resolve_inner, 3);
}

} // verus!
