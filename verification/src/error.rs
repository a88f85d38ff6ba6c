//! Why a schema document is rejected.

use vstd::prelude::*;
use vstd::string::StringExecFns;

verus! {

/// A part of the schema language that the compiler does not handle.
#[derive(Debug, Clone, Copy, PartialEq, Eq)]
pub enum Unimplemented {
    DirectiveDefinition,
    TypeExtension,
    EnumType,
    InputObjectType,
    InterfaceType,
    UnionType,
    IdScalar,
}

/// The custom scalars that a schema may declare.
#[derive(Debug, Clone, Copy, PartialEq, Eq)]
pub enum DateScalar {
    Date,
    DateTime,
}

/// The first fault found in a document.
#[derive(Debug, PartialEq, Eq)]
pub enum CompileError {
    /// The schema definition names no query type.
    MissingQueryRoot,
    /// A scalar of this name was declared; only `Date` and `DateTime` can be.
    UnsupportedScalar(String),
    /// A field or an argument has this scalar as its type, and no
    /// definition before it declared the scalar.
    UndeclaredScalar(DateScalar),
    /// The document uses a part of the language that is not handled.
    NotImplemented(Unimplemented),
}

/// The mathematical value of a [`CompileError`].
pub enum CompileErrorModel {
    MissingQueryRoot,
    UnsupportedScalar(Seq<char>),
    UndeclaredScalar(DateScalar),
    NotImplemented(Unimplemented),
}

impl View for CompileError {
    type V = CompileErrorModel;

    open spec fn view(&self) -> CompileErrorModel {
        match self {
            CompileError::MissingQueryRoot => CompileErrorModel::MissingQueryRoot,
            CompileError::UnsupportedScalar(name) => CompileErrorModel::UnsupportedScalar(name@),
            CompileError::UndeclaredScalar(scalar) => CompileErrorModel::UndeclaredScalar(*scalar),
            CompileError::NotImplemented(part) => CompileErrorModel::NotImplemented(*part),
        }
    }
}

impl Clone for CompileError {
    fn clone(&self) -> (copy: Self)
        ensures
            copy@ == self@,
    {
        match self {
            CompileError::MissingQueryRoot => CompileError::MissingQueryRoot,
            CompileError::UnsupportedScalar(name) => CompileError::UnsupportedScalar(name.clone()),
            CompileError::UndeclaredScalar(scalar) => CompileError::UndeclaredScalar(*scalar),
            CompileError::NotImplemented(part) => CompileError::NotImplemented(*part),
        }
    }
}

/// How a part of the language that is not handled is called in a
/// message.
pub open spec fn part_name(part: Unimplemented) -> Seq<char> {
    match part {
        Unimplemented::DirectiveDefinition => "directive definitions"@,
        Unimplemented::TypeExtension => "type extensions"@,
        Unimplemented::EnumType => "enum types"@,
        Unimplemented::InputObjectType => "input object types"@,
        Unimplemented::InterfaceType => "interface types"@,
        Unimplemented::UnionType => "union types"@,
        Unimplemented::IdScalar => "the scalar `ID`"@,
    }
}

/// The message of an error. That of an unsupported scalar holds the
/// scalar's name.
pub open spec fn message_text(error: CompileErrorModel) -> Seq<char> {
    match error {
        CompileErrorModel::MissingQueryRoot => {
            "Juniper requires that the schema type has a query"@
        },
        CompileErrorModel::UnsupportedScalar(name) => {
            "Only Date and DateTime scalars are supported at the moment, found `"@ + name + "`"@
        },
        CompileErrorModel::UndeclaredScalar(DateScalar::Date) => {
            "Fields with type `Date` is only allowed if you have define a scalar named `Date`"@
        },
        CompileErrorModel::UndeclaredScalar(DateScalar::DateTime) => {
            "Fields with type `DateTime` is only allowed if you have define a scalar named `DateTime`"@
        },
        CompileErrorModel::NotImplemented(part) => "not yet implemented: "@ + part_name(part),
    }
}

impl Unimplemented {
    /// How this part of the language is called in a message.
    pub fn name(self) -> (name: &'static str)
        ensures
            name@ == part_name(self),
    {
        match self {
            Unimplemented::DirectiveDefinition => "directive definitions",
            Unimplemented::TypeExtension => "type extensions",
            Unimplemented::EnumType => "enum types",
            Unimplemented::InputObjectType => "input object types",
            Unimplemented::InterfaceType => "interface types",
            Unimplemented::UnionType => "union types",
            Unimplemented::IdScalar => "the scalar `ID`",
        }
    }
}

impl CompileError {
    /// The message of this error.
    pub fn message(&self) -> (text: String)
        ensures
            text@ == message_text(self@),
    {
        match self {
            CompileError::MissingQueryRoot => {
                String::from_str("Juniper requires that the schema type has a query")
            },
            CompileError::UnsupportedScalar(name) => {
                String::from_str(
                    "Only Date and DateTime scalars are supported at the moment, found `",
                ).concat(name.as_str()).concat("`")
            },
            CompileError::UndeclaredScalar(DateScalar::Date) => {
                String::from_str(
                    "Fields with type `Date` is only allowed if you have define a scalar named `Date`",
                )
            },
            CompileError::UndeclaredScalar(DateScalar::DateTime) => {
                String::from_str(
                    "Fields with type `DateTime` is only allowed if you have define a scalar named `DateTime`",
                )
            },
            CompileError::NotImplemented(part) => {
                String::from_str("not yet implemented: ").concat(part.name())
            },
        }
    }
}

/// Whether a result holds the value, or the error, that `model` holds.
pub open spec fn agrees<T: View, E: View>(result: Result<T, E>, model: Result<T::V, E::V>) -> bool {
    match model {
        Ok(value) => result is Ok && result->Ok_0@ == value,
        Err(error) => result is Err && result->Err_0@ == error,
    }
}

} // verus!
