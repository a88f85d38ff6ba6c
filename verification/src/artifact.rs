//! What the compiler produces: descriptions of the Rust items to emit,
//! one per schema definition and per object type.

use vstd::prelude::*;
use crate::schema::optional_name;

verus! {

/// A Rust type in a generated signature.
#[derive(Debug, PartialEq, Eq)]
pub enum HostType {
    /// `Int`: a 32-bit signed integer.
    Int,
    /// `Float`: a 64-bit floating-point number.
    Float,
    /// `String`: an owned string.
    Text,
    /// `Boolean`.
    Boolean,
    /// `Date`: a calendar date without a time zone.
    Date,
    /// `DateTime`: a date and time in UTC.
    DateTime,
    /// A type that the schema defines, under its own name.
    Named(String),
    /// A value that may be absent.
    Optional(Box<HostType>),
    /// A list of values.
    List(Box<HostType>),
}

/// The mathematical value of a [`HostType`].
pub enum HostTypeModel {
    Int,
    Float,
    Text,
    Boolean,
    Date,
    DateTime,
    Named(Seq<char>),
    Optional(Box<HostTypeModel>),
    List(Box<HostTypeModel>),
}

impl HostType {
    /// The value of a Rust type, level by level.
    pub open spec fn model(self) -> HostTypeModel
        decreases self,
    {
        match self {
            HostType::Int => HostTypeModel::Int,
            HostType::Float => HostTypeModel::Float,
            HostType::Text => HostTypeModel::Text,
            HostType::Boolean => HostTypeModel::Boolean,
            HostType::Date => HostTypeModel::Date,
            HostType::DateTime => HostTypeModel::DateTime,
            HostType::Named(name) => HostTypeModel::Named(name@),
            HostType::Optional(inner) => HostTypeModel::Optional(Box::new((*inner).model())),
            HostType::List(inner) => HostTypeModel::List(Box::new((*inner).model())),
        }
    }
}

impl Clone for HostType {
    fn clone(&self) -> (copy: Self)
        ensures
            copy@ == self@,
        decreases self,
    {
        match self {
            HostType::Int => HostType::Int,
            HostType::Float => HostType::Float,
            HostType::Text => HostType::Text,
            HostType::Boolean => HostType::Boolean,
            HostType::Date => HostType::Date,
            HostType::DateTime => HostType::DateTime,
            HostType::Named(name) => HostType::Named(name.clone()),
            HostType::Optional(inner) => HostType::Optional(Box::new((&**inner).clone())),
            HostType::List(inner) => HostType::List(Box::new((&**inner).clone())),
        }
    }
}

impl View for HostType {
    type V = HostTypeModel;

    open spec fn view(&self) -> HostTypeModel {
        self.model()
    }
}

/// A parameter of a resolver: its Rust name and type.
#[derive(Debug, PartialEq, Eq)]
pub struct GeneratedArgument {
    pub name: String,
    pub host_type: HostType,
}

/// The mathematical value of a [`GeneratedArgument`].
pub struct GeneratedArgumentModel {
    pub name: Seq<char>,
    pub host_type: HostTypeModel,
}

impl View for GeneratedArgument {
    type V = GeneratedArgumentModel;

    open spec fn view(&self) -> GeneratedArgumentModel {
        GeneratedArgumentModel { name: self.name@, host_type: self.host_type@ }
    }
}

impl Clone for GeneratedArgument {
    fn clone(&self) -> (copy: Self)
        ensures
            copy@ == self@,
    {
        GeneratedArgument { name: self.name.clone(), host_type: self.host_type.clone() }
    }
}

/// The binding of one field: the resolver takes the executor and the
/// arguments, and hands them in this order to the method `method` of the
/// implementing type, which returns `return_type` or a field error.
#[derive(Debug, PartialEq, Eq)]
pub struct GeneratedField {
    /// The field's name as the schema writes it.
    pub name: String,
    /// The method that resolves the field.
    pub method: String,
    pub arguments: Vec<GeneratedArgument>,
    pub return_type: HostType,
}

/// The mathematical value of a [`GeneratedField`].
pub struct GeneratedFieldModel {
    pub name: Seq<char>,
    pub method: Seq<char>,
    pub arguments: Seq<GeneratedArgumentModel>,
    pub return_type: HostTypeModel,
}

impl View for GeneratedField {
    type V = GeneratedFieldModel;

    open spec fn view(&self) -> GeneratedFieldModel {
        GeneratedFieldModel {
            name: self.name@,
            method: self.method@,
            arguments: self.arguments@.map_values(|a: GeneratedArgument| a@),
            return_type: self.return_type@,
        }
    }
}

impl Clone for GeneratedField {
    fn clone(&self) -> (copy: Self)
        ensures
            copy@ == self@,
    {
        let copy = GeneratedField {
            name: self.name.clone(),
            method: self.method.clone(),
            arguments: self.arguments.clone(),
            return_type: self.return_type.clone(),
        };
        assert(copy@.arguments =~= self@.arguments);
        copy
    }
}

/// The values of a list of field bindings.
pub open spec fn fields_model(fields: Seq<GeneratedField>) -> Seq<GeneratedFieldModel> {
    fields.map_values(|f: GeneratedField| f@)
}

/// One generated item.
#[derive(Debug, PartialEq, Eq)]
pub enum GeneratedArtifact {
    /// The alias of the root schema type. Without a mutation type the
    /// schema has the empty mutation.
    RootSchema { query: String, mutation: Option<String> },
    /// The binding block of an object type, its fields in declaration
    /// order.
    ObjectBinding { name: String, fields: Vec<GeneratedField> },
}

/// The mathematical value of a [`GeneratedArtifact`].
pub enum GeneratedArtifactModel {
    RootSchema { query: Seq<char>, mutation: Option<Seq<char>> },
    ObjectBinding { name: Seq<char>, fields: Seq<GeneratedFieldModel> },
}

impl View for GeneratedArtifact {
    type V = GeneratedArtifactModel;

    open spec fn view(&self) -> GeneratedArtifactModel {
        match self {
            GeneratedArtifact::RootSchema { query, mutation } => GeneratedArtifactModel::RootSchema {
                query: query@,
                mutation: optional_name(*mutation),
            },
            GeneratedArtifact::ObjectBinding { name, fields } => {
                GeneratedArtifactModel::ObjectBinding {
                    name: name@,
                    fields: fields_model(fields@),
                }
            },
        }
    }
}

impl Clone for GeneratedArtifact {
    fn clone(&self) -> (copy: Self)
        ensures
            copy@ == self@,
    {
        match self {
            GeneratedArtifact::RootSchema { query, mutation } => {
                GeneratedArtifact::RootSchema { query: query.clone(), mutation: mutation.clone() }
            },
            GeneratedArtifact::ObjectBinding { name, fields } => {
                let copy = fields.clone();
                assert(fields_model(copy@) =~= fields_model(fields@));
                GeneratedArtifact::ObjectBinding { name: name.clone(), fields: copy }
            },
        }
    }
}

} // verus!
