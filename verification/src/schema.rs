//! The schema document as the compiler reads it: definitions in source
//! order, object types with their fields, and type expressions whose
//! non-null markers wrap the type they apply to.

use vstd::prelude::*;

verus! {

/// A type expression as written in a schema: `Int`, `[Int]`, `Int!`.
#[derive(Debug, PartialEq, Eq)]
pub enum Type {
    NamedType(String),
    ListType(Box<Type>),
    NonNullType(Box<Type>),
}

/// The mathematical value of a [`Type`].
pub enum TypeModel {
    NamedType(Seq<char>),
    ListType(Box<TypeModel>),
    NonNullType(Box<TypeModel>),
}

impl Type {
    /// The value of a type expression, level by level.
    pub open spec fn model(self) -> TypeModel
        decreases self,
    {
        match self {
            Type::NamedType(name) => TypeModel::NamedType(name@),
            Type::ListType(inner) => TypeModel::ListType(Box::new((*inner).model())),
            Type::NonNullType(inner) => TypeModel::NonNullType(Box::new((*inner).model())),
        }
    }
}

impl Clone for Type {
    fn clone(&self) -> (copy: Self)
        ensures
            copy@ == self@,
        decreases self,
    {
        match self {
            Type::NamedType(name) => Type::NamedType(name.clone()),
            Type::ListType(inner) => Type::ListType(Box::new((&**inner).clone())),
            Type::NonNullType(inner) => Type::NonNullType(Box::new((&**inner).clone())),
        }
    }
}

impl View for Type {
    type V = TypeModel;

    open spec fn view(&self) -> TypeModel {
        self.model()
    }
}

/// An argument of a field. A default value written in the schema is not
/// part of it.
#[derive(Debug, PartialEq, Eq)]
pub struct InputValue {
    pub name: String,
    pub value_type: Type,
}

/// The mathematical value of an [`InputValue`].
pub struct InputValueModel {
    pub name: Seq<char>,
    pub value_type: TypeModel,
}

impl View for InputValue {
    type V = InputValueModel;

    open spec fn view(&self) -> InputValueModel {
        InputValueModel { name: self.name@, value_type: self.value_type@ }
    }
}

impl Clone for InputValue {
    fn clone(&self) -> (copy: Self)
        ensures
            copy@ == self@,
    {
        InputValue { name: self.name.clone(), value_type: self.value_type.clone() }
    }
}

/// A field of an object type.
#[derive(Debug, PartialEq, Eq)]
pub struct Field {
    pub name: String,
    pub arguments: Vec<InputValue>,
    pub field_type: Type,
}

/// The mathematical value of a [`Field`].
pub struct FieldModel {
    pub name: Seq<char>,
    pub arguments: Seq<InputValueModel>,
    pub field_type: TypeModel,
}

impl View for Field {
    type V = FieldModel;

    open spec fn view(&self) -> FieldModel {
        FieldModel {
            name: self.name@,
            arguments: self.arguments@.map_values(|a: InputValue| a@),
            field_type: self.field_type@,
        }
    }
}

impl Clone for Field {
    fn clone(&self) -> (copy: Self)
        ensures
            copy@ == self@,
    {
        let copy = Field {
            name: self.name.clone(),
            arguments: self.arguments.clone(),
            field_type: self.field_type.clone(),
        };
        assert(copy@.arguments =~= self@.arguments);
        copy
    }
}

/// An object type: a name and its fields in declaration order.
#[derive(Debug, PartialEq, Eq)]
pub struct ObjectType {
    pub name: String,
    pub fields: Vec<Field>,
}

/// The mathematical value of an [`ObjectType`].
pub struct ObjectTypeModel {
    pub name: Seq<char>,
    pub fields: Seq<FieldModel>,
}

impl View for ObjectType {
    type V = ObjectTypeModel;

    open spec fn view(&self) -> ObjectTypeModel {
        ObjectTypeModel { name: self.name@, fields: self.fields@.map_values(|f: Field| f@) }
    }
}

impl Clone for ObjectType {
    fn clone(&self) -> (copy: Self)
        ensures
            copy@ == self@,
    {
        let copy = ObjectType { name: self.name.clone(), fields: self.fields.clone() };
        assert(copy@.fields =~= self@.fields);
        copy
    }
}

/// The declaration of a custom scalar.
#[derive(Debug, PartialEq, Eq)]
pub struct ScalarType {
    pub name: String,
}

/// The mathematical value of a [`ScalarType`].
pub struct ScalarTypeModel {
    pub name: Seq<char>,
}

impl View for ScalarType {
    type V = ScalarTypeModel;

    open spec fn view(&self) -> ScalarTypeModel {
        ScalarTypeModel { name: self.name@ }
    }
}

impl Clone for ScalarType {
    fn clone(&self) -> (copy: Self)
        ensures
            copy@ == self@,
    {
        ScalarType { name: self.name.clone() }
    }
}

/// The `schema { .. }` block: the names of the root types.
#[derive(Debug, PartialEq, Eq)]
pub struct SchemaDefinition {
    pub query: Option<String>,
    pub mutation: Option<String>,
}

/// The mathematical value of a [`SchemaDefinition`].
pub struct SchemaDefinitionModel {
    pub query: Option<Seq<char>>,
    pub mutation: Option<Seq<char>>,
}

/// The characters of an optional name.
pub open spec fn optional_name(name: Option<String>) -> Option<Seq<char>> {
    match name {
        Some(n) => Some(n@),
        None => None,
    }
}

impl View for SchemaDefinition {
    type V = SchemaDefinitionModel;

    open spec fn view(&self) -> SchemaDefinitionModel {
        SchemaDefinitionModel {
            query: optional_name(self.query),
            mutation: optional_name(self.mutation),
        }
    }
}

impl Clone for SchemaDefinition {
    fn clone(&self) -> (copy: Self)
        ensures
            copy@ == self@,
    {
        SchemaDefinition { query: self.query.clone(), mutation: self.mutation.clone() }
    }
}

/// A type definition. Of interfaces, unions, enums and input objects only
/// the kind is kept: the compiler rejects them whatever they hold.
#[derive(Debug, PartialEq, Eq)]
pub enum TypeDefinition {
    Scalar(ScalarType),
    Object(ObjectType),
    Interface,
    Union,
    Enum,
    InputObject,
}

/// The mathematical value of a [`TypeDefinition`].
pub enum TypeDefinitionModel {
    Scalar(ScalarTypeModel),
    Object(ObjectTypeModel),
    Interface,
    Union,
    Enum,
    InputObject,
}

impl View for TypeDefinition {
    type V = TypeDefinitionModel;

    open spec fn view(&self) -> TypeDefinitionModel {
        match self {
            TypeDefinition::Scalar(s) => TypeDefinitionModel::Scalar(s@),
            TypeDefinition::Object(o) => TypeDefinitionModel::Object(o@),
            TypeDefinition::Interface => TypeDefinitionModel::Interface,
            TypeDefinition::Union => TypeDefinitionModel::Union,
            TypeDefinition::Enum => TypeDefinitionModel::Enum,
            TypeDefinition::InputObject => TypeDefinitionModel::InputObject,
        }
    }
}

impl Clone for TypeDefinition {
    fn clone(&self) -> (copy: Self)
        ensures
            copy@ == self@,
    {
        match self {
            TypeDefinition::Scalar(scalar_type) => TypeDefinition::Scalar(scalar_type.clone()),
            TypeDefinition::Object(obj_type) => TypeDefinition::Object(obj_type.clone()),
            TypeDefinition::Interface => TypeDefinition::Interface,
            TypeDefinition::Union => TypeDefinition::Union,
            TypeDefinition::Enum => TypeDefinition::Enum,
            TypeDefinition::InputObject => TypeDefinition::InputObject,
        }
    }
}

/// A top-level definition. Of type extensions and directive definitions
/// only the kind is kept.
#[derive(Debug, PartialEq, Eq)]
pub enum Definition {
    SchemaDefinition(SchemaDefinition),
    TypeDefinition(TypeDefinition),
    TypeExtension,
    DirectiveDefinition,
}

/// The mathematical value of a [`Definition`].
pub enum DefinitionModel {
    SchemaDefinition(SchemaDefinitionModel),
    TypeDefinition(TypeDefinitionModel),
    TypeExtension,
    DirectiveDefinition,
}

impl View for Definition {
    type V = DefinitionModel;

    open spec fn view(&self) -> DefinitionModel {
        match self {
            Definition::SchemaDefinition(s) => DefinitionModel::SchemaDefinition(s@),
            Definition::TypeDefinition(t) => DefinitionModel::TypeDefinition(t@),
            Definition::TypeExtension => DefinitionModel::TypeExtension,
            Definition::DirectiveDefinition => DefinitionModel::DirectiveDefinition,
        }
    }
}

impl Clone for Definition {
    fn clone(&self) -> (copy: Self)
        ensures
            copy@ == self@,
    {
        match self {
            Definition::SchemaDefinition(schema_def) => {
                Definition::SchemaDefinition(schema_def.clone())
            },
            Definition::TypeDefinition(type_def) => Definition::TypeDefinition(type_def.clone()),
            Definition::TypeExtension => Definition::TypeExtension,
            Definition::DirectiveDefinition => Definition::DirectiveDefinition,
        }
    }
}

/// A schema document: its definitions in source order.
#[derive(Debug, PartialEq, Eq)]
pub struct Document {
    pub definitions: Vec<Definition>,
}

/// The mathematical value of a [`Document`].
pub struct DocumentModel {
    pub definitions: Seq<DefinitionModel>,
}

impl View for Document {
    type V = DocumentModel;

    open spec fn view(&self) -> DocumentModel {
        DocumentModel { definitions: self.definitions@.map_values(|d: Definition| d@) }
    }
}

impl Clone for Document {
    fn clone(&self) -> (copy: Self)
        ensures
            copy@ == self@,
    {
        let copy = Document { definitions: self.definitions.clone() };
        assert(copy@.definitions =~= self@.definitions);
        copy
    }
}

} // verus!
