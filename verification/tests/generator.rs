use graphql_bindings::artifact::{GeneratedArgument, GeneratedArtifact, GeneratedField, HostType};
use graphql_bindings::error::{CompileError, DateScalar, Unimplemented};
use graphql_bindings::generate::{
    argument_to_name_and_rust_type, gen_field, gen_field_type, gen_field_type_with_nullability,
    gen_obj_type, gen_schema_def, gen_with,
};
use graphql_bindings::nullability::{Nullability, TypeWithNullability};
use graphql_bindings::output::Output;
use graphql_bindings::schema::{Field, InputValue, ObjectType, SchemaDefinition, Type};
use graphql_bindings::text::field_method_name;

fn named(name: &str) -> Type {
    Type::NamedType(name.to_string())
}

fn list(inner: Type) -> Type {
    Type::ListType(Box::new(inner))
}

fn non_null(inner: Type) -> Type {
    Type::NonNullType(Box::new(inner))
}

fn optional(inner: HostType) -> HostType {
    HostType::Optional(Box::new(inner))
}

fn list_of(inner: HostType) -> HostType {
    HostType::List(Box::new(inner))
}

fn argument(name: &str, value_type: Type) -> InputValue {
    InputValue { name: name.to_string(), value_type }
}

fn field(name: &str, arguments: Vec<InputValue>, field_type: Type) -> Field {
    Field { name: name.to_string(), arguments, field_type }
}

fn parameter(name: &str, host_type: HostType) -> GeneratedArgument {
    GeneratedArgument { name: name.to_string(), host_type }
}

fn binding(
    name: &str,
    method: &str,
    arguments: Vec<GeneratedArgument>,
    return_type: HostType,
) -> GeneratedField {
    GeneratedField { name: name.to_string(), method: method.to_string(), arguments, return_type }
}

#[test]
fn method_name_has_the_prefix() {
    assert_eq!(field_method_name("first_name"), "field_first_name");
    assert_eq!(field_method_name(""), "field_");
}

#[test]
fn non_null_name_is_the_bare_type() {
    let out = Output::new();
    let resolved = TypeWithNullability::NamedType("Int".to_string(), Nullability::NotNull);
    assert_eq!(gen_field_type_with_nullability(resolved, &out), Ok(HostType::Int));
}

#[test]
fn nullable_name_is_optional() {
    let out = Output::new();
    let resolved = TypeWithNullability::NamedType("Int".to_string(), Nullability::Nullable);
    assert_eq!(gen_field_type_with_nullability(resolved, &out), Ok(optional(HostType::Int)));
}

#[test]
fn lists_wrap_level_by_level() {
    let out = Output::new();
    let element = || TypeWithNullability::NamedType("User".to_string(), Nullability::NotNull);
    let user = || HostType::Named("User".to_string());
    assert_eq!(
        gen_field_type_with_nullability(
            TypeWithNullability::ListType(Box::new(element()), Nullability::NotNull),
            &out
        ),
        Ok(list_of(user()))
    );
    assert_eq!(
        gen_field_type_with_nullability(
            TypeWithNullability::ListType(Box::new(element()), Nullability::Nullable),
            &out
        ),
        Ok(optional(list_of(user())))
    );
}

#[test]
fn type_expressions_to_rust_types() {
    let out = Output::new();
    assert_eq!(gen_field_type(non_null(named("Int")), &out), Ok(HostType::Int));
    assert_eq!(gen_field_type(named("Float"), &out), Ok(optional(HostType::Float)));
    assert_eq!(
        gen_field_type(list(named("String")), &out),
        Ok(optional(list_of(optional(HostType::Text))))
    );
    assert_eq!(
        gen_field_type(non_null(list(non_null(named("Boolean")))), &out),
        Ok(list_of(HostType::Boolean))
    );
    assert_eq!(
        gen_field_type(list(non_null(list(named("Post")))), &out),
        Ok(optional(list_of(list_of(optional(HostType::Named("Post".to_string()))))))
    );
}

#[test]
fn fault_inside_a_list_is_the_fault_of_the_type() {
    let out = Output::new();
    assert_eq!(
        gen_field_type(non_null(list(non_null(named("Date")))), &out),
        Err(CompileError::UndeclaredScalar(DateScalar::Date))
    );
    assert_eq!(
        gen_field_type(list(named("ID")), &out),
        Err(CompileError::NotImplemented(Unimplemented::IdScalar))
    );
}

#[test]
fn argument_name_is_in_snake_case() {
    let out = Output::new();
    assert_eq!(
        argument_to_name_and_rust_type(argument("firstName", non_null(named("String"))), &out),
        Ok(parameter("first_name", HostType::Text))
    );
    assert_eq!(
        argument_to_name_and_rust_type(argument("limit", named("Int")), &out),
        Ok(parameter("limit", optional(HostType::Int)))
    );
}

#[test]
fn argument_of_an_undeclared_scalar_is_a_fault() {
    let out = Output::new();
    assert_eq!(
        argument_to_name_and_rust_type(argument("since", named("DateTime")), &out),
        Err(CompileError::UndeclaredScalar(DateScalar::DateTime))
    );
}

#[test]
fn field_names_are_converted_to_snake_case() {
    let out = Output::new();
    assert_eq!(
        gen_field(field("firstName", vec![], non_null(named("String"))), &out),
        Ok(binding("firstName", "field_first_name", vec![], HostType::Text))
    );
    assert_eq!(
        gen_field(field("ID", vec![], non_null(named("String"))), &out),
        Ok(binding("ID", "field_id", vec![], HostType::Text))
    );
    assert_eq!(
        gen_field(field("XMLHttpRequest", vec![], non_null(named("String"))), &out),
        Ok(binding("XMLHttpRequest", "field_xml_http_request", vec![], HostType::Text))
    );
    assert_eq!(
        gen_field(field("already_snake", vec![], non_null(named("String"))), &out),
        Ok(binding("already_snake", "field_already_snake", vec![], HostType::Text))
    );
}

#[test]
fn snake_case_is_the_same_on_every_call() {
    let out = Output::new();
    let first = gen_field(field("createdAtTime", vec![], named("Int")), &out);
    let second = gen_field(field("createdAtTime", vec![], named("Int")), &out);
    assert_eq!(first, second);
    assert_eq!(
        first,
        Ok(binding("createdAtTime", "field_created_at_time", vec![], optional(HostType::Int)))
    );
}

#[test]
fn field_arguments_keep_their_order() {
    let mut out = Output::new();
    out.date_scalar_defined();
    let generated = gen_field(
        field(
            "postsBetween",
            vec![
                argument("startDate", non_null(named("Date"))),
                argument("endDate", named("Date")),
                argument("tags", list(non_null(named("String")))),
            ],
            non_null(list(non_null(named("Post")))),
        ),
        &out,
    );
    assert_eq!(
        generated,
        Ok(binding(
            "postsBetween",
            "field_posts_between",
            vec![
                parameter("start_date", HostType::Date),
                parameter("end_date", optional(HostType::Date)),
                parameter("tags", optional(list_of(HostType::Text))),
            ],
            list_of(HostType::Named("Post".to_string())),
        ))
    );
}

#[test]
fn return_type_is_looked_at_before_the_arguments() {
    let out = Output::new();
    assert_eq!(
        gen_field(field("f", vec![argument("a", named("Date"))], named("ID")), &out),
        Err(CompileError::NotImplemented(Unimplemented::IdScalar))
    );
}

#[test]
fn first_faulty_argument_gives_the_error() {
    let out = Output::new();
    assert_eq!(
        gen_field(
            field(
                "f",
                vec![
                    argument("a", named("Int")),
                    argument("b", named("DateTime")),
                    argument("c", named("ID")),
                ],
                named("Int")
            ),
            &out
        ),
        Err(CompileError::UndeclaredScalar(DateScalar::DateTime))
    );
}

#[test]
fn gen_with_collects_the_bindings_in_order() {
    let mut out = Output::new();
    out.push(GeneratedArtifact::RootSchema { query: "Query".to_string(), mutation: None });
    let generated = gen_with(
        vec![field("a", vec![], named("Int")), field("b", vec![], non_null(named("Int")))],
        &out,
    );
    assert_eq!(
        generated,
        Ok(vec![
            binding("a", "field_a", vec![], optional(HostType::Int)),
            binding("b", "field_b", vec![], HostType::Int),
        ])
    );
    assert_eq!(
        out.tokens(),
        vec![GeneratedArtifact::RootSchema { query: "Query".to_string(), mutation: None }]
    );
}

#[test]
fn gen_with_sees_the_declared_scalars() {
    let mut out = Output::new();
    out.date_time_scalar_defined();
    assert_eq!(
        gen_with(vec![field("at", vec![], non_null(named("DateTime")))], &out),
        Ok(vec![binding("at", "field_at", vec![], HostType::DateTime)])
    );
    assert_eq!(gen_with(vec![], &out), Ok(vec![]));
}

#[test]
fn gen_with_stops_at_the_first_faulty_field() {
    let out = Output::new();
    assert_eq!(
        gen_with(
            vec![
                field("a", vec![], named("Int")),
                field("b", vec![], named("Date")),
                field("c", vec![], named("ID")),
            ],
            &out
        ),
        Err(CompileError::UndeclaredScalar(DateScalar::Date))
    );
}

#[test]
fn object_with_a_non_null_int_and_a_list_of_strings() {
    let mut out = Output::new();
    let object = ObjectType {
        name: "User".to_string(),
        fields: vec![
            field("age", vec![], non_null(named("Int"))),
            field("nicknames", vec![], list(named("String"))),
        ],
    };
    assert_eq!(gen_obj_type(object, &mut out), Ok(()));
    assert_eq!(
        out.tokens(),
        vec![GeneratedArtifact::ObjectBinding {
            name: "User".to_string(),
            fields: vec![
                binding("age", "field_age", vec![], HostType::Int),
                binding(
                    "nicknames",
                    "field_nicknames",
                    vec![],
                    optional(list_of(optional(HostType::Text)))
                ),
            ],
        }]
    );
}

#[test]
fn object_without_fields_has_an_empty_binding_block() {
    let mut out = Output::new();
    assert_eq!(gen_obj_type(ObjectType { name: "Empty".to_string(), fields: vec![] }, &mut out), Ok(()));
    assert_eq!(
        out.tokens(),
        vec![GeneratedArtifact::ObjectBinding { name: "Empty".to_string(), fields: vec![] }]
    );
}

#[test]
fn faulty_object_adds_nothing() {
    let mut out = Output::new();
    out.push(GeneratedArtifact::RootSchema { query: "Query".to_string(), mutation: None });
    let object = ObjectType {
        name: "User".to_string(),
        fields: vec![field("age", vec![], named("Int")), field("born", vec![], named("Date"))],
    };
    assert_eq!(
        gen_obj_type(object, &mut out),
        Err(CompileError::UndeclaredScalar(DateScalar::Date))
    );
    assert!(!out.is_date_scalar_defined());
    assert_eq!(
        out.tokens(),
        vec![GeneratedArtifact::RootSchema { query: "Query".to_string(), mutation: None }]
    );
}

#[test]
fn schema_without_mutation_has_the_empty_mutation() {
    let mut out = Output::new();
    let schema = SchemaDefinition { query: Some("Query".to_string()), mutation: None };
    assert_eq!(gen_schema_def(schema, &mut out), Ok(()));
    assert_eq!(
        out.tokens(),
        vec![GeneratedArtifact::RootSchema { query: "Query".to_string(), mutation: None }]
    );
}

#[test]
fn schema_with_mutation_names_it() {
    let mut out = Output::new();
    let schema = SchemaDefinition {
        query: Some("Query".to_string()),
        mutation: Some("Mutation".to_string()),
    };
    assert_eq!(gen_schema_def(schema, &mut out), Ok(()));
    assert_eq!(
        out.tokens(),
        vec![GeneratedArtifact::RootSchema {
            query: "Query".to_string(),
            mutation: Some("Mutation".to_string()),
        }]
    );
}

#[test]
fn schema_without_query_is_rejected() {
    let mut out = Output::new();
    let schema = SchemaDefinition { query: None, mutation: Some("Mutation".to_string()) };
    assert_eq!(gen_schema_def(schema, &mut out), Err(CompileError::MissingQueryRoot));
    assert_eq!(out.tokens(), vec![]);
}
