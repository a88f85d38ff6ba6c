use graphql_bindings::artifact::{GeneratedArtifact, HostType};
use graphql_bindings::compile::gen_scalar_type;
use graphql_bindings::error::{CompileError, DateScalar, Unimplemented};
use graphql_bindings::generate::graphql_scalar_type_to_rust_type;
use graphql_bindings::output::{AddToOutput, Output};
use graphql_bindings::schema::ScalarType;

fn scalar(name: &str) -> ScalarType {
    ScalarType { name: name.to_string() }
}

fn root_schema(query: &str) -> GeneratedArtifact {
    GeneratedArtifact::RootSchema { query: query.to_string(), mutation: None }
}

#[test]
fn new_output_is_empty() {
    let out = Output::new();
    assert!(!out.is_date_scalar_defined());
    assert!(!out.is_date_time_scalar_defined());
    assert_eq!(out.tokens(), vec![]);
}

#[test]
fn push_appends_in_order() {
    let mut out = Output::new();
    out.push(root_schema("A"));
    out.push(root_schema("B"));
    assert_eq!(out.tokens(), vec![root_schema("A"), root_schema("B")]);
}

#[test]
fn add_to_appends_the_artifact() {
    let mut out = Output::new();
    out.push(root_schema("A"));
    root_schema("B").add_to(&mut out);
    assert_eq!(out.tokens(), vec![root_schema("A"), root_schema("B")]);
}

#[test]
fn declaring_date_sets_only_its_flag() {
    let mut out = Output::new();
    out.date_scalar_defined();
    assert!(out.is_date_scalar_defined());
    assert!(!out.is_date_time_scalar_defined());
}

#[test]
fn declaring_date_time_sets_only_its_flag() {
    let mut out = Output::new();
    out.date_time_scalar_defined();
    assert!(!out.is_date_scalar_defined());
    assert!(out.is_date_time_scalar_defined());
}

#[test]
fn declared_scalar_stays_declared() {
    let mut out = Output::new();
    out.date_scalar_defined();
    out.date_time_scalar_defined();
    out.date_scalar_defined();
    out.push(root_schema("Query"));
    assert!(out.is_date_scalar_defined());
    assert!(out.is_date_time_scalar_defined());
}

#[test]
fn clone_without_tokens_keeps_the_scalars_and_no_artifact() {
    let mut out = Output::new();
    out.date_scalar_defined();
    out.push(root_schema("Query"));
    let copy = out.clone_without_tokens();
    assert!(copy.is_date_scalar_defined());
    assert!(!copy.is_date_time_scalar_defined());
    assert_eq!(copy.tokens(), vec![]);
    assert_eq!(out.tokens(), vec![root_schema("Query")]);
}

#[test]
fn scalar_declaration_of_date() {
    let mut out = Output::new();
    assert_eq!(gen_scalar_type(scalar("Date"), &mut out), Ok(()));
    assert!(out.is_date_scalar_defined());
    assert!(!out.is_date_time_scalar_defined());
    assert_eq!(out.tokens(), vec![]);
}

#[test]
fn scalar_declaration_of_date_time() {
    let mut out = Output::new();
    assert_eq!(gen_scalar_type(scalar("DateTime"), &mut out), Ok(()));
    assert!(!out.is_date_scalar_defined());
    assert!(out.is_date_time_scalar_defined());
}

#[test]
fn scalar_declaration_of_another_name_is_rejected_with_the_name() {
    let mut out = Output::new();
    out.date_scalar_defined();
    assert_eq!(
        gen_scalar_type(scalar("Url"), &mut out),
        Err(CompileError::UnsupportedScalar("Url".to_string()))
    );
    assert!(out.is_date_scalar_defined());
    assert!(!out.is_date_time_scalar_defined());
    assert_eq!(out.tokens(), vec![]);
}

#[test]
fn scalar_names_are_case_sensitive() {
    let mut out = Output::new();
    assert_eq!(
        gen_scalar_type(scalar("date"), &mut out),
        Err(CompileError::UnsupportedScalar("date".to_string()))
    );
    assert_eq!(
        gen_scalar_type(scalar(""), &mut out),
        Err(CompileError::UnsupportedScalar(String::new()))
    );
}

#[test]
fn built_in_scalars_have_fixed_types() {
    let out = Output::new();
    assert_eq!(graphql_scalar_type_to_rust_type("Int".to_string(), &out), Ok(HostType::Int));
    assert_eq!(graphql_scalar_type_to_rust_type("Float".to_string(), &out), Ok(HostType::Float));
    assert_eq!(graphql_scalar_type_to_rust_type("String".to_string(), &out), Ok(HostType::Text));
    assert_eq!(
        graphql_scalar_type_to_rust_type("Boolean".to_string(), &out),
        Ok(HostType::Boolean)
    );
}

#[test]
fn id_is_not_implemented() {
    let out = Output::new();
    assert_eq!(
        graphql_scalar_type_to_rust_type("ID".to_string(), &out),
        Err(CompileError::NotImplemented(Unimplemented::IdScalar))
    );
}

#[test]
fn date_before_its_declaration_is_a_fault() {
    let out = Output::new();
    assert_eq!(
        graphql_scalar_type_to_rust_type("Date".to_string(), &out),
        Err(CompileError::UndeclaredScalar(DateScalar::Date))
    );
}

#[test]
fn date_after_its_declaration_is_the_date_type() {
    let mut out = Output::new();
    out.date_scalar_defined();
    assert_eq!(graphql_scalar_type_to_rust_type("Date".to_string(), &out), Ok(HostType::Date));
}

#[test]
fn date_time_goes_by_its_own_declaration() {
    let mut out = Output::new();
    out.date_scalar_defined();
    assert_eq!(
        graphql_scalar_type_to_rust_type("DateTime".to_string(), &out),
        Err(CompileError::UndeclaredScalar(DateScalar::DateTime))
    );
    let mut out = Output::new();
    out.date_time_scalar_defined();
    assert_eq!(
        graphql_scalar_type_to_rust_type("DateTime".to_string(), &out),
        Ok(HostType::DateTime)
    );
    assert_eq!(
        graphql_scalar_type_to_rust_type("Date".to_string(), &out),
        Err(CompileError::UndeclaredScalar(DateScalar::Date))
    );
}

#[test]
fn other_names_pass_through() {
    let out = Output::new();
    assert_eq!(
        graphql_scalar_type_to_rust_type("User".to_string(), &out),
        Ok(HostType::Named("User".to_string()))
    );
    assert_eq!(
        graphql_scalar_type_to_rust_type("int".to_string(), &out),
        Ok(HostType::Named("int".to_string()))
    );
}

#[test]
fn messages_of_the_errors() {
    assert_eq!(
        CompileError::MissingQueryRoot.message(),
        "Juniper requires that the schema type has a query"
    );
    assert_eq!(
        CompileError::UnsupportedScalar("Url".to_string()).message(),
        "Only Date and DateTime scalars are supported at the moment, found `Url`"
    );
    assert_eq!(
        CompileError::UndeclaredScalar(DateScalar::Date).message(),
        "Fields with type `Date` is only allowed if you have define a scalar named `Date`"
    );
    assert_eq!(
        CompileError::UndeclaredScalar(DateScalar::DateTime).message(),
        "Fields with type `DateTime` is only allowed if you have define a scalar named `DateTime`"
    );
    assert_eq!(
        CompileError::NotImplemented(Unimplemented::EnumType).message(),
        "not yet implemented: enum types"
    );
    assert_eq!(
        CompileError::NotImplemented(Unimplemented::IdScalar).message(),
        "not yet implemented: the scalar `ID`"
    );
}

#[test]
fn names_of_the_parts_that_are_not_implemented() {
    assert_eq!(Unimplemented::DirectiveDefinition.name(), "directive definitions");
    assert_eq!(Unimplemented::TypeExtension.name(), "type extensions");
    assert_eq!(Unimplemented::EnumType.name(), "enum types");
    assert_eq!(Unimplemented::InputObjectType.name(), "input object types");
    assert_eq!(Unimplemented::InterfaceType.name(), "interface types");
    assert_eq!(Unimplemented::UnionType.name(), "union types");
    assert_eq!(Unimplemented::IdScalar.name(), "the scalar `ID`");
}
