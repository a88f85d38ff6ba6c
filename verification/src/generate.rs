//! From schema definitions to generated artifacts: the Rust type of each
//! field and argument, the binding of each field, and the state after each
//! definition of a document.

use vstd::prelude::*;
use crate::artifact::{
    fields_model, GeneratedArgument, GeneratedArgumentModel, GeneratedArtifact,
    GeneratedArtifactModel, GeneratedField, GeneratedFieldModel, HostType, HostTypeModel,
};
use crate::error::{agrees, CompileError, CompileErrorModel, DateScalar, Unimplemented};
use crate::nullability::{
    resolve, resolve_inner, Nullability, TypeWithNullability, TypeWithNullabilityModel,
};
use crate::output::{AddToOutput, Output, OutputModel, ScalarRegistry};
use crate::schema::{
    Field, FieldModel, InputValue, InputValueModel, ObjectType, ObjectTypeModel, SchemaDefinition,
    SchemaDefinitionModel, Type, TypeModel,
};
use crate::text::{field_method_name, method_prefix, snake_case, to_snake_case};

verus! {

/// The Rust type that a name stands for in a field's or an argument's
/// type. The built-in scalars have fixed types; `ID` is not handled;
/// `Date` and `DateTime` have theirs once the document has declared them;
/// any other name is taken for a type that the schema defines.
pub open spec fn scalar_host_type(name: Seq<char>, declared: ScalarRegistry) -> Result<
    HostTypeModel,
    CompileErrorModel,
> {
    if name == "Int"@ {
        Ok(HostTypeModel::Int)
    } else if name == "Float"@ {
        Ok(HostTypeModel::Float)
    } else if name == "String"@ {
        Ok(HostTypeModel::Text)
    } else if name == "Boolean"@ {
        Ok(HostTypeModel::Boolean)
    } else if name == "ID"@ {
        Err(CompileErrorModel::NotImplemented(Unimplemented::IdScalar))
    } else if name == "Date"@ {
        if declared.date_declared {
            Ok(HostTypeModel::Date)
        } else {
            Err(CompileErrorModel::UndeclaredScalar(DateScalar::Date))
        }
    } else if name == "DateTime"@ {
        if declared.date_time_declared {
            Ok(HostTypeModel::DateTime)
        } else {
            Err(CompileErrorModel::UndeclaredScalar(DateScalar::DateTime))
        }
    } else {
        Ok(HostTypeModel::Named(name))
    }
}

/// A Rust type as it stands at a level of the given nullability: bare
/// where the level is non-null, optional where it is nullable.
pub open spec fn with_nullability(host: HostTypeModel, nullability: Nullability) -> HostTypeModel {
    match nullability {
        Nullability::NotNull => host,
        Nullability::Nullable => HostTypeModel::Optional(Box::new(host)),
    }
}

/// The Rust type of a resolved type: each list a list of the Rust type of
/// its elements, each level wrapped by its own nullability.
pub open spec fn host_type_of(t: TypeWithNullabilityModel, declared: ScalarRegistry) -> Result<
    HostTypeModel,
    CompileErrorModel,
>
    decreases t,
{
    match t {
        TypeWithNullabilityModel::NamedType(name, nullability) => match scalar_host_type(
            name,
            declared,
        ) {
            Ok(host) => Ok(with_nullability(host, nullability)),
            Err(error) => Err(error),
        },
        TypeWithNullabilityModel::ListType(inner, nullability) => match host_type_of(*inner, declared) {
            Ok(host) => Ok(with_nullability(HostTypeModel::List(Box::new(host)), nullability)),
            Err(error) => Err(error),
        },
    }
}

/// The parameter generated for an argument: its name in snake_case, and
/// the Rust type of its type.
pub open spec fn generated_argument(arg: InputValueModel, declared: ScalarRegistry) -> Result<
    GeneratedArgumentModel,
    CompileErrorModel,
> {
    match host_type_of(resolve(arg.value_type), declared) {
        Ok(host_type) => Ok(GeneratedArgumentModel { name: snake_case(arg.name), host_type }),
        Err(error) => Err(error),
    }
}

/// The generator of parameters under the scalars declared so far.
pub open spec fn argument_generator(declared: ScalarRegistry) -> spec_fn(InputValueModel) -> Result<
    GeneratedArgumentModel,
    CompileErrorModel,
> {
    |arg: InputValueModel| generated_argument(arg, declared)
}

/// The items `done`, then those of `rest`; the error of `rest` where it
/// holds one.
pub open spec fn followed_by<B>(done: Seq<B>, rest: Result<Seq<B>, CompileErrorModel>) -> Result<
    Seq<B>,
    CompileErrorModel,
> {
    match rest {
        Ok(more) => Ok(done + more),
        Err(error) => Err(error),
    }
}

/// What `generate` gives for each item, in order; or the error of the
/// first item for which it gives one.
pub open spec fn generated_in_order<A, B>(
    items: Seq<A>,
    generate: spec_fn(A) -> Result<B, CompileErrorModel>,
) -> Result<Seq<B>, CompileErrorModel>
    decreases items.len(),
{
    if items.len() == 0 {
        Ok(Seq::empty())
    } else {
        match generate(items[0]) {
            Err(error) => Err(error),
            Ok(first) => match generated_in_order(items.drop_first(), generate) {
                Err(error) => Err(error),
                Ok(rest) => Ok(seq![first] + rest),
            },
        }
    }
}

/// The binding generated for a field. Its return type is looked at
/// first, then its arguments in order; the first fault is the error.
pub open spec fn generated_field(field: FieldModel, declared: ScalarRegistry) -> Result<
    GeneratedFieldModel,
    CompileErrorModel,
> {
    match host_type_of(resolve(field.field_type), declared) {
        Err(error) => Err(error),
        Ok(return_type) => match generated_in_order(field.arguments, argument_generator(declared)) {
            Err(error) => Err(error),
            Ok(arguments) => Ok(
                GeneratedFieldModel {
                    name: field.name,
                    method: method_prefix() + snake_case(field.name),
                    arguments,
                    return_type,
                },
            ),
        },
    }
}

/// The generator of field bindings under the scalars declared so far.
pub open spec fn field_generator(declared: ScalarRegistry) -> spec_fn(FieldModel) -> Result<
    GeneratedFieldModel,
    CompileErrorModel,
> {
    |field: FieldModel| generated_field(field, declared)
}

/// The state after an object type: one binding block more, with the
/// object's name and the bindings of its fields in order.
pub open spec fn after_object_type(obj_type: ObjectTypeModel, out: OutputModel) -> Result<
    OutputModel,
    CompileErrorModel,
> {
    match generated_in_order(obj_type.fields, field_generator(out.registry)) {
        Ok(fields) => Ok(
            out.push(GeneratedArtifactModel::ObjectBinding { name: obj_type.name, fields }),
        ),
        Err(error) => Err(error),
    }
}

/// The state after a schema definition: the root schema alias more, over
/// the query type and the mutation type, if one is named. A schema
/// definition without a query type is a fault.
pub open spec fn after_schema_definition(
    schema_def: SchemaDefinitionModel,
    out: OutputModel,
) -> Result<OutputModel, CompileErrorModel> {
    match schema_def.query {
        Some(query) => Ok(
            out.push(GeneratedArtifactModel::RootSchema { query, mutation: schema_def.mutation }),
        ),
        None => Err(CompileErrorModel::MissingQueryRoot),
    }
}

/// Whether a step that was to give `model` did so: on success the state
/// is the new one; on a fault the error is returned and the state is as
/// before.
pub open spec fn steps(
    result: Result<(), CompileError>,
    before: OutputModel,
    after: OutputModel,
    model: Result<OutputModel, CompileErrorModel>,
) -> bool {
    match model {
        Ok(next) => result is Ok && after == next,
        Err(error) => result is Err && result->Err_0@ == error && after == before,
    }
}

/// The name at the core of a type expression, inside every list and
/// marker.
pub open spec fn named_type(t: TypeModel) -> Seq<char>
    decreases t,
{
    match t {
        TypeModel::NamedType(name) => name,
        TypeModel::ListType(inner) => named_type(*inner),
        TypeModel::NonNullType(inner) => named_type(*inner),
    }
}

/// Whether a field has the type `name` at the core of its own type or of
/// the type of one of its arguments.
pub open spec fn field_uses(field: FieldModel, name: Seq<char>) -> bool {
    ||| named_type(field.field_type) == name
    ||| exists|i: int|
        0 <= i < field.arguments.len() && named_type(#[trigger] field.arguments[i].value_type)
            == name
}

/// Whether one of the fields of an object type uses the type `name`.
pub open spec fn object_uses(obj_type: ObjectTypeModel, name: Seq<char>) -> bool {
    exists|i: int| 0 <= i < obj_type.fields.len() && field_uses(#[trigger] obj_type.fields[i], name)
}

/// The six names that `scalar_host_type` tells apart from `Date` differ
/// from it, and from `DateTime`.
pub proof fn lemma_scalar_names_differ()
    ensures
        "Date"@ != "Int"@,
        "Date"@ != "Float"@,
        "Date"@ != "String"@,
        "Date"@ != "Boolean"@,
        "Date"@ != "ID"@,
        "Date"@ != "DateTime"@,
        "DateTime"@ != "Int"@,
        "DateTime"@ != "Float"@,
        "DateTime"@ != "String"@,
        "DateTime"@ != "Boolean"@,
        "DateTime"@ != "ID"@,
{
    reveal_strlit("Int");
    reveal_strlit("Float");
    reveal_strlit("String");
    reveal_strlit("Boolean");
    reveal_strlit("ID");
    reveal_strlit("Date");
    reveal_strlit("DateTime");
    assert("Date"@.len() == 4);
    assert("DateTime"@.len() == 8);
    assert("Int"@.len() == 3);
    assert("Float"@.len() == 5);
    assert("String"@.len() == 6);
    assert("Boolean"@.len() == 7);
    assert("ID"@.len() == 2);
}

/// `Date` stands for the date type exactly when it has been declared, and
/// is a fault otherwise; likewise `DateTime`.
pub proof fn lemma_date_scalars(declared: ScalarRegistry)
    ensures
        scalar_host_type("Date"@, declared) == if declared.date_declared {
            Ok::<HostTypeModel, CompileErrorModel>(HostTypeModel::Date)
        } else {
            Err(CompileErrorModel::UndeclaredScalar(DateScalar::Date))
        },
        scalar_host_type("DateTime"@, declared) == if declared.date_time_declared {
            Ok::<HostTypeModel, CompileErrorModel>(HostTypeModel::DateTime)
        } else {
            Err(CompileErrorModel::UndeclaredScalar(DateScalar::DateTime))
        },
{
    lemma_scalar_names_differ();
}

/// A type expression has a Rust type exactly when the name at its core
/// has one, and its fault is that of the name. Lists and markers add no
/// fault of their own.
pub proof fn lemma_host_type_faults(
    t: TypeModel,
    nullability: Nullability,
    declared: ScalarRegistry,
)
    ensures
        match scalar_host_type(named_type(t), declared) {
            Ok(_) => host_type_of(resolve_inner(t, nullability), declared) is Ok,
            Err(error) => host_type_of(resolve_inner(t, nullability), declared) == Err::<
                HostTypeModel,
                CompileErrorModel,
            >(error),
        },
    decreases t,
{
    match t {
        TypeModel::NamedType(_) => {},
        TypeModel::ListType(inner) => {
            lemma_host_type_faults(*inner, Nullability::Nullable, declared);
        },
        TypeModel::NonNullType(inner) => {
            lemma_host_type_faults(*inner, Nullability::NotNull, declared);
        },
    }
}

/// `generated_in_order` succeeds exactly when `generate` succeeds on every
/// item; it then gives one result per item, in the order of the items.
pub proof fn lemma_generated_in_order_ok<A, B>(
    items: Seq<A>,
    generate: spec_fn(A) -> Result<B, CompileErrorModel>,
)
    ensures
        generated_in_order(items, generate) is Ok <==> forall|i: int|
            0 <= i < items.len() ==> #[trigger] generate(items[i]) is Ok,
        generated_in_order(items, generate) matches Ok(results) ==> {
            &&& results.len() == items.len()
            &&& forall|i: int|
                0 <= i < items.len() ==> #[trigger] generate(items[i]) == Ok::<
                    B,
                    CompileErrorModel,
                >(results[i])
        },
    decreases items.len(),
{
    if items.len() > 0 {
        let rest = items.drop_first();
        lemma_generated_in_order_ok(rest, generate);
        assert forall|i: int| 1 <= i < items.len() implies items[i] == rest[i - 1] by {}
        if generated_in_order(items, generate) is Ok {
            let results = generated_in_order(items, generate)->Ok_0;
            let tail = generated_in_order(rest, generate)->Ok_0;
            assert(results == seq![generate(items[0])->Ok_0] + tail);
            assert forall|i: int| 0 <= i < items.len() implies #[trigger] generate(items[i])
                == Ok::<B, CompileErrorModel>(results[i]) by {
                if i > 0 {
                    assert(items[i] == rest[i - 1]);
                    assert(results[i] == tail[i - 1]);
                }
            }
        }
        if forall|i: int| 0 <= i < items.len() ==> #[trigger] generate(items[i]) is Ok {
            assert(generate(items[0]) is Ok);
            assert forall|i: int| 0 <= i < rest.len() implies #[trigger] generate(rest[i]) is Ok by {
                assert(rest[i] == items[i + 1]);
            }
        }
    }
}

/// Where `generated_in_order` fails, its error is that of the first item
/// on which `generate` fails.
pub proof fn lemma_generated_in_order_err<A, B>(
    items: Seq<A>,
    generate: spec_fn(A) -> Result<B, CompileErrorModel>,
) -> (first: int)
    requires
        generated_in_order(items, generate) is Err,
    ensures
        0 <= first < items.len(),
        forall|i: int| 0 <= i < first ==> #[trigger] generate(items[i]) is Ok,
        generate(items[first]) == Err::<B, CompileErrorModel>(
            generated_in_order(items, generate)->Err_0,
        ),
    decreases items.len(),
{
    if generate(items[0]) is Err {
        0
    } else {
        let rest = items.drop_first();
        let later = lemma_generated_in_order_err(rest, generate);
        assert forall|i: int| 0 <= i < later + 1 implies #[trigger] generate(items[i]) is Ok by {
            if i > 0 {
                assert(items[i] == rest[i - 1]);
            }
        }
        assert(items[later + 1] == rest[later]);
        later + 1
    }
}

/// A field that uses a scalar which is a fault under the declared
/// scalars has no binding.
pub proof fn lemma_field_fault(field: FieldModel, name: Seq<char>, declared: ScalarRegistry)
    requires
        field_uses(field, name),
        scalar_host_type(name, declared) is Err,
    ensures
        generated_field(field, declared) is Err,
{
    if named_type(field.field_type) == name {
        lemma_host_type_faults(field.field_type, Nullability::Nullable, declared);
    } else {
        let i = choose|i: int|
            0 <= i < field.arguments.len() && named_type(#[trigger] field.arguments[i].value_type)
                == name;
        let generate = argument_generator(declared);
        lemma_host_type_faults(field.arguments[i].value_type, Nullability::Nullable, declared);
        assert(generate(field.arguments[i]) is Err);
        lemma_generated_in_order_ok(field.arguments, generate);
    }
}

/// An object type one of whose fields uses a scalar which is a fault
/// under the declared scalars is rejected.
pub proof fn lemma_object_fault(obj_type: ObjectTypeModel, name: Seq<char>, out: OutputModel)
    requires
        object_uses(obj_type, name),
        scalar_host_type(name, out.registry) is Err,
    ensures
        after_object_type(obj_type, out) is Err,
{
    let i = choose|i: int|
        0 <= i < obj_type.fields.len() && field_uses(#[trigger] obj_type.fields[i], name);
    let generate = field_generator(out.registry);
    lemma_field_fault(obj_type.fields[i], name, out.registry);
    assert(generate(obj_type.fields[i]) is Err);
    lemma_generated_in_order_ok(obj_type.fields, generate);
}

/// The Rust type that `name` stands for, given the scalars declared so
/// far.
pub fn graphql_scalar_type_to_rust_type(name: String, out: &Output) -> (host: Result<
    HostType,
    CompileError,
>)
    ensures
        agrees(host, scalar_host_type(name@, out@.registry)),
{
    if *name.as_str() == *"Int" {
        Ok(HostType::Int)
    } else if *name.as_str() == *"Float" {
        Ok(HostType::Float)
    } else if *name.as_str() == *"String" {
        Ok(HostType::Text)
    } else if *name.as_str() == *"Boolean" {
        Ok(HostType::Boolean)
    } else if *name.as_str() == *"ID" {
        Err(CompileError::NotImplemented(Unimplemented::IdScalar))
    } else if *name.as_str() == *"Date" {
        if out.is_date_scalar_defined() {
            Ok(HostType::Date)
        } else {
            Err(CompileError::UndeclaredScalar(DateScalar::Date))
        }
    } else if *name.as_str() == *"DateTime" {
        if out.is_date_time_scalar_defined() {
            Ok(HostType::DateTime)
        } else {
            Err(CompileError::UndeclaredScalar(DateScalar::DateTime))
        }
    } else {
        Ok(HostType::Named(name))
    }
}

/// The Rust type of a resolved type.
pub fn gen_field_type_with_nullability(field_type: TypeWithNullability, out: &Output) -> (host:
    Result<HostType, CompileError>)
    ensures
        agrees(host, host_type_of(field_type@, out@.registry)),
    decreases field_type,
{
    proof {
        reveal_with_fuel(HostType::model, 2);
    }
    match field_type {
        TypeWithNullability::NamedType(name, nullability) => {
            match graphql_scalar_type_to_rust_type(name, out) {
                Ok(name) => match nullability {
                    Nullability::NotNull => Ok(name),
                    Nullability::Nullable => Ok(HostType::Optional(Box::new(name))),
                },
                Err(error) => Err(error),
            }
        },
        TypeWithNullability::ListType(inner, nullability) => {
            match gen_field_type_with_nullability(*inner, out) {
                Ok(inner) => match nullability {
                    Nullability::NotNull => Ok(HostType::List(Box::new(inner))),
                    Nullability::Nullable => Ok(
                        HostType::Optional(Box::new(HostType::List(Box::new(inner)))),
                    ),
                },
                Err(error) => Err(error),
            }
        },
    }
}

/// The Rust type of a type expression.
pub fn gen_field_type(field_type: Type, out: &Output) -> (host: Result<HostType, CompileError>)
    ensures
        agrees(host, host_type_of(resolve(field_type@), out@.registry)),
{
    let field_type = TypeWithNullability::from_root_type(field_type);
    gen_field_type_with_nullability(field_type, out)
}

/// The parameter generated for an argument.
pub fn argument_to_name_and_rust_type(arg: InputValue, out: &Output) -> (generated: Result<
    GeneratedArgument,
    CompileError,
>)
    ensures
        agrees(generated, generated_argument(arg@, out@.registry)),
{
    let arg_name = to_snake_case(arg.name.as_str());
    match gen_field_type(arg.value_type, out) {
        Ok(arg_type) => Ok(GeneratedArgument { name: arg_name, host_type: arg_type }),
        Err(error) => Err(error),
    }
}

/// The binding generated for a field.
#[verifier::loop_isolation(false)]
pub fn gen_field(field: Field, out: &Output) -> (generated: Result<GeneratedField, CompileError>)
    ensures
        agrees(generated, generated_field(field@, out@.registry)),
{
    let Field { name, arguments, field_type } = field;
    let field_type = match gen_field_type(field_type, out) {
        Ok(field_type) => field_type,
        Err(error) => return Err(error),
    };
    let field_method = field_method_name(to_snake_case(name.as_str()).as_str());

    let ghost declared = arguments@.map_values(|a: InputValue| a@);
    let ghost generate = argument_generator(out@.registry);
    let mut args_names_and_types: Vec<GeneratedArgument> = Vec::new();
    proof {
        assert(declared.skip(0) =~= declared);
        assert(args_names_and_types@.map_values(|a: GeneratedArgument| a@) =~= Seq::empty());
        if let Ok(all) = generated_in_order(declared, generate) {
            assert(Seq::<GeneratedArgumentModel>::empty() + all =~= all);
        }
    }
    for arg in it: arguments.into_iter()
        invariant
            it.seq() == arguments@,
            generated_in_order(declared, generate) == followed_by(
                args_names_and_types@.map_values(|a: GeneratedArgument| a@),
                generated_in_order(declared.skip(it.index() as int), generate),
            ),
    {
        let ghost index = it.index() as int;
        let ghost done = args_names_and_types@.map_values(|a: GeneratedArgument| a@);
        proof {
            assert(declared.skip(index)[0] == arg@);
            assert(declared.skip(index).drop_first() =~= declared.skip(index + 1));
        }
        match argument_to_name_and_rust_type(arg, out) {
            Ok(generated) => {
                args_names_and_types.push(generated);
                proof {
                    let now = args_names_and_types@.map_values(|a: GeneratedArgument| a@);
                    assert(now =~= done.push(generated@));
                    if let Ok(rest) = generated_in_order(declared.skip(index + 1), generate) {
                        assert(done + (seq![generated@] + rest) =~= now + rest);
                    }
                }
            },
            Err(error) => {
                return Err(error);
            },
        }
    }
    proof {
        let done = args_names_and_types@.map_values(|a: GeneratedArgument| a@);
        assert(declared.skip(declared.len() as int) =~= Seq::empty());
        assert(done + Seq::<GeneratedArgumentModel>::empty() =~= done);
    }
    Ok(
        GeneratedField {
            name,
            method: field_method,
            arguments: args_names_and_types,
            return_type: field_type,
        },
    )
}

/// The bindings of the fields of one object, collected on their own
/// under the scalars that `other` has declared.
#[verifier::loop_isolation(false)]
pub fn gen_with(fields: Vec<Field>, other: &Output) -> (generated: Result<
    Vec<GeneratedField>,
    CompileError,
>)
    ensures
        match generated_in_order(
            fields@.map_values(|f: Field| f@),
            field_generator(other@.registry),
        ) {
            Ok(bindings) => generated is Ok && fields_model(generated->Ok_0@) == bindings,
            Err(error) => generated is Err && generated->Err_0@ == error,
        },
{
    let acc = other.clone_without_tokens();

    let ghost declared = fields@.map_values(|f: Field| f@);
    let ghost generate = field_generator(other@.registry);
    let mut bindings: Vec<GeneratedField> = Vec::new();
    proof {
        assert(declared.skip(0) =~= declared);
        assert(fields_model(bindings@) =~= Seq::empty());
        if let Ok(all) = generated_in_order(declared, generate) {
            assert(Seq::<GeneratedFieldModel>::empty() + all =~= all);
        }
    }
    for field in it: fields.into_iter()
        invariant
            it.seq() == fields@,
            generated_in_order(declared, generate) == followed_by(
                fields_model(bindings@),
                generated_in_order(declared.skip(it.index() as int), generate),
            ),
    {
        let ghost index = it.index() as int;
        let ghost done = fields_model(bindings@);
        proof {
            assert(declared.skip(index)[0] == field@);
            assert(declared.skip(index).drop_first() =~= declared.skip(index + 1));
        }
        match gen_field(field, &acc) {
            Ok(binding) => {
                bindings.push(binding);
                proof {
                    let now = fields_model(bindings@);
                    assert(now =~= done.push(binding@));
                    if let Ok(rest) = generated_in_order(declared.skip(index + 1), generate) {
                        assert(done + (seq![binding@] + rest) =~= now + rest);
                    }
                }
            },
            Err(error) => {
                return Err(error);
            },
        }
    }
    proof {
        let done = fields_model(bindings@);
        assert(declared.skip(declared.len() as int) =~= Seq::empty());
        assert(done + Seq::<GeneratedFieldModel>::empty() =~= done);
    }
    Ok(bindings)
}

/// Generates the binding block of an object type.
pub fn gen_obj_type(obj_type: ObjectType, out: &mut Output) -> (result: Result<(), CompileError>)
    ensures
        steps(result, old(out)@, final(out)@, after_object_type(obj_type@, old(out)@)),
{
    let ObjectType { name, fields } = obj_type;
    match gen_with(fields, out) {
        Ok(fields) => {
            GeneratedArtifact::ObjectBinding { name, fields }.add_to(out);
            Ok(())
        },
        Err(error) => Err(error),
    }
}

/// Generates the alias of the root schema type.
pub fn gen_schema_def(schema_def: SchemaDefinition, out: &mut Output) -> (result: Result<
    (),
    CompileError,
>)
    ensures
        steps(result, old(out)@, final(out)@, after_schema_definition(schema_def@, old(out)@)),
{
    let SchemaDefinition { query, mutation } = schema_def;
    match query {
        Some(query) => {
            GeneratedArtifact::RootSchema { query, mutation }.add_to(out);
            Ok(())
        },
        None => Err(CompileError::MissingQueryRoot),
    }
}

} // verus!
