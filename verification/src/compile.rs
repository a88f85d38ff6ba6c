//! The compiler proper: the definitions of a document, taken in source
//! order, each against the state that the ones before it left.

use vstd::prelude::*;
use crate::artifact::{GeneratedArtifact, GeneratedArtifactModel, HostTypeModel};
use crate::error::{CompileError, CompileErrorModel, Unimplemented};
use crate::generate::{
    after_object_type, after_schema_definition, gen_obj_type, gen_schema_def,
    lemma_date_scalars, lemma_object_fault, lemma_scalar_names_differ, object_uses,
    scalar_host_type, steps,
};
use crate::output::{artifacts_model, Output, OutputModel};
use crate::schema::{
    Definition, DefinitionModel, Document, ObjectTypeModel, ScalarType, ScalarTypeModel,
    TypeDefinition, TypeDefinitionModel,
};

verus! {

/// The state after the declaration of a scalar: `Date` or `DateTime`
/// declared. No other scalar can be declared.
pub open spec fn after_scalar_type(scalar_type: ScalarTypeModel, out: OutputModel) -> Result<
    OutputModel,
    CompileErrorModel,
> {
    if scalar_type.name == "Date"@ {
        Ok(out.with_date())
    } else if scalar_type.name == "DateTime"@ {
        Ok(out.with_date_time())
    } else {
        Err(CompileErrorModel::UnsupportedScalar(scalar_type.name))
    }
}

/// The state after a type definition. Only scalars and object types are
/// handled.
pub open spec fn after_type_definition(type_def: TypeDefinitionModel, out: OutputModel) -> Result<
    OutputModel,
    CompileErrorModel,
> {
    match type_def {
        TypeDefinitionModel::Scalar(scalar_type) => after_scalar_type(scalar_type, out),
        TypeDefinitionModel::Object(obj_type) => after_object_type(obj_type, out),
        TypeDefinitionModel::Interface => Err(
            CompileErrorModel::NotImplemented(Unimplemented::InterfaceType),
        ),
        TypeDefinitionModel::Union => Err(
            CompileErrorModel::NotImplemented(Unimplemented::UnionType),
        ),
        TypeDefinitionModel::Enum => Err(CompileErrorModel::NotImplemented(Unimplemented::EnumType)),
        TypeDefinitionModel::InputObject => Err(
            CompileErrorModel::NotImplemented(Unimplemented::InputObjectType),
        ),
    }
}

/// The state after a definition. Only schema and type definitions are
/// handled.
pub open spec fn after_definition(def: DefinitionModel, out: OutputModel) -> Result<
    OutputModel,
    CompileErrorModel,
> {
    match def {
        DefinitionModel::SchemaDefinition(schema_def) => after_schema_definition(schema_def, out),
        DefinitionModel::TypeDefinition(type_def) => after_type_definition(type_def, out),
        DefinitionModel::TypeExtension => Err(
            CompileErrorModel::NotImplemented(Unimplemented::TypeExtension),
        ),
        DefinitionModel::DirectiveDefinition => Err(
            CompileErrorModel::NotImplemented(Unimplemented::DirectiveDefinition),
        ),
    }
}

/// Where a compilation stands: the state that the definitions before the
/// first fault have left, and that fault, if there is one.
pub struct Compilation {
    pub out: OutputModel,
    pub error: Option<CompileErrorModel>,
}

/// The definitions taken one after the other from the state `out`, up to
/// the first fault.
pub open spec fn after_definitions(defs: Seq<DefinitionModel>, out: OutputModel) -> Compilation
    decreases defs.len(),
{
    if defs.len() == 0 {
        Compilation { out, error: None }
    } else {
        match after_definition(defs[0], out) {
            Ok(next) => after_definitions(defs.drop_first(), next),
            Err(error) => Compilation { out, error: Some(error) },
        }
    }
}

/// What a document compiles to: its artifacts in order, or its first
/// fault.
pub open spec fn compiled(doc: Seq<DefinitionModel>) -> Result<
    Seq<GeneratedArtifactModel>,
    CompileErrorModel,
> {
    let end = after_definitions(doc, OutputModel::empty());
    match end.error {
        None => Ok(end.out.tokens),
        Some(error) => Err(error),
    }
}

/// The definition that declares the scalar `name`.
pub open spec fn scalar_declaration(name: Seq<char>) -> DefinitionModel {
    DefinitionModel::TypeDefinition(TypeDefinitionModel::Scalar(ScalarTypeModel { name }))
}

/// Compiling a document is compiling its first `m` definitions and then,
/// if they hold no fault, the others from the state that they left.
pub proof fn lemma_definitions_split(defs: Seq<DefinitionModel>, m: int, out: OutputModel)
    requires
        0 <= m <= defs.len(),
    ensures
        after_definitions(defs, out) == {
            let first = after_definitions(defs.take(m), out);
            if first.error is Some {
                first
            } else {
                after_definitions(defs.skip(m), first.out)
            }
        },
    decreases m,
{
    if m == 0 {
        assert(defs.take(0) =~= Seq::empty());
        assert(defs.skip(0) =~= defs);
    } else {
        assert(defs.take(m)[0] == defs[0]);
        assert(defs.take(m).drop_first() =~= defs.drop_first().take(m - 1));
        assert(defs.skip(m) =~= defs.drop_first().skip(m - 1));
        if let Ok(next) = after_definition(defs[0], out) {
            lemma_definitions_split(defs.drop_first(), m - 1, next);
        }
    }
}

/// A definition only appends to the artifacts, and leaves declared what
/// was declared.
pub proof fn lemma_definition_extends(def: DefinitionModel, out: OutputModel)
    ensures
        after_definition(def, out) matches Ok(next) ==> {
            &&& out.tokens.is_prefix_of(next.tokens)
            &&& out.registry.within(next.registry)
        },
{
}

/// A compilation only appends to the artifacts that it started with, and
/// leaves declared what was declared: no scalar is ever forgotten.
pub proof fn lemma_definitions_extend(defs: Seq<DefinitionModel>, out: OutputModel)
    ensures
        out.tokens.is_prefix_of(after_definitions(defs, out).out.tokens),
        out.registry.within(after_definitions(defs, out).out.registry),
    decreases defs.len(),
{
    if defs.len() > 0 {
        if let Ok(next) = after_definition(defs[0], out) {
            lemma_definition_extends(defs[0], out);
            lemma_definitions_extend(defs.drop_first(), next);
        }
    }
}

/// A definition that is a fault in every state makes the document a
/// fault, wherever it stands. Where the definitions before it hold no
/// fault, the document's fault is this one, and the state is the one
/// that they left.
pub proof fn lemma_fault_rejects(defs: Seq<DefinitionModel>, k: int, out: OutputModel)
    requires
        0 <= k < defs.len(),
        forall|state: OutputModel| #[trigger] after_definition(defs[k], state) is Err,
    ensures
        after_definitions(defs, out).error is Some,
        after_definitions(defs.take(k), out).error is None ==> after_definitions(defs, out) == (
        Compilation {
            out: after_definitions(defs.take(k), out).out,
            error: Some(
                after_definition(defs[k], after_definitions(defs.take(k), out).out)->Err_0,
            ),
        }),
{
    lemma_definitions_split(defs, k, out);
    let first = after_definitions(defs.take(k), out);
    if first.error is None {
        assert(defs.skip(k)[0] == defs[k]);
        assert(after_definition(defs[k], first.out) is Err);
    }
}

/// A document with a schema definition that names no query type is
/// rejected.
pub proof fn lemma_schema_without_query_rejected(
    defs: Seq<DefinitionModel>,
    k: int,
    out: OutputModel,
)
    requires
        0 <= k < defs.len(),
        defs[k] matches DefinitionModel::SchemaDefinition(schema_def) && schema_def.query is None,
    ensures
        after_definitions(defs, out).error is Some,
        after_definitions(defs.take(k), out).error is None ==> after_definitions(defs, out).error
            == Some(CompileErrorModel::MissingQueryRoot),
{
    lemma_fault_rejects(defs, k, out);
}

/// A document that declares a scalar other than `Date` and `DateTime` is
/// rejected; where nothing before the declaration is a fault, the error
/// holds the scalar's name.
pub proof fn lemma_unsupported_scalar_rejected(
    defs: Seq<DefinitionModel>,
    k: int,
    name: Seq<char>,
    out: OutputModel,
)
    requires
        0 <= k < defs.len(),
        defs[k] == scalar_declaration(name),
        name != "Date"@,
        name != "DateTime"@,
    ensures
        after_definitions(defs, out).error is Some,
        after_definitions(defs.take(k), out).error is None ==> after_definitions(defs, out).error
            == Some(CompileErrorModel::UnsupportedScalar(name)),
{
    lemma_fault_rejects(defs, k, out);
}

/// Once a definition has declared `Date`, every later definition is
/// compiled in a state in which `Date` stands for the date type.
pub proof fn lemma_scalar_declared_before_use(
    defs: Seq<DefinitionModel>,
    k: int,
    m: int,
    out: OutputModel,
)
    requires
        0 <= k < m <= defs.len(),
        defs[k] == scalar_declaration("Date"@),
        after_definitions(defs.take(m), out).error is None,
    ensures
        after_definitions(defs.take(m), out).out.registry.date_declared,
        scalar_host_type("Date"@, after_definitions(defs.take(m), out).out.registry) == Ok::<
            HostTypeModel,
            CompileErrorModel,
        >(HostTypeModel::Date),
{
    let upto = defs.take(m);
    lemma_definitions_split(upto, k, out);
    let before = after_definitions(upto.take(k), out);
    assert(before.error is None);
    let from = upto.skip(k);
    assert(from[0] == defs[k]);
    let declared = after_definition(from[0], before.out);
    assert(declared == Ok::<OutputModel, CompileErrorModel>(before.out.with_date()));
    lemma_definitions_extend(from.drop_first(), before.out.with_date());
    lemma_date_scalars(after_definitions(upto, out).out.registry);
}

/// Whether a definition declares the scalar `Date`.
pub open spec fn declares_date(def: DefinitionModel) -> bool {
    def == scalar_declaration("Date"@)
}

/// Definitions of which none declares `Date` leave it undeclared.
pub proof fn lemma_date_stays_undeclared(defs: Seq<DefinitionModel>, out: OutputModel)
    requires
        !out.registry.date_declared,
        forall|i: int| 0 <= i < defs.len() ==> !declares_date(#[trigger] defs[i]),
    ensures
        !after_definitions(defs, out).out.registry.date_declared,
    decreases defs.len(),
{
    if defs.len() > 0 {
        assert(!declares_date(defs[0]));
        if let Ok(next) = after_definition(defs[0], out) {
            lemma_scalar_names_differ();
            let rest = defs.drop_first();
            assert forall|i: int| 0 <= i < rest.len() implies !declares_date(#[trigger] rest[i]) by {
                assert(rest[i] == defs[i + 1]);
            }
            lemma_date_stays_undeclared(rest, next);
        }
    }
}

/// A document in which an object type uses `Date` before any definition
/// has declared it is rejected, also where the declaration follows.
pub proof fn lemma_scalar_used_before_declaration(
    defs: Seq<DefinitionModel>,
    k: int,
    obj_type: ObjectTypeModel,
    out: OutputModel,
)
    requires
        0 <= k < defs.len(),
        defs[k] == DefinitionModel::TypeDefinition(TypeDefinitionModel::Object(obj_type)),
        object_uses(obj_type, "Date"@),
        !out.registry.date_declared,
        forall|i: int| 0 <= i < k ==> !declares_date(#[trigger] defs[i]),
    ensures
        after_definitions(defs, out).error is Some,
{
    lemma_definitions_split(defs, k, out);
    let first = after_definitions(defs.take(k), out);
    if first.error is None {
        lemma_date_stays_undeclared(defs.take(k), out);
        lemma_date_scalars(first.out.registry);
        lemma_object_fault(obj_type, "Date"@, first.out);
        assert(defs.skip(k)[0] == defs[k]);
    }
}

/// Declares a custom scalar.
pub fn gen_scalar_type(scalar_type: ScalarType, out: &mut Output) -> (result: Result<
    (),
    CompileError,
>)
    ensures
        steps(result, old(out)@, final(out)@, after_scalar_type(scalar_type@, old(out)@)),
{
    if *scalar_type.name.as_str() == *"Date" {
        out.date_scalar_defined();
        Ok(())
    } else if *scalar_type.name.as_str() == *"DateTime" {
        out.date_time_scalar_defined();
        Ok(())
    } else {
        Err(CompileError::UnsupportedScalar(scalar_type.name))
    }
}

/// Compiles a type definition.
pub fn gen_type_def(type_def: TypeDefinition, out: &mut Output) -> (result: Result<
    (),
    CompileError,
>)
    ensures
        steps(result, old(out)@, final(out)@, after_type_definition(type_def@, old(out)@)),
{
    match type_def {
        TypeDefinition::Enum => Err(CompileError::NotImplemented(Unimplemented::EnumType)),
        TypeDefinition::InputObject => Err(
            CompileError::NotImplemented(Unimplemented::InputObjectType),
        ),
        TypeDefinition::Interface => Err(CompileError::NotImplemented(Unimplemented::InterfaceType)),
        TypeDefinition::Object(obj_type) => gen_obj_type(obj_type, out),
        TypeDefinition::Scalar(scalar_type) => gen_scalar_type(scalar_type, out),
        TypeDefinition::Union => Err(CompileError::NotImplemented(Unimplemented::UnionType)),
    }
}

/// Compiles a definition.
pub fn gen_def(def: Definition, out: &mut Output) -> (result: Result<(), CompileError>)
    ensures
        steps(result, old(out)@, final(out)@, after_definition(def@, old(out)@)),
{
    match def {
        Definition::DirectiveDefinition => Err(
            CompileError::NotImplemented(Unimplemented::DirectiveDefinition),
        ),
        Definition::SchemaDefinition(schema_def) => gen_schema_def(schema_def, out),
        Definition::TypeDefinition(type_def) => gen_type_def(type_def, out),
        Definition::TypeExtension => Err(CompileError::NotImplemented(Unimplemented::TypeExtension)),
    }
}

/// Compiles the definitions of a document in source order. It stops at
/// the first fault and leaves in `out` what the definitions before it
/// produced.
#[verifier::loop_isolation(false)]
pub fn gen_doc(doc: Document, out: &mut Output) -> (result: Result<(), CompileError>)
    ensures
        final(out)@ == after_definitions(doc@.definitions, old(out)@).out,
        match after_definitions(doc@.definitions, old(out)@).error {
            None => result is Ok,
            Some(error) => result is Err && result->Err_0@ == error,
        },
{
    let ghost defs = doc@.definitions;
    let ghost start = out@;
    proof {
        assert(defs.skip(0) =~= defs);
    }
    for def in it: doc.definitions.into_iter()
        invariant
            it.seq() == doc.definitions@,
            after_definitions(defs, start) == after_definitions(
                defs.skip(it.index() as int),
                out@,
            ),
    {
        let ghost index = it.index() as int;
        proof {
            assert(defs.skip(index)[0] == def@);
            assert(defs.skip(index).drop_first() =~= defs.skip(index + 1));
        }
        match gen_def(def, out) {
            Ok(()) => {},
            Err(error) => {
                return Err(error);
            },
        }
    }
    proof {
        assert(defs.skip(defs.len() as int) =~= Seq::empty());
    }
    Ok(())
}

/// Compiles a document: its artifacts in order, or its first fault and
/// no artifact.
pub fn compile(doc: Document) -> (result: Result<Vec<GeneratedArtifact>, CompileError>)
    ensures
        match compiled(doc@.definitions) {
            Ok(artifacts) => result is Ok && artifacts_model(result->Ok_0@) == artifacts,
            Err(error) => result is Err && result->Err_0@ == error,
        },
{
    let mut output = Output::new();
    match gen_doc(doc, &mut output) {
        Ok(()) => Ok(output.tokens()),
        Err(error) => Err(error),
    }
}

} // verus!
