//! The state that a compilation carries from one definition to the next:
//! the artifacts generated so far, and which custom scalars the document
//! has declared.

use vstd::prelude::*;
use crate::artifact::{GeneratedArtifact, GeneratedArtifactModel};

verus! {

/// The artifacts generated so far, in order, and the scalars declared so
/// far. Artifacts are only ever appended; a scalar once declared stays
/// declared.
pub struct Output {
    tokens: Vec<GeneratedArtifact>,
    date_time_scalar_defined: bool,
    date_scalar_defined: bool,
}

/// Which custom scalars have been declared.
pub struct ScalarRegistry {
    pub date_declared: bool,
    pub date_time_declared: bool,
}

impl ScalarRegistry {
    /// No scalar declared.
    pub open spec fn empty() -> ScalarRegistry {
        ScalarRegistry { date_declared: false, date_time_declared: false }
    }

    /// Whether every scalar declared here is declared in `later`.
    pub open spec fn within(self, later: ScalarRegistry) -> bool {
        &&& self.date_declared ==> later.date_declared
        &&& self.date_time_declared ==> later.date_time_declared
    }
}

/// The mathematical value of an [`Output`].
pub struct OutputModel {
    pub tokens: Seq<GeneratedArtifactModel>,
    pub registry: ScalarRegistry,
}

impl OutputModel {
    /// No artifact, no scalar declared.
    pub open spec fn empty() -> OutputModel {
        OutputModel { tokens: Seq::empty(), registry: ScalarRegistry::empty() }
    }

    /// This state with one more artifact at the end.
    pub open spec fn push(self, artifact: GeneratedArtifactModel) -> OutputModel {
        OutputModel { tokens: self.tokens.push(artifact), ..self }
    }

    /// This state without its artifacts: the declared scalars alone.
    pub open spec fn without_tokens(self) -> OutputModel {
        OutputModel { tokens: Seq::empty(), ..self }
    }

    /// This state with the scalar `Date` declared.
    pub open spec fn with_date(self) -> OutputModel {
        OutputModel { registry: ScalarRegistry { date_declared: true, ..self.registry }, ..self }
    }

    /// This state with the scalar `DateTime` declared.
    pub open spec fn with_date_time(self) -> OutputModel {
        OutputModel {
            registry: ScalarRegistry { date_time_declared: true, ..self.registry },
            ..self
        }
    }
}

/// The values of a list of artifacts.
pub open spec fn artifacts_model(artifacts: Seq<GeneratedArtifact>) -> Seq<GeneratedArtifactModel> {
    artifacts.map_values(|a: GeneratedArtifact| a@)
}

impl View for Output {
    type V = OutputModel;

    closed spec fn view(&self) -> OutputModel {
        OutputModel {
            tokens: artifacts_model(self.tokens@),
            registry: ScalarRegistry {
                date_declared: self.date_scalar_defined,
                date_time_declared: self.date_time_scalar_defined,
            },
        }
    }
}

impl Output {
    /// The state before the first definition.
    pub fn new() -> (out: Self)
        ensures
            out@ == OutputModel::empty(),
    {
        let out = Output {
            tokens: Vec::new(),
            date_scalar_defined: false,
            date_time_scalar_defined: false,
        };
        assert(out@.tokens =~= Seq::empty());
        out
    }

    /// Gives up the state for its artifacts.
    pub fn tokens(self) -> (tokens: Vec<GeneratedArtifact>)
        ensures
            artifacts_model(tokens@) == self@.tokens,
    {
        self.tokens
    }

    /// Appends an artifact.
    pub fn push(&mut self, toks: GeneratedArtifact)
        ensures
            final(self)@ == old(self)@.push(toks@),
    {
        self.tokens.push(toks);
        assert(artifacts_model(self.tokens@) =~= artifacts_model(old(self).tokens@).push(toks@));
    }

    /// Whether the document has declared the scalar `DateTime`.
    pub fn is_date_time_scalar_defined(&self) -> (defined: bool)
        ensures
            defined == self@.registry.date_time_declared,
    {
        self.date_time_scalar_defined
    }

    /// Whether the document has declared the scalar `Date`.
    pub fn is_date_scalar_defined(&self) -> (defined: bool)
        ensures
            defined == self@.registry.date_declared,
    {
        self.date_scalar_defined
    }

    /// Records that the document declares the scalar `DateTime`.
    pub fn date_time_scalar_defined(&mut self)
        ensures
            final(self)@ == old(self)@.with_date_time(),
    {
        self.date_time_scalar_defined = true
    }

    /// Records that the document declares the scalar `Date`.
    pub fn date_scalar_defined(&mut self)
        ensures
            final(self)@ == old(self)@.with_date(),
    {
        self.date_scalar_defined = true
    }

    /// A state with the same scalars declared and no artifacts, for
    /// generating a part whose artifacts are collected on their own.
    pub fn clone_without_tokens(&self) -> (out: Self)
        ensures
            out@ == self@.without_tokens(),
    {
        let out = Output {
            tokens: Vec::new(),
            date_scalar_defined: self.date_scalar_defined,
            date_time_scalar_defined: self.date_time_scalar_defined,
        };
        assert(out@.tokens =~= Seq::empty());
        out
    }
}

/// What can be appended to the artifacts of a compilation.
pub trait AddToOutput: Sized {
    /// The artifact that this value stands for.
    spec fn artifact(self) -> GeneratedArtifactModel;

    /// Appends this value to the artifacts of `out`.
    fn add_to(self, out: &mut Output)
        ensures
            final(out)@ == old(out)@.push(self.artifact()),
    ;
}

impl AddToOutput for GeneratedArtifact {
    open spec fn artifact(self) -> GeneratedArtifactModel {
        self@
    }

    fn add_to(self, out: &mut Output) {
        out.push(self);
    }
}

} // verus!
