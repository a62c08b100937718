use vstd::prelude::*;

verus! {

/// How generated model state is written out.
#[derive(Clone, Copy, PartialEq, Eq, Structural, Debug)]
pub enum RecordType {
    /// A compressed binary record.
    Bincode,
    /// A named binary file record.
    NamedMpk,
    /// A pretty-printed text record.
    PrettyJson,
}

/// The element kind of an imported tensor.
#[derive(Clone, Copy, PartialEq, Eq, Structural, Debug)]
pub enum ElementType {
    /// 32-bit float.
    Float32,
    /// 64-bit float.
    Float64,
    /// 64-bit integer.
    Int64,
}

/// The type of an imported tensor argument.
#[derive(Clone, Debug)]
pub struct TensorType {
    /// The argument's name in generated code.
    pub name: String,
    /// Number of dimensions.
    pub dim: usize,
    /// Element kind.
    pub elem_type: ElementType,
}

/// A gather operation of an imported graph.
#[derive(Clone, Debug)]
pub struct GatherNode {
    /// The data input.
    pub input: TensorType,
    /// The index input.
    pub index: TensorType,
    /// The output.
    pub output: TensorType,
    /// The dimension gathered along.
    pub dim: usize,
}

/// A layer-normalization operation of an imported graph.
#[derive(Clone, Debug)]
pub struct LayerNormNode {
    /// The input.
    pub input: TensorType,
    /// The output.
    pub output: TensorType,
    /// The normalized size.
    pub d_model: usize,
    /// Whether the full-precision path is generated.
    pub full_precision: bool,
}

/// An unsqueeze operation of an imported graph.
#[derive(Clone, Debug)]
pub struct UnsqueezeNode {
    /// The input.
    pub input: TensorType,
    /// The output.
    pub output: TensorType,
    /// The axes inserted.
    pub axes: Vec<i64>,
}

/// Builds source code and state files from imported model graphs. The
/// builder collects what to generate and how; the generation itself is
/// performed by the surrounding program.
pub struct ModelGen {
    out_dir: Option<String>,
    inputs: Vec<String>,
    development: bool,
    half_precision: bool,
    record_type: RecordType,
    embed_states: bool,
}

impl ModelGen {
    /// The configured output directory.
    pub closed spec fn out_dir_of(&self) -> Option<Seq<char>> {
        match self.out_dir {
            Some(ref s) => Some(s@),
            None => None,
        }
    }

    /// The configured input files.
    pub closed spec fn inputs_of(&self) -> Seq<Seq<char>> {
        self.inputs@.map_values(|s: String| s@)
    }

    /// Whether development artifacts are generated.
    pub closed spec fn development_of(&self) -> bool {
        self.development
    }

    /// Whether parameters are saved in half precision.
    pub closed spec fn half_precision_of(&self) -> bool {
        self.half_precision
    }

    /// The configured record type.
    pub closed spec fn record_type_of(&self) -> RecordType {
        self.record_type
    }

    /// Whether states are embedded in the generated code.
    pub closed spec fn embed_states_of(&self) -> bool {
        self.embed_states
    }

    /// Create a new builder with nothing configured.
    pub fn new() -> (r: ModelGen)
        ensures
            r.out_dir_of() is None,
            r.inputs_of() =~= Seq::<Seq<char>>::empty(),
            !r.development_of(),
            !r.half_precision_of(),
            r.record_type_of() == RecordType::NamedMpk,
            !r.embed_states_of(),
    {
        ModelGen {
            out_dir: None,
            inputs: Vec::new(),
            development: false,
            half_precision: false,
            record_type: RecordType::NamedMpk,
            embed_states: false,
        }
    }

    /// Set the output directory.
    pub fn out_dir(&mut self, out_dir: String)
        ensures
            final(self).out_dir_of() == Some(out_dir@),
            unchanged_but_out_dir(*old(self), *final(self)),
    {
        self.out_dir = Some(out_dir);
    }

    /// Add an input file.
    pub fn input(&mut self, input: String)
        ensures
            final(self).inputs_of() =~= old(self).inputs_of().push(input@),
            final(self).out_dir_of() == old(self).out_dir_of(),
            final(self).development_of() == old(self).development_of(),
            final(self).half_precision_of() == old(self).half_precision_of(),
            final(self).record_type_of() == old(self).record_type_of(),
            final(self).embed_states_of() == old(self).embed_states_of(),
    {
        self.inputs.push(input);
    }

    /// Set development mode: generated graphs and states are also written
    /// in readable form.
    pub fn development(&mut self, development: bool)
        ensures
            final(self).development_of() == development,
            final(self).out_dir_of() == old(self).out_dir_of(),
            final(self).inputs_of() =~= old(self).inputs_of(),
            final(self).half_precision_of() == old(self).half_precision_of(),
            final(self).record_type_of() == old(self).record_type_of(),
            final(self).embed_states_of() == old(self).embed_states_of(),
    {
        self.development = development;
    }

    /// Specify whether parameters are saved in half precision.
    pub fn half_precision(&mut self, half_precision: bool)
        ensures
            final(self).half_precision_of() == half_precision,
            final(self).out_dir_of() == old(self).out_dir_of(),
            final(self).inputs_of() =~= old(self).inputs_of(),
            final(self).development_of() == old(self).development_of(),
            final(self).record_type_of() == old(self).record_type_of(),
            final(self).embed_states_of() == old(self).embed_states_of(),
    {
        self.half_precision = half_precision;
    }

    /// Specify the type of the record to be saved.
    pub fn record_type(&mut self, record_type: RecordType)
        ensures
            final(self).record_type_of() == record_type,
            final(self).out_dir_of() == old(self).out_dir_of(),
            final(self).inputs_of() =~= old(self).inputs_of(),
            final(self).development_of() == old(self).development_of(),
            final(self).half_precision_of() == old(self).half_precision_of(),
            final(self).embed_states_of() == old(self).embed_states_of(),
    {
        self.record_type = record_type;
    }

    /// Specify whether to embed states in the generated code.
    pub fn embed_states(&mut self, embed_states: bool)
        ensures
            final(self).embed_states_of() == embed_states,
            final(self).out_dir_of() == old(self).out_dir_of(),
            final(self).inputs_of() =~= old(self).inputs_of(),
            final(self).development_of() == old(self).development_of(),
            final(self).half_precision_of() == old(self).half_precision_of(),
            final(self).record_type_of() == old(self).record_type_of(),
    {
        self.embed_states = embed_states;
    }

    /// Whether the builder is ready to run: an output directory and at
    /// least one input are configured.
    pub fn ready(&self) -> (r: bool)
        ensures
            r == (self.out_dir_of() is Some && self.inputs_of().len() > 0),
    {
        self.out_dir.is_some() && self.inputs.len() > 0
    }
}

/// All fields but the output directory are unchanged.
pub open spec fn unchanged_but_out_dir(a: ModelGen, b: ModelGen) -> bool {
    &&& b.inputs_of() =~= a.inputs_of()
    &&& b.development_of() == a.development_of()
    &&& b.half_precision_of() == a.half_precision_of()
    &&& b.record_type_of() == a.record_type_of()
    &&& b.embed_states_of() == a.embed_states_of()
}

} // verus!
