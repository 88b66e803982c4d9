//! TensorRT engines as far as they are bookkeeping: what an engine was
//! built with and what a context may ask of it.

use vstd::prelude::*;
use vstd::string::StringExecFns;
use crate::text::{push_signed_decimal, signed_decimal};

verus! {

/// The precision of an engine.
#[derive(Debug, Clone, Copy, PartialEq, Eq, Structural)]
pub enum Precision {
    /// 32-bit floating point.
    Float32,
    /// 16-bit floating point.
    Float16,
    /// 8-bit integers.
    Int8,
    /// The best that the device offers.
    Best,
}

impl Precision {
    /// The number of the precision.
    pub fn index(self) -> (i: i32)
        ensures
            i == match self {
                Precision::Float32 => 0i32,
                Precision::Float16 => 1i32,
                Precision::Int8 => 2i32,
                Precision::Best => 3i32,
            },
    {
        match self {
            Precision::Float32 => 0,
            Precision::Float16 => 1,
            Precision::Int8 => 2,
            Precision::Best => 3,
        }
    }

    /// The flag of the build tool for the precision.
    pub open spec fn spec_flag(self) -> Seq<char> {
        match self {
            Precision::Float32 => ""@,
            Precision::Float16 => "--fp16"@,
            Precision::Int8 => "--int8"@,
            Precision::Best => "--best"@,
        }
    }

    /// The flag of the build tool for the precision.
    pub fn flag(self) -> (s: &'static str)
        ensures
            s@ == self.spec_flag(),
    {
        match self {
            Precision::Float32 => "",
            Precision::Float16 => "--fp16",
            Precision::Int8 => "--int8",
            Precision::Best => "--best",
        }
    }
}

/// The batch sizes that an engine is tuned for.
#[derive(Debug, Clone)]
pub struct OptimizationProfile {
    /// The smallest batch.
    pub min_batch: i32,
    /// The batch that the engine is best at.
    pub opt_batch: i32,
    /// The largest batch.
    pub max_batch: i32,
}

impl Default for OptimizationProfile {
    fn default() -> (p: OptimizationProfile)
        ensures
            p.min_batch == 1,
            p.opt_batch == 8,
            p.max_batch == 32,
    {
        OptimizationProfile { min_batch: 1, opt_batch: 8, max_batch: 32 }
    }
}

/// How an engine is built.
#[derive(Debug, Clone)]
pub struct BuilderConfig {
    /// The most workspace, in bytes.
    pub max_workspace_size: usize,
    /// The precision.
    pub precision: Precision,
    /// Whether types are kept strictly.
    pub strict_types: bool,
    /// The profiles; the first one sets the largest batch.
    pub profiles: Vec<OptimizationProfile>,
    /// The DLA core, or -1 for the GPU.
    pub dla_core: i32,
    /// Whether layers that the DLA cannot run fall back to the GPU.
    pub gpu_fallback: bool,
}

impl Default for BuilderConfig {
    fn default() -> (c: BuilderConfig)
        ensures
            c.max_workspace_size == 1073741824,
            c.precision == Precision::Float16,
            !c.strict_types,
            c.profiles@.len() == 1,
            c.profiles@[0].max_batch == 32,
            c.dla_core == -1,
            c.gpu_fallback,
    {
        let mut profiles: Vec<OptimizationProfile> = Vec::new();
        profiles.push(OptimizationProfile::default());
        BuilderConfig {
            max_workspace_size: 1073741824,
            precision: Precision::Float16,
            strict_types: false,
            profiles,
            dla_core: -1,
            gpu_fallback: true,
        }
    }
}

/// What goes wrong with an engine.
#[derive(Debug)]
pub enum TrtError {
    /// The file is not there.
    FileNotFound(String),
    /// The engine is not loaded.
    EngineNotLoaded,
    /// The batch is larger than the engine allows.
    InvalidBatchSize,
    /// There is no input or no output.
    InvalidInput,
    /// The build failed.
    BuildFailed(String),
    /// The engine failed while it ran.
    RuntimeError(String),
}

impl TrtError {
    /// The error as a sentence.
    pub open spec fn spec_message(&self) -> Seq<char> {
        match self {
            TrtError::FileNotFound(p) => "File not found: "@ + p@,
            TrtError::EngineNotLoaded => "TensorRT engine not loaded"@,
            TrtError::InvalidBatchSize => "Invalid batch size"@,
            TrtError::InvalidInput => "Invalid input"@,
            TrtError::BuildFailed(msg) => "Build failed: "@ + msg@,
            TrtError::RuntimeError(msg) => "Runtime error: "@ + msg@,
        }
    }

    /// The error as a sentence.
    pub fn message(&self) -> (s: String)
        ensures
            s@ == self.spec_message(),
    {
        match self {
            TrtError::FileNotFound(p) => {
                let mut s = String::from_str("File not found: ");
                s.append(p.as_str());
                s
            },
            TrtError::EngineNotLoaded => String::from_str("TensorRT engine not loaded"),
            TrtError::InvalidBatchSize => String::from_str("Invalid batch size"),
            TrtError::InvalidInput => String::from_str("Invalid input"),
            TrtError::BuildFailed(msg) => {
                let mut s = String::from_str("Build failed: ");
                s.append(msg.as_str());
                s
            },
            TrtError::RuntimeError(msg) => {
                let mut s = String::from_str("Runtime error: ");
                s.append(msg.as_str());
                s
            },
        }
    }
}

/// Whether `shapes` is one tensor of the given name and dimensions.
pub open spec fn one_tensor(shapes: Seq<(String, Vec<i64>)>, name: Seq<char>, dims: Seq<i64>) -> bool {
    shapes.len() == 1 && shapes[0].0@ == name && shapes[0].1@ == dims
}

/// An engine.
pub struct TrtEngine {
    model_path: String,
    precision: Precision,
    max_batch_size: i32,
    input_shapes: Vec<(String, Vec<i64>)>,
    output_shapes: Vec<(String, Vec<i64>)>,
    loaded: bool,
}

/// The shapes of the image model that every engine stands for: one tensor
/// of the name, with a batch of any size in front of the dimensions.
fn image_shapes(name: &str, dims: Vec<i64>) -> (r: Vec<(String, Vec<i64>)>)
    ensures
        one_tensor(r@, name@, dims@),
{
    let mut r: Vec<(String, Vec<i64>)> = Vec::new();
    r.push((String::from_str(name), dims));
    r
}

impl TrtEngine {
    /// The path that the engine came from.
    pub closed spec fn spec_model_path(&self) -> Seq<char> {
        self.model_path@
    }

    /// The precision.
    pub closed spec fn spec_precision(&self) -> Precision {
        self.precision
    }

    /// The largest batch.
    pub closed spec fn spec_max_batch_size(&self) -> i32 {
        self.max_batch_size
    }

    /// Whether the engine is loaded.
    pub closed spec fn spec_loaded(&self) -> bool {
        self.loaded
    }

    /// The inputs.
    pub closed spec fn spec_inputs(&self) -> Seq<(String, Vec<i64>)> {
        self.input_shapes@
    }

    /// The outputs.
    pub closed spec fn spec_outputs(&self) -> Seq<(String, Vec<i64>)> {
        self.output_shapes@
    }

    /// Whether the engine has the shapes of the image model.
    pub open spec fn has_image_shapes(&self) -> bool {
        &&& one_tensor(self.spec_inputs(), "input"@, seq![-1i64, 3i64, 224i64, 224i64])
        &&& one_tensor(self.spec_outputs(), "output"@, seq![-1i64, 1000i64])
    }

    /// The engine with the given settings and the shapes of the image
    /// model.
    fn build(path: &str, precision: Precision, max_batch_size: i32) -> (e: Self)
        ensures
            e.spec_model_path() == path@,
            e.spec_precision() == precision,
            e.spec_max_batch_size() == max_batch_size,
            e.spec_loaded(),
            e.has_image_shapes(),
    {
        let mut input: Vec<i64> = Vec::new();
        input.push(-1);
        input.push(3);
        input.push(224);
        input.push(224);
        assert(input@ =~= seq![-1i64, 3i64, 224i64, 224i64]);
        let mut output: Vec<i64> = Vec::new();
        output.push(-1);
        output.push(1000);
        assert(output@ =~= seq![-1i64, 1000i64]);
        TrtEngine {
            model_path: String::from_str(path),
            precision,
            max_batch_size,
            input_shapes: image_shapes("input", input),
            output_shapes: image_shapes("output", output),
            loaded: true,
        }
    }

    /// The engine of a file that was looked for: half precision, batches
    /// up to 32. A file that was not found is an error.
    pub fn load(path: &str, found: bool) -> (r: Result<Self, TrtError>)
        ensures
            r is Ok <==> found,
            r is Err ==> r->Err_0 is FileNotFound && r->Err_0->FileNotFound_0@ == path@,
            r is Ok ==> {
                &&& r->Ok_0.spec_model_path() == path@
                &&& r->Ok_0.spec_precision() == Precision::Float16
                &&& r->Ok_0.spec_max_batch_size() == 32
                &&& r->Ok_0.spec_loaded()
                &&& r->Ok_0.has_image_shapes()
            },
    {
        if !found {
            return Err(TrtError::FileNotFound(String::from_str(path)));
        }
        Ok(Self::build(path, Precision::Float16, 32))
    }

    /// The largest batch of a configuration: that of its first profile,
    /// or 32 where it has none.
    pub open spec fn batch_of(config: BuilderConfig) -> i32 {
        if config.profiles@.len() > 0 {
            config.profiles@[0].max_batch
        } else {
            32
        }
    }

    /// The engine built from an ONNX model that was looked for, with the
    /// precision and the largest batch of the configuration. A model that
    /// was not found is an error.
    pub fn from_onnx(onnx_path: &str, config: BuilderConfig, found: bool) -> (r: Result<Self, TrtError>)
        ensures
            r is Ok <==> found,
            r is Err ==> r->Err_0 is FileNotFound && r->Err_0->FileNotFound_0@ == onnx_path@,
            r is Ok ==> {
                &&& r->Ok_0.spec_model_path() == onnx_path@
                &&& r->Ok_0.spec_precision() == config.precision
                &&& r->Ok_0.spec_max_batch_size() == Self::batch_of(config)
                &&& r->Ok_0.spec_loaded()
                &&& r->Ok_0.has_image_shapes()
            },
    {
        if !found {
            return Err(TrtError::FileNotFound(String::from_str(onnx_path)));
        }
        let max_batch: i32 = if config.profiles.len() > 0 {
            config.profiles[0].max_batch
        } else {
            32
        };
        Ok(Self::build(onnx_path, config.precision, max_batch))
    }

    /// Saves the engine; there is nothing to write.
    pub fn save(&self, path: &str) -> (r: Result<(), TrtError>)
        ensures
            r is Ok,
    {
        Ok(())
    }

    /// The inputs, each a name and its dimensions.
    pub fn input_shapes(&self) -> (s: &Vec<(String, Vec<i64>)>)
        ensures
            s@ == self.spec_inputs(),
    {
        &self.input_shapes
    }

    /// The outputs, each a name and its dimensions.
    pub fn output_shapes(&self) -> (s: &Vec<(String, Vec<i64>)>)
        ensures
            s@ == self.spec_outputs(),
    {
        &self.output_shapes
    }

    /// The largest batch.
    pub fn max_batch_size(&self) -> (n: i32)
        ensures
            n == self.spec_max_batch_size(),
    {
        self.max_batch_size
    }

    /// The precision.
    pub fn precision(&self) -> (p: Precision)
        ensures
            p == self.spec_precision(),
    {
        self.precision
    }
}

/// A context in which an engine runs.
pub struct TrtContext<'a> {
    engine: &'a TrtEngine,
    batch_size: i32,
}

impl<'a> TrtContext<'a> {
    /// The batch size.
    pub closed spec fn spec_batch_size(&self) -> i32 {
        self.batch_size
    }

    /// The engine.
    pub closed spec fn spec_engine(&self) -> TrtEngine {
        *self.engine
    }

    /// A context of an engine, with batches of one; an engine that is not
    /// loaded is refused.
    pub fn new(engine: &'a TrtEngine) -> (r: Result<Self, TrtError>)
        ensures
            r is Ok <==> engine.spec_loaded(),
            r is Err ==> r->Err_0 is EngineNotLoaded,
            r is Ok ==> r->Ok_0.spec_batch_size() == 1 && r->Ok_0.spec_engine() == *engine,
    {
        if !engine.loaded {
            return Err(TrtError::EngineNotLoaded);
        }
        Ok(TrtContext { engine, batch_size: 1 })
    }

    /// Sets the batch size; a batch larger than the engine allows is
    /// refused and changes nothing.
    pub fn set_batch_size(&mut self, batch_size: i32) -> (r: Result<(), TrtError>)
        ensures
            r is Ok <==> batch_size <= old(self).spec_engine().spec_max_batch_size(),
            r is Err ==> r->Err_0 is InvalidBatchSize,
            final(self).spec_engine() == old(self).spec_engine(),
            final(self).spec_batch_size() == if r is Ok {
                batch_size
            } else {
                old(self).spec_batch_size()
            },
    {
        if batch_size > self.engine.max_batch_size {
            return Err(TrtError::InvalidBatchSize);
        }
        self.batch_size = batch_size;
        Ok(())
    }

    /// The batch size.
    pub fn batch_size(&self) -> (n: i32)
        ensures
            n == self.spec_batch_size(),
    {
        self.batch_size
    }

    /// Whether a run with so many inputs and outputs is taken: a run
    /// without an input or without an output is refused. A run that is
    /// taken fills every output with zeros.
    pub fn execute(&self, inputs: usize, outputs: usize) -> (r: Result<(), TrtError>)
        ensures
            r is Ok <==> inputs > 0 && outputs > 0,
            r is Err ==> r->Err_0 is InvalidInput,
    {
        if inputs == 0 || outputs == 0 {
            return Err(TrtError::InvalidInput);
        }
        Ok(())
    }

    /// Whether a run on a stream is taken: every run is.
    pub fn execute_async(&self, inputs: usize, outputs: usize, stream: u64) -> (r: Result<(), TrtError>)
        ensures
            r is Ok,
    {
        Ok(())
    }
}

/// Help with building engines.
pub struct TrtOptimizer;

impl TrtOptimizer {
    /// How many times faster an engine of the precision is expected to be
    /// than the model it was built from.
    pub open spec fn spec_speedup(precision: Precision) -> u32 {
        match precision {
            Precision::Float32 => 2,
            Precision::Float16 => 4,
            Precision::Int8 => 8,
            Precision::Best => 4,
        }
    }

    /// How many times faster an engine of the precision is expected to be.
    pub fn estimate_speedup(precision: Precision) -> (factor: u32)
        ensures
            factor == Self::spec_speedup(precision),
    {
        match precision {
            Precision::Float32 => 2,
            Precision::Float16 => 4,
            Precision::Int8 => 8,
            Precision::Best => 4,
        }
    }

    /// The command that builds an engine from an ONNX model.
    pub open spec fn spec_build_command(onnx_path: Seq<char>, engine_path: Seq<char>, precision: Precision, max_batch: i32) -> Seq<char> {
        "trtexec --onnx="@ + onnx_path + " --saveEngine="@ + engine_path + " "@ + precision.spec_flag()
            + " --maxBatch="@ + signed_decimal(max_batch as int)
    }

    /// The command that builds an engine from an ONNX model.
    pub fn build_command(onnx_path: &str, engine_path: &str, precision: Precision, max_batch: i32) -> (s: String)
        ensures
            s@ == Self::spec_build_command(onnx_path@, engine_path@, precision, max_batch),
    {
        let mut s = String::from_str("trtexec --onnx=");
        s.append(onnx_path);
        s.append(" --saveEngine=");
        s.append(engine_path);
        s.append(" ");
        s.append(precision.flag());
        s.append(" --maxBatch=");
        push_signed_decimal(&mut s, max_batch as i64);
        s
    }
}

} // verus!
