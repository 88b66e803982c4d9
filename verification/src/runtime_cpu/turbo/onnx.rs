//! ONNX sessions as far as they are bookkeeping: which provider runs a
//! model and what its tensors look like.

use vstd::prelude::*;
use vstd::string::StringExecFns;
use crate::text::{push_signed_decimal, signed_decimal};

verus! {

/// Who runs a model.
#[derive(Debug, Clone, Copy, PartialEq, Eq, Structural)]
pub enum ExecutionProvider {
    /// The CPU.
    CPU,
    /// A CUDA GPU.
    CUDA,
    /// TensorRT.
    TensorRT,
    /// ROCm, for AMD GPUs.
    ROCm,
    /// DirectML, on Windows.
    DirectML,
    /// CoreML, on Apple devices.
    CoreML,
}

impl ExecutionProvider {
    /// The name of the provider in ONNX Runtime.
    pub open spec fn spec_name(self) -> Seq<char> {
        match self {
            ExecutionProvider::CPU => "CPUExecutionProvider"@,
            ExecutionProvider::CUDA => "CUDAExecutionProvider"@,
            ExecutionProvider::TensorRT => "TensorrtExecutionProvider"@,
            ExecutionProvider::ROCm => "ROCMExecutionProvider"@,
            ExecutionProvider::DirectML => "DmlExecutionProvider"@,
            ExecutionProvider::CoreML => "CoreMLExecutionProvider"@,
        }
    }

    /// The name of the provider in ONNX Runtime.
    pub fn name(&self) -> (s: &'static str)
        ensures
            s@ == self.spec_name(),
    {
        match self {
            ExecutionProvider::CPU => "CPUExecutionProvider",
            ExecutionProvider::CUDA => "CUDAExecutionProvider",
            ExecutionProvider::TensorRT => "TensorrtExecutionProvider",
            ExecutionProvider::ROCm => "ROCMExecutionProvider",
            ExecutionProvider::DirectML => "DmlExecutionProvider",
            ExecutionProvider::CoreML => "CoreMLExecutionProvider",
        }
    }

    /// Whether the provider can be had on a machine where CUDA and
    /// TensorRT were looked for: the CPU always, CUDA and TensorRT where
    /// they were found, the others never.
    pub open spec fn spec_available(self, cuda_found: bool, tensorrt_found: bool) -> bool {
        match self {
            ExecutionProvider::CPU => true,
            ExecutionProvider::CUDA => cuda_found,
            ExecutionProvider::TensorRT => tensorrt_found,
            _ => false,
        }
    }

    /// Whether the provider can be had.
    pub fn is_available(&self, cuda_found: bool, tensorrt_found: bool) -> (r: bool)
        ensures
            r == self.spec_available(cuda_found, tensorrt_found),
    {
        match self {
            ExecutionProvider::CPU => true,
            ExecutionProvider::CUDA => cuda_found,
            ExecutionProvider::TensorRT => tensorrt_found,
            _ => false,
        }
    }
}

/// How a session is set up.
#[derive(Debug, Clone)]
pub struct OnnxConfig {
    /// The providers, the most wanted first.
    pub providers: Vec<ExecutionProvider>,
    /// Threads within an operator.
    pub intra_op_threads: usize,
    /// Threads between operators.
    pub inter_op_threads: usize,
    /// Whether the memory arena is on.
    pub enable_mem_arena: bool,
    /// Whether memory patterns are optimized.
    pub enable_mem_pattern: bool,
    /// Level of graph optimization, 0 to 3.
    pub optimization_level: u32,
    /// Whether profiling is on.
    pub enable_profiling: bool,
}

impl OnnxConfig {
    /// The default configuration for a machine with the given number of
    /// hardware threads.
    pub fn with_threads(intra_op_threads: usize) -> (c: OnnxConfig)
        ensures
            c.providers@ == seq![ExecutionProvider::CUDA, ExecutionProvider::CPU],
            c.intra_op_threads == intra_op_threads,
            c.inter_op_threads == 2,
            c.enable_mem_arena,
            c.enable_mem_pattern,
            c.optimization_level == 3,
            !c.enable_profiling,
    {
        let mut providers: Vec<ExecutionProvider> = Vec::new();
        providers.push(ExecutionProvider::CUDA);
        providers.push(ExecutionProvider::CPU);
        assert(providers@ =~= seq![ExecutionProvider::CUDA, ExecutionProvider::CPU]);
        OnnxConfig {
            providers,
            intra_op_threads,
            inter_op_threads: 2,
            enable_mem_arena: true,
            enable_mem_pattern: true,
            optimization_level: 3,
            enable_profiling: false,
        }
    }
}

impl Default for OnnxConfig {
    fn default() -> (c: OnnxConfig)
        ensures
            c.providers@ == seq![ExecutionProvider::CUDA, ExecutionProvider::CPU],
            c.intra_op_threads == 4,
            c.inter_op_threads == 2,
            c.enable_mem_arena,
            c.enable_mem_pattern,
            c.optimization_level == 3,
            !c.enable_profiling,
    {
        OnnxConfig::with_threads(4)
    }
}

/// The type of a tensor's elements.
#[derive(Debug, Clone, Copy, PartialEq, Eq, Structural)]
pub enum TensorType {
    /// 32-bit floating point.
    Float32,
    /// 16-bit floating point.
    Float16,
    /// 32-bit integers.
    Int32,
    /// 64-bit integers.
    Int64,
    /// Bytes.
    UInt8,
    /// Truth values.
    Bool,
    /// Text.
    String,
}

impl TensorType {
    /// The size of an element in bytes; zero for text, whose size varies.
    pub open spec fn spec_size(self) -> usize {
        match self {
            TensorType::Float32 | TensorType::Int32 => 4,
            TensorType::Float16 => 2,
            TensorType::Int64 => 8,
            TensorType::UInt8 | TensorType::Bool => 1,
            TensorType::String => 0,
        }
    }

    /// The size of an element in bytes.
    pub fn size(&self) -> (n: usize)
        ensures
            n == self.spec_size(),
    {
        match self {
            TensorType::Float32 | TensorType::Int32 => 4,
            TensorType::Float16 => 2,
            TensorType::Int64 => 8,
            TensorType::UInt8 | TensorType::Bool => 1,
            TensorType::String => 0,
        }
    }
}

/// What is known of a tensor.
#[derive(Debug, Clone)]
pub struct TensorInfo {
    /// Its name.
    pub name: String,
    /// Its dimensions; -1 stands for a dimension of any size.
    pub shape: Vec<i64>,
    /// The type of its elements.
    pub dtype: TensorType,
}

/// What goes wrong with a session.
#[derive(Debug)]
pub enum OnnxError {
    /// The model is not there.
    ModelNotFound(String),
    /// The session is not loaded.
    SessionNotLoaded,
    /// The input is wrong.
    InvalidInput(String),
    /// The session failed while it ran.
    RuntimeError(String),
}

impl OnnxError {
    /// The error as a sentence.
    pub open spec fn spec_message(&self) -> Seq<char> {
        match self {
            OnnxError::ModelNotFound(p) => "Model not found: "@ + p@,
            OnnxError::SessionNotLoaded => "Session not loaded"@,
            OnnxError::InvalidInput(m) => "Invalid input: "@ + m@,
            OnnxError::RuntimeError(m) => "Runtime error: "@ + m@,
        }
    }

    /// The error as a sentence.
    pub fn message(&self) -> (s: String)
        ensures
            s@ == self.spec_message(),
    {
        match self {
            OnnxError::ModelNotFound(p) => {
                let mut s = String::from_str("Model not found: ");
                s.append(p.as_str());
                s
            },
            OnnxError::SessionNotLoaded => String::from_str("Session not loaded"),
            OnnxError::InvalidInput(m) => {
                let mut s = String::from_str("Invalid input: ");
                s.append(m.as_str());
                s
            },
            OnnxError::RuntimeError(m) => {
                let mut s = String::from_str("Runtime error: ");
                s.append(m.as_str());
                s
            },
        }
    }
}

/// The first provider of the list that can be had, or the CPU where none
/// can.
pub open spec fn first_available(providers: Seq<ExecutionProvider>, cuda_found: bool, tensorrt_found: bool) -> ExecutionProvider
    decreases providers.len(),
{
    if providers.len() == 0 {
        ExecutionProvider::CPU
    } else if providers[0].spec_available(cuda_found, tensorrt_found) {
        providers[0]
    } else {
        first_available(providers.drop_first(), cuda_found, tensorrt_found)
    }
}

/// The number of elements of a tensor with these dimensions, a dimension
/// of any size counted as one.
pub open spec fn element_count(shape: Seq<i64>) -> nat
    decreases shape.len(),
{
    if shape.len() == 0 {
        1
    } else {
        element_count(shape.drop_last()) * if shape.last() < 0 {
            1nat
        } else {
            shape.last() as nat
        }
    }
}

/// A number of elements, cut to the range of `usize`.
pub open spec fn cut_count(n: nat) -> usize {
    if n > usize::MAX {
        usize::MAX
    } else {
        n as usize
    }
}

/// A session over a model.
pub struct OnnxSession {
    model_path: String,
    config: OnnxConfig,
    input_info: Vec<TensorInfo>,
    output_info: Vec<TensorInfo>,
    loaded: bool,
}

/// One tensor of 32-bit floats.
fn float_tensor(name: &str, shape: Vec<i64>) -> (v: Vec<TensorInfo>)
    ensures
        v@.len() == 1,
        v@[0].name@ == name@,
        v@[0].shape == shape,
        v@[0].dtype == TensorType::Float32,
{
    let mut v: Vec<TensorInfo> = Vec::new();
    v.push(TensorInfo { name: String::from_str(name), shape, dtype: TensorType::Float32 });
    v
}

impl OnnxSession {
    /// The path of the model.
    pub closed spec fn spec_model_path(&self) -> Seq<char> {
        self.model_path@
    }

    /// The configuration.
    pub closed spec fn spec_config(&self) -> OnnxConfig {
        self.config
    }

    /// The inputs.
    pub closed spec fn spec_inputs(&self) -> Seq<TensorInfo> {
        self.input_info@
    }

    /// The outputs.
    pub closed spec fn spec_outputs(&self) -> Seq<TensorInfo> {
        self.output_info@
    }

    /// Whether the session is loaded.
    pub closed spec fn spec_loaded(&self) -> bool {
        self.loaded
    }

    /// The session of a model that was looked for, with the tensors of
    /// the image model: one input of images, one output of a thousand
    /// classes, both of 32-bit floats and with a batch of any size. A
    /// model that was not found is an error.
    pub fn new(model_path: &str, config: OnnxConfig, found: bool) -> (r: Result<Self, OnnxError>)
        ensures
            r is Ok <==> found,
            r is Err ==> r->Err_0 is ModelNotFound && r->Err_0->ModelNotFound_0@ == model_path@,
            r is Ok ==> {
                &&& r->Ok_0.spec_model_path() == model_path@
                &&& r->Ok_0.spec_config() == config
                &&& r->Ok_0.spec_loaded()
                &&& r->Ok_0.spec_inputs().len() == 1
                &&& r->Ok_0.spec_inputs()[0].name@ == "input"@
                &&& r->Ok_0.spec_inputs()[0].shape@ == seq![-1i64, 3i64, 224i64, 224i64]
                &&& r->Ok_0.spec_inputs()[0].dtype == TensorType::Float32
                &&& r->Ok_0.spec_outputs().len() == 1
                &&& r->Ok_0.spec_outputs()[0].name@ == "output"@
                &&& r->Ok_0.spec_outputs()[0].shape@ == seq![-1i64, 1000i64]
                &&& r->Ok_0.spec_outputs()[0].dtype == TensorType::Float32
            },
    {
        if !found {
            return Err(OnnxError::ModelNotFound(String::from_str(model_path)));
        }
        let mut input: Vec<i64> = Vec::new();
        input.push(-1);
        input.push(3);
        input.push(224);
        input.push(224);
        assert(input@ =~= seq![-1i64, 3i64, 224i64, 224i64]);
        let mut output: Vec<i64> = Vec::new();
        output.push(-1);
        output.push(1000);
        assert(output@ =~= seq![-1i64, 1000i64]);
        Ok(
            OnnxSession {
                model_path: String::from_str(model_path),
                config,
                input_info: float_tensor("input", input),
                output_info: float_tensor("output", output),
                loaded: true,
            },
        )
    }

    /// The inputs.
    pub fn inputs(&self) -> (r: &Vec<TensorInfo>)
        ensures
            r@ == self.spec_inputs(),
    {
        &self.input_info
    }

    /// The outputs.
    pub fn outputs(&self) -> (r: &Vec<TensorInfo>)
        ensures
            r@ == self.spec_outputs(),
    {
        &self.output_info
    }

    /// What a run with so many inputs gives: the number of elements of
    /// the first output, all of them zero, cut to the range of `usize`.
    /// A session that is not loaded is refused, and so is a run without
    /// input.
    pub fn run(&self, input_count: usize) -> (r: Result<usize, OnnxError>)
        requires
            self.spec_outputs().len() > 0,
        ensures
            !self.spec_loaded() ==> r is Err && r->Err_0 is SessionNotLoaded,
            self.spec_loaded() && input_count == 0 ==> r is Err && r->Err_0 is InvalidInput
                && r->Err_0->InvalidInput_0@ == "No inputs provided"@,
            self.spec_loaded() && input_count > 0 ==> r is Ok && r->Ok_0 == cut_count(
                element_count(self.spec_outputs()[0].shape@),
            ),
    {
        if !self.loaded {
            return Err(OnnxError::SessionNotLoaded);
        }
        if input_count == 0 {
            return Err(OnnxError::InvalidInput(String::from_str("No inputs provided")));
        }
        let shape = &self.output_info[0].shape;
        let mut size: usize = 1;
        let mut i: usize = 0;
        while i < shape.len()
            invariant
                i <= shape.len(),
                size == cut_count(element_count(shape@.take(i as int))),
            decreases shape.len() - i,
        {
            let ghost before = element_count(shape@.take(i as int));
            proof {
                assert(shape@.take(i + 1).drop_last() =~= shape@.take(i as int));
                assert(shape@.take(i + 1).last() == shape@[i as int]);
            }
            let d: u64 = if shape[i] < 0 {
                1
            } else {
                shape[i] as u64
            };
            let top: u64 = usize::MAX as u64;
            let now: u64 = size as u64;
            assert(element_count(shape@.take(i + 1)) == before * d);
            if d == 0 {
                assert(before * d == 0) by (nonlinear_arith)
                    requires
                        d == 0,
                ;
                size = 0;
            } else if now > top / d {
                assert(before * d > top) by (nonlinear_arith)
                    requires
                        before >= now,
                        now > top / d,
                        d >= 1,
                ;
                size = usize::MAX;
            } else {
                assert(now * d <= top) by (nonlinear_arith)
                    requires
                        now <= top / d,
                        d >= 1,
                ;
                proof {
                    if before > top {
                        assert(now == top);
                        assert(d == 1) by (nonlinear_arith)
                            requires
                                now == top,
                                now <= top / d,
                                d >= 1,
                                top >= 1,
                        ;
                        assert(before * d == before) by (nonlinear_arith)
                            requires
                                d == 1,
                        ;
                    }
                }
                size = (now * d) as usize;
            }
            i = i + 1;
        }
        assert(shape@.take(shape.len() as int) =~= shape@);
        Ok(size)
    }

    /// The path of the model.
    pub fn model_path(&self) -> (p: &str)
        ensures
            p@ == self.spec_model_path(),
    {
        self.model_path.as_str()
    }

    /// The provider that runs the model: the first of the configuration
    /// that can be had, or the CPU.
    pub fn active_provider(&self, cuda_found: bool, tensorrt_found: bool) -> (p: ExecutionProvider)
        ensures
            p == first_available(self.spec_config().providers@, cuda_found, tensorrt_found),
    {
        let n: usize = self.config.providers.len();
        let ghost all = self.config.providers@;
        let mut i: usize = 0;
        proof {
            assert(all.skip(0) =~= all);
        }
        while i < n
            invariant
                i <= n,
                n == all.len(),
                all == self.config.providers@,
                first_available(all.skip(i as int), cuda_found, tensorrt_found) == first_available(
                    all,
                    cuda_found,
                    tensorrt_found,
                ),
            decreases n - i,
        {
            proof {
                assert(all.skip(i as int).drop_first() =~= all.skip(i + 1));
                assert(all.skip(i as int)[0] == all[i as int]);
            }
            if self.config.providers[i].is_available(cuda_found, tensorrt_found) {
                return self.config.providers[i];
            }
            i = i + 1;
        }
        ExecutionProvider::CPU
    }
}

/// Commands that convert models.
pub struct ModelConverter;

impl ModelConverter {
    /// A list of numbers as Rust prints it: in brackets, with a comma and
    /// a blank between the numbers.
    pub open spec fn list_text(v: Seq<i64>) -> Seq<char> {
        "["@ + Self::joined(v) + "]"@
    }

    /// The numbers with a comma and a blank between them.
    pub open spec fn joined(v: Seq<i64>) -> Seq<char>
        decreases v.len(),
    {
        if v.len() == 0 {
            Seq::empty()
        } else if v.len() == 1 {
            signed_decimal(v[0] as int)
        } else {
            Self::joined(v.drop_last()) + ", "@ + signed_decimal(v.last() as int)
        }
    }

    /// The command that converts a PyTorch model.
    pub open spec fn spec_pytorch_cmd(model_path: Seq<char>, output_path: Seq<char>, input_shape: Seq<i64>) -> Seq<char> {
        "python -c \"\nimport torch\nmodel = torch.load('"@ + model_path
            + "')\nmodel.eval()\ndummy = torch.randn("@ + Self::list_text(input_shape)
            + ")\ntorch.onnx.export(model, dummy, '"@ + output_path + "', opset_version=17)\n\""@
    }

    /// The command that converts a PyTorch model.
    pub fn pytorch_to_onnx_cmd(model_path: &str, output_path: &str, input_shape: &[i64]) -> (s: String)
        ensures
            s@ == Self::spec_pytorch_cmd(model_path@, output_path@, input_shape@),
    {
        let mut s = String::from_str("python -c \"\nimport torch\nmodel = torch.load('");
        s.append(model_path);
        s.append("')\nmodel.eval()\ndummy = torch.randn(");
        s.append("[");
        let ghost head = s@;
        let mut i: usize = 0;
        while i < input_shape.len()
            invariant
                i <= input_shape.len(),
                s@ == head + Self::joined(input_shape@.take(i as int)),
            decreases input_shape.len() - i,
        {
            proof {
                assert(input_shape@.take(i + 1).drop_last() =~= input_shape@.take(i as int));
                assert(input_shape@.take(i + 1).last() == input_shape@[i as int]);
            }
            if i > 0 {
                s.append(", ");
            }
            push_signed_decimal(&mut s, input_shape[i]);
            proof {
                let done = Self::joined(input_shape@.take(i as int));
                let num = signed_decimal(input_shape@[i as int] as int);
                if i > 0 {
                    assert(s@ =~= head + (done + ", "@ + num));
                } else {
                    assert(done =~= Seq::<char>::empty());
                    assert(s@ =~= head + num);
                }
            }
            i = i + 1;
        }
        proof {
            assert(input_shape@.take(input_shape.len() as int) =~= input_shape@);
        }
        s.append("]");
        s.append(")\ntorch.onnx.export(model, dummy, '");
        s.append(output_path);
        s.append("', opset_version=17)\n\"");
        proof {
            assert(s@ =~= Self::spec_pytorch_cmd(model_path@, output_path@, input_shape@));
        }
        s
    }

    /// The command that converts a TensorFlow model.
    pub open spec fn spec_tensorflow_cmd(model_path: Seq<char>, output_path: Seq<char>) -> Seq<char> {
        "python -m tf2onnx.convert --saved-model "@ + model_path + " --output "@ + output_path + " --opset 17"@
    }

    /// The command that converts a TensorFlow model.
    pub fn tensorflow_to_onnx_cmd(model_path: &str, output_path: &str) -> (s: String)
        ensures
            s@ == Self::spec_tensorflow_cmd(model_path@, output_path@),
    {
        let mut s = String::from_str("python -m tf2onnx.convert --saved-model ");
        s.append(model_path);
        s.append(" --output ");
        s.append(output_path);
        s.append(" --opset 17");
        s
    }
}

/// How inference is measured.
pub struct InferenceBenchmark {
    /// The model.
    pub model_name: String,
    /// The provider.
    pub provider: ExecutionProvider,
    /// Runs before the clock starts.
    pub warmup_runs: u32,
    /// Runs that are timed.
    pub benchmark_runs: u32,
    /// Samples of a batch.
    pub batch_size: usize,
}

impl InferenceBenchmark {
    /// A benchmark of ten warm-up runs and a hundred timed runs with
    /// batches of 32.
    pub fn new(model_name: &str, provider: ExecutionProvider) -> (b: Self)
        ensures
            b.model_name@ == model_name@,
            b.provider == provider,
            b.warmup_runs == 10,
            b.benchmark_runs == 100,
            b.batch_size == 32,
    {
        InferenceBenchmark {
            model_name: String::from_str(model_name),
            provider,
            warmup_runs: 10,
            benchmark_runs: 100,
            batch_size: 32,
        }
    }

    /// The samples that the timed runs go through, cut to the range of
    /// `usize`.
    pub fn total_samples(&self) -> (n: usize)
        ensures
            n == if self.benchmark_runs * self.batch_size > usize::MAX {
                usize::MAX
            } else {
                (self.benchmark_runs * self.batch_size) as usize
            },
    {
        let runs: u128 = self.benchmark_runs as u128;
        let batch: u128 = self.batch_size as u128;
        assert(runs * batch <= 0xffff_ffff_ffff_ffff_ffff_ffff) by (nonlinear_arith)
            requires
                runs <= 0xffff_ffff,
                batch <= 0xffff_ffff_ffff_ffff,
        ;
        let wide: u128 = runs * batch;
        if wide > usize::MAX as u128 {
            usize::MAX
        } else {
            wide as usize
        }
    }
}

} // verus!
