//! Several GPUs at once: the topology between them and the strategy that
//! fits a model.

use vstd::prelude::*;
use vstd::string::StringExecFns;
use crate::text::{decimal, push_decimal};

verus! {

/// How work is spread over the GPUs.
#[derive(Debug, Clone, Copy, PartialEq, Eq, Structural)]
pub enum MultiGpuStrategy {
    /// The same model on every GPU, each with its own data.
    DataParallel,
    /// The model split over the GPUs.
    ModelParallel,
    /// The stages of a pipeline on different GPUs.
    PipelineParallel,
    /// The tensors split over the GPUs.
    TensorParallel,
}

impl MultiGpuStrategy {
    /// The number of the strategy.
    pub fn index(self) -> (i: i32)
        ensures
            i == match self {
                MultiGpuStrategy::DataParallel => 0i32,
                MultiGpuStrategy::ModelParallel => 1i32,
                MultiGpuStrategy::PipelineParallel => 2i32,
                MultiGpuStrategy::TensorParallel => 3i32,
            },
    {
        match self {
            MultiGpuStrategy::DataParallel => 0,
            MultiGpuStrategy::ModelParallel => 1,
            MultiGpuStrategy::PipelineParallel => 2,
            MultiGpuStrategy::TensorParallel => 3,
        }
    }
}

/// What is known of the GPUs and the links between them.
#[derive(Debug, Clone)]
pub struct GpuTopology {
    /// Number of GPUs.
    pub num_gpus: i32,
    /// Names of the GPUs.
    pub gpu_names: Vec<String>,
    /// Which pairs of GPUs are joined by NVLink.
    pub nvlink_matrix: Vec<Vec<bool>>,
    /// Which pairs of GPUs can reach each other over PCIe.
    pub pcie_peer_matrix: Vec<Vec<bool>>,
    /// Memory of each GPU, in bytes.
    pub memory_per_gpu: Vec<usize>,
}

/// The least of the numbers, or zero where there is none.
pub open spec fn least_of(v: Seq<usize>) -> usize
    decreases v.len(),
{
    if v.len() == 0 {
        0
    } else if v.len() == 1 {
        v[0]
    } else if v.last() < least_of(v.drop_last()) {
        v.last()
    } else {
        least_of(v.drop_last())
    }
}

/// The strategy for a model of `model_bytes` on GPUs of which the
/// smallest has `min_memory` bytes: a model of less than half that memory
/// is copied to every GPU, a model of more than that memory is split, and
/// a model between is run as a pipeline. One GPU or none leaves nothing
/// to choose.
pub open spec fn strategy_for(num_gpus: i32, min_memory: usize, model_bytes: int) -> MultiGpuStrategy {
    if num_gpus <= 1 {
        MultiGpuStrategy::DataParallel
    } else if model_bytes < min_memory / 2 {
        MultiGpuStrategy::DataParallel
    } else if model_bytes > min_memory {
        MultiGpuStrategy::ModelParallel
    } else {
        MultiGpuStrategy::PipelineParallel
    }
}

/// A square matrix of `n` rows that holds `value` everywhere.
fn filled(n: usize, value: bool) -> (m: Vec<Vec<bool>>)
    ensures
        m@.len() == n,
        forall|i: int| 0 <= i < n ==> (#[trigger] m@[i])@.len() == n,
        forall|i: int, j: int| 0 <= i < n && 0 <= j < n ==> (#[trigger] m@[i]@[j]) == value,
{
    let mut m: Vec<Vec<bool>> = Vec::new();
    let mut i: usize = 0;
    while i < n
        invariant
            i <= n,
            m@.len() == i,
            forall|a: int| 0 <= a < i ==> (#[trigger] m@[a])@.len() == n,
            forall|a: int, b: int| 0 <= a < i && 0 <= b < n ==> (#[trigger] m@[a]@[b]) == value,
        decreases n - i,
    {
        let mut row: Vec<bool> = Vec::new();
        let mut j: usize = 0;
        while j < n
            invariant
                j <= n,
                row@.len() == j,
                forall|b: int| 0 <= b < j ==> row@[b] == value,
            decreases n - j,
        {
            row.push(value);
            j = j + 1;
        }
        m.push(row);
        i = i + 1;
    }
    m
}

impl GpuTopology {
    /// The matrices have a row and a column for every GPU, and every GPU
    /// has a name and a memory size.
    pub open spec fn wf(&self) -> bool {
        &&& self.num_gpus >= 0
        &&& self.gpu_names@.len() == self.num_gpus
        &&& self.memory_per_gpu@.len() == self.num_gpus
        &&& self.nvlink_matrix@.len() == self.num_gpus
        &&& self.pcie_peer_matrix@.len() == self.num_gpus
        &&& forall|i: int| 0 <= i < self.num_gpus ==> (#[trigger] self.nvlink_matrix@[i])@.len() == self.num_gpus
        &&& forall|i: int|
            0 <= i < self.num_gpus ==> (#[trigger] self.pcie_peer_matrix@[i])@.len() == self.num_gpus
    }

    /// The name given to a GPU that did not tell its own.
    pub open spec fn fallback_name(i: nat) -> Seq<char> {
        "GPU "@ + decimal(i)
    }

    /// The topology of the GPUs that were found, each with its name and
    /// its memory in bytes where they are known. A GPU without a name is
    /// called after its number, a GPU of unknown memory has none. No pair
    /// is taken to be joined by NVLink, every pair to reach each other
    /// over PCIe.
    pub fn discover(found: Vec<(Option<String>, Option<usize>)>) -> (t: Self)
        requires
            found@.len() <= i32::MAX,
        ensures
            t.wf(),
            t.num_gpus == found@.len(),
            forall|i: int|
                0 <= i < found@.len() ==> (#[trigger] t.gpu_names@[i])@ == match found@[i].0 {
                    Some(name) => name@,
                    None => Self::fallback_name(i as nat),
                },
            forall|i: int|
                0 <= i < found@.len() ==> (#[trigger] t.memory_per_gpu@[i]) == match found@[i].1 {
                    Some(mem) => mem,
                    None => 0usize,
                },
            forall|i: int, j: int|
                0 <= i < found@.len() && 0 <= j < found@.len() ==> !(#[trigger] t.nvlink_matrix@[i]@[j]),
            forall|i: int, j: int|
                0 <= i < found@.len() && 0 <= j < found@.len() ==> (#[trigger] t.pcie_peer_matrix@[i]@[j]),
    {
        let n: usize = found.len();
        let mut gpu_names: Vec<String> = Vec::new();
        let mut memory_per_gpu: Vec<usize> = Vec::new();
        let mut i: usize = 0;
        while i < n
            invariant
                i <= n,
                n == found@.len(),
                gpu_names@.len() == i,
                memory_per_gpu@.len() == i,
                forall|a: int|
                    0 <= a < i ==> (#[trigger] gpu_names@[a])@ == match found@[a].0 {
                        Some(name) => name@,
                        None => Self::fallback_name(a as nat),
                    },
                forall|a: int|
                    0 <= a < i ==> (#[trigger] memory_per_gpu@[a]) == match found@[a].1 {
                        Some(mem) => mem,
                        None => 0usize,
                    },
            decreases n - i,
        {
            let name = match &found[i].0 {
                Some(name) => name.clone(),
                None => {
                    let mut s = String::from_str("GPU ");
                    push_decimal(&mut s, i as u64);
                    s
                },
            };
            gpu_names.push(name);
            let mem = match found[i].1 {
                Some(mem) => mem,
                None => 0,
            };
            memory_per_gpu.push(mem);
            i = i + 1;
        }
        GpuTopology {
            num_gpus: n as i32,
            gpu_names,
            nvlink_matrix: filled(n, false),
            pcie_peer_matrix: filled(n, true),
            memory_per_gpu,
        }
    }

    /// Whether two GPUs are joined by NVLink; a number that names no GPU
    /// is joined to nothing.
    pub fn has_nvlink(&self, gpu1: i32, gpu2: i32) -> (r: bool)
        requires
            self.wf(),
        ensures
            r == (0 <= gpu1 < self.num_gpus && 0 <= gpu2 < self.num_gpus && self.nvlink_matrix@[gpu1 as int]@[gpu2 as int]),
    {
        if gpu1 < 0 || gpu2 < 0 || gpu1 >= self.num_gpus || gpu2 >= self.num_gpus {
            return false;
        }
        self.nvlink_matrix[gpu1 as usize][gpu2 as usize]
    }

    /// Whether two GPUs can reach each other over PCIe; a number that
    /// names no GPU reaches nothing.
    pub fn has_pcie_peer(&self, gpu1: i32, gpu2: i32) -> (r: bool)
        requires
            self.wf(),
        ensures
            r == (0 <= gpu1 < self.num_gpus && 0 <= gpu2 < self.num_gpus && self.pcie_peer_matrix@[gpu1 as int]@[gpu2 as int]),
    {
        if gpu1 < 0 || gpu2 < 0 || gpu1 >= self.num_gpus || gpu2 >= self.num_gpus {
            return false;
        }
        self.pcie_peer_matrix[gpu1 as usize][gpu2 as usize]
    }

    /// The least memory of a GPU, or zero where there is none.
    pub fn min_memory(&self) -> (m: usize)
        ensures
            m == least_of(self.memory_per_gpu@),
    {
        if self.memory_per_gpu.len() == 0 {
            return 0;
        }
        let mut m: usize = self.memory_per_gpu[0];
        let mut i: usize = 1;
        assert(self.memory_per_gpu@.take(1)[0] == self.memory_per_gpu@[0]);
        while i < self.memory_per_gpu.len()
            invariant
                1 <= i <= self.memory_per_gpu.len(),
                m == least_of(self.memory_per_gpu@.take(i as int)),
            decreases self.memory_per_gpu.len() - i,
        {
            proof {
                assert(self.memory_per_gpu@.take(i + 1).drop_last() =~= self.memory_per_gpu@.take(i as int));
            }
            if self.memory_per_gpu[i] < m {
                m = self.memory_per_gpu[i];
            }
            i = i + 1;
        }
        assert(self.memory_per_gpu@.take(i as int) =~= self.memory_per_gpu@);
        m
    }

    /// The strategy that fits a model of `model_size_mb` mebibytes.
    pub fn recommend_strategy(&self, model_size_mb: usize) -> (s: MultiGpuStrategy)
        ensures
            s == strategy_for(self.num_gpus, least_of(self.memory_per_gpu@), model_size_mb * 1048576),
    {
        if self.num_gpus <= 1 {
            return MultiGpuStrategy::DataParallel;
        }
        let min_gpu_memory = self.min_memory();
        let bytes: u128 = model_size_mb as u128 * 1048576;
        if bytes < (min_gpu_memory / 2) as u128 {
            MultiGpuStrategy::DataParallel
        } else if bytes > min_gpu_memory as u128 {
            MultiGpuStrategy::ModelParallel
        } else {
            MultiGpuStrategy::PipelineParallel
        }
    }
}

/// The operations that GPUs do together.
#[derive(Debug, Clone, Copy, PartialEq, Eq, Structural)]
pub enum CollectiveOp {
    /// Reduce, and give the result to all.
    AllReduce,
    /// Gather from all, and give the whole to all.
    AllGather,
    /// Reduce, and give each its part.
    ReduceScatter,
    /// Give the data of one to all.
    Broadcast,
    /// Reduce to one.
    Reduce,
}

/// How values are reduced.
#[derive(Debug, Clone, Copy, PartialEq, Eq, Structural)]
pub enum ReductionOp {
    /// The sum.
    Sum,
    /// The product.
    Prod,
    /// The largest.
    Max,
    /// The smallest.
    Min,
    /// The mean.
    Avg,
}

/// What goes wrong between GPUs.
#[derive(Debug)]
pub enum MultiGpuError {
    /// There is no GPU.
    NoGpuFound,
    /// The number names no GPU.
    InvalidGpuId,
    /// The GPUs could not talk.
    CommunicationError(String),
    /// The GPUs could not be brought in step.
    SyncError(String),
}

impl MultiGpuError {
    /// The error as a sentence.
    pub open spec fn spec_message(&self) -> Seq<char> {
        match self {
            MultiGpuError::NoGpuFound => "No GPU found"@,
            MultiGpuError::InvalidGpuId => "Invalid GPU ID"@,
            MultiGpuError::CommunicationError(msg) => "Communication error: "@ + msg@,
            MultiGpuError::SyncError(msg) => "Sync error: "@ + msg@,
        }
    }

    /// The error as a sentence.
    pub fn message(&self) -> (s: String)
        ensures
            s@ == self.spec_message(),
    {
        match self {
            MultiGpuError::NoGpuFound => String::from_str("No GPU found"),
            MultiGpuError::InvalidGpuId => String::from_str("Invalid GPU ID"),
            MultiGpuError::CommunicationError(msg) => {
                let mut s = String::from_str("Communication error: ");
                s.append(msg.as_str());
                s
            },
            MultiGpuError::SyncError(msg) => {
                let mut s = String::from_str("Sync error: ");
                s.append(msg.as_str());
                s
            },
        }
    }
}

/// The GPUs that work together.
pub struct MultiGpuComm {
    num_gpus: i32,
    topology: GpuTopology,
    strategy: MultiGpuStrategy,
}

impl MultiGpuComm {
    /// The number of GPUs.
    pub closed spec fn spec_num_gpus(&self) -> i32 {
        self.num_gpus
    }

    /// The topology.
    pub closed spec fn spec_topology(&self) -> GpuTopology {
        self.topology
    }

    /// The strategy.
    pub closed spec fn spec_strategy(&self) -> MultiGpuStrategy {
        self.strategy
    }

    /// The GPUs of a topology under a strategy; a topology without GPUs
    /// is refused.
    pub fn new(strategy: MultiGpuStrategy, topology: GpuTopology) -> (r: Result<Self, MultiGpuError>)
        ensures
            r is Ok <==> topology.num_gpus >= 1,
            r is Err ==> r->Err_0 is NoGpuFound,
            r is Ok ==> {
                &&& r->Ok_0.spec_num_gpus() == topology.num_gpus
                &&& r->Ok_0.spec_topology() == topology
                &&& r->Ok_0.spec_strategy() == strategy
            },
    {
        if topology.num_gpus < 1 {
            return Err(MultiGpuError::NoGpuFound);
        }
        Ok(MultiGpuComm { num_gpus: topology.num_gpus, topology, strategy })
    }

    /// The number of GPUs.
    pub fn num_gpus(&self) -> (n: i32)
        ensures
            n == self.spec_num_gpus(),
    {
        self.num_gpus
    }

    /// The topology.
    pub fn topology(&self) -> (t: &GpuTopology)
        ensures
            *t == self.spec_topology(),
    {
        &self.topology
    }

    /// The strategy.
    pub fn strategy(&self) -> (s: MultiGpuStrategy)
        ensures
            s == self.spec_strategy(),
    {
        self.strategy
    }

    /// Brings the GPUs in step; there is nothing to wait for.
    pub fn synchronize(&self) -> (r: Result<(), MultiGpuError>)
        ensures
            r is Ok,
    {
        Ok(())
    }

    /// Combines the values of all GPUs in place. With one process there
    /// is nothing to combine: the values stay as they are.
    pub fn all_reduce<T>(&self, data: &mut [T], op: ReductionOp) -> (r: Result<(), MultiGpuError>)
        ensures
            r is Ok,
            final(data)@ == old(data)@,
    {
        Ok(())
    }

    /// Gathers what every GPU sends. With one process there is nothing
    /// to gather: the receiving side stays as it is.
    pub fn all_gather<T>(&self, send: &[T], recv: &mut [T]) -> (r: Result<(), MultiGpuError>)
        ensures
            r is Ok,
            final(recv)@ == old(recv)@,
    {
        Ok(())
    }

    /// Hands the values of one GPU to all. With one process there is
    /// nobody to hand them to: the values stay as they are.
    pub fn broadcast<T>(&self, data: &mut [T], root: i32) -> (r: Result<(), MultiGpuError>)
        ensures
            r is Ok,
            final(data)@ == old(data)@,
    {
        Ok(())
    }
}

/// Training with the same model on every GPU.
pub struct DataParallelTrainer {
    comm: MultiGpuComm,
    batch_size_per_gpu: usize,
    gradient_accumulation_steps: i32,
}

impl DataParallelTrainer {
    /// The batch of one GPU.
    pub closed spec fn spec_batch_size_per_gpu(&self) -> usize {
        self.batch_size_per_gpu
    }

    /// The number of GPUs.
    pub closed spec fn spec_num_gpus(&self) -> i32 {
        self.comm.spec_num_gpus()
    }

    /// The steps over which gradients are gathered.
    pub closed spec fn spec_steps(&self) -> i32 {
        self.gradient_accumulation_steps
    }

    /// A trainer over the GPUs of a topology, with one step of gradient
    /// accumulation; a topology without GPUs is refused.
    pub fn new(batch_size_per_gpu: usize, topology: GpuTopology) -> (r: Result<Self, MultiGpuError>)
        ensures
            r is Ok <==> topology.num_gpus >= 1,
            r is Err ==> r->Err_0 is NoGpuFound,
            r is Ok ==> {
                &&& r->Ok_0.spec_batch_size_per_gpu() == batch_size_per_gpu
                &&& r->Ok_0.spec_num_gpus() == topology.num_gpus
                &&& r->Ok_0.spec_steps() == 1
            },
    {
        match MultiGpuComm::new(MultiGpuStrategy::DataParallel, topology) {
            Ok(comm) => Ok(DataParallelTrainer { comm, batch_size_per_gpu, gradient_accumulation_steps: 1 }),
            Err(e) => Err(e),
        }
    }

    /// Sets the steps over which gradients are gathered.
    pub fn set_gradient_accumulation(&mut self, steps: i32)
        ensures
            final(self).spec_steps() == steps,
            final(self).spec_batch_size_per_gpu() == old(self).spec_batch_size_per_gpu(),
            final(self).spec_num_gpus() == old(self).spec_num_gpus(),
    {
        self.gradient_accumulation_steps = steps;
    }

    /// Averages the gradients over the GPUs, in place.
    pub fn sync_gradients<T>(&self, gradients: &mut [T]) -> (r: Result<(), MultiGpuError>)
        ensures
            r is Ok,
            final(gradients)@ == old(gradients)@,
    {
        self.comm.all_reduce(gradients, ReductionOp::Avg)
    }

    /// The batch that one update stands for: the batch of one GPU, times
    /// the GPUs, times the steps. The steps are not negative and the
    /// product fits the machine.
    pub fn effective_batch_size(&self) -> (n: usize)
        requires
            self.spec_steps() >= 0,
            self.spec_num_gpus() >= 0,
            self.spec_batch_size_per_gpu() * self.spec_num_gpus() * self.spec_steps() <= usize::MAX,
        ensures
            n == self.spec_batch_size_per_gpu() * self.spec_num_gpus() * self.spec_steps(),
    {
        let gpus: u128 = self.comm.num_gpus() as u128;
        let steps: u128 = self.gradient_accumulation_steps as u128;
        let batch: u128 = self.batch_size_per_gpu as u128;
        assert(batch * gpus <= 0xffff_ffff_ffff_ffff_ffff_ffff) by (nonlinear_arith)
            requires
                batch <= 0xffff_ffff_ffff_ffff,
                gpus <= 0x7fff_ffff,
        ;
        let per_step: u128 = batch * gpus;
        assert(per_step * steps <= 0xffff_ffff_ffff_ffff_ffff_ffff_ffff_ffff) by (nonlinear_arith)
            requires
                per_step <= 0xffff_ffff_ffff_ffff_ffff_ffff,
                steps <= 0x7fff_ffff,
        ;
        (per_step * steps) as usize
    }
}

} // verus!
