//! What the management library tells of a GPU.

use vstd::prelude::*;
use vstd::string::StringExecFns;
use crate::runtime_cpu::Error;
use crate::text::{
    decimal, fields_of, i32_or, i32_or_zero, push_decimal, split_fields, str_eq, texts, u32_or, u32_or_zero, u64_or,
    u64_or_zero,
};
use crate::units::{mebibytes, mebibytes_to_bytes};

verus! {

/// The power state of a GPU.
#[derive(Debug, Clone, Copy, PartialEq, Eq, Structural)]
pub enum PowerState {
    /// Greatest performance.
    P0,
    /// High performance.
    P1,
    /// Medium performance.
    P2,
    /// Idle.
    P8,
    /// Not known.
    Unknown,
}

impl PowerState {
    /// The power state that a text names.
    pub open spec fn spec_parse(text: Seq<char>) -> PowerState {
        if text == "P0"@ {
            PowerState::P0
        } else if text == "P1"@ {
            PowerState::P1
        } else if text == "P2"@ {
            PowerState::P2
        } else if text == "P8"@ {
            PowerState::P8
        } else {
            PowerState::Unknown
        }
    }

    /// The power state that a text names.
    pub fn parse(text: &str) -> (s: PowerState)
        ensures
            s == Self::spec_parse(text@),
    {
        if str_eq(text, "P0") {
            PowerState::P0
        } else if str_eq(text, "P1") {
            PowerState::P1
        } else if str_eq(text, "P2") {
            PowerState::P2
        } else if str_eq(text, "P8") {
            PowerState::P8
        } else {
            PowerState::Unknown
        }
    }
}

/// The memory of a GPU, in bytes.
#[derive(Debug, Clone)]
pub struct MemoryInfo {
    /// All of it.
    pub total: u64,
    /// What is in use.
    pub used: u64,
    /// What is free.
    pub free: u64,
}

/// How busy a GPU is, in percent.
#[derive(Debug, Clone)]
pub struct UtilizationInfo {
    /// The compute units.
    pub gpu: u32,
    /// The memory controller.
    pub memory: u32,
    /// The encoder.
    pub encoder: u32,
    /// The decoder.
    pub decoder: u32,
}

/// The clocks of a GPU, in MHz.
#[derive(Debug, Clone)]
pub struct ClockInfo {
    /// Graphics.
    pub graphics: u32,
    /// Multiprocessors.
    pub sm: u32,
    /// Memory.
    pub memory: u32,
    /// Video.
    pub video: u32,
}

/// The temperatures of a GPU, in degrees Celsius.
#[derive(Debug, Clone)]
pub struct TemperatureInfo {
    /// The GPU.
    pub gpu: i32,
    /// The memory, where it is measured.
    pub memory: Option<i32>,
    /// Where the GPU slows down.
    pub slowdown_threshold: i32,
    /// Where the GPU shuts down.
    pub shutdown_threshold: i32,
}

/// The PCIe link of a GPU.
#[derive(Debug, Clone)]
pub struct PcieInfo {
    /// Generation in use.
    pub generation: u32,
    /// Width in use.
    pub width: u32,
    /// Highest generation.
    pub max_generation: u32,
    /// Greatest width.
    pub max_width: u32,
    /// Sent, in KB/s.
    pub tx_throughput: u64,
    /// Received, in KB/s.
    pub rx_throughput: u64,
}

/// The ECC memory of a GPU.
#[derive(Debug, Clone)]
pub struct EccStats {
    /// Whether ECC is on.
    pub enabled: bool,
    /// Errors of one bit, which were corrected.
    pub single_bit_errors: u64,
    /// Errors of two bits, which were not.
    pub double_bit_errors: u64,
}

/// The NVLink of a GPU.
#[derive(Debug, Clone)]
pub struct NvlinkStatus {
    /// The version of NVLink.
    pub version: u32,
    /// The number of links that work.
    pub active_links: u32,
    /// What one link carries, in whole gigabytes a second.
    pub bandwidth_per_link: u32,
    /// The GPUs at the other ends.
    pub connected_gpus: Vec<u32>,
}

/// The compute capability of a GPU.
#[derive(Debug, Clone, Copy, PartialEq, Eq, Structural)]
pub struct ComputeCapability {
    /// The major number.
    pub major: u32,
    /// The minor number.
    pub minor: u32,
}

/// What is known of a GPU.
#[derive(Debug, Clone)]
pub struct GpuInfo {
    /// The index of the device.
    pub index: u32,
    /// Its name.
    pub name: String,
    /// Its UUID.
    pub uuid: String,
    /// Its serial number.
    pub serial: Option<String>,
    /// The version of its VBIOS.
    pub vbios_version: String,
    /// The version of the driver.
    pub driver_version: String,
    /// The compute capability.
    pub compute_capability: ComputeCapability,
    /// The number of multiprocessors.
    pub sm_count: u32,
    /// The power state.
    pub power_state: PowerState,
    /// The power limit, in watts.
    pub power_limit: u32,
    /// The power drawn, in watts.
    pub power_draw: u32,
    /// The memory.
    pub memory: MemoryInfo,
    /// How busy it is.
    pub utilization: UtilizationInfo,
    /// The clocks.
    pub clocks: ClockInfo,
    /// The temperatures.
    pub temperature: TemperatureInfo,
    /// The PCIe link.
    pub pcie: PcieInfo,
    /// The NVLink, where something is known of it.
    pub nvlink: Option<NvlinkStatus>,
    /// The ECC memory.
    pub ecc: EccStats,
}

/// The number of fields in a line of `nvidia-smi` that tells of a GPU.
pub const GPU_INFO_FIELDS: usize = 22;

/// The place of the power draw among the fields of such a line.
pub const POWER_DRAW_FIELD: usize = 7;

/// The message for an index that names no GPU.
pub open spec fn invalid_index_message(index: u32) -> Seq<char> {
    "Invalid GPU index: "@ + decimal(index as nat)
}

/// The message for a line with too few fields.
pub open spec fn short_line_message() -> Seq<char> {
    "Unexpected nvidia-smi output"@
}

/// Whether `info` is what a line of `nvidia-smi` tells of the GPU with
/// the index. The line holds, between commas: the index, the name, the
/// UUID, the versions of VBIOS and driver, the power state, the power
/// limit and the power draw, the total, used and free memory in
/// mebibytes, the utilization of GPU and memory, the four clocks, the
/// temperature, and the PCIe generation and width, now and at most. A
/// number that cannot be read counts as zero; the power draw is read by
/// the caller. What the line does not tell is as on an A100.
pub open spec fn is_info_of_line(info: GpuInfo, index: u32, power_draw: u32, line: Seq<char>) -> bool {
    let f = fields_of(line);
    &&& info.index == index
    &&& info.name@ == f[1]
    &&& info.uuid@ == f[2]
    &&& info.serial is None
    &&& info.vbios_version@ == f[3]
    &&& info.driver_version@ == f[4]
    &&& info.compute_capability == (ComputeCapability { major: 8, minor: 0 })
    &&& info.sm_count == 108
    &&& info.power_state == PowerState::spec_parse(f[5])
    &&& info.power_limit == u32_or_zero(f[6])
    &&& info.power_draw == power_draw
    &&& info.memory.total == mebibytes(u64_or_zero(f[8]))
    &&& info.memory.used == mebibytes(u64_or_zero(f[9]))
    &&& info.memory.free == mebibytes(u64_or_zero(f[10]))
    &&& info.utilization.gpu == u32_or_zero(f[11])
    &&& info.utilization.memory == u32_or_zero(f[12])
    &&& info.utilization.encoder == 0
    &&& info.utilization.decoder == 0
    &&& info.clocks.graphics == u32_or_zero(f[13])
    &&& info.clocks.sm == u32_or_zero(f[14])
    &&& info.clocks.memory == u32_or_zero(f[15])
    &&& info.clocks.video == u32_or_zero(f[16])
    &&& info.temperature.gpu == i32_or_zero(f[17])
    &&& info.temperature.memory is None
    &&& info.temperature.slowdown_threshold == 83
    &&& info.temperature.shutdown_threshold == 90
    &&& info.pcie.generation == u32_or_zero(f[18])
    &&& info.pcie.width == u32_or_zero(f[19])
    &&& info.pcie.max_generation == u32_or_zero(f[20])
    &&& info.pcie.max_width == u32_or_zero(f[21])
    &&& info.pcie.tx_throughput == 0
    &&& info.pcie.rx_throughput == 0
    &&& info.nvlink is None
    &&& !info.ecc.enabled
    &&& info.ecc.single_bit_errors == 0
    &&& info.ecc.double_bit_errors == 0
}

/// The flag that names a GPU to `nvidia-smi`.
pub open spec fn spec_id_flag(index: u32) -> Seq<char> {
    "--id="@ + decimal(index as nat)
}

/// The flag that sets a power limit.
pub open spec fn spec_power_limit_flag(watts: u32) -> Seq<char> {
    "--power-limit="@ + decimal(watts as nat)
}

/// The flag that names a GPU to `nvidia-smi`.
pub fn id_flag(index: u32) -> (s: String)
    ensures
        s@ == spec_id_flag(index),
{
    let mut s = String::from_str("--id=");
    push_decimal(&mut s, index as u64);
    s
}

/// The flag that sets a power limit.
pub fn power_limit_flag(watts: u32) -> (s: String)
    ensures
        s@ == spec_power_limit_flag(watts),
{
    let mut s = String::from_str("--power-limit=");
    push_decimal(&mut s, watts as u64);
    s
}

/// The management of the GPUs.
pub struct NvmlManager {
    initialized: bool,
    gpu_count: u32,
}

impl Default for NvmlManager {
    fn default() -> (m: NvmlManager)
        ensures
            m.spec_gpu_count() == 0,
            !m.spec_initialized(),
    {
        NvmlManager { initialized: false, gpu_count: 0 }
    }
}

impl NvmlManager {
    /// The number of GPUs.
    pub closed spec fn spec_gpu_count(&self) -> u32 {
        self.gpu_count
    }

    /// Whether the management was set up.
    pub closed spec fn spec_initialized(&self) -> bool {
        self.initialized
    }

    /// The management of the GPUs that were detected.
    pub fn new(gpu_count: u32) -> (r: Result<Self, crate::runtime_cpu::Error>)
        ensures
            r is Ok,
            r->Ok_0.spec_gpu_count() == gpu_count,
            r->Ok_0.spec_initialized(),
    {
        Ok(NvmlManager { initialized: true, gpu_count })
    }

    /// The number of GPUs.
    pub fn gpu_count(&self) -> (n: u32)
        ensures
            n == self.spec_gpu_count(),
    {
        self.gpu_count
    }

    /// Whether the index names a GPU.
    pub fn has_gpu(&self, index: u32) -> (r: bool)
        ensures
            r == (index < self.spec_gpu_count()),
    {
        index < self.gpu_count
    }

    /// Refuses an index that names no GPU.
    pub fn check_index(&self, index: u32) -> (r: Result<(), Error>)
        ensures
            r is Ok <==> index < self.spec_gpu_count(),
            r is Err ==> r->Err_0 is Gpu && r->Err_0->Gpu_0@ == invalid_index_message(index),
    {
        if index >= self.gpu_count {
            let mut msg = String::from_str("Invalid GPU index: ");
            push_decimal(&mut msg, index as u64);
            return Err(Error::Gpu(msg));
        }
        Ok(())
    }

    /// The field of a line of `nvidia-smi` that holds the power draw,
    /// where the line has one.
    pub fn power_draw_field(line: &str) -> (r: Option<String>)
        ensures
            match r {
                Some(field) => fields_of(line@).len() > POWER_DRAW_FIELD && field@ == fields_of(
                    line@,
                )[POWER_DRAW_FIELD as int],
                None => fields_of(line@).len() <= POWER_DRAW_FIELD,
            },
    {
        let parts = split_fields(line);
        if parts.len() > POWER_DRAW_FIELD {
            assert(texts(parts@)[POWER_DRAW_FIELD as int] == parts@[POWER_DRAW_FIELD as int]@);
            Some(parts[POWER_DRAW_FIELD].clone())
        } else {
            None
        }
    }

    /// What a line of `nvidia-smi` tells of the GPU with the index, with
    /// the power draw as the caller read it. An index that names no GPU
    /// is an error, and so is a line of fewer than 22 fields.
    pub fn get_gpu_info(&self, index: u32, line: &str, power_draw: u32) -> (r: Result<GpuInfo, Error>)
        ensures
            r is Ok <==> index < self.spec_gpu_count() && fields_of(line@).len() >= GPU_INFO_FIELDS,
            r is Ok ==> is_info_of_line(r->Ok_0, index, power_draw, line@),
            r is Err ==> r->Err_0 is Gpu && r->Err_0->Gpu_0@ == if index >= self.spec_gpu_count() {
                invalid_index_message(index)
            } else {
                short_line_message()
            },
    {
        match self.check_index(index) {
            Ok(_) => {},
            Err(e) => {
                return Err(e);
            },
        }
        let parts = split_fields(line);
        if parts.len() < GPU_INFO_FIELDS {
            return Err(Error::Gpu(String::from_str("Unexpected nvidia-smi output")));
        }
        proof {
            let f = fields_of(line@);
            assert forall|j: int| 0 <= j < f.len() implies (#[trigger] parts@[j])@ == f[j] by {
                assert(texts(parts@)[j] == parts@[j]@);
            }
        }
        Ok(
            GpuInfo {
                index,
                name: parts[1].clone(),
                uuid: parts[2].clone(),
                serial: None,
                vbios_version: parts[3].clone(),
                driver_version: parts[4].clone(),
                compute_capability: ComputeCapability { major: 8, minor: 0 },
                sm_count: 108,
                power_state: PowerState::parse(parts[5].as_str()),
                power_limit: u32_or(parts[6].as_str()),
                power_draw,
                memory: MemoryInfo {
                    total: mebibytes_to_bytes(u64_or(parts[8].as_str())),
                    used: mebibytes_to_bytes(u64_or(parts[9].as_str())),
                    free: mebibytes_to_bytes(u64_or(parts[10].as_str())),
                },
                utilization: UtilizationInfo {
                    gpu: u32_or(parts[11].as_str()),
                    memory: u32_or(parts[12].as_str()),
                    encoder: 0,
                    decoder: 0,
                },
                clocks: ClockInfo {
                    graphics: u32_or(parts[13].as_str()),
                    sm: u32_or(parts[14].as_str()),
                    memory: u32_or(parts[15].as_str()),
                    video: u32_or(parts[16].as_str()),
                },
                temperature: TemperatureInfo {
                    gpu: i32_or(parts[17].as_str()),
                    memory: None,
                    slowdown_threshold: 83,
                    shutdown_threshold: 90,
                },
                pcie: PcieInfo {
                    generation: u32_or(parts[18].as_str()),
                    width: u32_or(parts[19].as_str()),
                    max_generation: u32_or(parts[20].as_str()),
                    max_width: u32_or(parts[21].as_str()),
                    tx_throughput: 0,
                    rx_throughput: 0,
                },
                nvlink: None,
                ecc: EccStats { enabled: false, single_bit_errors: 0, double_bit_errors: 0 },
            },
        )
    }
}

} // verus!
