//! The CUDA runtime as far as it is bookkeeping: which device is current,
//! what a launch looks like, what an allocation records.

use vstd::prelude::*;
use vstd::string::StringExecFns;

verus! {

/// What a CUDA call reports.
#[derive(Debug, Clone, Copy, PartialEq, Eq, Structural)]
pub enum CudaError {
    /// No error.
    Success,
    /// An argument was out of range.
    InvalidValue,
    /// The device has no memory left.
    OutOfMemory,
    /// The runtime was not set up.
    NotInitialized,
    /// No device was found.
    DeviceNotFound,
    /// The device number names no device.
    InvalidDevice,
    /// The direction of a copy is not one of the four.
    InvalidMemcpyDirection,
    /// Anything else.
    Unknown,
}

impl CudaError {
    /// The number of the error in the CUDA runtime.
    pub open spec fn spec_code(self) -> i32 {
        match self {
            CudaError::Success => 0i32,
            CudaError::InvalidValue => 1i32,
            CudaError::OutOfMemory => 2i32,
            CudaError::NotInitialized => 3i32,
            CudaError::DeviceNotFound => 100i32,
            CudaError::InvalidDevice => 101i32,
            CudaError::InvalidMemcpyDirection => 21i32,
            CudaError::Unknown => -1i32,
        }
    }

    /// The number of the error in the CUDA runtime.
    pub fn code(self) -> (c: i32)
        ensures
            c == self.spec_code(),
    {
        match self {
            CudaError::Success => 0,
            CudaError::InvalidValue => 1,
            CudaError::OutOfMemory => 2,
            CudaError::NotInitialized => 3,
            CudaError::DeviceNotFound => 100,
            CudaError::InvalidDevice => 101,
            CudaError::InvalidMemcpyDirection => 21,
            CudaError::Unknown => -1,
        }
    }

    /// The error as a sentence.
    pub open spec fn spec_message(self) -> Seq<char> {
        match self {
            CudaError::Success => "CUDA Success"@,
            CudaError::InvalidValue => "Invalid Value"@,
            CudaError::OutOfMemory => "Out of Memory"@,
            CudaError::NotInitialized => "CUDA not initialized"@,
            CudaError::DeviceNotFound => "No CUDA device found"@,
            CudaError::InvalidDevice => "Invalid device"@,
            CudaError::InvalidMemcpyDirection => "Invalid memcpy direction"@,
            CudaError::Unknown => "Unknown CUDA error"@,
        }
    }

    /// The error as a sentence.
    pub fn message(self) -> (s: String)
        ensures
            s@ == self.spec_message(),
    {
        match self {
            CudaError::Success => String::from_str("CUDA Success"),
            CudaError::InvalidValue => String::from_str("Invalid Value"),
            CudaError::OutOfMemory => String::from_str("Out of Memory"),
            CudaError::NotInitialized => String::from_str("CUDA not initialized"),
            CudaError::DeviceNotFound => String::from_str("No CUDA device found"),
            CudaError::InvalidDevice => String::from_str("Invalid device"),
            CudaError::InvalidMemcpyDirection => String::from_str("Invalid memcpy direction"),
            CudaError::Unknown => String::from_str("Unknown CUDA error"),
        }
    }
}

/// The direction of a copy.
#[derive(Debug, Clone, Copy, PartialEq, Eq, Structural)]
pub enum MemcpyKind {
    /// From host memory to host memory.
    HostToHost,
    /// From host memory to the device.
    HostToDevice,
    /// From the device to host memory.
    DeviceToHost,
    /// From device memory to device memory.
    DeviceToDevice,
}

/// What is known of a device.
#[derive(Debug, Clone)]
pub struct DeviceProperties {
    /// Name of the device.
    pub name: String,
    /// Global memory, in bytes.
    pub total_memory: usize,
    /// Number of multiprocessors.
    pub multiprocessor_count: i32,
    /// Compute capability, major part.
    pub major: i32,
    /// Compute capability, minor part.
    pub minor: i32,
    /// Most threads of a block.
    pub max_threads_per_block: i32,
    /// Most threads of a multiprocessor.
    pub max_threads_per_multiprocessor: i32,
    /// Threads of a warp.
    pub warp_size: i32,
    /// Clock rate, in kHz.
    pub clock_rate: i32,
    /// Memory clock rate, in kHz.
    pub memory_clock_rate: i32,
    /// Width of the memory bus, in bits.
    pub memory_bus_width: i32,
    /// Size of the L2 cache, in bytes.
    pub l2_cache_size: i32,
    /// Whether host and device share an address space.
    pub unified_addressing: bool,
    /// Whether managed memory is supported.
    pub managed_memory: bool,
}

impl Default for DeviceProperties {
    fn default() -> (p: DeviceProperties)
        ensures
            p.name@ == "Unknown"@,
            p.total_memory == 0,
            p.multiprocessor_count == 0,
            p.major == 0,
            p.minor == 0,
            p.max_threads_per_block == 1024,
            p.max_threads_per_multiprocessor == 2048,
            p.warp_size == 32,
            p.clock_rate == 0,
            p.memory_clock_rate == 0,
            p.memory_bus_width == 0,
            p.l2_cache_size == 0,
            !p.unified_addressing,
            !p.managed_memory,
    {
        DeviceProperties {
            name: String::from_str("Unknown"),
            total_memory: 0,
            multiprocessor_count: 0,
            major: 0,
            minor: 0,
            max_threads_per_block: 1024,
            max_threads_per_multiprocessor: 2048,
            warp_size: 32,
            clock_rate: 0,
            memory_clock_rate: 0,
            memory_bus_width: 0,
            l2_cache_size: 0,
            unified_addressing: false,
            managed_memory: false,
        }
    }
}

/// A stream of work on a device.
#[derive(Debug)]
pub struct CudaStream {
    handle: u64,
    device_id: i32,
}

impl CudaStream {
    /// The device of the stream.
    pub closed spec fn spec_device_id(&self) -> i32 {
        self.device_id
    }

    /// A stream on the device.
    pub fn new(device_id: i32) -> (r: Result<Self, CudaError>)
        ensures
            r is Ok,
            r->Ok_0.spec_device_id() == device_id,
    {
        Ok(CudaStream { handle: 0, device_id })
    }

    /// The device of the stream.
    pub fn device_id(&self) -> (d: i32)
        ensures
            d == self.spec_device_id(),
    {
        self.device_id
    }

    /// Waits for the work of the stream; there is none to wait for.
    pub fn synchronize(&self) -> (r: Result<(), CudaError>)
        ensures
            r is Ok,
    {
        Ok(())
    }

    /// Whether the work of the stream is done; it always is.
    pub fn is_ready(&self) -> (r: bool)
        ensures
            r,
    {
        true
    }
}

/// The record of an allocation on a device.
#[derive(Debug)]
pub struct CudaMemory {
    size: usize,
    device_id: i32,
}

impl CudaMemory {
    /// The size in bytes.
    pub closed spec fn spec_size(&self) -> usize {
        self.size
    }

    /// The device.
    pub closed spec fn spec_device_id(&self) -> i32 {
        self.device_id
    }

    /// Records an allocation of `size` bytes; an empty one is refused.
    pub fn allocate(size: usize, device_id: i32) -> (r: Result<Self, CudaError>)
        ensures
            r is Ok <==> size > 0,
            r is Ok ==> r->Ok_0.spec_size() == size && r->Ok_0.spec_device_id() == device_id,
            r is Err ==> r->Err_0 == CudaError::InvalidValue,
    {
        if size == 0 {
            return Err(CudaError::InvalidValue);
        }
        Ok(CudaMemory { size, device_id })
    }

    /// The size in bytes.
    pub fn size(&self) -> (n: usize)
        ensures
            n == self.spec_size(),
    {
        self.size
    }

    /// The device.
    pub fn device_id(&self) -> (d: i32)
        ensures
            d == self.spec_device_id(),
    {
        self.device_id
    }
}

/// `mb` mebibytes in bytes, cut to the range of `usize`.
pub open spec fn mebibytes(mb: usize) -> usize {
    if mb * 1048576 > usize::MAX {
        usize::MAX
    } else {
        (mb * 1048576) as usize
    }
}

/// `mb` mebibytes in bytes, cut to the range of `usize`.
pub fn mebibytes_to_bytes(mb: usize) -> (bytes: usize)
    ensures
        bytes == mebibytes(mb),
{
    if mb > usize::MAX / 1048576 {
        usize::MAX
    } else {
        mb * 1048576
    }
}

/// The CUDA runtime.
pub struct CudaRuntime {
    initialized: bool,
    device_count: i32,
    current_device: i32,
}

impl CudaRuntime {
    /// The number of devices.
    pub closed spec fn spec_device_count(&self) -> i32 {
        self.device_count
    }

    /// The current device.
    pub closed spec fn spec_current_device(&self) -> i32 {
        self.current_device
    }

    /// Whether the runtime was set up with devices.
    pub closed spec fn spec_initialized(&self) -> bool {
        self.initialized
    }

    /// The runtime over the devices that were detected; without a device
    /// there is no runtime.
    pub fn new(device_count: i32) -> (r: Result<Self, CudaError>)
        ensures
            r is Ok <==> device_count != 0,
            r is Ok ==> {
                &&& r->Ok_0.spec_device_count() == device_count
                &&& r->Ok_0.spec_current_device() == 0
                &&& r->Ok_0.spec_initialized()
            },
            r is Err ==> r->Err_0 == CudaError::DeviceNotFound,
    {
        if device_count == 0 {
            return Err(CudaError::DeviceNotFound);
        }
        Ok(CudaRuntime { initialized: true, device_count, current_device: 0 })
    }

    /// The runtime over the devices that were detected, or a runtime
    /// without devices that is not set up.
    pub fn new_or_empty(device_count: i32) -> (r: Self)
        ensures
            r.spec_device_count() == device_count,
            r.spec_current_device() == 0,
            r.spec_initialized() == (device_count != 0),
    {
        match Self::new(device_count) {
            Ok(runtime) => runtime,
            Err(_) => CudaRuntime { initialized: false, device_count: 0, current_device: 0 },
        }
    }

    /// The number of devices.
    pub fn device_count(&self) -> (n: i32)
        ensures
            n == self.spec_device_count(),
    {
        self.device_count
    }

    /// Whether the runtime was set up with devices.
    pub fn is_initialized(&self) -> (r: bool)
        ensures
            r == self.spec_initialized(),
    {
        self.initialized
    }

    /// Makes the device current; a number that names no device is refused
    /// and changes nothing.
    pub fn set_device(&mut self, device_id: i32) -> (r: Result<(), CudaError>)
        ensures
            r is Ok <==> 0 <= device_id < old(self).spec_device_count(),
            r is Err ==> r->Err_0 == CudaError::InvalidDevice,
            final(self).spec_device_count() == old(self).spec_device_count(),
            final(self).spec_initialized() == old(self).spec_initialized(),
            final(self).spec_current_device() == if r is Ok {
                device_id
            } else {
                old(self).spec_current_device()
            },
    {
        if device_id < 0 || device_id >= self.device_count {
            return Err(CudaError::InvalidDevice);
        }
        self.current_device = device_id;
        Ok(())
    }

    /// The current device.
    pub fn current_device(&self) -> (d: i32)
        ensures
            d == self.spec_current_device(),
    {
        self.current_device
    }

    /// The properties of a device from what was asked of it: the defaults,
    /// with the name and the memory where they are known. The memory is
    /// given in mebibytes.
    pub fn get_device_properties(&self, device_id: i32, name: Option<String>, memory_mb: Option<usize>) -> (r:
        Result<DeviceProperties, CudaError>)
        ensures
            r is Ok <==> 0 <= device_id < self.spec_device_count(),
            r is Err ==> r->Err_0 == CudaError::InvalidDevice,
            r is Ok ==> {
                &&& r->Ok_0.name@ == match name {
                    Some(n) => n@,
                    None => "Unknown"@,
                }
                &&& r->Ok_0.total_memory == match memory_mb {
                    Some(mb) => mebibytes(mb),
                    None => 0usize,
                }
                &&& r->Ok_0.warp_size == 32
                &&& r->Ok_0.max_threads_per_block == 1024
                &&& r->Ok_0.max_threads_per_multiprocessor == 2048
            },
    {
        if device_id < 0 || device_id >= self.device_count {
            return Err(CudaError::InvalidDevice);
        }
        let mut props = DeviceProperties::default();
        match name {
            Some(n) => {
                props.name = n;
            },
            None => {},
        }
        match memory_mb {
            Some(mb) => {
                props.total_memory = mebibytes_to_bytes(mb);
            },
            None => {},
        }
        Ok(props)
    }

    /// Records an allocation on the current device.
    pub fn malloc(&self, size: usize) -> (r: Result<CudaMemory, CudaError>)
        ensures
            r is Ok <==> size > 0,
            r is Ok ==> r->Ok_0.spec_size() == size && r->Ok_0.spec_device_id() == self.spec_current_device(),
            r is Err ==> r->Err_0 == CudaError::InvalidValue,
    {
        CudaMemory::allocate(size, self.current_device)
    }

    /// A stream on the current device.
    pub fn create_stream(&self) -> (r: Result<CudaStream, CudaError>)
        ensures
            r is Ok,
            r->Ok_0.spec_device_id() == self.spec_current_device(),
    {
        CudaStream::new(self.current_device)
    }

    /// Waits for the work of the device; there is none to wait for.
    pub fn synchronize(&self) -> (r: Result<(), CudaError>)
        ensures
            r is Ok,
    {
        Ok(())
    }

    /// Free and total memory in bytes from what was asked of the device in
    /// mebibytes; zero where nothing is known.
    pub fn mem_info(&self, free_mb: Option<usize>, total_mb: Option<usize>) -> (r: Result<(usize, usize), CudaError>)
        ensures
            r is Ok,
            r->Ok_0.0 == match free_mb {
                Some(mb) => mebibytes(mb),
                None => 0usize,
            },
            r->Ok_0.1 == match total_mb {
                Some(mb) => mebibytes(mb),
                None => 0usize,
            },
    {
        let free = match free_mb {
            Some(mb) => mebibytes_to_bytes(mb),
            None => 0,
        };
        let total = match total_mb {
            Some(mb) => mebibytes_to_bytes(mb),
            None => 0,
        };
        Ok((free, total))
    }
}

/// How a kernel is launched.
#[derive(Debug, Clone, Copy)]
pub struct LaunchConfig {
    /// Blocks of the grid, in three dimensions.
    pub grid: (u32, u32, u32),
    /// Threads of a block, in three dimensions.
    pub block: (u32, u32, u32),
    /// Shared memory, in bytes.
    pub shared_mem: usize,
    /// The stream, or none for the default stream.
    pub stream: Option<u64>,
}

/// The number of blocks of `size` that cover `n`.
pub open spec fn blocks_for(n: int, size: int) -> int {
    (n + size - 1) / size
}

impl LaunchConfig {
    /// A launch in one dimension: as many blocks of `threads_per_block`
    /// threads as cover the lower 32 bits of `n`.
    pub fn linear(n: usize, threads_per_block: u32) -> (c: Self)
        requires
            threads_per_block > 0,
            (n as int) % 0x1_0000_0000 + threads_per_block <= u32::MAX,
        ensures
            c.grid == (blocks_for((n as int) % 0x1_0000_0000, threads_per_block as int) as u32, 1u32, 1u32),
            c.block == (threads_per_block, 1u32, 1u32),
            c.shared_mem == 0,
            c.stream is None,
    {
        let low: u32 = (n as u64 % 0x1_0000_0000) as u32;
        let blocks = (low + threads_per_block - 1) / threads_per_block;
        LaunchConfig { grid: (blocks, 1, 1), block: (threads_per_block, 1, 1), shared_mem: 0, stream: None }
    }

    /// A launch in two dimensions: as many blocks as cover the width and
    /// the height.
    pub fn grid_2d(width: u32, height: u32, block_x: u32, block_y: u32) -> (c: Self)
        requires
            block_x > 0,
            block_y > 0,
            width + block_x <= u32::MAX,
            height + block_y <= u32::MAX,
        ensures
            c.grid == (
                blocks_for(width as int, block_x as int) as u32,
                blocks_for(height as int, block_y as int) as u32,
                1u32,
            ),
            c.block == (block_x, block_y, 1u32),
            c.shared_mem == 0,
            c.stream is None,
    {
        let grid_x = (width + block_x - 1) / block_x;
        let grid_y = (height + block_y - 1) / block_y;
        LaunchConfig { grid: (grid_x, grid_y, 1), block: (block_x, block_y, 1), shared_mem: 0, stream: None }
    }

    /// The same launch with the given shared memory.
    pub fn with_shared_mem(self, size: usize) -> (c: Self)
        ensures
            c.grid == self.grid,
            c.block == self.block,
            c.stream == self.stream,
            c.shared_mem == size,
    {
        let mut c = self;
        c.shared_mem = size;
        c
    }
}

/// The blocks of a launch cover what they are made for, and one block
/// less would not.
pub proof fn blocks_cover(n: int, size: int)
    requires
        n >= 0,
        size > 0,
    ensures
        blocks_for(n, size) * size >= n,
        n > 0 ==> (blocks_for(n, size) - 1) * size < n,
{
    let b = blocks_for(n, size);
    assert(b * size >= n && (n > 0 ==> (b - 1) * size < n)) by (nonlinear_arith)
        requires
            b == (n + size - 1) / size,
            n >= 0,
            size > 0,
    ;
}

} // verus!
