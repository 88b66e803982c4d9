use zenith::runtime_gpu::cuda::{
    CudaError, CudaMemory, CudaRuntime, CudaStream, DeviceProperties, LaunchConfig, MemcpyKind,
};
use zenith::runtime_gpu::multigpu::{
    CollectiveOp, DataParallelTrainer, GpuTopology, MultiGpuComm, MultiGpuError, MultiGpuStrategy, ReductionOp,
};
use zenith::runtime_cpu::Error;
use zenith::runtime_gpu::nvml::{id_flag, power_limit_flag, ComputeCapability, NvmlManager, PowerState};
use zenith::runtime_gpu::tensorrt::{
    BuilderConfig, OptimizationProfile, Precision, TrtContext, TrtEngine, TrtError, TrtOptimizer,
};

#[test]
fn test_cuda_error_display() {
    assert_eq!(CudaError::Success.message(), "CUDA Success");
    assert_eq!(CudaError::OutOfMemory.message(), "Out of Memory");
    assert_eq!(CudaError::DeviceNotFound.message(), "No CUDA device found");
    assert_eq!(CudaError::DeviceNotFound.code(), 100);
    assert_eq!(CudaError::InvalidMemcpyDirection.code(), 21);
    assert_eq!(CudaError::Unknown.code(), -1);
}

#[test]
fn test_device_properties_default() {
    let props = DeviceProperties::default();
    assert_eq!(props.warp_size, 32);
    assert_eq!(props.max_threads_per_block, 1024);
    assert_eq!(props.name, "Unknown");
}

#[test]
fn test_launch_config_linear() {
    let config = LaunchConfig::linear(1000, 256);
    assert_eq!(config.grid.0, 4);
    assert_eq!(config.block.0, 256);
    assert_eq!(config.grid, (4, 1, 1));
    assert_eq!(LaunchConfig::linear(1024, 256).grid.0, 4);
    assert_eq!(LaunchConfig::linear(1025, 256).grid.0, 5);
    assert_eq!(LaunchConfig::linear(0, 256).grid.0, 0);
    assert_eq!(LaunchConfig::linear((1usize << 32) + 10, 8).grid.0, 2);
}

#[test]
fn test_launch_config_2d() {
    let config = LaunchConfig::grid_2d(1920, 1080, 16, 16);
    assert_eq!(config.grid.0, 120);
    assert_eq!(config.grid.1, 68);
    assert_eq!(config.block, (16, 16, 1));
    assert_eq!(config.shared_mem, 0);
    assert_eq!(config.stream, None);
    assert_eq!(config.with_shared_mem(4096).shared_mem, 4096);
}

#[test]
fn test_cuda_memory() {
    let mem = CudaMemory::allocate(1024, 0);
    assert!(mem.is_ok());
    let mem = mem.unwrap();
    assert_eq!(mem.size(), 1024);
    assert_eq!(mem.device_id(), 0);
    assert!(matches!(CudaMemory::allocate(0, 0), Err(CudaError::InvalidValue)));
}

#[test]
fn cuda_runtime_bookkeeping() {
    assert!(matches!(CudaRuntime::new(0), Err(CudaError::DeviceNotFound)));
    assert!(!CudaRuntime::new_or_empty(0).is_initialized());
    let mut runtime = CudaRuntime::new(2).unwrap();
    assert_eq!(runtime.device_count(), 2);
    assert_eq!(runtime.current_device(), 0);
    assert!(runtime.set_device(1).is_ok());
    assert_eq!(runtime.current_device(), 1);
    assert_eq!(runtime.set_device(2), Err(CudaError::InvalidDevice));
    assert_eq!(runtime.set_device(-1), Err(CudaError::InvalidDevice));
    assert_eq!(runtime.current_device(), 1);
    let props = runtime.get_device_properties(1, Some("A100".to_string()), Some(81920)).unwrap();
    assert_eq!(props.name, "A100");
    assert_eq!(props.total_memory, 81920 * 1024 * 1024);
    let bare = runtime.get_device_properties(0, None, None).unwrap();
    assert_eq!(bare.name, "Unknown");
    assert_eq!(bare.total_memory, 0);
    assert!(runtime.get_device_properties(5, None, None).is_err());
    assert_eq!(runtime.malloc(64).unwrap().device_id(), 1);
    assert!(runtime.malloc(0).is_err());
    let stream: CudaStream = runtime.create_stream().unwrap();
    assert_eq!(stream.device_id(), 1);
    assert!(stream.is_ready());
    assert!(stream.synchronize().is_ok());
    assert!(runtime.synchronize().is_ok());
    assert_eq!(runtime.mem_info(Some(3), None).unwrap(), (3 * 1024 * 1024, 0));
    assert!(matches!(MemcpyKind::HostToDevice, MemcpyKind::HostToDevice));
}

#[test]
fn test_multi_gpu_strategy() {
    assert_eq!(MultiGpuStrategy::DataParallel as i32, 0);
    assert_eq!(MultiGpuStrategy::DataParallel.index(), 0);
    assert_eq!(MultiGpuStrategy::TensorParallel.index(), 3);
}

#[test]
fn test_gpu_topology_discover() {
    let topology = GpuTopology::discover(vec![]);
    assert!(topology.num_gpus >= 0);
    let found = GpuTopology::discover(vec![(Some("A100".to_string()), Some(1 << 30)), (None, None)]);
    assert_eq!(found.num_gpus, 2);
    assert_eq!(found.gpu_names, vec!["A100".to_string(), "GPU 1".to_string()]);
    assert_eq!(found.memory_per_gpu, vec![1 << 30, 0]);
    assert!(!found.has_nvlink(0, 1));
    assert!(found.has_pcie_peer(0, 1));
    assert!(found.has_pcie_peer(1, 1));
    assert!(!found.has_pcie_peer(0, 2));
    assert!(!found.has_pcie_peer(-1, 0));
}

#[test]
fn test_recommend_strategy_small_model() {
    let mut topology = GpuTopology::discover(vec![]);
    if topology.num_gpus == 0 {
        topology.num_gpus = 2;
        topology.memory_per_gpu = vec![16 * 1024 * 1024 * 1024; 2];
    }
    let strategy = topology.recommend_strategy(100);
    assert_eq!(strategy, MultiGpuStrategy::DataParallel);
}

#[test]
fn strategy_follows_the_smallest_gpu() {
    let gib: usize = 1 << 30;
    let mut topology = GpuTopology::discover(vec![(None, Some(16 * gib)), (None, Some(8 * gib))]);
    assert_eq!(topology.min_memory(), 8 * gib);
    assert_eq!(topology.recommend_strategy(4095), MultiGpuStrategy::DataParallel);
    assert_eq!(topology.recommend_strategy(4096), MultiGpuStrategy::PipelineParallel);
    assert_eq!(topology.recommend_strategy(8192), MultiGpuStrategy::PipelineParallel);
    assert_eq!(topology.recommend_strategy(8193), MultiGpuStrategy::ModelParallel);
    topology.num_gpus = 1;
    assert_eq!(topology.recommend_strategy(1 << 20), MultiGpuStrategy::DataParallel);
}

#[test]
fn test_reduction_op() {
    let op = ReductionOp::Sum;
    assert_eq!(format!("{:?}", op), "Sum");
    assert_eq!(format!("{:?}", CollectiveOp::AllGather), "AllGather");
}

#[test]
fn communicators_and_trainers() {
    assert!(matches!(
        MultiGpuComm::new(MultiGpuStrategy::DataParallel, GpuTopology::discover(vec![])),
        Err(MultiGpuError::NoGpuFound)
    ));
    let comm = MultiGpuComm::new(MultiGpuStrategy::ModelParallel, GpuTopology::discover(vec![(None, None); 4])).unwrap();
    assert_eq!(comm.num_gpus(), 4);
    assert_eq!(comm.strategy(), MultiGpuStrategy::ModelParallel);
    assert_eq!(comm.topology().num_gpus, 4);
    assert!(comm.synchronize().is_ok());
    let mut trainer = DataParallelTrainer::new(32, GpuTopology::discover(vec![(None, None); 4])).unwrap();
    assert_eq!(trainer.effective_batch_size(), 128);
    trainer.set_gradient_accumulation(8);
    assert_eq!(trainer.effective_batch_size(), 1024);
    assert!(DataParallelTrainer::new(32, GpuTopology::discover(vec![])).is_err());
    assert_eq!(MultiGpuError::NoGpuFound.message(), "No GPU found");
    assert_eq!(MultiGpuError::SyncError("x".to_string()).message(), "Sync error: x");
}

#[test]
fn test_nvml_manager() {
    let manager = NvmlManager::default();
    assert_eq!(manager.gpu_count(), 0);
    let manager = NvmlManager::new(3).unwrap();
    assert_eq!(manager.gpu_count(), 3);
    assert!(manager.has_gpu(2));
    assert!(!manager.has_gpu(3));
}

#[test]
fn test_power_state() {
    assert_eq!(PowerState::P0, PowerState::P0);
    assert_ne!(PowerState::P0, PowerState::P8);
    assert_eq!(PowerState::parse("P0"), PowerState::P0);
    assert_eq!(PowerState::parse("P2"), PowerState::P2);
    assert_eq!(PowerState::parse("P8"), PowerState::P8);
    assert_eq!(PowerState::parse("P5"), PowerState::Unknown);
    assert_eq!(PowerState::parse(""), PowerState::Unknown);
}

#[test]
fn test_precision() {
    assert_eq!(Precision::Float16 as i32, 1);
    assert_eq!(Precision::Float16.index(), 1);
    assert_eq!(Precision::Best.index(), 3);
}

#[test]
fn test_builder_config_default() {
    let config = BuilderConfig::default();
    assert_eq!(config.precision, Precision::Float16);
    assert_eq!(config.max_workspace_size, 1 << 30);
    assert_eq!(config.dla_core, -1);
    assert!(config.gpu_fallback);
}

#[test]
fn test_optimization_profile() {
    let profile = OptimizationProfile::default();
    assert_eq!(profile.min_batch, 1);
    assert_eq!(profile.opt_batch, 8);
    assert_eq!(profile.max_batch, 32);
}

#[test]
fn test_build_command() {
    let cmd = TrtOptimizer::build_command("model.onnx", "model.engine", Precision::Float16, 32);
    assert!(cmd.contains("--fp16"));
    assert!(cmd.contains("--maxBatch=32"));
    assert_eq!(cmd, "trtexec --onnx=model.onnx --saveEngine=model.engine --fp16 --maxBatch=32");
    assert_eq!(
        TrtOptimizer::build_command("a", "b", Precision::Float32, -1),
        "trtexec --onnx=a --saveEngine=b  --maxBatch=-1"
    );
}

#[test]
fn engines_and_contexts() {
    assert!(matches!(TrtEngine::load("e.trt", false), Err(TrtError::FileNotFound(_))));
    let engine = TrtEngine::load("e.trt", true).unwrap();
    assert_eq!(engine.max_batch_size(), 32);
    assert_eq!(engine.precision(), Precision::Float16);
    assert_eq!(engine.input_shapes()[0], ("input".to_string(), vec![-1, 3, 224, 224]));
    assert_eq!(engine.output_shapes()[0], ("output".to_string(), vec![-1, 1000]));
    assert!(engine.save("x").is_ok());
    let mut config = BuilderConfig::default();
    config.precision = Precision::Int8;
    config.profiles = vec![OptimizationProfile { min_batch: 1, opt_batch: 4, max_batch: 16 }];
    let built = TrtEngine::from_onnx("m.onnx", config, true).unwrap();
    assert_eq!(built.max_batch_size(), 16);
    assert_eq!(built.precision(), Precision::Int8);
    let mut none = BuilderConfig::default();
    none.profiles = vec![];
    assert_eq!(TrtEngine::from_onnx("m.onnx", none, true).unwrap().max_batch_size(), 32);
    assert!(TrtEngine::from_onnx("m.onnx", BuilderConfig::default(), false).is_err());
    let mut context = TrtContext::new(&built).unwrap();
    assert_eq!(context.batch_size(), 1);
    assert!(context.set_batch_size(16).is_ok());
    assert!(matches!(context.set_batch_size(17), Err(TrtError::InvalidBatchSize)));
    assert_eq!(context.batch_size(), 16);
    assert_eq!(TrtError::FileNotFound("p".to_string()).message(), "File not found: p");
    assert_eq!(TrtError::EngineNotLoaded.message(), "TensorRT engine not loaded");
}

#[test]
fn test_estimate_speedup() {
    assert_eq!(TrtOptimizer::estimate_speedup(Precision::Float16) as f32, 4.0);
    assert_eq!(TrtOptimizer::estimate_speedup(Precision::Int8) as f32, 8.0);
    assert_eq!(TrtOptimizer::estimate_speedup(Precision::Float32), 2);
    assert_eq!(TrtOptimizer::estimate_speedup(Precision::Best), 4);
}

#[test]
fn contexts_take_runs_with_inputs_and_outputs() {
    let engine = TrtEngine::load("model.trt", true).unwrap();
    let context = TrtContext::new(&engine).unwrap();
    assert!(context.execute(1, 1).is_ok());
    assert!(matches!(context.execute(0, 1), Err(TrtError::InvalidInput)));
    assert!(matches!(context.execute(1, 0), Err(TrtError::InvalidInput)));
    assert!(context.execute_async(0, 0, 7).is_ok());
}

#[test]
fn collectives_leave_the_values() {
    let comm = MultiGpuComm::new(MultiGpuStrategy::DataParallel, GpuTopology::discover(vec![(None, None); 2])).unwrap();
    let mut data = vec![1.0f32, 2.0, 3.0];
    assert!(comm.all_reduce(&mut data, ReductionOp::Sum).is_ok());
    assert_eq!(data, vec![1.0, 2.0, 3.0]);
    let mut received = vec![0.0f32; 2];
    assert!(comm.all_gather(&data, &mut received).is_ok());
    assert_eq!(received, vec![0.0, 0.0]);
    assert!(comm.broadcast(&mut data, 0).is_ok());
    let trainer = DataParallelTrainer::new(8, GpuTopology::discover(vec![(None, None); 2])).unwrap();
    assert!(trainer.sync_gradients(&mut data).is_ok());
    assert_eq!(data, vec![1.0, 2.0, 3.0]);
}

#[test]
fn a_line_tells_of_a_gpu() {
    let manager = NvmlManager::new(2).unwrap();
    let line = " 1, NVIDIA A100, GPU-abc, 92.00.45, 535.104, P0, 400, 61.52, 40960, 1024, 39936, 35, 12, 1410, 1410, 1215, 1275, 41, 4, 16, 4, 16\n";
    assert_eq!(NvmlManager::power_draw_field(line), Some("61.52".to_string()));
    let info = manager.get_gpu_info(1, line, 61).unwrap();
    assert_eq!(info.index, 1);
    assert_eq!(info.name, "NVIDIA A100");
    assert_eq!(info.uuid, "GPU-abc");
    assert_eq!(info.serial, None);
    assert_eq!(info.vbios_version, "92.00.45");
    assert_eq!(info.driver_version, "535.104");
    assert_eq!(info.compute_capability, ComputeCapability { major: 8, minor: 0 });
    assert_eq!(info.sm_count, 108);
    assert_eq!(info.power_state, PowerState::P0);
    assert_eq!((info.power_limit, info.power_draw), (400, 61));
    assert_eq!(info.memory.total, 40960 * 1024 * 1024);
    assert_eq!(info.memory.used, 1024 * 1024 * 1024);
    assert_eq!(info.memory.free, 39936 * 1024 * 1024);
    assert_eq!((info.utilization.gpu, info.utilization.memory), (35, 12));
    assert_eq!((info.utilization.encoder, info.utilization.decoder), (0, 0));
    assert_eq!((info.clocks.graphics, info.clocks.sm, info.clocks.memory, info.clocks.video), (1410, 1410, 1215, 1275));
    assert_eq!((info.temperature.gpu, info.temperature.memory), (41, None));
    assert_eq!((info.temperature.slowdown_threshold, info.temperature.shutdown_threshold), (83, 90));
    assert_eq!((info.pcie.generation, info.pcie.width, info.pcie.max_generation, info.pcie.max_width), (4, 16, 4, 16));
    assert_eq!((info.pcie.tx_throughput, info.pcie.rx_throughput), (0, 0));
    assert!(info.nvlink.is_none());
    assert_eq!((info.ecc.enabled, info.ecc.single_bit_errors, info.ecc.double_bit_errors), (false, 0, 0));
    let odd = manager.get_gpu_info(0, "0,n,u,v,d,P9,x,1,y,,-1,z,,,,,,,,,,", 0).unwrap();
    assert_eq!(odd.power_state, PowerState::Unknown);
    assert_eq!((odd.power_limit, odd.memory.total, odd.memory.free, odd.pcie.max_width), (0, 0, 0, 0));
    assert_eq!(odd.clone().name, "n");
}

#[test]
fn lines_of_the_wrong_gpu_or_length_are_refused() {
    let manager = NvmlManager::new(2).unwrap();
    let line = "0,n,u,v,d,P0,1,2,3,4,5,6,7,8,9,10,11,12,13,14,15,16";
    assert!(manager.get_gpu_info(1, line, 0).is_ok());
    match manager.get_gpu_info(2, line, 0) {
        Err(Error::Gpu(message)) => assert_eq!(message, "Invalid GPU index: 2"),
        _ => panic!("the index names no GPU"),
    }
    match manager.get_gpu_info(1, "0,n,u,v,d,P0,1,2,3,4,5,6,7,8,9,10,11,12,13,14,15", 0) {
        Err(Error::Gpu(message)) => assert_eq!(message, "Unexpected nvidia-smi output"),
        _ => panic!("the line is too short"),
    }
    match manager.get_gpu_info(7, "", 0) {
        Err(Error::Gpu(message)) => assert_eq!(message, "Invalid GPU index: 7"),
        _ => panic!("the index names no GPU"),
    }
    assert!(manager.check_index(1).is_ok());
    assert!(manager.check_index(2).is_err());
    assert_eq!(NvmlManager::power_draw_field("a,b,c"), None);
    assert_eq!(id_flag(3), "--id=3");
    assert_eq!(power_limit_flag(250), "--power-limit=250");
}
