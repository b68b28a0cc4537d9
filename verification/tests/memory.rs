use nobodywho::available::{
    available_model_memory, available_model_memory_from, gpu_memories, GpuMemory, HostMemory,
};
use nobodywho::device::LlamaBackendDeviceType::{Cpu, Gpu, IntegratedGpu};
use nobodywho::device::{
    cpu_free, device_free, gpu_shares_host_memory, select_best_gpu, LlamaBackendDevice,
    LlamaBackendDeviceType,
};
use nobodywho::estimate::{
    estimate_kv_bytes_per_layer, estimate_kv_cache_bytes, fitting_gpu_layers, ModelArchitecture,
    COMPUTE_BUFFER_HEADROOM, PLANNING_N_CTX,
};

const GIB: u64 = 1024 * 1024 * 1024;

fn host(available: u64, total: u64) -> HostMemory {
    HostMemory {
        available_bytes: available,
        total_bytes: total,
    }
}

fn gpu(free: u64, total: u64, shares_host_memory: bool) -> GpuMemory {
    GpuMemory {
        free_bytes: free,
        total_bytes: total,
        shares_host_memory,
    }
}

fn device(
    backend: &str,
    device_type: LlamaBackendDeviceType,
    free: usize,
    total: usize,
) -> LlamaBackendDevice {
    LlamaBackendDevice {
        backend: backend.to_string(),
        memory_total: total,
        memory_free: free,
        device_type,
    }
}

#[test]
fn reserves_a_quarter_of_total_memory() {
    let memory = available_model_memory_from(host(15 * GIB, 16 * GIB), &[], false);
    assert_eq!(memory.free_bytes, 15 * GIB);
    assert_eq!(memory.usable_bytes, 12 * GIB);
}

#[test]
fn uses_constrained_available_host_memory() {
    let memory = available_model_memory_from(host(3 * GIB, 16 * GIB), &[], false);
    assert_eq!(memory.free_bytes, 3 * GIB);
    assert_eq!(memory.usable_bytes, 3 * GIB);
}

#[test]
fn does_not_double_count_integrated_gpu_memory() {
    let memory = available_model_memory_from(
        host(6 * GIB, 8 * GIB),
        &[gpu(6 * GIB, 8 * GIB, true)],
        true,
    );
    assert_eq!(memory.free_bytes, 6 * GIB);
}

#[test]
fn treats_apple_metal_gpu_as_unified_memory() {
    assert!(gpu_shares_host_memory(Gpu, "Metal", true));
    let memory = available_model_memory_from(
        host(6 * GIB, 8 * GIB),
        &[gpu(6 * GIB, 8 * GIB, true)],
        true,
    );
    assert_eq!(memory.free_bytes, 6 * GIB);
}

#[test]
fn does_not_treat_discrete_metal_gpu_as_unified_memory() {
    assert!(!gpu_shares_host_memory(Gpu, "Metal", false));
    assert!(gpu_shares_host_memory(IntegratedGpu, "Vulkan", false));
}

#[test]
fn adds_discrete_gpu_memory_when_enabled() {
    let gpus = [gpu(7 * GIB, 8 * GIB, false)];
    let with_gpu = available_model_memory_from(host(6 * GIB, 8 * GIB), &gpus, true);
    let without_gpu = available_model_memory_from(host(6 * GIB, 8 * GIB), &gpus, false);
    assert_eq!(with_gpu.free_bytes, 13 * GIB);
    assert_eq!(without_gpu.free_bytes, 6 * GIB);
}

const MIB: u64 = 1024 * 1024;

/// A 7B with 32 blocks at Q4_K_M: 4.31 GiB of weights over 33 offloadable layers,
/// 8 KV heads of 128, so 16 MiB of cache per layer at the planning context.
fn seven_b() -> (u64, u64, u32) {
    let n_layers = 33;
    let per_layer = 4624648896 / n_layers as u64;
    let arch = ModelArchitecture {
        n_layers: 32,
        n_embd: 4096,
        n_head: 32,
        n_head_kv: 8,
    };
    (
        per_layer,
        estimate_kv_bytes_per_layer(Some(&arch)),
        n_layers,
    )
}

#[test]
fn kv_share_per_layer_matches_the_whole_cache() {
    let arch = ModelArchitecture {
        n_layers: 32,
        n_embd: 4096,
        n_head: 32,
        n_head_kv: 8,
    };
    assert_eq!(estimate_kv_cache_bytes(&arch, PLANNING_N_CTX), 512 * MIB);
    assert_eq!(estimate_kv_bytes_per_layer(Some(&arch)), 16 * MIB);
}

#[test]
fn plans_on_weights_alone_without_architecture_metadata() {
    assert_eq!(estimate_kv_bytes_per_layer(None), 0);
    let per_layer = 100 * MIB;
    assert_eq!(
        fitting_gpu_layers(COMPUTE_BUFFER_HEADROOM + 400 * MIB, per_layer, 0, 33),
        4
    );
}

#[test]
fn keeps_every_layer_when_the_device_has_room() {
    let (per_layer, kv_per_layer, n_layers) = seven_b();
    assert_eq!(
        fitting_gpu_layers(6449 * MIB, per_layer, kv_per_layer, n_layers),
        n_layers
    );
}

#[test]
fn drops_layers_rather_than_overshooting_the_device() {
    let (per_layer, kv_per_layer, n_layers) = seven_b();
    // Spending every free byte on weights picked all 33 layers here, which overshot
    // the device by ~600 MiB and left the driver to spill the difference.
    let free = 4307 * MIB;
    assert_eq!(free / per_layer, n_layers as u64 - 1);

    let layers = fitting_gpu_layers(free, per_layer, kv_per_layer, n_layers);
    assert_eq!(layers, 26);
    assert!(layers as u64 * (per_layer + kv_per_layer) + COMPUTE_BUFFER_HEADROOM <= free);
}

#[test]
fn leaves_room_for_the_buffers_under_heavy_pressure() {
    let (per_layer, kv_per_layer, n_layers) = seven_b();
    let free = 2457 * MIB;
    let layers = fitting_gpu_layers(free, per_layer, kv_per_layer, n_layers);
    assert_eq!(layers, 13);
    assert!(layers as u64 * (per_layer + kv_per_layer) + COMPUTE_BUFFER_HEADROOM <= free);
}

#[test]
fn offloads_nothing_when_the_buffers_alone_do_not_fit() {
    let (per_layer, kv_per_layer, n_layers) = seven_b();
    assert_eq!(
        fitting_gpu_layers(COMPUTE_BUFFER_HEADROOM, per_layer, kv_per_layer, n_layers),
        0
    );
    assert_eq!(fitting_gpu_layers(0, per_layer, kv_per_layer, n_layers), 0);
}

#[test]
fn free_memory_is_capped_by_the_total() {
    assert_eq!(device_free(&device("CUDA", Gpu, 5, 9)), 5);
    assert_eq!(device_free(&device("CUDA", Gpu, 12, 9)), 9);
}

#[test]
fn a_discrete_gpu_is_chosen_before_a_larger_integrated_one() {
    let devices = [
        device("CPU", Cpu, 900, 900),
        device("Vulkan", Gpu, 20, 90),
        device("Vulkan", IntegratedGpu, 500, 900),
        device("Vulkan", Gpu, 30, 90),
    ];
    let best = select_best_gpu(&devices).unwrap();
    assert_eq!(best.device_type, Gpu);
    assert_eq!(best.memory_free, 30);
    assert!(select_best_gpu(&devices[..1]).is_none());
    assert_eq!(select_best_gpu(&devices[2..3]).unwrap().memory_free, 500);
}

#[test]
fn the_last_of_equal_gpus_is_chosen() {
    let devices = [
        device("first", Gpu, 20, 90),
        device("last", Gpu, 20, 80),
        device("integrated", IntegratedGpu, 20, 80),
    ];
    assert_eq!(select_best_gpu(&devices).unwrap().backend, "last");
}

#[test]
fn the_first_cpu_counts() {
    let devices = [
        device("CUDA", Gpu, 20, 90),
        device("CPU", Cpu, 7, 90),
        device("CPU", Cpu, 8, 90),
    ];
    assert_eq!(cpu_free(&devices), 7);
    assert_eq!(cpu_free(&devices[..1]), 0);
}

#[test]
fn backend_names_are_compared_without_case() {
    assert!(gpu_shares_host_memory(Gpu, "mEtAL", true));
    assert!(!gpu_shares_host_memory(Gpu, "metal2", true));
    assert!(!gpu_shares_host_memory(Gpu, "m\u{c9}tal", true));
    assert!(!gpu_shares_host_memory(Gpu, "", true));
    for byte in 0u8..128 {
        let name = format!("meta{}", byte as char);
        assert_eq!(
            gpu_shares_host_memory(Gpu, &name, true),
            name.eq_ignore_ascii_case("metal")
        );
    }
}

#[test]
fn only_the_last_of_the_largest_dedicated_gpus_counts() {
    let gpus = [
        gpu(9, 100, true),
        gpu(4, 10, false),
        gpu(4, 5, false),
        gpu(3, 50, false),
    ];
    let memory = available_model_memory_from(host(6, 8), &gpus, true);
    assert_eq!(memory.free_bytes, 10);
    assert_eq!(memory.usable_bytes, 9);
}

#[test]
fn sums_stop_at_the_largest_number() {
    let memory = available_model_memory_from(
        host(u64::MAX, u64::MAX),
        &[gpu(u64::MAX, u64::MAX, false)],
        true,
    );
    assert_eq!(memory.free_bytes, u64::MAX);
    assert_eq!(memory.usable_bytes, u64::MAX / 4);
}

#[test]
fn more_free_than_total_host_memory_is_capped() {
    let memory = available_model_memory_from(host(20, 16), &[], false);
    assert_eq!(memory.free_bytes, 16);
    assert_eq!(memory.usable_bytes, 12);
}

#[test]
fn gpu_memory_is_read_off_the_devices() {
    let devices = [
        device("CPU", Cpu, 60, 100),
        device("Metal", Gpu, 200, 100),
        device("CUDA", Gpu, 30, 80),
        device("Vulkan", IntegratedGpu, 40, 100),
    ];
    assert_eq!(
        gpu_memories(&devices, true),
        vec![gpu(100, 100, true), gpu(30, 80, false), gpu(40, 100, true)]
    );
    assert_eq!(
        gpu_memories(&devices, false),
        vec![gpu(100, 100, false), gpu(30, 80, false), gpu(40, 100, true)]
    );
    let unified = available_model_memory(host(60, 100), &devices, true, true);
    assert_eq!(unified.free_bytes, 90);
    assert_eq!(unified.usable_bytes, 90);
    let separate = available_model_memory(host(60, 100), &devices, true, false);
    assert_eq!(separate.free_bytes, 160);
    assert_eq!(separate.usable_bytes, 150);
    let host_only = available_model_memory(host(60, 100), &devices, false, false);
    assert_eq!(host_only.free_bytes, 60);
    assert_eq!(host_only.usable_bytes, 60);
}
