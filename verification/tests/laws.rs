use nobodywho::available::{available_model_memory_from, GpuMemory, HostMemory};
use nobodywho::context::plan_context;
use nobodywho::device::{LlamaBackendDevice, LlamaBackendDeviceType};
use nobodywho::estimate::{
    estimate_kv_bytes_per_layer, estimate_kv_cache_bytes, fitting_gpu_layers, GgufModelInfo,
    ModelArchitecture, COMPUTE_BUFFER_HEADROOM, PLANNING_N_CTX,
};
use nobodywho::gguf::{read_gguf_model_info, GgufEntry, GgufValue};
use nobodywho::loading::{decide_offload, Offload};

const MIB: u64 = 1024 * 1024;

fn arch() -> ModelArchitecture {
    ModelArchitecture {
        n_layers: 28,
        n_embd: 3072,
        n_head: 24,
        n_head_kv: 8,
    }
}

fn model() -> GgufModelInfo {
    GgufModelInfo {
        n_layers: 29,
        file_size: 2_000_000_000,
        arch: Some(arch()),
    }
}

fn layers(offload: Offload) -> u32 {
    match offload {
        Offload::CpuOnly | Offload::TooFew { .. } => 0,
        Offload::UnknownModel | Offload::NoEstimate => u32::MAX,
        Offload::Layers { fitting } => fitting,
    }
}

#[test]
fn cache_shares_make_up_the_cache() {
    let share = estimate_kv_bytes_per_layer(Some(&arch()));
    assert_eq!(share, 16 * MIB);
    assert_eq!(share * 28, estimate_kv_cache_bytes(&arch(), PLANNING_N_CTX));
}

#[test]
fn cache_grows_in_proportion_to_the_context() {
    let one = estimate_kv_cache_bytes(&arch(), 1);
    assert_eq!(one, 114688);
    for n_ctx in [0u32, 1, 2, 511, 131072] {
        assert_eq!(estimate_kv_cache_bytes(&arch(), n_ctx), one * n_ctx as u64);
    }
}

#[test]
fn fitting_layers_are_the_most_that_fit_and_never_shrink() {
    let (per_layer, kv) = (97 * MIB, 16 * MIB);
    let mut previous = 0;
    for step in 0..600u64 {
        let available = step * 7 * MIB;
        let kept = fitting_gpu_layers(available, per_layer, kv, 29);
        if kept > 0 {
            assert!(kept as u64 * (per_layer + kv) + COMPUTE_BUFFER_HEADROOM <= available);
        }
        if kept < 29 {
            assert!((kept as u64 + 1) * (per_layer + kv) + COMPUTE_BUFFER_HEADROOM > available);
        }
        assert!(kept >= previous);
        assert!(fitting_gpu_layers(available, per_layer, 0, 29) >= kept);
        previous = kept;
    }
    assert_eq!(previous, 29);
}

#[test]
fn a_shared_gpu_changes_nothing_wherever_it_is_listed() {
    let host = HostMemory {
        available_bytes: 60,
        total_bytes: 100,
    };
    let gpu = |free: u64, shares_host_memory: bool| GpuMemory {
        free_bytes: free,
        total_bytes: 2 * free,
        shares_host_memory,
    };
    let expected = available_model_memory_from(host, &[gpu(5, false), gpu(9, false)], true);
    assert_eq!(expected.free_bytes, 69);
    for at in 0..3 {
        let mut gpus = vec![gpu(5, false), gpu(9, false)];
        gpus.insert(at, gpu(50, true));
        assert_eq!(available_model_memory_from(host, &gpus, true), expected);
    }
    let alone = available_model_memory_from(host, &[], true);
    assert!(alone.free_bytes <= expected.free_bytes);
    assert!(alone.usable_bytes <= expected.usable_bytes);
    assert_eq!(available_model_memory_from(host, &[gpu(9, false)], false), alone);
}

#[test]
fn offload_leaves_room_is_useful_and_never_shrinks() {
    let cost = 2_000_000_000 / 29 + 16 * MIB;
    let mmproj = 300 * MIB;
    let mut previous = 0;
    for step in 0..500u64 {
        let free = step * 10 * MIB;
        let offload = decide_offload(Some(model()), Some(free), Some(mmproj), true);
        match offload {
            Offload::Layers { fitting } => {
                assert!(fitting as u64 * cost + COMPUTE_BUFFER_HEADROOM + mmproj <= free);
                assert!(fitting >= 3 && fitting <= 29);
            }
            Offload::TooFew { fitting } => assert!(fitting < 3),
            _ => unreachable!(),
        }
        assert!(layers(offload) >= previous);
        let without = decide_offload(Some(model()), Some(free), None, true);
        assert!(layers(without) >= layers(offload));
        previous = layers(offload);
    }
    assert_eq!(previous, 29);
    let exactly = 29 * cost + COMPUTE_BUFFER_HEADROOM + mmproj;
    assert_eq!(
        decide_offload(Some(model()), Some(exactly), Some(mmproj), true),
        Offload::Layers { fitting: 29 }
    );
    assert_eq!(
        decide_offload(Some(model()), Some(exactly - 1), Some(mmproj), true),
        Offload::Layers { fitting: 28 }
    );
}

#[test]
fn layers_are_the_blocks_and_the_output() {
    let numbers = [
        ("a.block_count", 28),
        ("a.embedding_length", 3072),
        ("a.attention.head_count", 24),
        ("a.attention.head_count_kv", 8),
    ];
    let entries: Vec<GgufEntry> = numbers
        .iter()
        .map(|(key, value)| GgufEntry {
            key: Some(key.to_string()),
            value: GgufValue::U32(*value),
        })
        .collect();
    let info = read_gguf_model_info(&entries, 7).unwrap();
    assert_eq!(info.n_layers, info.arch.unwrap().n_layers + 1);
    assert_eq!(info.file_size, 7);
}

#[test]
fn every_context_up_to_the_suggestion_fits() {
    let devices = [LlamaBackendDevice {
        backend: "CPU".to_string(),
        memory_total: 114688 * 100,
        memory_free: 114688 * 57 + 3,
        device_type: LlamaBackendDeviceType::Cpu,
    }];
    for n_ctx in 0..100 {
        assert_eq!(plan_context(n_ctx, false, arch(), &devices).is_ok(), n_ctx <= 57);
    }
}
