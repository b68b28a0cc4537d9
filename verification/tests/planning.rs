use nobodywho::context::{can_plan_context, plan_context, MemoryError};
use nobodywho::device::{LlamaBackendDevice, LlamaBackendDeviceType};
use nobodywho::estimate::{
    checked_kv_cache_bytes, estimate_kv_bytes_per_layer, estimate_per_layer_bytes,
    fitting_gpu_layers, GgufModelInfo, ModelArchitecture, COMPUTE_BUFFER_HEADROOM,
};
use nobodywho::gguf::{find_u32, read_gguf_model_info, GgufEntry, GgufValue};
use nobodywho::loading::{
    decide_offload, min_useful_layers, plan_model_loading, LoadingPlan, Offload,
};
use nobodywho::text::{decimal_text, ends_with};

const MIB: u64 = 1024 * 1024;

fn gigabytes(bytes: u64) -> String {
    format!("{:.1}", bytes as f64 / 1e9)
}

fn device(device_type: LlamaBackendDeviceType, free: u64) -> LlamaBackendDevice {
    LlamaBackendDevice {
        backend: "Vulkan".to_string(),
        memory_total: 64 * 1024 * MIB as usize,
        memory_free: free as usize,
        device_type,
    }
}

fn arch() -> ModelArchitecture {
    ModelArchitecture {
        n_layers: 32,
        n_embd: 4096,
        n_head: 32,
        n_head_kv: 8,
    }
}

fn seven_b() -> GgufModelInfo {
    GgufModelInfo {
        n_layers: 33,
        file_size: 4624648896,
        arch: Some(arch()),
    }
}

fn plan(info: Option<GgufModelInfo>, free: Option<u64>, mmproj: Option<u64>) -> LoadingPlan {
    let devices: Vec<LlamaBackendDevice> = match free {
        Some(free) => vec![device(LlamaBackendDeviceType::Gpu, free)],
        None => vec![device(LlamaBackendDeviceType::Cpu, 8 * 1024 * MIB)],
    };
    plan_model_loading("/models/a.gguf", info, &devices, mmproj, true, gigabytes)
}

fn entry(key: &str, value: GgufValue) -> GgufEntry {
    GgufEntry {
        key: Some(key.to_string()),
        value,
    }
}

#[test]
fn no_gpu_wanted_means_no_layers_and_no_warnings() {
    let devices = [device(LlamaBackendDeviceType::Gpu, 8 * 1024 * MIB)];
    let plan = plan_model_loading("m", Some(seven_b()), &devices, None, false, gigabytes);
    assert_eq!(plan.gpu_layers, 0);
    assert!(plan.warnings.is_empty());
    let plan = plan_model_loading("m", None, &devices, None, false, gigabytes);
    assert_eq!(plan.gpu_layers, 0);
    assert!(plan.warnings.is_empty());
}

#[test]
fn unreadable_metadata_falls_back_to_full_offload() {
    let plan = plan(None, None, None);
    assert_eq!(plan.gpu_layers, u32::MAX);
    assert_eq!(
        plan.warnings,
        vec![
            "Could not parse GGUF metadata from /models/a.gguf. Falling back to full GPU offload."
                .to_string()
        ]
    );
}

#[test]
fn no_gpu_found_means_no_layers_and_no_warnings() {
    let plan = plan(Some(seven_b()), None, None);
    assert_eq!(plan.gpu_layers, 0);
    assert!(plan.warnings.is_empty());
}

#[test]
fn a_model_that_fits_is_offloaded_whole() {
    let plan = plan(Some(seven_b()), Some(6449 * MIB), None);
    assert_eq!(plan.gpu_layers, 33);
    assert!(plan.warnings.is_empty());
}

#[test]
fn a_partial_offload_is_announced() {
    let plan = plan(Some(seven_b()), Some(4307 * MIB), None);
    assert_eq!(plan.gpu_layers, 26);
    assert_eq!(
        plan.warnings,
        vec![
            "Model does not fully fit in GPU VRAM (4.5 GB free). \
             Offloading 26/33 layers to GPU; \
             remaining layers will run on CPU."
                .to_string()
        ]
    );
}

#[test]
fn the_projection_model_is_reserved_first() {
    let with = plan(Some(seven_b()), Some(4307 * MIB), Some(1850 * MIB));
    assert_eq!(with.gpu_layers, 13);
    assert_eq!(
        with.warnings,
        vec![
            "Model does not fully fit in GPU VRAM (4.5 GB free). \
             Offloading 13/33 layers to GPU; \
             remaining layers will run on CPU."
                .to_string()
        ]
    );
    let larger_than_the_gpu = plan(Some(seven_b()), Some(4307 * MIB), Some(5000 * MIB));
    assert_eq!(larger_than_the_gpu.gpu_layers, 0);
    assert_eq!(larger_than_the_gpu.warnings.len(), 1);
}

#[test]
fn too_few_layers_are_not_worth_it() {
    let per_layer = 4624648896 / 33 + 16 * MIB;
    let plan_for = |layers: u64| {
        plan(
            Some(seven_b()),
            Some(COMPUTE_BUFFER_HEADROOM + layers * per_layer),
            None,
        )
    };
    assert_eq!(plan_for(4).gpu_layers, 4);
    let plan = plan_for(3);
    assert_eq!(plan.gpu_layers, 0);
    assert_eq!(
        plan.warnings,
        vec![
            "Only 3/33 layers would fit in GPU VRAM \
             (0.9 GB free, model is 4.6 GB). \
             Skipping GPU offload and running on CPU only."
                .to_string()
        ]
    );
}

#[test]
fn what_cannot_be_estimated_is_offloaded_whole() {
    let empty = GgufModelInfo {
        file_size: 32,
        ..seven_b()
    };
    let huge = ModelArchitecture {
        n_layers: u32::MAX,
        n_embd: u32::MAX,
        n_head: 1,
        n_head_kv: u32::MAX,
    };
    assert_eq!(checked_kv_cache_bytes(&huge, 4096), None);
    let uncountable = GgufModelInfo {
        arch: Some(huge),
        ..seven_b()
    };
    for info in [empty, uncountable] {
        let plan = plan(Some(info), Some(6449 * MIB), None);
        assert_eq!(plan.gpu_layers, u32::MAX);
        assert!(plan.warnings.is_empty());
    }
}

#[test]
fn offload_is_decided_from_numbers_alone() {
    let free = Some(4307 * MIB);
    assert_eq!(decide_offload(None, free, None, false), Offload::CpuOnly);
    assert_eq!(decide_offload(None, None, None, true), Offload::UnknownModel);
    assert_eq!(decide_offload(Some(seven_b()), None, None, true), Offload::CpuOnly);
    assert_eq!(
        decide_offload(Some(seven_b()), free, None, true),
        Offload::Layers { fitting: 26 }
    );
    assert_eq!(
        decide_offload(Some(seven_b()), Some(0), None, true),
        Offload::TooFew { fitting: 0 }
    );
    let weightless = GgufModelInfo {
        file_size: 0,
        ..seven_b()
    };
    assert_eq!(decide_offload(Some(weightless), free, None, true), Offload::NoEstimate);
}

#[test]
fn a_tenth_of_the_layers_is_useful() {
    for n in (0u32..20_000).chain(u32::MAX - 20_000..=u32::MAX) {
        assert_eq!(min_useful_layers(n), (n as f64 * 0.1).ceil() as u32);
    }
    assert_eq!(min_useful_layers(0), 0);
    assert_eq!(min_useful_layers(30), 3);
    assert_eq!(min_useful_layers(33), 4);
}

#[test]
fn weights_are_shared_out_evenly() {
    assert_eq!(estimate_per_layer_bytes(&seven_b()), 140140875);
    let no_layers = GgufModelInfo {
        n_layers: 0,
        ..seven_b()
    };
    assert_eq!(estimate_per_layer_bytes(&no_layers), 4624648896);
}

#[test]
fn cache_size_handles_odd_architectures() {
    let no_heads = ModelArchitecture {
        n_head: 0,
        ..arch()
    };
    assert_eq!(checked_kv_cache_bytes(&no_heads, 1), Some(2 * 32 * 8 * 64 * 2));
    let no_layers = ModelArchitecture {
        n_layers: 0,
        ..arch()
    };
    assert_eq!(estimate_kv_bytes_per_layer(Some(&no_layers)), 0);
    let no_width = ModelArchitecture {
        n_layers: u32::MAX,
        n_embd: 3,
        n_head: 4,
        n_head_kv: u32::MAX,
    };
    assert_eq!(checked_kv_cache_bytes(&no_width, u32::MAX), Some(0));
}

#[test]
fn costless_layers_all_fit() {
    assert_eq!(fitting_gpu_layers(0, 0, 0, 33), 33);
    assert_eq!(fitting_gpu_layers(u64::MAX, u64::MAX, u64::MAX, 33), 0);
}

#[test]
fn metadata_gives_layers_and_architecture() {
    let entries = [
        entry("general.architecture", GgufValue::Other),
        entry("llama.block_count", GgufValue::U32(32)),
        entry("llama.embedding_length", GgufValue::U32(4096)),
        entry("llama.attention.head_count", GgufValue::U32(32)),
        entry("llama.attention.head_count_kv", GgufValue::U32(8)),
    ];
    assert_eq!(
        read_gguf_model_info(&entries, 4624648896),
        Some(seven_b())
    );
    assert_eq!(
        read_gguf_model_info(&entries[..4], 10),
        Some(GgufModelInfo {
            n_layers: 33,
            file_size: 10,
            arch: None
        })
    );
    assert_eq!(read_gguf_model_info(&entries[..1], 10), None);
}

#[test]
fn the_first_matching_key_decides() {
    let entries = [
        GgufEntry {
            key: None,
            value: GgufValue::U32(1),
        },
        entry("llama.block_count_extra", GgufValue::U32(2)),
        entry("clip.block_count", GgufValue::U32(3)),
        entry("llama.block_count", GgufValue::U32(4)),
        entry("a.list", GgufValue::Other),
        entry("b.list", GgufValue::U32(5)),
    ];
    assert_eq!(find_u32(&entries, ".block_count"), Some(3));
    assert_eq!(find_u32(&entries, ".list"), None);
    assert_eq!(find_u32(&entries, ".missing"), None);
}

#[test]
fn uncountable_layers_are_not_understood() {
    let entries = [entry("llama.block_count", GgufValue::U32(u32::MAX))];
    assert_eq!(read_gguf_model_info(&entries, 10), None);
    let entries = [entry("llama.block_count", GgufValue::U32(u32::MAX - 1))];
    assert_eq!(read_gguf_model_info(&entries, 10).unwrap().n_layers, u32::MAX);
}

#[test]
fn a_context_that_fits_is_planned() {
    let devices = [
        device(LlamaBackendDeviceType::Cpu, 256 * MIB),
        device(LlamaBackendDeviceType::Gpu, 256 * MIB),
    ];
    let plan = plan_context(4096, false, arch(), &devices).unwrap();
    assert_eq!((plan.n_ctx, plan.n_ubatch), (4096, 512));
    assert!(plan.warnings.is_empty());
    let plan = plan_context(4096, true, arch(), &devices).unwrap();
    assert_eq!((plan.n_ctx, plan.n_ubatch), (4096, 2048));
    assert!(plan.warnings.is_empty());
    let plan = plan_context(100, false, arch(), &devices).unwrap();
    assert_eq!((plan.n_ctx, plan.n_ubatch), (100, 100));
    assert!(plan.warnings.is_empty());
}

#[test]
fn a_small_context_for_images_is_announced() {
    let devices = [device(LlamaBackendDeviceType::Cpu, 1024 * MIB)];
    let plan = plan_context(2047, true, arch(), &devices).unwrap();
    assert_eq!(plan.n_ubatch, 2047);
    assert_eq!(
        plan.warnings,
        vec![
            "Context size is less than 2048, which is the default minimum for ingesting images. \
             This can cause issues."
                .to_string()
        ]
    );
    let plan = plan_context(2048, true, arch(), &devices).unwrap();
    assert!(plan.warnings.is_empty());
}

#[test]
fn a_context_that_does_not_fit_is_answered_with_the_longest_that_does() {
    let devices = [
        device(LlamaBackendDeviceType::Cpu, 100 * MIB + 5),
        device(LlamaBackendDeviceType::Gpu, 200 * MIB),
    ];
    let MemoryError::InsufficientMemory {
        required_bytes,
        available_bytes,
        suggestion,
    } = plan_context(4096, false, arch(), &devices).unwrap_err();
    assert_eq!(required_bytes, 512 * MIB);
    assert_eq!(available_bytes, 200 * MIB);
    assert_eq!(suggestion, "reduce n_ctx to 2400");
    assert!(plan_context(2400, false, arch(), &devices).is_ok());
    assert!(plan_context(2401, false, arch(), &devices).is_err());
}

#[test]
fn without_a_gpu_the_cpu_is_reported() {
    let devices = [device(LlamaBackendDeviceType::Cpu, MIB)];
    let MemoryError::InsufficientMemory {
        available_bytes,
        suggestion,
        ..
    } = plan_context(4096, false, arch(), &devices).unwrap_err();
    assert_eq!(available_bytes, MIB);
    assert_eq!(suggestion, "reduce n_ctx to 8");
    let MemoryError::InsufficientMemory {
        available_bytes,
        suggestion,
        ..
    } = plan_context(4096, false, arch(), &[]).unwrap_err();
    assert_eq!(available_bytes, 0);
    assert_eq!(suggestion, "reduce n_ctx to 0");
}

#[test]
fn uncountable_contexts_are_recognised() {
    let devices = [device(LlamaBackendDeviceType::Cpu, 16 * 1024 * MIB)];
    assert!(can_plan_context(4096, &arch(), &devices));
    assert!(!can_plan_context(u32::MAX, &arch(), &devices));
    let wide = ModelArchitecture {
        n_embd: u32::MAX,
        n_head: 1,
        ..arch()
    };
    assert!(!can_plan_context(u32::MAX, &wide, &devices));
}

#[test]
fn numbers_are_written_in_decimal() {
    for n in [0u32, 7, 9, 10, 11, 99, 100, 2048, 1_000_000_007, u32::MAX] {
        assert_eq!(decimal_text(n), n.to_string());
    }
}

#[test]
fn suffixes_are_found() {
    for (text, suffix) in [
        ("llama.block_count", ".block_count"),
        ("block_count", ".block_count"),
        ("", ""),
        ("abc", ""),
        ("", "a"),
        ("caf\u{e9}", "\u{e9}"),
        ("caf\u{e9}", "e"),
        ("abcabd", "abc"),
    ] {
        assert_eq!(ends_with(text, suffix), text.ends_with(suffix));
    }
}
