//! How many layers of a model to offload to the GPU.
use vstd::prelude::*;

use crate::device::{device_free, select_best_gpu, LlamaBackendDevice};
use crate::estimate::{
    checked_kv_cache_bytes, estimate_kv_bytes_per_layer, estimate_per_layer_bytes,
    fitting_gpu_layers, GgufModelInfo, PLANNING_N_CTX,
};
use crate::text::decimal_text;

verus! {

/// How a model is to be loaded.
#[derive(Debug)]
pub struct LoadingPlan {
    /// Layers to offload; `u32::MAX` asks for all of them, however many there are.
    pub gpu_layers: u32,
    pub warnings: Vec<String>,
}

/// What the numbers say about offloading a model.
#[derive(Clone, Copy, Debug, PartialEq, Eq, Structural)]
pub enum Offload {
    /// No GPU is wanted, or there is none.
    CpuOnly,
    /// Nothing is known of the model: offload all of it.
    UnknownModel,
    /// The cost of a layer cannot be estimated: offload all of it.
    NoEstimate,
    /// So few layers fit that the model runs on the CPU alone.
    TooFew { fitting: u32 },
    /// These layers are offloaded.
    Layers { fitting: u32 },
}

/// The fewest layers worth offloading: a tenth of them, rounded up.
pub open spec fn min_useful(n_layers: nat) -> nat {
    (n_layers + 9) / 10
}

/// Bytes reserved for the projection model, where there is one.
pub open spec fn reserved(mmproj_size: Option<u64>) -> nat {
    match mmproj_size {
        Some(size) => size as nat,
        None => 0,
    }
}

/// Bytes of the GPU left for the model beside the projection model.
pub open spec fn model_budget(gpu_free: nat, mmproj_size: Option<u64>) -> nat {
    if reserved(mmproj_size) <= gpu_free {
        (gpu_free - reserved(mmproj_size)) as nat
    } else {
        0
    }
}

/// Bytes that one offloaded layer takes on the device: its weights and its slice of the
/// KV cache.
pub open spec fn layer_cost(info: GgufModelInfo) -> nat {
    crate::estimate::per_layer_bytes(info) + crate::estimate::kv_bytes_per_layer(info.arch)
}

/// The layers of the model that fit into `gpu_free` bytes beside the projection model
/// and the compute buffers.
pub open spec fn fitting_layers(
    info: GgufModelInfo,
    gpu_free: nat,
    mmproj_size: Option<u64>,
) -> nat {
    crate::estimate::layers_that_fit(
        model_budget(gpu_free, mmproj_size),
        layer_cost(info),
        info.n_layers as nat,
    )
}

/// Whether the cost of a layer can be estimated: the file weighs something, and the KV
/// cache can be counted.
pub open spec fn can_estimate(info: GgufModelInfo) -> bool {
    crate::estimate::per_layer_bytes(info) > 0 && crate::estimate::kv_estimate_fits(info.arch)
}

/// The decision for a model, with `gpu_free` bytes on the GPU to use, if there is one.
pub open spec fn offload_of(
    info: Option<GgufModelInfo>,
    gpu_free: Option<u64>,
    mmproj_size: Option<u64>,
    use_gpu: bool,
) -> Offload {
    if !use_gpu {
        Offload::CpuOnly
    } else if info is None {
        Offload::UnknownModel
    } else if gpu_free is None {
        Offload::CpuOnly
    } else if !can_estimate(info->0) {
        Offload::NoEstimate
    } else {
        let fitting = fitting_layers(info->0, gpu_free->0 as nat, mmproj_size);
        if fitting < min_useful(info->0.n_layers as nat) {
            Offload::TooFew { fitting: fitting as u32 }
        } else {
            Offload::Layers { fitting: fitting as u32 }
        }
    }
}

/// The layers that a decision offloads.
pub open spec fn offloaded(offload: Offload) -> u32 {
    match offload {
        Offload::CpuOnly => 0,
        Offload::UnknownModel => u32::MAX,
        Offload::NoEstimate => u32::MAX,
        Offload::TooFew { fitting } => 0,
        Offload::Layers { fitting } => fitting,
    }
}

/// Bytes free on the GPU to use, if there is one.
pub open spec fn best_gpu_free(devices: Seq<LlamaBackendDevice>) -> Option<u64> {
    match crate::device::best_gpu(devices) {
        Some(d) => Some(crate::device::free_bytes(d) as u64),
        None => None,
    }
}

/// The warning for a model of which nothing is known.
pub open spec fn unknown_model_text(model_path: Seq<char>) -> Seq<char> {
    "Could not parse GGUF metadata from "@ + model_path
        + ". Falling back to full GPU offload."@
}

/// The warning where too few layers fit.
pub open spec fn too_few_text(
    fitting: nat,
    n_layers: nat,
    available_gb: Seq<char>,
    model_gb: Seq<char>,
) -> Seq<char> {
    "Only "@ + crate::text::decimal(fitting) + "/"@ + crate::text::decimal(n_layers)
        + " layers would fit in GPU VRAM ("@ + available_gb + " GB free, model is "@ + model_gb
        + " GB). Skipping GPU offload and running on CPU only."@
}

/// The warning where some layers stay on the CPU.
pub open spec fn partial_text(fitting: nat, n_layers: nat, available_gb: Seq<char>) -> Seq<char> {
    "Model does not fully fit in GPU VRAM ("@ + available_gb + " GB free). Offloading "@
        + crate::text::decimal(fitting) + "/"@ + crate::text::decimal(n_layers)
        + " layers to GPU; remaining layers will run on CPU."@
}

/// The fewest layers worth offloading.
pub fn min_useful_layers(n_layers: u32) -> (layers: u32)
    ensures
        layers == min_useful(n_layers as nat),
{
    if n_layers % 10 == 0 {
        n_layers / 10
    } else {
        n_layers / 10 + 1
    }
}

/// Decides what to offload from what is known of the model and the GPU.
pub fn decide_offload(
    info: Option<GgufModelInfo>,
    gpu_free: Option<u64>,
    mmproj_size: Option<u64>,
    use_gpu: bool,
) -> (offload: Offload)
    ensures
        offload == offload_of(info, gpu_free, mmproj_size, use_gpu),
{
    if !use_gpu {
        return Offload::CpuOnly;
    }
    let info = match info {
        Some(info) => info,
        None => {
            return Offload::UnknownModel;
        },
    };
    let gpu_free: u64 = match gpu_free {
        Some(gpu_free) => gpu_free,
        None => {
            return Offload::CpuOnly;
        },
    };
    let available: u64 = match mmproj_size {
        Some(mmproj_size) => gpu_free.saturating_sub(mmproj_size),
        None => gpu_free,
    };
    let per_layer: u64 = estimate_per_layer_bytes(&info);
    if per_layer == 0 {
        return Offload::NoEstimate;
    }
    if let Some(arch) = &info.arch {
        if checked_kv_cache_bytes(arch, PLANNING_N_CTX).is_none() {
            return Offload::NoEstimate;
        }
    }
    let kv_per_layer: u64 = estimate_kv_bytes_per_layer(info.arch.as_ref());
    let fitting: u32 = fitting_gpu_layers(available, per_layer, kv_per_layer, info.n_layers);
    if fitting < min_useful_layers(info.n_layers) {
        Offload::TooFew { fitting }
    } else {
        Offload::Layers { fitting }
    }
}

fn unknown_model_warning(model_path: &str) -> (text: String)
    ensures
        text@ == unknown_model_text(model_path@),
{
    let mut text = String::from_str("Could not parse GGUF metadata from ");
    text.append(model_path);
    text.append(". Falling back to full GPU offload.");
    text
}

fn too_few_warning(fitting: u32, n_layers: u32, available_gb: &str, model_gb: &str) -> (text: String)
    ensures
        text@ == too_few_text(fitting as nat, n_layers as nat, available_gb@, model_gb@),
{
    let mut text = String::from_str("Only ");
    text.append(decimal_text(fitting).as_str());
    text.append("/");
    text.append(decimal_text(n_layers).as_str());
    text.append(" layers would fit in GPU VRAM (");
    text.append(available_gb);
    text.append(" GB free, model is ");
    text.append(model_gb);
    text.append(" GB). Skipping GPU offload and running on CPU only.");
    text
}

fn partial_warning(fitting: u32, n_layers: u32, available_gb: &str) -> (text: String)
    ensures
        text@ == partial_text(fitting as nat, n_layers as nat, available_gb@),
{
    let mut text = String::from_str("Model does not fully fit in GPU VRAM (");
    text.append(available_gb);
    text.append(" GB free). Offloading ");
    text.append(decimal_text(fitting).as_str());
    text.append("/");
    text.append(decimal_text(n_layers).as_str());
    text.append(" layers to GPU; remaining layers will run on CPU.");
    text
}

/// Computes how many layers to offload, from the memory that the GPU has free.
///
/// This function never fails: where an estimate cannot be had, it asks for a full
/// offload. `info` is `None` where the model file could not be read or understood;
/// `mmproj_size` is the size of the projection model's file, where there is one and it is
/// known; `gigabytes` writes a number of bytes in gigabytes, for the warnings.
pub fn plan_model_loading<F: Fn(u64) -> String>(
    model_path: &str,
    info: Option<GgufModelInfo>,
    devices: &[LlamaBackendDevice],
    mmproj_size: Option<u64>,
    use_gpu: bool,
    gigabytes: F,
) -> (plan: LoadingPlan)
    requires
        forall|bytes: u64| #[trigger] gigabytes.requires((bytes,)),
    ensures
        plan.gpu_layers == offloaded(
            offload_of(info, best_gpu_free(devices@), mmproj_size, use_gpu),
        ),
        match offload_of(info, best_gpu_free(devices@), mmproj_size, use_gpu) {
            Offload::CpuOnly => plan.warnings@.len() == 0,
            Offload::NoEstimate => plan.warnings@.len() == 0,
            Offload::UnknownModel => {
                &&& plan.warnings@.len() == 1
                &&& plan.warnings@[0]@ == unknown_model_text(model_path@)
            },
            Offload::TooFew { fitting } => {
                &&& plan.warnings@.len() == 1
                &&& exists|available_gb: String, model_gb: String|
                    {
                        &&& #[trigger] gigabytes.ensures(
                            (best_gpu_free(devices@)->0,),
                            available_gb,
                        )
                        &&& #[trigger] gigabytes.ensures((info->0.file_size,), model_gb)
                        &&& plan.warnings@[0]@ == too_few_text(
                            fitting as nat,
                            info->0.n_layers as nat,
                            available_gb@,
                            model_gb@,
                        )
                    }
            },
            Offload::Layers { fitting } => if fitting < info->0.n_layers {
                &&& plan.warnings@.len() == 1
                &&& exists|available_gb: String|
                    {
                        &&& #[trigger] gigabytes.ensures(
                            (best_gpu_free(devices@)->0,),
                            available_gb,
                        )
                        &&& plan.warnings@[0]@ == partial_text(
                            fitting as nat,
                            info->0.n_layers as nat,
                            available_gb@,
                        )
                    }
            } else {
                plan.warnings@.len() == 0
            },
        },
        use_gpu && info is Some && best_gpu_free(devices@) is Some && can_estimate(info->0) ==> (
        plan.warnings@.len() == 1 <==> plan.gpu_layers < info->0.n_layers),
        !use_gpu ==> plan.gpu_layers == 0 && plan.warnings@.len() == 0,
        use_gpu && info is None ==> {
            &&& plan.gpu_layers == u32::MAX
            &&& plan.warnings@.len() == 1
            &&& plan.warnings@[0]@ == "Could not parse GGUF metadata from "@ + model_path@
                + ". Falling back to full GPU offload."@
        },
        use_gpu && info is Some && crate::device::best_gpu(devices@) is None ==> {
            &&& plan.gpu_layers == 0
            &&& plan.warnings@.len() == 0
        },
        use_gpu && info is Some && crate::device::best_gpu(devices@) is Some && !can_estimate(
            info->0,
        ) ==> plan.gpu_layers == u32::MAX && plan.warnings@.len() == 0,
        use_gpu && info is Some && crate::device::best_gpu(devices@) is Some && can_estimate(
            info->0,
        ) ==> {
            let n_layers = info->0.n_layers;
            let cost = layer_cost(info->0);
            let free = crate::device::free_bytes(crate::device::best_gpu(devices@)->0);
            let mmproj = if mmproj_size is Some {
                mmproj_size->0 as nat
            } else {
                0
            };
            let set_aside = 384 * 1024 * 1024 + mmproj;
            &&& plan.gpu_layers <= n_layers
            &&& plan.gpu_layers > 0 ==> 10 * plan.gpu_layers >= n_layers
            &&& plan.gpu_layers > 0 ==> plan.gpu_layers * cost + set_aside <= free
            &&& 0 < plan.gpu_layers < n_layers ==> (plan.gpu_layers + 1) * cost + set_aside > free
            &&& plan.gpu_layers == 0 && n_layers > 0 ==> min_useful(n_layers as nat) * cost
                + set_aside > free
            &&& plan.warnings@.len() == if plan.gpu_layers < n_layers {
                1nat
            } else {
                0nat
            }
        },
{
    proof {
        law_plans_count_on_the_best_gpu(devices@);
        if info is Some && best_gpu_free(devices@) is Some && can_estimate(info->0) {
            law_planned_layers_are_useful_and_fit(
                info->0,
                best_gpu_free(devices@)->0,
                mmproj_size,
            );
        }
    }
    let gpu_free: Option<u64> = match select_best_gpu(devices) {
        Some(gpu) => Some(device_free(gpu)),
        None => None,
    };
    let offload = decide_offload(info, gpu_free, mmproj_size, use_gpu);
    let mut warnings: Vec<String> = Vec::new();
    let gpu_layers: u32 = match offload {
        Offload::CpuOnly => 0,
        Offload::NoEstimate => u32::MAX,
        Offload::UnknownModel => {
            warnings.push(unknown_model_warning(model_path));
            u32::MAX
        },
        Offload::TooFew { fitting } => {
            if let (Some(info), Some(gpu_free)) = (info, gpu_free) {
                let available_gb = gigabytes(gpu_free);
                let model_gb = gigabytes(info.file_size);
                warnings.push(
                    too_few_warning(
                        fitting,
                        info.n_layers,
                        available_gb.as_str(),
                        model_gb.as_str(),
                    ),
                );
            }
            0
        },
        Offload::Layers { fitting } => {
            if let (Some(info), Some(gpu_free)) = (info, gpu_free) {
                if fitting < info.n_layers {
                    let available_gb = gigabytes(gpu_free);
                    warnings.push(partial_warning(fitting, info.n_layers, available_gb.as_str()));
                }
            }
            fitting
        },
    };
    LoadingPlan { gpu_layers, warnings }
}

/// Offloaded layers never overshoot the GPU: with their slices of the cache, the compute
/// buffers and the projection model they fit into what is free.
pub proof fn law_offload_never_overshoots(
    info: GgufModelInfo,
    gpu_free: u64,
    mmproj_size: Option<u64>,
)
    ensures
        offload_of(Some(info), Some(gpu_free), mmproj_size, true) matches Offload::Layers {
            fitting,
        } ==> fitting > 0 ==> fitting * layer_cost(info)
            + crate::estimate::COMPUTE_BUFFER_HEADROOM + reserved(mmproj_size) <= gpu_free,
{
    if can_estimate(info) {
        crate::estimate::law_fitting_layers_are_the_most_that_fit(
            model_budget(gpu_free as nat, mmproj_size),
            layer_cost(info),
            info.n_layers as nat,
        );
    }
}

/// What is offloaded is worth it: at least a tenth of the layers, and at most all.
pub proof fn law_offload_is_useful(info: GgufModelInfo, gpu_free: u64, mmproj_size: Option<u64>)
    ensures
        offload_of(Some(info), Some(gpu_free), mmproj_size, true) matches Offload::Layers {
            fitting,
        } ==> info.n_layers <= 10 * fitting && fitting <= info.n_layers,
        offload_of(Some(info), Some(gpu_free), mmproj_size, true) matches Offload::TooFew {
            fitting,
        } ==> 10 * fitting < info.n_layers,
{
    if can_estimate(info) {
        crate::estimate::law_fitting_layers_are_the_most_that_fit(
            model_budget(gpu_free as nat, mmproj_size),
            layer_cost(info),
            info.n_layers as nat,
        );
    }
}

/// A model that fits whole, with the buffers and the projection model, is offloaded whole.
pub proof fn law_whole_model_offloaded_when_there_is_room(
    info: GgufModelInfo,
    gpu_free: u64,
    mmproj_size: Option<u64>,
)
    requires
        can_estimate(info),
        info.n_layers * layer_cost(info) + crate::estimate::COMPUTE_BUFFER_HEADROOM + reserved(
            mmproj_size,
        ) <= gpu_free,
    ensures
        offload_of(Some(info), Some(gpu_free), mmproj_size, true) == (Offload::Layers {
            fitting: info.n_layers,
        }),
{
    assert(info.n_layers * layer_cost(info) >= 0) by (nonlinear_arith)
        requires
            info.n_layers >= 0,
            layer_cost(info) >= 0,
    ;
    crate::estimate::law_all_layers_kept_when_there_is_room(
        model_budget(gpu_free as nat, mmproj_size),
        layer_cost(info),
        info.n_layers as nat,
    );
}

/// More free memory on the GPU, or a smaller projection model, never offloads less.
pub proof fn law_offload_is_monotone(
    info: Option<GgufModelInfo>,
    gpu_free: u64,
    more_free: u64,
    mmproj_size: u64,
    smaller_mmproj_size: u64,
    use_gpu: bool,
)
    requires
        gpu_free <= more_free,
        smaller_mmproj_size <= mmproj_size,
    ensures
        offloaded(offload_of(info, Some(gpu_free), Some(mmproj_size), use_gpu)) <= offloaded(
            offload_of(info, Some(more_free), Some(smaller_mmproj_size), use_gpu),
        ),
        offloaded(offload_of(info, Some(gpu_free), Some(mmproj_size), use_gpu)) <= offloaded(
            offload_of(info, Some(more_free), None, use_gpu),
        ),
        offloaded(offload_of(info, Some(gpu_free), None, use_gpu)) <= offloaded(
            offload_of(info, Some(more_free), None, use_gpu),
        ),
{
    if info is Some {
        let m = info->0;
        let cost = layer_cost(m);
        let n = m.n_layers as nat;
        let with = model_budget(gpu_free as nat, Some(mmproj_size));
        let relieved = model_budget(more_free as nat, Some(smaller_mmproj_size));
        crate::estimate::law_fitting_layers_is_monotone(with, relieved, cost, cost, n);
        crate::estimate::law_fitting_layers_is_monotone(with, more_free as nat, cost, cost, n);
        crate::estimate::law_fitting_layers_is_monotone(
            gpu_free as nat,
            more_free as nat,
            cost,
            cost,
            n,
        );
    }
}

/// Without a GPU, wanted or found, no layer of a model that could be read is offloaded.
pub proof fn law_no_gpu_no_offload(
    info: GgufModelInfo,
    gpu_free: Option<u64>,
    mmproj_size: Option<u64>,
    use_gpu: bool,
)
    requires
        !use_gpu || gpu_free is None,
    ensures
        offloaded(offload_of(Some(info), gpu_free, mmproj_size, use_gpu)) == 0,
{
}

/// The least useful number of layers is the least that makes up a tenth of them.
pub proof fn law_least_useful_is_a_tenth(n_layers: nat)
    ensures
        10 * min_useful(n_layers) >= n_layers,
        10 * min_useful(n_layers) < n_layers + 10,
{
}

/// A layer costs its share of the file, and for each of 4096 tokens and each KV head of
/// the model a key and a value of `width` two-byte numbers.
///
/// `weights` is the file split over the layers, and `width` the embedding split over the
/// heads, both rounded down.
pub proof fn law_layer_costs_weights_and_cache(info: GgufModelInfo, weights: nat, width: nat)
    requires
        info.n_layers == 0 ==> weights == info.file_size,
        info.n_layers > 0 ==> weights * info.n_layers <= info.file_size < (weights + 1)
            * info.n_layers,
        info.arch matches Some(arch) ==> {
            &&& arch.n_head == 0 ==> width == 64
            &&& arch.n_head > 0 ==> width * arch.n_head <= arch.n_embd < (width + 1) * arch.n_head
        },
    ensures
        info.arch is None ==> layer_cost(info) == weights,
        info.arch matches Some(arch) ==> {
            &&& arch.n_layers == 0 ==> layer_cost(info) == weights
            &&& arch.n_layers > 0 ==> layer_cost(info) == weights + 4 * (4096
                * arch.n_head_kv as nat * width)
        },
{
    crate::estimate::law_weights_are_shared_out(info);
    if info.n_layers > 0 {
        let (n, s, q) = (
            info.n_layers as nat,
            info.file_size as nat,
            crate::estimate::per_layer_bytes(info),
        );
        assert(q == weights) by (nonlinear_arith)
            requires
                n > 0,
                weights * n <= s < (weights + 1) * n,
                q * n <= s < (q + 1) * n,
        ;
    }
    if info.arch is Some {
        let arch = info.arch->0;
        let one = crate::estimate::ModelArchitecture { n_layers: 1, ..arch };
        crate::estimate::law_kv_share_is_the_cache_of_one_layer(arch);
        crate::estimate::law_kv_cache_is_in_proportion(one, 4096, width);
        assert(1 * 4096 * arch.n_head_kv as nat * width == 4096 * arch.n_head_kv as nat * width);
    } else {
        crate::estimate::law_kv_share_is_the_cache_of_one_layer(arbitrary());
    }
}

/// A layer's cost can be estimated exactly where the file holds a byte for each layer, and
/// its cache of 4096 tokens, if any is known of, can be counted in 64 bits.
pub proof fn law_when_a_model_can_be_estimated(info: GgufModelInfo)
    ensures
        can_estimate(info) <==> {
            &&& info.file_size > 0
            &&& info.file_size >= info.n_layers
            &&& info.arch matches Some(arch) ==> crate::estimate::kv_cache_bytes(arch, 4096)
                <= 0xffff_ffff_ffff_ffff
        },
{
    crate::estimate::law_weights_are_shared_out(info);
    if info.n_layers > 0 {
        let (n, s, q) = (
            info.n_layers as nat,
            info.file_size as nat,
            crate::estimate::per_layer_bytes(info),
        );
        assert(q > 0 <==> s >= n) by (nonlinear_arith)
            requires
                n > 0,
                q * n <= s < (q + 1) * n,
        ;
    }
}

/// The decision names the most layers that fit, and takes them exactly where they make up
/// a tenth of the model. A number of layers fits where its cost, the 384 MiB for the
/// compute buffers and the projection model are together no more than the GPU has free.
pub proof fn law_decision_counts_what_fits(
    info: GgufModelInfo,
    gpu_free: u64,
    mmproj_size: Option<u64>,
    k: nat,
)
    requires
        can_estimate(info),
        0 < k <= info.n_layers,
    ensures
        ({
            let offload = offload_of(Some(info), Some(gpu_free), mmproj_size, true);
            let mmproj = if mmproj_size is Some {
                mmproj_size->0 as nat
            } else {
                0
            };
            let k_fit = k * layer_cost(info) + 384 * 1024 * 1024 + mmproj <= gpu_free;
            &&& offload is TooFew || offload is Layers
            &&& offload matches Offload::TooFew { fitting } ==> {
                &&& k <= fitting <==> k_fit
                &&& 10 * fitting < info.n_layers
            }
            &&& offload matches Offload::Layers { fitting } ==> {
                &&& k <= fitting <==> k_fit
                &&& info.n_layers <= 10 * fitting
                &&& fitting <= info.n_layers
            }
        }),
{
    crate::estimate::law_a_number_of_layers_is_kept_where_it_fits(
        model_budget(gpu_free as nat, mmproj_size),
        layer_cost(info),
        info.n_layers as nat,
        k,
    );
    assert(k * layer_cost(info) > 0) by (nonlinear_arith)
        requires
            k > 0,
            layer_cost(info) > 0,
    ;
}

/// With a model that can be estimated and a GPU in use, the layers planned are none or at
/// least a tenth of the model. They fit, one more would not, and there are none only where
/// not even a tenth fits.
pub proof fn law_planned_layers_are_useful_and_fit(
    info: GgufModelInfo,
    gpu_free: u64,
    mmproj_size: Option<u64>,
)
    requires
        can_estimate(info),
    ensures
        ({
            let layers = offloaded(offload_of(Some(info), Some(gpu_free), mmproj_size, true));
            let cost = layer_cost(info);
            let mmproj = if mmproj_size is Some {
                mmproj_size->0 as nat
            } else {
                0
            };
            let set_aside = 384 * 1024 * 1024 + mmproj;
            &&& layers <= info.n_layers
            &&& layers > 0 ==> 10 * layers >= info.n_layers
            &&& layers > 0 ==> layers * cost + set_aside <= gpu_free
            &&& 0 < layers < info.n_layers ==> (layers + 1) * cost + set_aside > gpu_free
            &&& layers == 0 && info.n_layers > 0 ==> min_useful(info.n_layers as nat) * cost
                + set_aside > gpu_free
        }),
{
    let layers = offloaded(offload_of(Some(info), Some(gpu_free), mmproj_size, true));
    if info.n_layers > 0 {
        let least = min_useful(info.n_layers as nat);
        law_decision_counts_what_fits(info, gpu_free, mmproj_size, least);
        if layers > 0 {
            law_decision_counts_what_fits(info, gpu_free, mmproj_size, layers as nat);
        }
        if layers < info.n_layers {
            law_decision_counts_what_fits(info, gpu_free, mmproj_size, (layers + 1) as nat);
        }
    } else {
        crate::estimate::law_fitting_layers_are_the_most_that_fit(
            model_budget(gpu_free as nat, mmproj_size),
            layer_cost(info),
            0,
        );
    }
}

/// Where nothing can be estimated the plan does not depend on the memory that is free: no
/// layers without a GPU, wanted or found, and all of a model that is not known well enough.
pub proof fn law_plans_without_an_estimate(
    info: Option<GgufModelInfo>,
    gpu_free: Option<u64>,
    mmproj_size: Option<u64>,
)
    ensures
        offloaded(offload_of(info, gpu_free, mmproj_size, false)) == 0,
        offloaded(offload_of(None, gpu_free, mmproj_size, true)) == 0xffff_ffff,
        info is Some ==> offloaded(offload_of(info, None, mmproj_size, true)) == 0,
        info is Some && gpu_free is Some && !can_estimate(info->0) ==> offloaded(
            offload_of(info, gpu_free, mmproj_size, true),
        ) == 0xffff_ffff,
{
}

/// Plans are made for what the chosen GPU has free, and for no GPU where there is none.
pub proof fn law_plans_count_on_the_best_gpu(devices: Seq<LlamaBackendDevice>)
    ensures
        best_gpu_free(devices) is Some <==> exists|i: int|
            0 <= i < devices.len() && ((#[trigger] devices[i]).device_type is Gpu
                || devices[i].device_type is IntegratedGpu),
        best_gpu_free(devices) matches Some(free) ==> free == crate::device::free_bytes(
            crate::device::best_gpu(devices)->0,
        ),
{
    crate::device::law_best_gpu_beats_every_other(devices);
    if best_gpu_free(devices) is Some {
        crate::device::law_free_bytes_is_the_smaller_report(
            crate::device::best_gpu(devices)->0,
        );
    }
}

/// The warnings, word for word.
pub proof fn law_wording_of_warnings(
    model_path: Seq<char>,
    fitting: nat,
    n_layers: nat,
    available_gb: Seq<char>,
    model_gb: Seq<char>,
)
    ensures
        unknown_model_text(model_path) == "Could not parse GGUF metadata from "@ + model_path
            + ". Falling back to full GPU offload."@,
        too_few_text(fitting, n_layers, available_gb, model_gb) == "Only "@
            + crate::text::decimal(fitting) + "/"@ + crate::text::decimal(n_layers)
            + " layers would fit in GPU VRAM ("@ + available_gb + " GB free, model is "@ + model_gb
            + " GB). Skipping GPU offload and running on CPU only."@,
        partial_text(fitting, n_layers, available_gb) == "Model does not fully fit in GPU VRAM ("@
            + available_gb + " GB free). Offloading "@ + crate::text::decimal(fitting) + "/"@
            + crate::text::decimal(n_layers)
            + " layers to GPU; remaining layers will run on CPU."@,
{
}

} // verus!
