//! Whether a context of a given length fits into the memory of the machine.
use vstd::prelude::*;

use crate::device::{cpu_free, device_free, select_best_gpu, LlamaBackendDevice};
use crate::estimate::{checked_kv_cache_bytes, estimate_kv_cache_bytes, ModelArchitecture};
use crate::text::decimal_text;

verus! {

/// The parameters of a context.
#[derive(Debug)]
pub struct ContextPlan {
    pub n_ctx: u32,
    pub n_ubatch: u32,
    pub warnings: Vec<String>,
}

/// Why a context cannot be had.
#[derive(Debug)]
pub enum MemoryError {
    /// The KV cache needs more bytes than there are.
    InsufficientMemory { required_bytes: u64, available_bytes: u64, suggestion: String },
}

/// Bytes that a KV cache may take: those free on the GPU to use, if there is one, and
/// those free on the CPU.
pub open spec fn total_available(devices: Seq<LlamaBackendDevice>) -> nat {
    match crate::device::best_gpu(devices) {
        Some(gpu) => crate::device::free_bytes(gpu) + crate::device::cpu_free_bytes(devices),
        None => crate::device::cpu_free_bytes(devices),
    }
}

/// Bytes reported as available: those of the GPU to use, or of the CPU where there is no
/// GPU.
pub open spec fn reported_available(devices: Seq<LlamaBackendDevice>) -> nat {
    match crate::device::best_gpu(devices) {
        Some(gpu) => crate::device::free_bytes(gpu),
        None => crate::device::cpu_free_bytes(devices),
    }
}

/// Whether the KV cache over `n_ctx` tokens fits into the memory that is free.
pub open spec fn context_fits(
    n_ctx: nat,
    arch: ModelArchitecture,
    devices: Seq<LlamaBackendDevice>,
) -> bool {
    crate::estimate::kv_cache_bytes(arch, n_ctx) <= total_available(devices)
}

/// The context length to suggest in place of one that does not fit: what is free, in
/// proportion to what was asked.
pub open spec fn suggested_n_ctx(
    n_ctx: nat,
    arch: ModelArchitecture,
    devices: Seq<LlamaBackendDevice>,
) -> nat {
    (total_available(devices) * n_ctx) / crate::estimate::kv_cache_bytes(arch, n_ctx)
}

/// Whether the bytes that planning counts, and the product behind a suggestion, fit into
/// 64 bits.
pub open spec fn countable(
    n_ctx: nat,
    arch: ModelArchitecture,
    devices: Seq<LlamaBackendDevice>,
) -> bool {
    &&& crate::estimate::kv_cache_bytes(arch, n_ctx) <= u64::MAX
    &&& total_available(devices) <= u64::MAX
    &&& !context_fits(n_ctx, arch, devices) ==> total_available(devices) * n_ctx <= u64::MAX
}

/// The most tokens in one micro-batch: images are ingested in larger ones.
pub open spec fn ubatch_limit(has_projection_model: bool) -> nat {
    if has_projection_model {
        2048
    } else {
        512
    }
}

/// The warning for a context too small for images.
pub open spec fn small_context_text() -> Seq<char> {
    "Context size is less than 2048, which is the default minimum for ingesting images. This can cause issues."@
}

/// The advice to ask for a context of `n_ctx` tokens.
pub open spec fn suggestion_text(n_ctx: nat) -> Seq<char> {
    "reduce n_ctx to "@ + crate::text::decimal(n_ctx)
}

/// Whether planning a context can count its bytes in 64 bits.
pub fn can_plan_context(n_ctx: u32, arch: &ModelArchitecture, devices: &[LlamaBackendDevice]) -> (yes:
    bool)
    ensures
        yes == countable(n_ctx as nat, *arch, devices@),
{
    let gpu_free: u64 = match select_best_gpu(devices) {
        Some(gpu) => device_free(gpu),
        None => 0,
    };
    match (checked_kv_cache_bytes(arch, n_ctx), gpu_free.checked_add(cpu_free(devices))) {
        (Some(kv_estimate), Some(total)) => kv_estimate <= total || total.checked_mul(
            n_ctx as u64,
        ).is_some(),
        _ => false,
    }
}

/// Plans context parameters and validates memory for the requested context size.
///
/// Computes the micro-batch, checks the memory of CPU and GPU together, and warns of a
/// context too small for images. An error says what was needed, what there is, and which
/// context length would fit.
pub fn plan_context(
    n_ctx: u32,
    has_projection_model: bool,
    arch: ModelArchitecture,
    devices: &[LlamaBackendDevice],
) -> (plan: Result<ContextPlan, MemoryError>)
    requires
        countable(n_ctx as nat, arch, devices@),
    ensures
        plan is Ok <==> context_fits(n_ctx as nat, arch, devices@),
        plan matches Ok(p) ==> {
            &&& p.n_ctx == n_ctx
            &&& p.n_ubatch == if n_ctx <= ubatch_limit(has_projection_model) {
                n_ctx as nat
            } else {
                ubatch_limit(has_projection_model)
            }
            &&& if has_projection_model && n_ctx < 2048 {
                p.warnings@.len() == 1 && p.warnings@[0]@ == small_context_text()
            } else {
                p.warnings@.len() == 0
            }
        },
        plan matches Err(MemoryError::InsufficientMemory { required_bytes, available_bytes, suggestion })
            ==> {
            &&& required_bytes == crate::estimate::kv_cache_bytes(arch, n_ctx as nat)
            &&& available_bytes == reported_available(devices@)
            &&& suggestion@ == suggestion_text(suggested_n_ctx(n_ctx as nat, arch, devices@))
        },
        plan is Ok <==> crate::estimate::kv_cache_bytes(arch, n_ctx as nat)
            <= crate::device::cpu_free_bytes(devices@) + (if crate::device::best_gpu(
            devices@,
        ) is Some {
            crate::device::free_bytes(crate::device::best_gpu(devices@)->0)
        } else {
            0
        }),
        plan matches Ok(p) ==> {
            &&& p.n_ubatch <= n_ctx
            &&& has_projection_model ==> p.n_ubatch == n_ctx || p.n_ubatch == 2048
            &&& has_projection_model ==> p.n_ubatch <= 2048
            &&& !has_projection_model ==> p.n_ubatch == n_ctx || p.n_ubatch == 512
            &&& !has_projection_model ==> p.n_ubatch <= 512
            &&& p.warnings@.len() == 1 <==> has_projection_model && n_ctx < 2048
            &&& p.warnings@.len() <= 1
            &&& p.warnings@.len() == 1 ==> p.warnings@[0]@
                == "Context size is less than 2048, which is the default minimum for ingesting images. This can cause issues."@
        },
        plan matches Err(MemoryError::InsufficientMemory { required_bytes, available_bytes, suggestion })
            ==> exists|longest: nat|
            {
                &&& longest < n_ctx
                &&& context_fits(longest, arch, devices@)
                &&& !context_fits(longest + 1, arch, devices@)
                &&& suggestion@ == "reduce n_ctx to "@ + #[trigger] crate::text::decimal(longest)
            },
{
    proof {
        if !context_fits(n_ctx as nat, arch, devices@) {
            law_suggestion_is_the_longest_that_fits(n_ctx as nat, arch, devices@);
        }
    }
    let n_ubatch: u32 = if has_projection_model {
        n_ctx.min(2048)
    } else {
        n_ctx.min(512)
    };
    let mut warnings: Vec<String> = Vec::new();
    if has_projection_model && n_ctx < 2048 {
        warnings.push(
            String::from_str(
                "Context size is less than 2048, which is the default minimum for ingesting images. This can cause issues.",
            ),
        );
    }
    let cpu_free: u64 = cpu_free(devices);
    let (total, available_bytes): (u64, u64) = match select_best_gpu(devices) {
        Some(gpu) => (device_free(gpu) + cpu_free, device_free(gpu)),
        None => (cpu_free, cpu_free),
    };
    let kv_estimate: u64 = estimate_kv_cache_bytes(&arch, n_ctx);
    if kv_estimate > total {
        proof {
            lemma_suggestion_smaller(total as nat, n_ctx as nat, kv_estimate as nat);
        }
        let max_n_ctx: u32 = (total * n_ctx as u64 / kv_estimate) as u32;
        let mut suggestion = String::from_str("reduce n_ctx to ");
        suggestion.append(decimal_text(max_n_ctx).as_str());
        return Err(
            MemoryError::InsufficientMemory {
                required_bytes: kv_estimate,
                available_bytes,
                suggestion,
            },
        );
    }
    Ok(ContextPlan { n_ctx, n_ubatch, warnings })
}

proof fn lemma_suggestion_smaller(total: nat, n_ctx: nat, kv: nat)
    by (nonlinear_arith)
    requires
        kv > total,
    ensures
        (total * n_ctx) / kv <= n_ctx,
{
}

/// A context that does not fit is answered with the longest one that does.
pub proof fn law_suggestion_is_the_longest_that_fits(
    n_ctx: nat,
    arch: ModelArchitecture,
    devices: Seq<LlamaBackendDevice>,
)
    requires
        !context_fits(n_ctx, arch, devices),
    ensures
        suggested_n_ctx(n_ctx, arch, devices) < n_ctx,
        context_fits(suggested_n_ctx(n_ctx, arch, devices), arch, devices),
        !context_fits(suggested_n_ctx(n_ctx, arch, devices) + 1, arch, devices),
        total_available(devices) <= u64::MAX ==> countable(
            suggested_n_ctx(n_ctx, arch, devices),
            arch,
            devices,
        ),
{
    let total = total_available(devices);
    let token = crate::estimate::kv_cache_bytes(arch, 1);
    let s = suggested_n_ctx(n_ctx, arch, devices);
    crate::estimate::law_kv_cache_is_linear(arch, n_ctx);
    crate::estimate::law_kv_cache_is_linear(arch, s);
    crate::estimate::law_kv_cache_is_linear(arch, s + 1);
    assert(n_ctx > 0 && token > 0) by (nonlinear_arith)
        requires
            n_ctx * token > total,
            total >= 0,
    ;
    assert(s == total / token) by {
        vstd::arithmetic::div_mod::lemma_div_denominator(
            (total * n_ctx) as int,
            n_ctx as int,
            token as int,
        );
        vstd::arithmetic::div_mod::lemma_div_by_multiple(total as int, n_ctx as int);
    }
    assert(s * token <= total < (s + 1) * token) by (nonlinear_arith)
        requires
            s == total / token,
            token > 0,
    ;
    assert(s < n_ctx) by (nonlinear_arith)
        requires
            s * token <= total,
            n_ctx * token > total,
            token > 0,
    ;
}

/// Whatever fits a context fits every shorter one.
pub proof fn law_shorter_contexts_fit(
    n_ctx: nat,
    shorter: nat,
    arch: ModelArchitecture,
    devices: Seq<LlamaBackendDevice>,
)
    requires
        context_fits(n_ctx, arch, devices),
        shorter <= n_ctx,
    ensures
        context_fits(shorter, arch, devices),
{
    let token = crate::estimate::kv_cache_bytes(arch, 1);
    crate::estimate::law_kv_cache_is_linear(arch, n_ctx);
    crate::estimate::law_kv_cache_is_linear(arch, shorter);
    assert(shorter * token <= n_ctx * token) by (nonlinear_arith)
        requires
            shorter <= n_ctx,
    ;
}

/// A context may take what the chosen GPU and the first CPU have free together, whichever
/// has more. What is reported is the GPU's part, or the CPU's where there is no GPU.
pub proof fn law_gpu_and_cpu_count_together(
    n_ctx: nat,
    arch: ModelArchitecture,
    devices: Seq<LlamaBackendDevice>,
)
    ensures
        ({
            let needed = crate::estimate::kv_cache_bytes(arch, n_ctx);
            let cpu = crate::device::cpu_free_bytes(devices);
            let gpu = crate::device::best_gpu(devices);
            &&& needed <= cpu ==> context_fits(n_ctx, arch, devices)
            &&& gpu matches Some(g) ==> {
                &&& context_fits(n_ctx, arch, devices) <==> needed <= crate::device::free_bytes(g)
                    + cpu
                &&& total_available(devices) == crate::device::free_bytes(g) + cpu
                &&& reported_available(devices) == crate::device::free_bytes(g)
            }
            &&& gpu is None ==> {
                &&& context_fits(n_ctx, arch, devices) <==> needed <= cpu
                &&& total_available(devices) == cpu
                &&& reported_available(devices) == cpu
            }
        }),
{
}

/// Every byte that the first CPU has free besides counts, whatever else is listed: with
/// more of them a context that fitted still fits, and each longer one that they pay for.
pub proof fn law_more_cpu_memory_is_more_memory(
    devices: Seq<LlamaBackendDevice>,
    i: int,
    d: LlamaBackendDevice,
    n_ctx: nat,
    arch: ModelArchitecture,
)
    requires
        0 <= i < devices.len(),
        devices[i].device_type is Cpu,
        forall|j: int| 0 <= j < i ==> !((#[trigger] devices[j]).device_type is Cpu),
        d.device_type is Cpu,
        crate::device::free_bytes(devices[i]) <= crate::device::free_bytes(d),
    ensures
        context_fits(n_ctx, arch, devices) ==> context_fits(n_ctx, arch, devices.update(i, d)),
        context_fits(n_ctx, arch, devices.update(i, d)) <==> crate::estimate::kv_cache_bytes(
            arch,
            n_ctx,
        ) <= total_available(devices) + (crate::device::free_bytes(d) - crate::device::free_bytes(
            devices[i],
        )),
{
    let changed = devices.update(i, d);
    assert(forall|j: int| 0 <= j < i ==> #[trigger] changed[j] == devices[j]);
    assert(changed[i] == d);
    crate::device::law_other_devices_do_not_sway_the_choice(devices, i, d);
    crate::device::lemma_first_cpu_unique(devices, i);
    crate::device::lemma_first_cpu_unique(changed, i);
    law_gpu_and_cpu_count_together(n_ctx, arch, devices);
    law_gpu_and_cpu_count_together(n_ctx, arch, changed);
}

/// A context can be planned exactly where its cache and the memory for it can be counted
/// in 64 bits and, if it does not fit, so can the memory times the context length.
pub proof fn law_when_a_context_can_be_planned(
    n_ctx: nat,
    arch: ModelArchitecture,
    devices: Seq<LlamaBackendDevice>,
)
    ensures
        countable(n_ctx, arch, devices) <==> {
            let needed = crate::estimate::kv_cache_bytes(arch, n_ctx);
            let total = total_available(devices);
            &&& needed <= 0xffff_ffff_ffff_ffff
            &&& total <= 0xffff_ffff_ffff_ffff
            &&& needed <= total || total * n_ctx <= 0xffff_ffff_ffff_ffff
        },
{
}

/// The limit of a micro-batch, the warning and the advice, word for word.
pub proof fn law_wording_of_context_plans(n_ctx: nat)
    ensures
        ubatch_limit(true) == 2048 && ubatch_limit(false) == 512,
        small_context_text()
            == "Context size is less than 2048, which is the default minimum for ingesting images. This can cause issues."@,
        suggestion_text(n_ctx) == "reduce n_ctx to "@ + crate::text::decimal(n_ctx),
{
}

} // verus!
