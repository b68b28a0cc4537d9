//! Estimates of what a model costs in memory, layer by layer.
//!
//! A layer that is offloaded brings its weights and its slice of the KV cache to
//! the device. The compute buffers come on top, once, whatever the split.
use vstd::prelude::*;

verus! {

/// Context length assumed while planning the weight split. The model is loaded before
/// any worker exists, so the real context length only turns up later; this mirrors the
/// default that a worker gets when it does not ask for another.
pub const PLANNING_N_CTX: u32 = 4096;

/// Headroom for the compute buffers that are allocated on the device alongside the
/// weights. They scale with the micro-batch and the embedding and vocabulary sizes
/// rather than with the layer count, so a flat allowance covers them.
pub const COMPUTE_BUFFER_HEADROOM: u64 = 384 * 1024 * 1024;

/// The numbers of a model's architecture that size its KV cache.
#[derive(Clone, Copy, Debug, PartialEq, Eq, Structural)]
pub struct ModelArchitecture {
    pub n_layers: u32,
    pub n_embd: u32,
    pub n_head: u32,
    pub n_head_kv: u32,
}

/// What planning needs to know of a model file.
#[derive(Clone, Copy, Debug, PartialEq, Eq, Structural)]
pub struct GgufModelInfo {
    /// Offloadable layers: the blocks and the output layer.
    pub n_layers: u32,
    pub file_size: u64,
    /// Architecture read from the same metadata, when the file carries all of it.
    /// Sizes the KV cache that a layer brings with it; `None` plans on weights alone.
    pub arch: Option<ModelArchitecture>,
}

/// Width of one attention head; a model that names no heads is taken to have heads
/// of width 64.
pub open spec fn head_dim(arch: ModelArchitecture) -> nat {
    if arch.n_head == 0 {
        64
    } else {
        (arch.n_embd / arch.n_head) as nat
    }
}

/// Size in bytes of the KV cache over `n_ctx` tokens: a key and a value for each layer,
/// token and KV head, each `head_dim` numbers of two bytes.
pub open spec fn kv_cache_bytes(arch: ModelArchitecture, n_ctx: nat) -> nat {
    2 * arch.n_layers as nat * n_ctx * arch.n_head_kv as nat * head_dim(arch) * 2
}

/// Share of the KV cache, at the planning context length, that one layer holds.
pub open spec fn kv_bytes_per_layer(arch: Option<ModelArchitecture>) -> nat {
    match arch {
        Some(a) => if a.n_layers == 0 {
            0
        } else {
            kv_cache_bytes(a, PLANNING_N_CTX as nat) / a.n_layers as nat
        },
        None => 0,
    }
}

/// Whether the KV cache at the planning context length can be counted in 64 bits.
pub open spec fn kv_estimate_fits(arch: Option<ModelArchitecture>) -> bool {
    arch matches Some(a) ==> kv_cache_bytes(a, PLANNING_N_CTX as nat) <= u64::MAX
}

/// Weight bytes of one layer, taken as an equal share of the file.
pub open spec fn per_layer_bytes(info: GgufModelInfo) -> nat {
    if info.n_layers == 0 {
        info.file_size as nat
    } else {
        (info.file_size / info.n_layers as u64) as nat
    }
}

/// Bytes left for layers once the compute buffers are paid for.
pub open spec fn bytes_for_layers(available: nat) -> nat {
    if available >= COMPUTE_BUFFER_HEADROOM {
        (available - COMPUTE_BUFFER_HEADROOM) as nat
    } else {
        0
    }
}

/// The number of layers, of `n_layers`, whose bytes fit beside the compute buffers.
pub open spec fn layers_that_fit(available: nat, per_layer_total: nat, n_layers: nat) -> nat {
    if per_layer_total == 0 || bytes_for_layers(available) / per_layer_total >= n_layers {
        n_layers
    } else {
        bytes_for_layers(available) / per_layer_total
    }
}

/// Weight bytes of one layer; a model without layers counts whole.
pub fn estimate_per_layer_bytes(info: &GgufModelInfo) -> (bytes: u64)
    ensures
        bytes == per_layer_bytes(*info),
{
    if info.n_layers == 0 {
        return info.file_size;
    }
    info.file_size / info.n_layers as u64
}

/// The size of the KV cache over `n_ctx` tokens, or `None` where it cannot be counted
/// in 64 bits.
pub fn checked_kv_cache_bytes(arch: &ModelArchitecture, n_ctx: u32) -> (bytes: Option<u64>)
    ensures
        bytes is Some <==> kv_cache_bytes(*arch, n_ctx as nat) <= u64::MAX,
        bytes matches Some(b) ==> b == kv_cache_bytes(*arch, n_ctx as nat),
{
    let head_dim: u64 = arch.n_embd.checked_div(arch.n_head).unwrap_or(64) as u64;
    let n_layers: u64 = arch.n_layers as u64;
    let n_head_kv: u64 = arch.n_head_kv as u64;
    if n_layers == 0 || n_ctx == 0 || n_head_kv == 0 || head_dim == 0 {
        assert(kv_cache_bytes(*arch, n_ctx as nat) == 0) by {
            lemma_zero_factor(n_layers as nat, n_ctx as nat, n_head_kv as nat, head_dim as nat);
        }
        return Some(0);
    }
    proof {
        lemma_prefixes(n_layers as nat, n_ctx as nat, n_head_kv as nat, head_dim as nat);
    }
    match (2 * n_layers).checked_mul(n_ctx as u64) {
        Some(tokens) => match tokens.checked_mul(n_head_kv) {
            Some(heads) => match heads.checked_mul(head_dim) {
                Some(numbers) => numbers.checked_mul(2),
                None => None,
            },
            None => None,
        },
        None => None,
    }
}

/// The size of the KV cache over `n_ctx` tokens.
pub fn estimate_kv_cache_bytes(arch: &ModelArchitecture, n_ctx: u32) -> (bytes: u64)
    requires
        kv_cache_bytes(*arch, n_ctx as nat) <= u64::MAX,
    ensures
        bytes == kv_cache_bytes(*arch, n_ctx as nat),
{
    checked_kv_cache_bytes(arch, n_ctx).unwrap()
}

/// Share of the KV cache that a single offloaded layer takes to the device. Layers that
/// stay on the CPU keep their share in host memory, so the reservation tracks the split.
pub fn estimate_kv_bytes_per_layer(arch: Option<&ModelArchitecture>) -> (bytes: u64)
    requires
        arch matches Some(a) ==> kv_cache_bytes(*a, PLANNING_N_CTX as nat) <= u64::MAX,
    ensures
        arch matches Some(a) ==> bytes == kv_bytes_per_layer(Some(*a)),
        arch is None ==> bytes == 0,
{
    let arch = match arch {
        Some(arch) => arch,
        None => {
            return 0;
        },
    };
    if arch.n_layers == 0 {
        return 0;
    }
    estimate_kv_cache_bytes(arch, PLANNING_N_CTX) / arch.n_layers as u64
}

/// Layers that stay resident once the runtime buffers are paid for.
///
/// Weights are not the only thing that lands on the device. The KV cache grows with
/// every layer offloaded and the compute buffers are allocated next to them, so a layer
/// costs its own weights plus its slice of the cache, and the compute buffers come off
/// the top. Spending every free byte on weights instead overshoots the device: the
/// allocation still succeeds, the driver quietly moves part of it to system memory, and
/// a nominally full offload then streams weights across the bus on every token.
pub fn fitting_gpu_layers(
    available: u64,
    per_layer: u64,
    kv_per_layer: u64,
    n_layers: u32,
) -> (layers: u32)
    ensures
        layers == layers_that_fit(
            available as nat,
            (per_layer + kv_per_layer) as nat,
            n_layers as nat,
        ),
{
    let per_layer_total: u64 = per_layer.saturating_add(kv_per_layer);
    if per_layer_total == 0 {
        return n_layers;
    }
    let for_layers: u64 = available.saturating_sub(COMPUTE_BUFFER_HEADROOM);
    proof {
        if per_layer + kv_per_layer > u64::MAX {
            lemma_small_quotient(for_layers as nat, per_layer_total as nat);
            lemma_small_quotient(for_layers as nat, (per_layer + kv_per_layer) as nat);
        }
    }
    (for_layers / per_layer_total).min(n_layers as u64) as u32
}

proof fn lemma_zero_factor(a: nat, b: nat, c: nat, d: nat)
    by (nonlinear_arith)
    requires
        a == 0 || b == 0 || c == 0 || d == 0,
    ensures
        2 * a * b * c * d * 2 == 0,
{
}

/// With no factor zero, each prefix of the product bounds the next from below.
proof fn lemma_prefixes(a: nat, b: nat, c: nat, d: nat)
    by (nonlinear_arith)
    requires
        a > 0,
        b > 0,
        c > 0,
        d > 0,
    ensures
        2 * a * b <= 2 * a * b * c,
        2 * a * b * c <= 2 * a * b * c * d,
        2 * a * b * c * d <= 2 * a * b * c * d * 2,
{
}

proof fn lemma_small_quotient(x: nat, y: nat)
    by (nonlinear_arith)
    requires
        x < y,
    ensures
        x / y == 0,
{
}

/// The shares of all layers make up the whole cache, without a remainder.
pub proof fn law_kv_shares_make_up_the_cache(arch: ModelArchitecture)
    requires
        arch.n_layers > 0,
    ensures
        kv_bytes_per_layer(Some(arch)) * arch.n_layers as nat == kv_cache_bytes(
            arch,
            PLANNING_N_CTX as nat,
        ),
{
    let n = arch.n_layers as nat;
    let share = 2 * PLANNING_N_CTX as nat * arch.n_head_kv as nat * head_dim(arch) * 2;
    let (t, h, d) = (PLANNING_N_CTX as nat, arch.n_head_kv as nat, head_dim(arch));
    assert(2 * n * t * h * d * 2 == (2 * t * h * d * 2) * n) by (nonlinear_arith);
    vstd::arithmetic::div_mod::lemma_div_by_multiple(share as int, n as int);
}

/// The cache grows in proportion to the context length.
pub proof fn law_kv_cache_is_linear(arch: ModelArchitecture, n_ctx: nat)
    ensures
        kv_cache_bytes(arch, n_ctx) == n_ctx * kv_cache_bytes(arch, 1),
{
    let (n, h, d) = (arch.n_layers as nat, arch.n_head_kv as nat, head_dim(arch));
    assert(2 * n * n_ctx * h * d * 2 == n_ctx * (2 * n * 1 * h * d * 2)) by (nonlinear_arith);
}

/// The layers that are kept never overshoot the device, compute buffers included, and
/// one more would.
pub proof fn law_fitting_layers_are_the_most_that_fit(
    available: nat,
    per_layer_total: nat,
    n_layers: nat,
)
    requires
        per_layer_total > 0,
    ensures
        ({
            let layers = layers_that_fit(available, per_layer_total, n_layers);
            &&& layers <= n_layers
            &&& layers > 0 ==> layers * per_layer_total + COMPUTE_BUFFER_HEADROOM <= available
            &&& layers < n_layers ==> (layers + 1) * per_layer_total + COMPUTE_BUFFER_HEADROOM
                > available
        }),
{
    let room = bytes_for_layers(available);
    let layers = layers_that_fit(available, per_layer_total, n_layers);
    let quotient = room / per_layer_total;
    assert(quotient * per_layer_total <= room < (quotient + 1) * per_layer_total)
        by (nonlinear_arith)
        requires
            quotient == room / per_layer_total,
            per_layer_total > 0,
    ;
    assert(layers * per_layer_total <= quotient * per_layer_total) by (nonlinear_arith)
        requires
            layers <= quotient,
    ;
    if layers > 0 {
        assert(layers * per_layer_total > 0) by (nonlinear_arith)
            requires
                layers > 0,
                per_layer_total > 0,
        ;
    }
}

/// Every layer is kept when the device has room for all of them and the buffers.
pub proof fn law_all_layers_kept_when_there_is_room(
    available: nat,
    per_layer_total: nat,
    n_layers: nat,
)
    requires
        n_layers * per_layer_total + COMPUTE_BUFFER_HEADROOM <= available,
    ensures
        layers_that_fit(available, per_layer_total, n_layers) == n_layers,
{
    if per_layer_total > 0 {
        let room = bytes_for_layers(available);
        assert(room / per_layer_total >= n_layers) by (nonlinear_arith)
            requires
                n_layers * per_layer_total <= room,
                per_layer_total > 0,
        ;
    }
}

/// No layer is kept when the buffers alone take all there is.
pub proof fn law_no_layer_kept_when_buffers_do_not_fit(
    available: nat,
    per_layer_total: nat,
    n_layers: nat,
)
    requires
        per_layer_total > 0,
        available <= COMPUTE_BUFFER_HEADROOM,
    ensures
        layers_that_fit(available, per_layer_total, n_layers) == 0,
{
    lemma_small_quotient(0, per_layer_total);
}

/// More memory, or cheaper layers, never leaves fewer layers on the device.
pub proof fn law_fitting_layers_is_monotone(
    available: nat,
    more_available: nat,
    per_layer_total: nat,
    cheaper_layer_total: nat,
    n_layers: nat,
)
    requires
        available <= more_available,
        cheaper_layer_total <= per_layer_total,
    ensures
        layers_that_fit(available, per_layer_total, n_layers) <= layers_that_fit(
            more_available,
            cheaper_layer_total,
            n_layers,
        ),
{
    if cheaper_layer_total > 0 {
        let (x, y) = (bytes_for_layers(available), bytes_for_layers(more_available));
        assert(x / per_layer_total <= y / cheaper_layer_total) by {
            vstd::arithmetic::div_mod::lemma_div_is_ordered(
                x as int,
                y as int,
                per_layer_total as int,
            );
            vstd::arithmetic::div_mod::lemma_div_is_ordered_by_denominator(
                y as int,
                cheaper_layer_total as int,
                per_layer_total as int,
            );
        }
    }
}

/// The cache grows in proportion to the layers, to the KV heads and to the width of a
/// head. One token of one layer with one KV head of width 1 takes 4 bytes.
///
/// `width` is the embedding split over the heads, rounded down; without heads it is 64.
pub proof fn law_kv_cache_is_in_proportion(arch: ModelArchitecture, n_ctx: nat, width: nat)
    requires
        arch.n_head == 0 ==> width == 64,
        arch.n_head > 0 ==> width * arch.n_head <= arch.n_embd < (width + 1) * arch.n_head,
    ensures
        kv_cache_bytes(arch, n_ctx) == arch.n_layers as nat * kv_cache_bytes(
            ModelArchitecture { n_layers: 1, ..arch },
            n_ctx,
        ),
        kv_cache_bytes(arch, n_ctx) == arch.n_head_kv as nat * kv_cache_bytes(
            ModelArchitecture { n_head_kv: 1, ..arch },
            n_ctx,
        ),
        kv_cache_bytes(arch, n_ctx) == width * kv_cache_bytes(
            ModelArchitecture { n_embd: 1, n_head: 1, ..arch },
            n_ctx,
        ),
        kv_cache_bytes(
            ModelArchitecture { n_layers: 1, n_embd: 1, n_head: 1, n_head_kv: 1 },
            1,
        ) == 4,
        kv_cache_bytes(arch, n_ctx) == 4 * (arch.n_layers as nat * n_ctx * arch.n_head_kv as nat
            * width),
{
    let (n, h) = (arch.n_layers as nat, arch.n_head_kv as nat);
    if arch.n_head > 0 {
        let (e, k) = (arch.n_embd as nat, arch.n_head as nat);
        assert(e / k == width) by (nonlinear_arith)
            requires
                k > 0,
                width * k <= e < (width + 1) * k,
        ;
    }
    assert(head_dim(arch) == width);
    assert(2 * n * n_ctx * h * width * 2 == n * (2 * 1 * n_ctx * h * width * 2))
        by (nonlinear_arith);
    assert(2 * n * n_ctx * h * width * 2 == h * (2 * n * n_ctx * 1 * width * 2))
        by (nonlinear_arith);
    assert(2 * n * n_ctx * h * width * 2 == width * (2 * n * n_ctx * h * 1 * 2))
        by (nonlinear_arith);
    assert(2 * n * n_ctx * h * width * 2 == 4 * (n * n_ctx * h * width)) by (nonlinear_arith);
}

/// A layer's share of the cache is what a model of that one layer would need for 4096
/// tokens, however many layers there are; a model without blocks, or of unknown
/// architecture, has no cache to share.
pub proof fn law_kv_share_is_the_cache_of_one_layer(arch: ModelArchitecture)
    ensures
        kv_bytes_per_layer(None) == 0,
        arch.n_layers == 0 ==> kv_bytes_per_layer(Some(arch)) == 0,
        arch.n_layers > 0 ==> kv_bytes_per_layer(Some(arch)) == kv_cache_bytes(
            ModelArchitecture { n_layers: 1, ..arch },
            4096,
        ),
{
    if arch.n_layers > 0 {
        let n = arch.n_layers as nat;
        let share = kv_cache_bytes(ModelArchitecture { n_layers: 1, ..arch }, 4096);
        let (h, d) = (arch.n_head_kv as nat, head_dim(arch));
        assert(2 * n * 4096 * h * d * 2 == (2 * 1 * 4096 * h * d * 2) * n) by (nonlinear_arith);
        vstd::arithmetic::div_mod::lemma_div_by_multiple(share as int, n as int);
    }
}

/// The planning estimate can be counted exactly where the cache of 4096 tokens can, and
/// always where the architecture is unknown.
pub proof fn law_when_the_cache_can_be_counted(arch: ModelArchitecture)
    ensures
        kv_estimate_fits(None),
        kv_estimate_fits(Some(arch)) <==> kv_cache_bytes(arch, 4096)
            <= 0xffff_ffff_ffff_ffff,
{
}

/// The layers' equal shares of the file leave less than one byte a layer over; without
/// layers the file is one share.
pub proof fn law_weights_are_shared_out(info: GgufModelInfo)
    ensures
        info.n_layers == 0 ==> per_layer_bytes(info) == info.file_size,
        info.n_layers > 0 ==> per_layer_bytes(info) * info.n_layers <= info.file_size < (
        per_layer_bytes(info) + 1) * info.n_layers,
{
    if info.n_layers > 0 {
        let (s, n, q) = (info.file_size as nat, info.n_layers as nat, per_layer_bytes(info));
        assert(q * n <= s < (q + 1) * n) by (nonlinear_arith)
            requires
                q == s / n,
                n > 0,
        ;
    }
}

/// Layers that cost nothing all fit, whatever is available. Any number of costly layers
/// fits exactly up to the number that is kept, with 384 MiB set aside for the buffers.
pub proof fn law_a_number_of_layers_is_kept_where_it_fits(
    available: nat,
    per_layer_total: nat,
    n_layers: nat,
    k: nat,
)
    requires
        0 < k <= n_layers,
    ensures
        per_layer_total == 0 ==> layers_that_fit(available, per_layer_total, n_layers)
            == n_layers,
        per_layer_total > 0 ==> (k <= layers_that_fit(available, per_layer_total, n_layers)
            <==> k * per_layer_total + 384 * 1024 * 1024 <= available),
        layers_that_fit(available, per_layer_total, n_layers) <= n_layers,
{
    if per_layer_total > 0 {
        law_fitting_layers_are_the_most_that_fit(available, per_layer_total, n_layers);
        let kept = layers_that_fit(available, per_layer_total, n_layers);
        if k <= kept {
            assert(k * per_layer_total <= kept * per_layer_total) by (nonlinear_arith)
                requires
                    k <= kept,
            ;
        } else {
            assert((kept + 1) * per_layer_total <= k * per_layer_total) by (nonlinear_arith)
                requires
                    kept + 1 <= k,
            ;
        }
    }
}

} // verus!
