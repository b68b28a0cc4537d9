//! How much memory a model may take on this machine.
use vstd::prelude::*;

use crate::device::{device_free, gpu_shares_host_memory, LlamaBackendDevice, LlamaBackendDeviceType};

verus! {

/// Memory of the host, as the operating system counts it.
#[derive(Clone, Copy, Debug, PartialEq, Eq, Structural)]
pub struct HostMemory {
    pub available_bytes: u64,
    pub total_bytes: u64,
}

/// Memory of a GPU.
#[derive(Clone, Copy, Debug, PartialEq, Eq, Structural)]
pub struct GpuMemory {
    pub free_bytes: u64,
    pub total_bytes: u64,
    /// Whether these bytes are the host's own, and so counted there already.
    pub shares_host_memory: bool,
}

/// Memory for a model: what is free, and how much of it a model should use.
#[derive(Clone, Copy, Debug, PartialEq, Eq, Structural)]
pub struct AvailableMemory {
    pub free_bytes: u64,
    pub usable_bytes: u64,
}

/// Whether `gpus[i]` has the most free memory of the GPUs with memory of their own; of
/// those with as much it is the last.
pub open spec fn is_largest_dedicated(gpus: Seq<GpuMemory>, i: int) -> bool {
    &&& 0 <= i < gpus.len()
    &&& !gpus[i].shares_host_memory
    &&& forall|j: int|
        0 <= j < gpus.len() && !(#[trigger] gpus[j]).shares_host_memory ==> {
            &&& gpus[j].free_bytes <= gpus[i].free_bytes
            &&& j > i ==> gpus[j].free_bytes < gpus[i].free_bytes
        }
}

/// The one GPU whose memory is added to the host's, if there is one to add.
pub open spec fn dedicated_gpu(gpus: Seq<GpuMemory>, use_gpu: bool) -> Option<GpuMemory> {
    if use_gpu && exists|i: int| is_largest_dedicated(gpus, i) {
        Some(gpus[choose|i: int| is_largest_dedicated(gpus, i)])
    } else {
        None
    }
}

/// A sum or product as 64 bits can hold it.
pub open spec fn capped(n: nat) -> nat {
    if n <= u64::MAX {
        n
    } else {
        u64::MAX as nat
    }
}

/// The smaller of two numbers.
pub open spec fn smaller(a: nat, b: nat) -> nat {
    if a <= b {
        a
    } else {
        b
    }
}

/// Bytes of memory in all: the host's, and those of the dedicated GPU if there is one.
pub open spec fn memory_total(host: HostMemory, gpu: Option<GpuMemory>) -> nat {
    match gpu {
        Some(g) => capped((host.total_bytes + g.total_bytes) as nat),
        None => host.total_bytes as nat,
    }
}

/// Bytes free in all, never more than there are.
pub open spec fn memory_free(host: HostMemory, gpu: Option<GpuMemory>) -> nat {
    match gpu {
        Some(g) => smaller(
            (host.available_bytes + g.free_bytes) as nat,
            memory_total(host, gpu),
        ),
        None => smaller(host.available_bytes as nat, memory_total(host, gpu)),
    }
}

/// Bytes that a model may use: what is free, but at most three quarters of the total.
pub open spec fn memory_usable(host: HostMemory, gpu: Option<GpuMemory>) -> nat {
    smaller(memory_free(host, gpu), capped(memory_total(host, gpu) * 3) / 4)
}

/// The memory of a GPU, read off the device.
pub open spec fn gpu_memory_of(d: LlamaBackendDevice, apple_unified_memory: bool) -> GpuMemory {
    GpuMemory {
        free_bytes: crate::device::free_bytes(d) as u64,
        total_bytes: d.memory_total as u64,
        shares_host_memory: crate::device::shares_host_memory(
            d.device_type,
            d.backend@,
            apple_unified_memory,
        ),
    }
}

/// The memory of each GPU among the devices, in the order in which they are listed.
pub open spec fn gpu_memories_of(
    devices: Seq<LlamaBackendDevice>,
    apple_unified_memory: bool,
) -> Seq<GpuMemory> {
    devices.filter(|d: LlamaBackendDevice| crate::device::is_gpu(d)).map_values(
        |d: LlamaBackendDevice| gpu_memory_of(d, apple_unified_memory),
    )
}

/// The memory for a model on a host with these GPUs.
///
/// With `use_gpu` the dedicated GPU with the most free memory counts beside the host; a
/// GPU that shares the host's memory never does. A quarter of the total is kept back.
pub fn available_model_memory_from(
    host: HostMemory,
    gpus: &[GpuMemory],
    use_gpu: bool,
) -> (memory: AvailableMemory)
    ensures
        memory.free_bytes == memory_free(host, dedicated_gpu(gpus@, use_gpu)),
        memory.usable_bytes == memory_usable(host, dedicated_gpu(gpus@, use_gpu)),
{
    let dedicated: Option<GpuMemory> = if use_gpu {
        largest_dedicated(gpus)
    } else {
        None
    };
    let (gpu_total, gpu_free): (u64, u64) = match dedicated {
        Some(gpu) => (gpu.total_bytes, gpu.free_bytes),
        None => (0, 0),
    };
    let total_bytes: u64 = host.total_bytes.saturating_add(gpu_total);
    let free_bytes: u64 = host.available_bytes.saturating_add(gpu_free).min(total_bytes);
    AvailableMemory {
        free_bytes,
        usable_bytes: free_bytes.min(total_bytes.checked_mul(3).unwrap_or(u64::MAX) / 4),
    }
}

fn largest_dedicated(gpus: &[GpuMemory]) -> (gpu: Option<GpuMemory>)
    ensures
        gpu == dedicated_gpu(gpus@, true),
{
    let mut best: Option<usize> = None;
    let mut i: usize = 0;
    while i < gpus.len()
        invariant
            i <= gpus@.len(),
            best matches Some(b) ==> b < i && is_largest_dedicated(gpus@.take(i as int), b as int),
            best is None ==> forall|j: int| 0 <= j < i ==> (#[trigger] gpus@[j]).shares_host_memory,
        decreases gpus.len() - i,
    {
        let ghost seen = gpus@.take(i as int);
        let ghost seen_next = gpus@.take(i + 1);
        assert(forall|j: int| 0 <= j < i ==> #[trigger] seen_next[j] == seen[j]);
        if !gpus[i].shares_host_memory {
            match best {
                Some(b) => {
                    assert(seen[b as int] == gpus@[b as int]);
                    if gpus[b].free_bytes <= gpus[i].free_bytes {
                        best = Some(i);
                    }
                },
                None => {
                    best = Some(i);
                },
            }
        }
        i += 1;
    }
    assert(gpus@.take(gpus@.len() as int) =~= gpus@);
    match best {
        Some(b) => {
            proof {
                lemma_largest_dedicated_unique(gpus@, b as int);
            }
            Some(gpus[b])
        },
        None => None,
    }
}

/// The memory of each GPU among the devices, in the order in which they are listed.
pub fn gpu_memories(devices: &[LlamaBackendDevice], apple_unified_memory: bool) -> (gpus: Vec<
    GpuMemory,
>)
    ensures
        gpus@ == gpu_memories_of(devices@, apple_unified_memory),
{
    let mut gpus: Vec<GpuMemory> = Vec::new();
    let mut i: usize = 0;
    assert(devices@.take(0).filter(|d: LlamaBackendDevice| crate::device::is_gpu(d)) =~= seq![]) by {
        reveal(Seq::filter);
    }
    while i < devices.len()
        invariant
            i <= devices@.len(),
            gpus@ == gpu_memories_of(devices@.take(i as int), apple_unified_memory),
        decreases devices.len() - i,
    {
        let device = &devices[i];
        proof {
            assert(devices@.take(i + 1).drop_last() =~= devices@.take(i as int));
            reveal(Seq::filter);
        }
        if matches!(device.device_type, LlamaBackendDeviceType::Gpu | LlamaBackendDeviceType::IntegratedGpu) {
            gpus.push(
                GpuMemory {
                    free_bytes: device_free(device),
                    total_bytes: device.memory_total as u64,
                    shares_host_memory: gpu_shares_host_memory(
                        device.device_type,
                        device.backend.as_str(),
                        apple_unified_memory,
                    ),
                },
            );
        }
        i += 1;
        assert(gpus@ =~= gpu_memories_of(devices@.take(i as int), apple_unified_memory));
    }
    assert(devices@.take(devices@.len() as int) =~= devices@);
    gpus
}

/// The memory for a model on a host with these devices.
pub fn available_model_memory(
    host: HostMemory,
    devices: &[LlamaBackendDevice],
    use_gpu: bool,
    apple_unified_memory: bool,
) -> (memory: AvailableMemory)
    ensures
        ({
            let gpu = dedicated_gpu(gpu_memories_of(devices@, apple_unified_memory), use_gpu);
            &&& memory.free_bytes == memory_free(host, gpu)
            &&& memory.usable_bytes == memory_usable(host, gpu)
        }),
{
    let gpus = gpu_memories(devices, apple_unified_memory);
    available_model_memory_from(host, gpus.as_slice(), use_gpu)
}

/// There is at most one largest dedicated GPU.
pub proof fn lemma_largest_dedicated_unique(gpus: Seq<GpuMemory>, i: int)
    requires
        is_largest_dedicated(gpus, i),
    ensures
        forall|j: int| #[trigger] is_largest_dedicated(gpus, j) ==> j == i,
        dedicated_gpu(gpus, true) == Some(gpus[i]),
{
}

/// A GPU is counted exactly where GPUs are used and one has memory of its own.
pub proof fn law_dedicated_gpu_exists(gpus: Seq<GpuMemory>, use_gpu: bool)
    ensures
        dedicated_gpu(gpus, use_gpu) is Some <==> use_gpu && exists|i: int|
            0 <= i < gpus.len() && !(#[trigger] gpus[i]).shares_host_memory,
        dedicated_gpu(gpus, use_gpu) matches Some(g) ==> exists|i: int|
            #[trigger] is_largest_dedicated(gpus, i) && gpus[i] == g,
    decreases gpus.len(),
{
    if gpus.len() > 0 {
        let last = gpus.len() - 1;
        let rest = gpus.drop_last();
        law_dedicated_gpu_exists(rest, true);
        assert(forall|j: int| 0 <= j < last ==> #[trigger] gpus[j] == rest[j]);
        if exists|i: int| is_largest_dedicated(rest, i) {
            let b = choose|i: int| is_largest_dedicated(rest, i);
            if !gpus[last].shares_host_memory && gpus[b].free_bytes <= gpus[last].free_bytes {
                assert(is_largest_dedicated(gpus, last));
            } else {
                assert(is_largest_dedicated(gpus, b));
            }
        } else if !gpus[last].shares_host_memory {
            assert(is_largest_dedicated(gpus, last));
        }
        assert forall|i: int|
            0 <= i < gpus.len() && !(#[trigger] gpus[i]).shares_host_memory implies exists|k: int|
            is_largest_dedicated(gpus, k) by {
            if i < last {
                assert(rest[i] == gpus[i]);
            }
        }
    }
}

/// Memory that a GPU shares with the host is never counted twice: such a GPU, wherever
/// it is listed, changes nothing.
pub proof fn law_shared_memory_is_not_counted_twice(
    before: Seq<GpuMemory>,
    shared: GpuMemory,
    after: Seq<GpuMemory>,
    use_gpu: bool,
)
    requires
        shared.shares_host_memory,
    ensures
        dedicated_gpu(before + seq![shared] + after, use_gpu) == dedicated_gpu(
            before + after,
            use_gpu,
        ),
{
    let with = before + seq![shared] + after;
    let without = before + after;
    let k = before.len() as int;
    assert(forall|j: int| 0 <= j < k ==> #[trigger] with[j] == without[j]);
    assert(forall|j: int| k < j < with.len() ==> #[trigger] with[j] == without[j - 1]);
    assert(forall|j: int| k <= j < without.len() ==> #[trigger] without[j] == with[j + 1]);
    if exists|i: int| is_largest_dedicated(with, i) {
        let i = choose|i: int| is_largest_dedicated(with, i);
        let m = if i < k { i } else { i - 1 };
        assert forall|j: int|
            0 <= j < without.len() && !(#[trigger] without[j]).shares_host_memory implies {
            &&& without[j].free_bytes <= without[m].free_bytes
            &&& j > m ==> without[j].free_bytes < without[m].free_bytes
        } by {
            let in_with = if j < k { j } else { j + 1 };
            assert(with[in_with] == without[j]);
        }
        assert(is_largest_dedicated(without, m));
        lemma_largest_dedicated_unique(with, i);
        lemma_largest_dedicated_unique(without, m);
    } else {
        law_dedicated_gpu_exists(with, true);
        law_dedicated_gpu_exists(without, true);
        if exists|i: int| is_largest_dedicated(without, i) {
            let i = choose|i: int| is_largest_dedicated(without, i);
            let m = if i < k { i } else { i + 1 };
            assert(!with[m].shares_host_memory);
        }
    }
}

/// A model may use no more than is free, no more is free than there is, and a quarter of
/// the total is kept back.
pub proof fn law_a_quarter_is_kept_back(host: HostMemory, gpu: Option<GpuMemory>)
    ensures
        memory_usable(host, gpu) <= memory_free(host, gpu) <= memory_total(host, gpu) <= u64::MAX,
        4 * memory_usable(host, gpu) <= 3 * memory_total(host, gpu),
        3 * memory_total(host, gpu) <= u64::MAX ==> memory_usable(host, gpu) == smaller(
            memory_free(host, gpu),
            3 * memory_total(host, gpu) / 4,
        ),
{
}

/// Counting a GPU never leaves less memory than the host has alone.
pub proof fn law_a_gpu_never_takes_memory_away(host: HostMemory, gpu: Option<GpuMemory>)
    ensures
        memory_free(host, None) <= memory_free(host, gpu),
        memory_usable(host, None) <= memory_usable(host, gpu),
{
}

/// With GPUs switched off the host's memory is all there is, whatever GPUs are listed.
pub proof fn law_unused_gpus_do_not_count(host: HostMemory, gpus: Seq<GpuMemory>)
    ensures
        memory_free(host, dedicated_gpu(gpus, false)) == memory_free(host, None),
        memory_usable(host, dedicated_gpu(gpus, false)) == memory_usable(host, None),
        memory_free(host, None) == smaller(host.available_bytes as nat, host.total_bytes as nat),
{
}

/// With a GPU counted, the total is the sum of both totals, the free bytes are the sum of
/// both but no more than the total, and a model may use these up to three quarters of the
/// total. Sums and products stop at the largest 64-bit number.
pub proof fn law_memory_of_host_and_gpu(host: HostMemory, gpu: GpuMemory)
    ensures
        ({
            let max: int = 0xffff_ffff_ffff_ffff;
            let sum = host.total_bytes + gpu.total_bytes;
            let total = memory_total(host, Some(gpu));
            let free = memory_free(host, Some(gpu));
            let usable = memory_usable(host, Some(gpu));
            &&& total <= sum && total <= max && (total == sum || total == max)
            &&& free <= host.available_bytes + gpu.free_bytes && free <= total
            &&& free == host.available_bytes + gpu.free_bytes || free == total
            &&& usable <= free
            &&& 3 * total <= max ==> 4 * usable <= 3 * total && (usable == free || 4 * (usable + 1)
                > 3 * total)
            &&& 3 * total > max ==> 4 * usable <= max && (usable == free || 4 * (usable + 1) > max)
        }),
{
}

/// No GPU counts as a GPU without any memory does.
pub proof fn law_no_gpu_is_a_gpu_without_memory(host: HostMemory, shares_host_memory: bool)
    ensures
        ({
            let nothing = Some(GpuMemory { free_bytes: 0, total_bytes: 0, shares_host_memory });
            &&& memory_total(host, None) == memory_total(host, nothing)
            &&& memory_free(host, None) == memory_free(host, nothing)
            &&& memory_usable(host, None) == memory_usable(host, nothing)
        }),
{
}

/// The GPU that counts is listed, has memory of its own, and no other such GPU has more
/// free; of those with as much it is the last. None counts where GPUs are not used, or
/// all share the host's memory.
pub proof fn law_the_largest_gpu_counts(gpus: Seq<GpuMemory>, use_gpu: bool)
    ensures
        dedicated_gpu(gpus, use_gpu) is None <==> !use_gpu || forall|i: int|
            0 <= i < gpus.len() ==> (#[trigger] gpus[i]).shares_host_memory,
        dedicated_gpu(gpus, use_gpu) matches Some(gpu) ==> {
            &&& !gpu.shares_host_memory
            &&& exists|i: int|
                {
                    &&& 0 <= i < gpus.len()
                    &&& #[trigger] gpus[i] == gpu
                    &&& forall|j: int|
                        0 <= j < gpus.len() && !(#[trigger] gpus[j]).shares_host_memory ==> {
                            &&& gpus[j].free_bytes <= gpu.free_bytes
                            &&& j > i ==> gpus[j].free_bytes < gpu.free_bytes
                        }
                }
        },
{
    law_dedicated_gpu_exists(gpus, use_gpu);
    if dedicated_gpu(gpus, use_gpu) is Some {
        let b = choose|i: int| is_largest_dedicated(gpus, i);
        assert(gpus[b] == dedicated_gpu(gpus, use_gpu)->0);
    }
}

/// Listing one more device adds its memory behind the others' where it is a GPU, and
/// nothing where it is not.
pub proof fn law_each_gpu_adds_its_memory(
    devices: Seq<LlamaBackendDevice>,
    d: LlamaBackendDevice,
    apple_unified_memory: bool,
)
    ensures
        gpu_memories_of(Seq::empty(), apple_unified_memory) == Seq::<GpuMemory>::empty(),
        gpu_memories_of(devices.push(d), apple_unified_memory) == if d.device_type is Gpu
            || d.device_type is IntegratedGpu {
            gpu_memories_of(devices, apple_unified_memory) + seq![
                GpuMemory {
                    free_bytes: crate::device::free_bytes(d) as u64,
                    total_bytes: d.memory_total as u64,
                    shares_host_memory: crate::device::shares_host_memory(
                        d.device_type,
                        d.backend@,
                        apple_unified_memory,
                    ),
                },
            ]
        } else {
            gpu_memories_of(devices, apple_unified_memory)
        },
{
    reveal(Seq::filter);
    assert(devices.push(d).drop_last() =~= devices);
    assert(gpu_memories_of(Seq::empty(), apple_unified_memory) =~= Seq::<GpuMemory>::empty());
    let one_more = gpu_memories_of(devices.push(d), apple_unified_memory);
    if d.device_type is Gpu || d.device_type is IntegratedGpu {
        assert(one_more =~= gpu_memories_of(devices, apple_unified_memory) + seq![
            gpu_memory_of(d, apple_unified_memory),
        ]);
    } else {
        assert(one_more =~= gpu_memories_of(devices, apple_unified_memory));
    }
}

proof fn lemma_dedicated_gpu_of_one_more(gpus: Seq<GpuMemory>, gpu: GpuMemory)
    ensures
        dedicated_gpu(gpus + seq![gpu], true) == if !gpu.shares_host_memory && (dedicated_gpu(
            gpus,
            true,
        ) matches Some(g) ==> g.free_bytes <= gpu.free_bytes) {
            Some(gpu)
        } else {
            dedicated_gpu(gpus, true)
        },
{
    let more = gpus + seq![gpu];
    let last = gpus.len() as int;
    law_dedicated_gpu_exists(gpus, true);
    law_dedicated_gpu_exists(more, true);
    assert(more[last] == gpu);
    assert(forall|j: int| 0 <= j < last ==> #[trigger] more[j] == gpus[j]);
    if dedicated_gpu(gpus, true) is Some {
        let b = choose|i: int| is_largest_dedicated(gpus, i);
        lemma_largest_dedicated_unique(gpus, b);
        if !gpu.shares_host_memory && gpus[b].free_bytes <= gpu.free_bytes {
            assert(is_largest_dedicated(more, last));
            lemma_largest_dedicated_unique(more, last);
        } else {
            assert(is_largest_dedicated(more, b));
            lemma_largest_dedicated_unique(more, b);
        }
    } else {
        assert(forall|j: int| 0 <= j < last ==> (#[trigger] gpus[j]).shares_host_memory);
        if !gpu.shares_host_memory {
            assert(is_largest_dedicated(more, last));
            lemma_largest_dedicated_unique(more, last);
        } else {
            assert(forall|j: int| 0 <= j < more.len() ==> (#[trigger] more[j]).shares_host_memory);
        }
    }
}

/// On a machine without unified memory the GPU that counts is the discrete GPU with the
/// most free, whatever its backend is called; of those with as much it is the last. An
/// integrated GPU never counts.
pub proof fn law_the_largest_discrete_gpu_counts(devices: Seq<LlamaBackendDevice>)
    ensures
        ({
            let counted = dedicated_gpu(gpu_memories_of(devices, false), true);
            &&& counted is None <==> forall|i: int|
                0 <= i < devices.len() ==> !((#[trigger] devices[i]).device_type is Gpu)
            &&& counted matches Some(gpu) ==> exists|i: int|
                {
                    &&& 0 <= i < devices.len()
                    &&& (#[trigger] devices[i]).device_type is Gpu
                    &&& gpu.free_bytes == crate::device::free_bytes(devices[i])
                    &&& gpu.total_bytes == devices[i].memory_total
                    &&& forall|j: int|
                        0 <= j < devices.len() && (#[trigger] devices[j]).device_type is Gpu ==> {
                            &&& crate::device::free_bytes(devices[j]) <= gpu.free_bytes
                            &&& j > i ==> crate::device::free_bytes(devices[j]) < gpu.free_bytes
                        }
                }
        }),
    decreases devices.len(),
{
    if devices.len() == 0 {
        assert(devices =~= Seq::empty());
        law_each_gpu_adds_its_memory(devices, arbitrary(), false);
        law_dedicated_gpu_exists(gpu_memories_of(devices, false), true);
    } else {
        let rest = devices.drop_last();
        let d = devices.last();
        let last = rest.len() as int;
        assert(rest.push(d) =~= devices);
        assert(forall|j: int| 0 <= j < last ==> #[trigger] devices[j] == rest[j]);
        assert(devices[last] == d);
        law_the_largest_discrete_gpu_counts(rest);
        law_each_gpu_adds_its_memory(rest, d, false);
        crate::device::law_who_shares_host_memory(d.device_type, d.backend@, false);
        crate::device::law_free_bytes_is_the_smaller_report(d);
        lemma_dedicated_gpu_of_one_more(
            gpu_memories_of(rest, false),
            gpu_memory_of(d, false),
        );
        let before = dedicated_gpu(gpu_memories_of(rest, false), true);
        if before is Some {
            let gpu = before->0;
            let b = choose|i: int|
                {
                    &&& 0 <= i < rest.len()
                    &&& (#[trigger] rest[i]).device_type is Gpu
                    &&& gpu.free_bytes == crate::device::free_bytes(rest[i])
                    &&& gpu.total_bytes == rest[i].memory_total
                    &&& forall|j: int|
                        0 <= j < rest.len() && (#[trigger] rest[j]).device_type is Gpu ==> {
                            &&& crate::device::free_bytes(rest[j]) <= gpu.free_bytes
                            &&& j > i ==> crate::device::free_bytes(rest[j]) < gpu.free_bytes
                        }
                };
            assert(devices[b] == rest[b]);
        } else {
            assert(forall|j: int| 0 <= j < last ==> !((#[trigger] rest[j]).device_type is Gpu));
        }
    }
}

/// One discrete GPU, alone or among integrated ones and other devices, adds what it has
/// free to what the host has, on any machine without unified memory.
pub proof fn law_one_discrete_gpu_adds_to_the_host(
    host: HostMemory,
    devices: Seq<LlamaBackendDevice>,
    i: int,
)
    requires
        0 <= i < devices.len(),
        devices[i].device_type is Gpu,
        forall|j: int| 0 <= j < devices.len() && j != i ==> !((#[trigger] devices[j]).device_type is Gpu),
    ensures
        ({
            let gpu = dedicated_gpu(gpu_memories_of(devices, false), true);
            let sum = host.available_bytes + crate::device::free_bytes(devices[i]);
            &&& memory_free(host, gpu) == sum || memory_free(host, gpu) == memory_total(host, gpu)
            &&& memory_free(host, gpu) <= sum
            &&& host.total_bytes + devices[i].memory_total <= u64::MAX ==> memory_total(host, gpu)
                == host.total_bytes + devices[i].memory_total
            &&& sum <= host.total_bytes + devices[i].memory_total <= u64::MAX ==> memory_free(
                host,
                gpu,
            ) == sum
        }),
{
    law_the_largest_discrete_gpu_counts(devices);
}

} // verus!
