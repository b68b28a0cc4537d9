//! The compute devices of a machine and the memory they have free.
use vstd::prelude::*;

use crate::text::eq_ignore_ascii_case;

verus! {

/// Kind of a backend device.
#[derive(Clone, Copy, Debug, PartialEq, Eq, Structural)]
pub enum LlamaBackendDeviceType {
    Cpu,
    Accelerator,
    Gpu,
    IntegratedGpu,
    Unknown,
}

/// A device as the backend reports it.
#[derive(Debug)]
pub struct LlamaBackendDevice {
    /// Name of the backend that drives the device, such as "Vulkan" or "Metal".
    pub backend: String,
    pub memory_total: usize,
    pub memory_free: usize,
    pub device_type: LlamaBackendDeviceType,
}

/// Bytes free on a device; no more than the device has in all, whatever it reports.
pub open spec fn free_bytes(d: LlamaBackendDevice) -> nat {
    if d.memory_free <= d.memory_total {
        d.memory_free as nat
    } else {
        d.memory_total as nat
    }
}

/// Whether a device is a GPU, discrete or integrated.
pub open spec fn is_gpu(d: LlamaBackendDevice) -> bool {
    d.device_type is Gpu || d.device_type is IntegratedGpu
}

/// Whether `b` is at least as good a choice as `a`: a discrete GPU comes before an
/// integrated one, and among equals the one with more free memory.
pub open spec fn no_worse(a: LlamaBackendDevice, b: LlamaBackendDevice) -> bool {
    if a.device_type is Gpu == b.device_type is Gpu {
        free_bytes(a) <= free_bytes(b)
    } else {
        b.device_type is Gpu
    }
}

/// Whether `devices[i]` is the GPU to use: no other GPU is better, and of those that
/// are as good it is the last.
pub open spec fn is_best_gpu(devices: Seq<LlamaBackendDevice>, i: int) -> bool {
    &&& 0 <= i < devices.len()
    &&& is_gpu(devices[i])
    &&& forall|j: int|
        0 <= j < devices.len() && is_gpu(#[trigger] devices[j]) ==> no_worse(
            devices[j],
            devices[i],
        ) && (j > i ==> !no_worse(devices[i], devices[j]))
}

/// The GPU to use, if there is a GPU.
pub open spec fn best_gpu(devices: Seq<LlamaBackendDevice>) -> Option<LlamaBackendDevice> {
    if exists|i: int| is_best_gpu(devices, i) {
        Some(devices[choose|i: int| is_best_gpu(devices, i)])
    } else {
        None
    }
}

/// Whether `devices[i]` is the first CPU.
pub open spec fn is_first_cpu(devices: Seq<LlamaBackendDevice>, i: int) -> bool {
    &&& 0 <= i < devices.len()
    &&& devices[i].device_type is Cpu
    &&& forall|j: int| 0 <= j < i ==> !((#[trigger] devices[j]).device_type is Cpu)
}

/// Bytes free on the first CPU, or none where no CPU is listed.
pub open spec fn cpu_free_bytes(devices: Seq<LlamaBackendDevice>) -> nat {
    if exists|i: int| is_first_cpu(devices, i) {
        free_bytes(devices[choose|i: int| is_first_cpu(devices, i)])
    } else {
        0
    }
}

/// Whether a GPU draws on the memory of the host: an integrated one does, and so does
/// one driven by Metal on a machine with unified memory.
pub open spec fn shares_host_memory(
    device_type: LlamaBackendDeviceType,
    backend: Seq<char>,
    apple_unified_memory: bool,
) -> bool {
    device_type is IntegratedGpu || (apple_unified_memory
        && crate::text::same_ignoring_ascii_case(backend, "metal"@))
}

/// Bytes free on a device, capped by what the device has in all.
pub fn device_free(d: &LlamaBackendDevice) -> (bytes: u64)
    ensures
        bytes == free_bytes(*d),
{
    let memory_free: u64 = d.memory_free as u64;
    let memory_total: u64 = d.memory_total as u64;
    memory_free.min(memory_total)
}

/// Picks the GPU to offload to: a discrete GPU before an integrated one, then the one
/// with the most free memory, then the one listed last.
pub fn select_best_gpu(devices: &[LlamaBackendDevice]) -> (gpu: Option<&LlamaBackendDevice>)
    ensures
        gpu matches Some(d) ==> exists|i: int|
            #[trigger] is_best_gpu(devices@, i) && devices@[i] == *d,
        gpu is None <==> forall|i: int| 0 <= i < devices@.len() ==> !is_gpu(#[trigger] devices@[i]),
        gpu matches Some(d) ==> best_gpu(devices@) == Some(*d),
        gpu is None ==> best_gpu(devices@) is None,
{
    let mut best: Option<usize> = None;
    let mut i: usize = 0;
    while i < devices.len()
        invariant
            i <= devices@.len(),
            best matches Some(b) ==> b < i && is_best_gpu(devices@.take(i as int), b as int),
            best is None ==> forall|j: int| 0 <= j < i ==> !is_gpu(#[trigger] devices@[j]),
        decreases devices.len() - i,
    {
        let d = &devices[i];
        let ghost seen = devices@.take(i as int);
        let ghost seen_next = devices@.take(i + 1);
        assert(forall|j: int| 0 <= j < i ==> #[trigger] seen_next[j] == seen[j]);
        if matches!(d.device_type, LlamaBackendDeviceType::Gpu | LlamaBackendDeviceType::IntegratedGpu) {
            match best {
                Some(b) => {
                    let chosen = &devices[b];
                    let d_discrete: bool = matches!(d.device_type, LlamaBackendDeviceType::Gpu);
                    let chosen_discrete: bool = matches!(chosen.device_type, LlamaBackendDeviceType::Gpu);
                    let replaces: bool = if d_discrete == chosen_discrete {
                        device_free(chosen) <= device_free(d)
                    } else {
                        d_discrete
                    };
                    assert(seen[b as int] == *chosen);
                    if replaces {
                        best = Some(i);
                    }
                },
                None => {
                    best = Some(i);
                },
            }
        }
        i += 1;
    }
    assert(devices@.take(devices@.len() as int) =~= devices@);
    match best {
        Some(b) => {
            proof {
                lemma_best_gpu_unique(devices@, b as int);
            }
            Some(&devices[b])
        },
        None => None,
    }
}

/// Bytes free on the first CPU, or none where no CPU is listed.
pub fn cpu_free(devices: &[LlamaBackendDevice]) -> (bytes: u64)
    ensures
        bytes == cpu_free_bytes(devices@),
{
    let mut i: usize = 0;
    while i < devices.len()
        invariant
            i <= devices@.len(),
            forall|j: int| 0 <= j < i ==> !((#[trigger] devices@[j]).device_type is Cpu),
        decreases devices.len() - i,
    {
        if matches!(devices[i].device_type, LlamaBackendDeviceType::Cpu) {
            assert(is_first_cpu(devices@, i as int));
            return device_free(&devices[i]);
        }
        i += 1;
    }
    0
}

/// Whether a GPU draws on the memory of the host.
pub fn gpu_shares_host_memory(
    device_type: LlamaBackendDeviceType,
    backend: &str,
    apple_unified_memory: bool,
) -> (shares: bool)
    ensures
        shares == shares_host_memory(device_type, backend@, apple_unified_memory),
        device_type is IntegratedGpu ==> shares,
        !apple_unified_memory ==> (shares <==> device_type is IntegratedGpu),
{
    matches!(device_type, LlamaBackendDeviceType::IntegratedGpu) || (apple_unified_memory
        && eq_ignore_ascii_case(backend, "metal"))
}

/// There is at most one best GPU.
pub proof fn lemma_best_gpu_unique(devices: Seq<LlamaBackendDevice>, i: int)
    requires
        is_best_gpu(devices, i),
    ensures
        forall|j: int| #[trigger] is_best_gpu(devices, j) ==> j == i,
        best_gpu(devices) == Some(devices[i]),
{
}

/// There is a best GPU exactly where there is a GPU at all.
pub proof fn law_best_gpu_exists(devices: Seq<LlamaBackendDevice>)
    ensures
        best_gpu(devices) is Some <==> exists|i: int|
            0 <= i < devices.len() && is_gpu(#[trigger] devices[i]),
        best_gpu(devices) matches Some(d) ==> exists|i: int|
            #[trigger] is_best_gpu(devices, i) && devices[i] == d,
    decreases devices.len(),
{
    if devices.len() > 0 {
        let last = devices.len() - 1;
        let rest = devices.drop_last();
        law_best_gpu_exists(rest);
        if exists|i: int| is_best_gpu(rest, i) {
            let b = choose|i: int| is_best_gpu(rest, i);
            assert(forall|j: int| 0 <= j < last ==> #[trigger] devices[j] == rest[j]);
            if is_gpu(devices[last]) && no_worse(devices[b], devices[last]) {
                assert(is_best_gpu(devices, last));
            } else {
                assert(is_best_gpu(devices, b));
            }
        } else if is_gpu(devices[last]) {
            assert(forall|j: int| 0 <= j < last ==> #[trigger] devices[j] == rest[j]);
            assert(is_best_gpu(devices, last));
        }
        if exists|i: int| is_best_gpu(devices, i) {
            let b = choose|i: int| is_best_gpu(devices, i);
            assert(is_gpu(devices[b]));
        }
        assert forall|i: int| 0 <= i < devices.len() && is_gpu(#[trigger] devices[i]) implies exists|
            k: int,
        | is_best_gpu(devices, k) by {
            if i < last {
                assert(rest[i] == devices[i]);
            }
        }
    }
}

/// An integrated GPU is chosen only where there is no discrete one.
pub proof fn law_discrete_gpu_comes_first(devices: Seq<LlamaBackendDevice>, i: int)
    requires
        0 <= i < devices.len(),
        devices[i].device_type is Gpu,
    ensures
        best_gpu(devices) is Some,
        best_gpu(devices)->0.device_type is Gpu,
        free_bytes(devices[i]) <= free_bytes(best_gpu(devices)->0),
{
    law_best_gpu_exists(devices);
}

/// What a device has free is the smaller of its two reports, free and total.
pub proof fn law_free_bytes_is_the_smaller_report(d: LlamaBackendDevice)
    ensures
        free_bytes(d) <= d.memory_free,
        free_bytes(d) <= d.memory_total,
        free_bytes(d) == d.memory_free || free_bytes(d) == d.memory_total,
{
}

/// The GPU to use is one of the devices. It is discrete where any is, none of its kind has
/// more free, and of those of its kind with as much it is the last.
pub proof fn law_best_gpu_beats_every_other(devices: Seq<LlamaBackendDevice>)
    ensures
        best_gpu(devices) is None <==> forall|i: int|
            0 <= i < devices.len() ==> !((#[trigger] devices[i]).device_type is Gpu) && !(
            devices[i].device_type is IntegratedGpu),
        best_gpu(devices) matches Some(best) ==> {
            &&& best.device_type is Gpu || best.device_type is IntegratedGpu
            &&& exists|i: int|
                {
                    &&& 0 <= i < devices.len()
                    &&& #[trigger] devices[i] == best
                    &&& forall|j: int|
                        0 <= j < devices.len() ==> {
                            &&& (#[trigger] devices[j]).device_type is Gpu ==> best.device_type is Gpu
                            &&& devices[j].device_type == best.device_type ==> free_bytes(
                                devices[j],
                            ) <= free_bytes(best)
                            &&& devices[j].device_type == best.device_type && j > i ==> free_bytes(
                                devices[j],
                            ) < free_bytes(best)
                        }
                }
        },
{
    law_best_gpu_exists(devices);
    if best_gpu(devices) is Some {
        let b = choose|i: int| is_best_gpu(devices, i);
        assert(devices[b] == best_gpu(devices)->0);
    }
    if forall|i: int|
        0 <= i < devices.len() ==> !((#[trigger] devices[i]).device_type is Gpu) && !(
        devices[i].device_type is IntegratedGpu) {
        assert(forall|i: int| 0 <= i < devices.len() ==> !is_gpu(#[trigger] devices[i]));
    } else {
        let k = choose|i: int|
            0 <= i < devices.len() && !(!((#[trigger] devices[i]).device_type is Gpu) && !(
            devices[i].device_type is IntegratedGpu));
        assert(is_gpu(devices[k]));
    }
}

/// A device that is no GPU has no say in which GPU is used.
pub proof fn law_other_devices_do_not_sway_the_choice(
    devices: Seq<LlamaBackendDevice>,
    i: int,
    d: LlamaBackendDevice,
)
    requires
        0 <= i < devices.len(),
        !(devices[i].device_type is Gpu) && !(devices[i].device_type is IntegratedGpu),
        !(d.device_type is Gpu) && !(d.device_type is IntegratedGpu),
    ensures
        best_gpu(devices.update(i, d)) == best_gpu(devices),
{
    let changed = devices.update(i, d);
    law_best_gpu_exists(devices);
    law_best_gpu_exists(changed);
    assert(forall|j: int|
        0 <= j < devices.len() && j != i ==> #[trigger] changed[j] == devices[j]);
    if best_gpu(devices) is Some {
        let b = choose|b: int| is_best_gpu(devices, b);
        assert(is_best_gpu(changed, b));
        lemma_best_gpu_unique(devices, b);
        lemma_best_gpu_unique(changed, b);
    } else if best_gpu(changed) is Some {
        let b = choose|b: int| is_best_gpu(changed, b);
        assert(is_gpu(devices[b]));
    }
}

/// There is at most one first CPU.
pub proof fn lemma_first_cpu_unique(devices: Seq<LlamaBackendDevice>, i: int)
    requires
        is_first_cpu(devices, i),
    ensures
        cpu_free_bytes(devices) == free_bytes(devices[i]),
{
    let k = choose|k: int| is_first_cpu(devices, k);
    assert(is_first_cpu(devices, k));
    assert(k == i);
}

/// The CPU that counts is the first listed; without one, nothing counts.
pub proof fn law_first_cpu_counts(devices: Seq<LlamaBackendDevice>)
    ensures
        forall|i: int|
            0 <= i < devices.len() && (#[trigger] devices[i]).device_type is Cpu && (forall|j: int|
                0 <= j < i ==> !((#[trigger] devices[j]).device_type is Cpu)) ==> cpu_free_bytes(
                devices,
            ) == free_bytes(devices[i]),
        (forall|i: int| 0 <= i < devices.len() ==> !((#[trigger] devices[i]).device_type is Cpu))
            ==> cpu_free_bytes(devices) == 0,
{
    assert forall|i: int|
        0 <= i < devices.len() && (#[trigger] devices[i]).device_type is Cpu && (forall|j: int|
            0 <= j < i ==> !((#[trigger] devices[j]).device_type is Cpu)) implies cpu_free_bytes(
        devices,
    ) == free_bytes(devices[i]) by {
        lemma_first_cpu_unique(devices, i);
    }
}

/// An integrated GPU always draws on the host's memory. Any other device does so only on a
/// machine with unified memory, and there exactly where its backend is called "metal", in
/// capitals or not; on other machines it never does, whatever its backend is called.
pub proof fn law_who_shares_host_memory(
    device_type: LlamaBackendDeviceType,
    backend: Seq<char>,
    apple_unified_memory: bool,
)
    ensures
        device_type is IntegratedGpu ==> shares_host_memory(
            device_type,
            backend,
            apple_unified_memory,
        ),
        !(device_type is IntegratedGpu) && !apple_unified_memory ==> !shares_host_memory(
            device_type,
            backend,
            apple_unified_memory,
        ),
        !(device_type is IntegratedGpu) && apple_unified_memory ==> (shares_host_memory(
            device_type,
            backend,
            apple_unified_memory,
        ) <==> {
            &&& backend.len() == 5
            &&& backend[0] == 'm' || backend[0] == 'M'
            &&& backend[1] == 'e' || backend[1] == 'E'
            &&& backend[2] == 't' || backend[2] == 'T'
            &&& backend[3] == 'a' || backend[3] == 'A'
            &&& backend[4] == 'l' || backend[4] == 'L'
        }),
{
    reveal_strlit("metal");
    let metal = "metal"@;
    assert(metal.len() == 5 && metal[0] == 'm' && metal[1] == 'e' && metal[2] == 't' && metal[3]
        == 'a' && metal[4] == 'l');
    crate::text::law_ascii_case_is_all_that_is_ignored(backend, metal);
    if backend.len() == 5 {
        let _ = (backend[0], backend[1], backend[2], backend[3], backend[4]);
    }
}

} // verus!
