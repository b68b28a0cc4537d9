//! What planning reads out of a GGUF file's metadata.
use vstd::prelude::*;

use crate::estimate::{GgufModelInfo, ModelArchitecture};
use crate::text::ends_with;

verus! {

/// A metadata value, as far as planning looks at it.
#[derive(Clone, Copy, Debug, PartialEq, Eq, Structural)]
pub enum GgufValue {
    U32(u32),
    /// A value of any other type.
    Other,
}

/// One key-value pair of a file's metadata. A key that is not text is `None`.
#[derive(Debug)]
pub struct GgufEntry {
    pub key: Option<String>,
    pub value: GgufValue,
}

/// Whether the entry's key ends in `suffix`.
pub open spec fn key_matches(entry: GgufEntry, suffix: Seq<char>) -> bool {
    entry.key matches Some(key) && crate::text::has_suffix(key@, suffix)
}

/// Whether `entries[i]` is the first whose key ends in `suffix`.
pub open spec fn is_first_match(entries: Seq<GgufEntry>, suffix: Seq<char>, i: int) -> bool {
    &&& 0 <= i < entries.len()
    &&& key_matches(entries[i], suffix)
    &&& forall|j: int| 0 <= j < i ==> !key_matches(#[trigger] entries[j], suffix)
}

/// The number under the first key that ends in `suffix`; none where no key does, or where
/// that key holds something other than a 32-bit number.
pub open spec fn metadata_u32(entries: Seq<GgufEntry>, suffix: Seq<char>) -> Option<u32> {
    if exists|i: int| is_first_match(entries, suffix, i) {
        match entries[choose|i: int| is_first_match(entries, suffix, i)].value {
            GgufValue::U32(v) => Some(v),
            GgufValue::Other => None,
        }
    } else {
        None
    }
}

/// The architecture that the metadata carries, when it carries all of it. The KV cache is
/// sized per block, so `n_layers` is here the number of blocks.
pub open spec fn metadata_architecture(entries: Seq<GgufEntry>, block_count: u32) -> Option<
    ModelArchitecture,
> {
    match (
        metadata_u32(entries, ".embedding_length"@),
        metadata_u32(entries, ".attention.head_count"@),
        metadata_u32(entries, ".attention.head_count_kv"@),
    ) {
        (Some(n_embd), Some(n_head), Some(n_head_kv)) => Some(
            ModelArchitecture { n_layers: block_count, n_embd, n_head, n_head_kv },
        ),
        _ => None,
    }
}

/// What planning learns from a file of `file_size` bytes with this metadata: nothing
/// unless the metadata gives the number of blocks, and the layers can be counted.
pub open spec fn model_info(entries: Seq<GgufEntry>, file_size: u64) -> Option<GgufModelInfo> {
    match metadata_u32(entries, ".block_count"@) {
        Some(block_count) => if block_count < u32::MAX {
            Some(
                GgufModelInfo {
                    n_layers: (block_count + 1) as u32,
                    file_size,
                    arch: metadata_architecture(entries, block_count),
                },
            )
        } else {
            None
        },
        None => None,
    }
}

/// The number under the first key that ends in `suffix`.
pub fn find_u32(entries: &[GgufEntry], suffix: &str) -> (found: Option<u32>)
    ensures
        found == metadata_u32(entries@, suffix@),
{
    let mut i: usize = 0;
    while i < entries.len()
        invariant
            i <= entries@.len(),
            forall|j: int| 0 <= j < i ==> !key_matches(#[trigger] entries@[j], suffix@),
        decreases entries.len() - i,
    {
        let matched: bool = match &entries[i].key {
            Some(key) => ends_with(key.as_str(), suffix),
            None => false,
        };
        if matched {
            assert(is_first_match(entries@, suffix@, i as int));
            return match entries[i].value {
                GgufValue::U32(v) => Some(v),
                GgufValue::Other => None,
            };
        }
        i += 1;
    }
    None
}

/// Reads a model's layers and architecture out of its metadata.
///
/// The offloadable layers are one more than the blocks: the extra one is the output and
/// embedding layer. With only the blocks offloaded, layer 0 stays on the CPU and every
/// token takes a round trip between CPU and GPU.
pub fn read_gguf_model_info(entries: &[GgufEntry], file_size: u64) -> (info: Option<GgufModelInfo>)
    ensures
        info == model_info(entries@, file_size),
{
    let block_count: u32 = match find_u32(entries, ".block_count") {
        Some(block_count) => block_count,
        None => {
            return None;
        },
    };
    let arch = match (
        find_u32(entries, ".embedding_length"),
        find_u32(entries, ".attention.head_count"),
        find_u32(entries, ".attention.head_count_kv"),
    ) {
        (Some(n_embd), Some(n_head), Some(n_head_kv)) => Some(
            ModelArchitecture { n_layers: block_count, n_embd, n_head, n_head_kv },
        ),
        _ => None,
    };
    match block_count.checked_add(1) {
        Some(n_layers) => Some(GgufModelInfo { n_layers, file_size, arch }),
        None => None,
    }
}

/// A model has one offloadable layer more than the blocks that its cache is sized by.
pub proof fn law_layers_are_blocks_and_output(entries: Seq<GgufEntry>, file_size: u64)
    ensures
        model_info(entries, file_size) matches Some(info) ==> {
            &&& info.n_layers > 0
            &&& info.file_size == file_size
            &&& info.arch matches Some(arch) ==> info.n_layers == arch.n_layers + 1
        },
{
}

/// A number is read from the first entry whose key is text that ends in the suffix,
/// whatever comes behind it; an entry of another type there, or no such entry, gives none.
pub proof fn law_first_matching_key_decides(entries: Seq<GgufEntry>, suffix: Seq<char>)
    ensures
        forall|i: int|
            {
                &&& 0 <= i < entries.len()
                &&& (#[trigger] entries[i]).key is Some
                &&& crate::text::has_suffix(entries[i].key->0@, suffix)
                &&& forall|j: int|
                    0 <= j < i ==> (#[trigger] entries[j]).key is None || !crate::text::has_suffix(
                        entries[j].key->0@,
                        suffix,
                    )
            } ==> {
                &&& metadata_u32(entries, suffix) is Some <==> entries[i].value is U32
                &&& entries[i].value matches GgufValue::U32(v) ==> metadata_u32(entries, suffix)
                    == Some(v)
            },
        (forall|i: int|
            0 <= i < entries.len() ==> (#[trigger] entries[i]).key is None
                || !crate::text::has_suffix(entries[i].key->0@, suffix)) ==> metadata_u32(
            entries,
            suffix,
        ) is None,
{
    assert forall|i: int|
        {
            &&& 0 <= i < entries.len()
            &&& (#[trigger] entries[i]).key is Some
            &&& crate::text::has_suffix(entries[i].key->0@, suffix)
            &&& forall|j: int|
                0 <= j < i ==> (#[trigger] entries[j]).key is None || !crate::text::has_suffix(
                    entries[j].key->0@,
                    suffix,
                )
        } implies {
        &&& metadata_u32(entries, suffix) is Some <==> entries[i].value is U32
        &&& entries[i].value matches GgufValue::U32(v) ==> metadata_u32(entries, suffix) == Some(v)
    } by {
        assert(is_first_match(entries, suffix, i));
        let k = choose|k: int| is_first_match(entries, suffix, k);
        assert(k == i);
    }
}

/// A model is understood exactly where its block count is found and one more can be
/// counted. Its architecture is known exactly where all three of its numbers are found,
/// and then holds those numbers, whatever they are.
pub proof fn law_model_info_holds_what_is_found(entries: Seq<GgufEntry>, file_size: u64)
    ensures
        ({
            let blocks = metadata_u32(entries, ".block_count"@);
            let embd = metadata_u32(entries, ".embedding_length"@);
            let head = metadata_u32(entries, ".attention.head_count"@);
            let head_kv = metadata_u32(entries, ".attention.head_count_kv"@);
            &&& model_info(entries, file_size) is Some <==> blocks is Some && blocks->0
                < 0xffff_ffff
            &&& model_info(entries, file_size) matches Some(info) ==> {
                &&& info.n_layers == blocks->0 + 1
                &&& info.file_size == file_size
                &&& info.arch is Some <==> embd is Some && head is Some && head_kv is Some
                &&& info.arch matches Some(arch) ==> {
                    &&& arch.n_layers == blocks->0
                    &&& arch.n_embd == embd->0
                    &&& arch.n_head == head->0
                    &&& arch.n_head_kv == head_kv->0
                }
            }
        }),
{
}

} // verus!
