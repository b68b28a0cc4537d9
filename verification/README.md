# nobodywho: memory planning

Decides how a language model is spread over the memory of a machine: how much memory it may
take, how many of its layers go to the GPU, and whether a context of a given length fits.

- `src/` is the library. Every function in it is verified with Verus.
  - `estimate`: bytes per layer and per KV cache, and the layers that fit a device.
  - `device`: the devices of a machine, what they have free, and the GPU to use.
  - `available`: the memory that a model may use.
  - `gguf`: what planning reads out of a model file's metadata.
  - `loading`: the offload decision and its warnings.
  - `context`: the parameters of a context, and the check that it fits.
  - `text`: decimal numerals, suffixes, and comparison without ASCII case.
- `app/` asks llama.cpp and the file system, and hands plain values to the library.
- `tests/` runs the library on concrete machines and models.
