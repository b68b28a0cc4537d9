//! Plans how a language model is spread over the memory of a machine: how much memory it
//! may take, how many of its layers go to the GPU, and how long a context fits.

pub mod available;
pub mod context;
pub mod device;
pub mod estimate;
pub mod gguf;
pub mod loading;
pub mod text;
