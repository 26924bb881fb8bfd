//! The GPU side of the wukong compiler and the parts of its driver that decide.
//!
//! - [`ptx_wmma`], [`smem_mode`]: generation of the tensor-core GEMM modules.
//! - [`tma_host`], [`wgmma`]: tensor maps and the configurations of the warpgroup family.
//! - [`gpu_accel`], [`operand_range`]: which kernel a recognized call is sent to.
//! - [`paged_kv`], [`block_manager`], [`serving`]: the paged cache and continuous batching over it.
//! - [`driver`]: the stages of a compilation, native emission, gradients and training.
//! - [`render`]: diagnostics as text.
//! - [`text`]: numbers and templates.
pub mod block_manager;
pub mod driver;
pub mod gpu_accel;
pub mod operand_range;
pub mod paged_kv;
pub mod ptx_wmma;
pub mod render;
pub mod serving;
pub mod smem_mode;
pub mod text;
pub mod tma_host;
pub mod wgmma;
