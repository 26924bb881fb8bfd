//! Tensor-core GEMM kernels as PTX text.
pub mod act;
pub mod addresses;
pub mod bias;
pub mod copies;
pub mod coverage;
pub mod frames;
pub mod gate_readings;
pub mod gated;
pub mod lanes;
pub mod laws;
pub mod loads;
pub mod machine;
pub mod mma;
pub mod mma_gate;
pub mod mma_pipe;
pub mod modules;
pub mod origin;
pub mod parts;
pub mod pipeline;
pub mod places;
pub mod plain;
pub mod readings;
pub mod roofline;
pub mod scan;
pub mod smem;
pub mod smem_db;
pub mod smem_pipe;
pub mod spelling;
pub mod stages;
pub mod tables;
pub mod templates;
pub mod wmma_frames;
pub mod wmma_places;
pub mod wmma_readings;
