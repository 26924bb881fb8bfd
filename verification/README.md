# wukong_gpu

The GPU side of the wukong compiler and the parts of its driver that decide, in verified Rust.

`src/` is the library. Verus proves the contracts of its functions. Four contracts are believed
instead, each a few lines long and of a function outside the library: `String::push` of std, two
constants of `half::bf16`, and a launch configuration of `cudarc`.

- `ptx_wmma`: PTX text of the tensor-core GEMM kernels, and the modules made of them.
- `smem_mode`: shared memory that is declared in a kernel or granted at launch.
- `tma_host`: tensor maps, the rules on their geometry, and the call that encodes one.
- `wgmma`: the configurations of the warpgroup family and their launches.
- `gpu_accel`, `operand_range`: which kernel a recognized call is sent to, and why.
- `paged_kv`, `block_manager`: the blocks of a paged key/value cache.
- `serving`: a decode step, and continuous batching over it.
- `driver`: the stages of a compilation, native emission, gradients and training.
- `render`: diagnostics as annotated text.
- `text`: numbers and templates with holes.

The proof functions whose names begin with `law_` state what holds of the library as a whole.

`app/` does the work that cannot be proved here: files, processes, the CUDA driver and floating
point. The other stages of the compiler reach it through traits.

Floating-point operands are judged by their bits. A template such as `"KLOOP_#0:"` is filled by
`text::expand`, and `text::fill` is its meaning.
