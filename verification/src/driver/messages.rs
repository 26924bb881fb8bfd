//! What the compiler tells of stages that fail.
use vstd::prelude::*;
use vstd::string::*;

use crate::driver::grad;
use crate::driver::options;
use crate::text;

verus! {

pub const UNREADABLE: &'static str = "error: could not read `#0`: #1";

pub const TRAIN_FAILED: &'static str = "error: --train: #0";

pub const GRAD_FAILED: &'static str = "error: --emit=grad: #0";

pub const FAILED: &'static str = "error: #0";

pub const ICE: &'static str = "internal compiler error (MIR verify): #0";

pub const NO_GPU_SUPPORT: &'static str =
    "this `wukongc` was built without GPU support; rebuild with `--features gpu` (or, from the workspace, `-p wukongc --features gpu`) to use `--backend=#0`";

pub const NO_DEVICE: &'static str =
    "`--backend=gpu` requires a CUDA device, but none was reachable (the driver dlopens `#0`; check the NVIDIA driver is installed)";

/// The input could not be read.
pub fn unreadable(path: &str, e: &str) -> (r: String)
    ensures
        r@ == text::fill(UNREADABLE@, seq![path@, e@]),
{
    text::expand2(UNREADABLE, path, e)
}

/// Training failed.
pub fn train_failed(e: &str) -> (r: String)
    ensures
        r@ == text::fill(TRAIN_FAILED@, seq![e@]),
{
    text::expand1(TRAIN_FAILED, e)
}

/// Differentiation failed.
pub fn grad_failed(e: &str) -> (r: String)
    ensures
        r@ == text::fill(GRAD_FAILED@, seq![e@]),
{
    text::expand1(GRAD_FAILED, e)
}

/// A run failed.
pub fn run_failed(e: &str) -> (r: String)
    ensures
        r@ == text::fill(FAILED@, seq![e@]),
{
    text::expand1(FAILED, e)
}

/// There is no function to differentiate.
pub fn no_target(name: &str) -> (r: String)
    ensures
        r@ == text::fill(grad::NO_TARGET@, seq![name@]),
{
    text::expand1(grad::NO_TARGET, name)
}

/// The name of a GPU backend.
pub open spec fn gpu_name(backend: options::BackendKind) -> Seq<char> {
    if backend == options::BackendKind::GpuLower {
        "gpu-native"@
    } else {
        "gpu"@
    }
}

/// A GPU backend of a compiler that was built without one: it is refused, rather than run on the
/// processor.
pub fn no_gpu_support(backend: options::BackendKind) -> (r: String)
    ensures
        r@ == text::fill(NO_GPU_SUPPORT@, seq![gpu_name(backend)]),
{
    if backend == options::BackendKind::GpuLower {
        text::expand1(NO_GPU_SUPPORT, "gpu-native")
    } else {
        text::expand1(NO_GPU_SUPPORT, "gpu")
    }
}

/// No device was found by way of the driver's library.
pub fn no_device(library: &str) -> (r: String)
    ensures
        r@ == text::fill(NO_DEVICE@, seq![library@]),
{
    text::expand1(NO_DEVICE, library)
}

/// The lines that tell of what a verifier found, and whether it found anything.
pub fn verify_or_ice(found: &[String]) -> (r: (Vec<String>, bool))
    ensures
        r.0@.len() == found@.len(),
        forall|i: int|
            0 <= i < found@.len() ==> (#[trigger] r.0@[i])@ == text::fill(ICE@, seq![found@[i]@]),
        r.1 == (found@.len() > 0),
{
    let mut lines: Vec<String> = Vec::new();
    for i in 0..found.len()
        invariant
            lines@.len() == i,
            forall|j: int|
                0 <= j < i ==> (#[trigger] lines@[j])@ == text::fill(ICE@, seq![found@[j]@]),
    {
        lines.push(text::expand1(ICE, &found[i]));
    }
    let failed = found.len() > 0;
    (lines, failed)
}

} // verus!
