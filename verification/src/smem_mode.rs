//! How a kernel gets its shared memory: declared in its text, or granted at launch.
use vstd::prelude::*;
use vstd::string::*;

verus! {

/// Bytes of shared memory that a kernel may declare in its text.
pub const STATIC_SMEM_CAP: usize = 49152;

/// The name of the window onto the shared memory that is granted at launch.
pub const DSMEM_SYM: &'static str = "wk_dsmem";

/// The form in which a kernel gets its shared memory.
#[derive(Clone, Copy, Debug, PartialEq, Eq, Structural)]
pub enum SmemMode {
    /// Declared in the kernel's text.
    Static,
    /// So many bytes granted at launch.
    Dynamic(usize),
}

/// The form for a kernel of `bytes` bytes.
pub open spec fn mode_of(bytes: usize) -> SmemMode {
    if bytes <= STATIC_SMEM_CAP {
        SmemMode::Static
    } else {
        SmemMode::Dynamic(bytes)
    }
}

/// The form for a kernel of `bytes` bytes: static as long as the text may declare it.
pub fn smem_mode_for(bytes: usize) -> (r: SmemMode)
    ensures
        r == mode_of(bytes),
{
    if bytes <= STATIC_SMEM_CAP {
        SmemMode::Static
    } else {
        SmemMode::Dynamic(bytes)
    }
}

impl SmemMode {
    /// Whether the memory is granted at launch.
    pub fn is_dynamic(self) -> (r: bool)
        ensures
            r == (self is Dynamic),
    {
        matches!(self, SmemMode::Dynamic(_))
    }

    /// The bytes that a launch has to ask for.
    pub open spec fn launch(self) -> usize {
        match self {
            SmemMode::Static => 0,
            SmemMode::Dynamic(bytes) => bytes,
        }
    }

    /// The bytes that a launch has to ask for: none where the text declares them.
    pub fn launch_bytes(self) -> (r: usize)
        ensures
            r == self.launch(),
    {
        match self {
            SmemMode::Static => 0,
            SmemMode::Dynamic(bytes) => bytes,
        }
    }
}

/// A launch asks for exactly the memory that the text cannot declare.
pub proof fn law_launch_asks_for_what_is_not_declared(bytes: usize)
    ensures
        mode_of(bytes) is Dynamic <==> bytes > STATIC_SMEM_CAP,
        mode_of(bytes).launch() == if bytes > STATIC_SMEM_CAP {
            bytes
        } else {
            0
        },
{
}

} // verus!
