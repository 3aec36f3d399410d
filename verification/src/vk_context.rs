use vstd::prelude::*;

verus! {

/// The kind of surface a Vulkan context is created for.
pub enum VkContextKind {
    Win,
}

/// The argument that the device protocol expects for each context kind.
pub open spec fn device_arg(kind: VkContextKind) -> u64 {
    match kind {
        VkContextKind::Win => 0,
    }
}

impl VkContextKind {
    /// The argument handed to the Vulkan device when a context of this kind
    /// is created.
    pub fn to_device_arg(&self) -> (arg: u64)
        ensures
            arg == device_arg(*self),
            *self is Win ==> arg == 0,
    {
        match self {
            VkContextKind::Win => 0,
        }
    }
}

} // verus!
