//! What is measured (a resource) and who uses it (a consumer).

use vstd::prelude::*;

verus! {

/// A hardware or software resource that a measurement is about.
#[derive(Clone, Copy, Debug, PartialEq, Eq, Structural)]
pub enum Resource {
    /// The whole machine on which the pipeline runs.
    LocalMachine,
    CpuPackage { id: u32 },
    CpuCore { id: u32 },
    Dram { pkg_id: u32 },
}

/// Something that uses a resource.
#[derive(Debug, PartialEq, Eq)]
pub enum ResourceConsumer {
    /// The whole machine on which the pipeline runs.
    LocalMachine,
    Process { pid: u32 },
    ControlGroup { path: String },
}

impl Clone for ResourceConsumer {
    fn clone(&self) -> (r: ResourceConsumer)
        ensures
            r == *self,
    {
        match self {
            ResourceConsumer::LocalMachine => ResourceConsumer::LocalMachine,
            ResourceConsumer::Process { pid } => ResourceConsumer::Process { pid: *pid },
            ResourceConsumer::ControlGroup { path } => ResourceConsumer::ControlGroup {
                path: path.clone(),
            },
        }
    }
}

} // verus!
