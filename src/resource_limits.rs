//! Ceilings that the operating system enforces on a compiler child process.
use vstd::prelude::*;

verus! {

/// An operating-system resource that a ceiling can be put on.
#[derive(Clone, Copy, Debug, PartialEq, Eq, Structural)]
pub enum LimitedResource {
    /// Seconds of CPU time.
    CpuTime,
    /// Bytes that a file written by the process may reach; it bounds the artifact's size.
    FileSize,
    /// Bytes of address space.
    AddressSpace,
}

/// One ceiling to install in the child before its own code runs.
#[derive(Clone, Copy, Debug, PartialEq, Eq, Structural)]
pub struct LimitSetting {
    pub resource: LimitedResource,
    pub value: u64,
}

/// Three independent optional ceilings; an absent one leaves the environment's default.
#[derive(Clone, Copy, Debug, PartialEq, Eq, Structural)]
pub struct ResourceLimits {
    pub cpu_time: Option<u64>,
    pub file_size: Option<u64>,
    pub memory_size: Option<u64>,
}

/// The entry for one optional ceiling: empty when it is absent.
pub open spec fn setting_of(resource: LimitedResource, value: Option<u64>) -> Seq<LimitSetting> {
    match value {
        Some(v) => seq![LimitSetting { resource, value: v }],
        None => Seq::empty(),
    }
}

impl ResourceLimits {
    /// The ceilings to install, in the order CPU time, file size, memory.
    pub open spec fn spec_settings(self) -> Seq<LimitSetting> {
        setting_of(LimitedResource::CpuTime, self.cpu_time)
            + setting_of(LimitedResource::FileSize, self.file_size)
            + setting_of(LimitedResource::AddressSpace, self.memory_size)
    }

    pub fn new(cpu_time: Option<u64>, file_size: Option<u64>, memory_size: Option<u64>) -> (r: Self)
        ensures
            r.cpu_time == cpu_time,
            r.file_size == file_size,
            r.memory_size == memory_size,
    {
        ResourceLimits { cpu_time, file_size, memory_size }
    }

    /// The ceilings that applying these limits installs; one for each present field.
    pub fn settings(&self) -> (r: Vec<LimitSetting>)
        ensures
            r@ == self.spec_settings(),
    {
        let mut r: Vec<LimitSetting> = Vec::new();
        if let Some(v) = self.cpu_time {
            r.push(LimitSetting { resource: LimitedResource::CpuTime, value: v });
        }
        assert(r@ == setting_of(LimitedResource::CpuTime, self.cpu_time));
        if let Some(v) = self.file_size {
            r.push(LimitSetting { resource: LimitedResource::FileSize, value: v });
        }
        assert(r@ == setting_of(LimitedResource::CpuTime, self.cpu_time)
            + setting_of(LimitedResource::FileSize, self.file_size));
        if let Some(v) = self.memory_size {
            r.push(LimitSetting { resource: LimitedResource::AddressSpace, value: v });
        }
        r
    }
}

} // verus!
