//! Properties that relate the ceilings a compilation installs to the
//! diagnosis of a run that they stop.
use vstd::prelude::*;

use crate::compiler::CommandLineCompiler;
use crate::diagnosis::{spec_classify, FailureKind, SignalSemantics, SIGKILL, SIGXFSZ};
use crate::resource_limits::{LimitSetting, LimitedResource};

verus! {

/// The native compiler runs under the configured CPU-time, output-size and
/// memory ceilings, and the CASM compiler under its output-size ceiling alone.
/// A run that the output-size ceiling stops (SIGXFSZ) is diagnosed as
/// exceeding the output size, and one that the CPU-time ceiling stops
/// (SIGKILL) as a resource-exhaustion kill.
pub proof fn lemma_ceiling_kills_are_diagnosed(c: CommandLineCompiler)
    ensures
        c.spec_native_limits().spec_settings() == seq![
            LimitSetting { resource: LimitedResource::CpuTime, value: c.config.max_cpu_time },
            LimitSetting {
                resource: LimitedResource::FileSize,
                value: c.config.max_native_bytecode_size,
            },
            LimitSetting {
                resource: LimitedResource::AddressSpace,
                value: c.config.max_memory_usage,
            },
        ],
        c.spec_casm_limits().spec_settings() == seq![
            LimitSetting {
                resource: LimitedResource::FileSize,
                value: c.config.max_casm_bytecode_size,
            },
        ],
        spec_classify(SignalSemantics::Posix, Some(SIGXFSZ))
            == FailureKind::OutputSizeLimitExceeded,
        spec_classify(SignalSemantics::Posix, Some(SIGKILL))
            == FailureKind::ResourceExhaustionKill,
{
    assert(c.spec_native_limits().spec_settings() =~= seq![
        LimitSetting { resource: LimitedResource::CpuTime, value: c.config.max_cpu_time },
        LimitSetting {
            resource: LimitedResource::FileSize,
            value: c.config.max_native_bytecode_size,
        },
        LimitSetting { resource: LimitedResource::AddressSpace, value: c.config.max_memory_usage },
    ]);
    assert(c.spec_casm_limits().spec_settings() =~= seq![
        LimitSetting {
            resource: LimitedResource::FileSize,
            value: c.config.max_casm_bytecode_size,
        },
    ]);
}

} // verus!
