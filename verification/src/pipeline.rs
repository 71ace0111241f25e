//! The single-shot host pipeline, modelled stage by stage.
//!
//! The host walks a strictly linear sequence of stages — device acquisition,
//! buffer allocation, pipeline construction, resource binding, command
//! recording, submission, result retrieval — and every failure is fatal:
//! there is no retry and no fallback. The surrounding program performs each
//! stage's outside work and reports its outcome; the decisions (which queue
//! family, which adapter, what to record, what comes next) are made here.

use vstd::prelude::*;

verus! {

/// The error a fallible stage reports. Any of these aborts the run.
#[derive(Clone, Copy, Debug, PartialEq, Eq, Structural)]
pub enum PipelineError {
    /// Device enumeration came back empty.
    NoAdapterFound,
    /// No queue family of the selected adapter advertises compute.
    NoComputeQueueFamily,
    /// Logical-device creation failed at the API level.
    DeviceCreationFailed,
    /// The host-visible buffer could not be allocated.
    BufferAllocationFailed,
    /// The kernel binary lacks the named entry point.
    EntryPointNotFound,
    /// The kernel binary is not well formed.
    MalformedKernelBinary,
    /// The resource-binding set could not be created.
    DescriptorSetCreationFailed,
    /// The timestamp query pool could not be created or reset.
    QueryPoolCreationFailed,
    /// The recorded sequence could not be submitted to the queue.
    SubmissionFailed,
    /// The blocking wait on the completion signal failed.
    WaitFailed,
    /// The timestamp values could not be retrieved.
    QueryResultsUnavailable,
    /// The buffer could not be mapped back for host inspection.
    BufferMapFailed,
}

/// The stages of the pipeline, in the order they run. No stage is reentered.
#[derive(Clone, Copy, Debug, PartialEq, Eq, Structural)]
pub enum Stage {
    DeviceContext,
    BufferAllocator,
    PipelineBuilder,
    DescriptorBinder,
    CommandRecorder,
    Submitter,
    ResultReader,
    Done,
}

/// The stage that follows `s` when `s` succeeds.
pub open spec fn spec_next(s: Stage) -> Stage {
    match s {
        Stage::DeviceContext => Stage::BufferAllocator,
        Stage::BufferAllocator => Stage::PipelineBuilder,
        Stage::PipelineBuilder => Stage::DescriptorBinder,
        Stage::DescriptorBinder => Stage::CommandRecorder,
        Stage::CommandRecorder => Stage::Submitter,
        Stage::Submitter => Stage::ResultReader,
        Stage::ResultReader => Stage::Done,
        Stage::Done => Stage::Done,
    }
}

/// How far along the pipeline a stage is: 0 for the first stage, 7 for Done.
pub open spec fn stage_rank(s: Stage) -> nat {
    match s {
        Stage::DeviceContext => 0,
        Stage::BufferAllocator => 1,
        Stage::PipelineBuilder => 2,
        Stage::DescriptorBinder => 3,
        Stage::CommandRecorder => 4,
        Stage::Submitter => 5,
        Stage::ResultReader => 6,
        Stage::Done => 7,
    }
}

/// Law: the pipeline is strictly linear and single-shot. Every successful
/// step moves exactly one stage forward, so no stage is ever reentered and
/// the walk from the first stage reaches Done after seven steps.
pub proof fn lemma_stages_linear(s: Stage)
    requires
        s != Stage::Done,
    ensures
        stage_rank(spec_next(s)) == stage_rank(s) + 1,
{
}

/// The errors a given stage may report.
pub open spec fn raised_at(s: Stage, e: PipelineError) -> bool {
    match s {
        Stage::DeviceContext => e == PipelineError::NoAdapterFound
            || e == PipelineError::NoComputeQueueFamily
            || e == PipelineError::DeviceCreationFailed,
        Stage::BufferAllocator => e == PipelineError::BufferAllocationFailed,
        Stage::PipelineBuilder => e == PipelineError::EntryPointNotFound
            || e == PipelineError::MalformedKernelBinary,
        Stage::DescriptorBinder => e == PipelineError::DescriptorSetCreationFailed,
        Stage::CommandRecorder => e == PipelineError::QueryPoolCreationFailed,
        Stage::Submitter => e == PipelineError::SubmissionFailed
            || e == PipelineError::WaitFailed,
        Stage::ResultReader => e == PipelineError::QueryResultsUnavailable
            || e == PipelineError::BufferMapFailed,
        Stage::Done => false,
    }
}

/// Whether `e` is an error that stage `s` may report, as executable code.
pub fn error_raised_at(s: Stage, e: PipelineError) -> (r: bool)
    ensures
        r == raised_at(s, e),
{
    match s {
        Stage::DeviceContext => e == PipelineError::NoAdapterFound
            || e == PipelineError::NoComputeQueueFamily
            || e == PipelineError::DeviceCreationFailed,
        Stage::BufferAllocator => e == PipelineError::BufferAllocationFailed,
        Stage::PipelineBuilder => e == PipelineError::EntryPointNotFound
            || e == PipelineError::MalformedKernelBinary,
        Stage::DescriptorBinder => e == PipelineError::DescriptorSetCreationFailed,
        Stage::CommandRecorder => e == PipelineError::QueryPoolCreationFailed,
        Stage::Submitter => e == PipelineError::SubmissionFailed
            || e == PipelineError::WaitFailed,
        Stage::ResultReader => e == PipelineError::QueryResultsUnavailable
            || e == PipelineError::BufferMapFailed,
        Stage::Done => false,
    }
}

/// One step of the driver: given the outcome the surrounding program
/// observed for the current stage, either the next stage or the fatal
/// error. A failure is never retried and never falls back.
pub fn advance(stage: Stage, outcome: Result<(), PipelineError>) -> (r: Result<
    Stage,
    PipelineError,
>)
    requires
        stage != Stage::Done,
        outcome matches Err(e) ==> raised_at(stage, e),
    ensures
        outcome matches Err(e) ==> r == Err::<Stage, PipelineError>(e),
        outcome is Ok ==> r == Ok::<Stage, PipelineError>(spec_next(stage)),
{
    match outcome {
        Err(e) => Err(e),
        Ok(()) => Ok(next_stage(stage)),
    }
}

/// The successor of a stage, as executable code.
pub fn next_stage(stage: Stage) -> (r: Stage)
    ensures
        r == spec_next(stage),
{
    match stage {
        Stage::DeviceContext => Stage::BufferAllocator,
        Stage::BufferAllocator => Stage::PipelineBuilder,
        Stage::PipelineBuilder => Stage::DescriptorBinder,
        Stage::DescriptorBinder => Stage::CommandRecorder,
        Stage::CommandRecorder => Stage::Submitter,
        Stage::Submitter => Stage::ResultReader,
        Stage::ResultReader => Stage::Done,
        Stage::Done => Stage::Done,
    }
}

/// A queue family as the host sees it during device acquisition.
#[derive(Clone, Copy, Debug, PartialEq, Eq, Structural)]
pub struct QueueFamily {
    /// How many queues the family offers.
    pub queue_count: u32,
    /// Whether the family advertises compute capability.
    pub supports_compute: bool,
}

/// Selects the first queue family that advertises compute, the policy the
/// pipeline uses: `None` exactly when no family qualifies.
pub fn select_compute_family(families: &Vec<QueueFamily>) -> (r: Option<usize>)
    ensures
        match r {
            Some(i) => i < families@.len() && families@[i as int].supports_compute
                && forall|j: int| 0 <= j < i as int ==> !families@[j].supports_compute,
            None => forall|j: int| 0 <= j < families@.len() ==> !families@[j].supports_compute,
        },
{
    let mut idx: usize = 0;
    while idx < families.len()
        invariant
            idx <= families@.len(),
            forall|j: int| 0 <= j < idx as int ==> !families@[j].supports_compute,
        decreases families@.len() - idx,
    {
        if families[idx].supports_compute {
            return Some(idx);
        }
        idx += 1;
    }
    None
}

/// Adapter selection: the first enumerated device, with no scoring and no
/// fallback; an empty enumeration is fatal.
pub fn select_adapter(device_count: usize) -> (r: Result<usize, PipelineError>)
    ensures
        device_count == 0 ==> r == Err::<usize, PipelineError>(PipelineError::NoAdapterFound),
        device_count > 0 ==> r == Ok::<usize, PipelineError>(0usize),
{
    if device_count == 0 {
        Err(PipelineError::NoAdapterFound)
    } else {
        Ok(0)
    }
}

/// A single-use completion signal: Pending until the device finishes the
/// submitted sequence, Signaled from then on.
pub struct CompletionSignal {
    signaled: bool,
}

impl CompletionSignal {
    /// Whether the signal has fired.
    pub closed spec fn spec_signaled(self) -> bool {
        self.signaled
    }

    /// A fresh signal is Pending.
    pub fn new() -> (r: Self)
        ensures
            !r.spec_signaled(),
    {
        CompletionSignal { signaled: false }
    }

    /// The device-side transition: the signal fires. It fires exactly once,
    /// so it must still be Pending.
    pub fn signal(&mut self)
        requires
            !old(self).spec_signaled(),
        ensures
            final(self).spec_signaled(),
    {
        self.signaled = true;
    }

    /// What the host's blocking wait observes.
    pub fn is_signaled(&self) -> (r: bool)
        ensures
            r == self.spec_signaled(),
    {
        self.signaled
    }
}

} // verus!
