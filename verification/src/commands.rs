//! The recorded command sequence.
//!
//! The recorder writes, in strict order, an optional query-pool reset, the
//! pipeline bind, an optional start timestamp at the top of the pipe, the
//! resource-set bind, an optional end timestamp at the bottom of the pipe,
//! and the dispatch. The sequence is built once and submitted once.

use vstd::prelude::*;

verus! {

/// The two timestamp slots of the query pool.
pub const QUERY_SLOT_COUNT: u32 = 2;

/// Where in the pipe a timestamp is captured.
#[derive(Clone, Copy, Debug, PartialEq, Eq, Structural)]
pub enum StagePoint {
    /// Before any of the submission's work begins.
    TopOfPipe,
    /// After all prior commands have logically completed.
    BottomOfPipe,
}

/// One recorded operation.
#[derive(Clone, Copy, Debug, PartialEq, Eq, Structural)]
pub enum Command {
    /// Reset `slot_count` query slots starting at `first_slot`; required
    /// before any timestamp write of this submission.
    ResetQueryPool { first_slot: u32, slot_count: u32 },
    /// Bind the compute pipeline.
    BindPipeline,
    /// Write a timestamp into `slot`, captured at `point`.
    WriteTimestamp { slot: u32, point: StagePoint },
    /// Bind the resource set at `set_index`.
    BindResourceSet { set_index: u32 },
    /// Dispatch the given numbers of workgroups along the three axes.
    Dispatch { groups_x: u32, groups_y: u32, groups_z: u32 },
}

/// The exact sequence the recorder writes: with instrumentation, reset then
/// bind then start timestamp then resource bind then end timestamp then
/// dispatch; without, only bind, resource bind and dispatch.
pub open spec fn spec_recorded(instrumented: bool, group_count: u32) -> Seq<Command> {
    if instrumented {
        seq![
            (Command::ResetQueryPool { first_slot: 0, slot_count: QUERY_SLOT_COUNT }),
            Command::BindPipeline,
            (Command::WriteTimestamp { slot: 0, point: StagePoint::TopOfPipe }),
            (Command::BindResourceSet { set_index: 0 }),
            (Command::WriteTimestamp { slot: 1, point: StagePoint::BottomOfPipe }),
            (Command::Dispatch { groups_x: group_count, groups_y: 1, groups_z: 1 }),
        ]
    } else {
        seq![
            Command::BindPipeline,
            (Command::BindResourceSet { set_index: 0 }),
            (Command::Dispatch { groups_x: group_count, groups_y: 1, groups_z: 1 }),
        ]
    }
}

/// Records the one-time-submit command sequence for a dispatch of
/// `group_count` workgroups along the first axis, with or without the
/// timestamp instrumentation.
pub fn record_commands(instrumented: bool, group_count: u32) -> (r: Vec<Command>)
    ensures
        r@ =~= spec_recorded(instrumented, group_count),
{
    let mut r: Vec<Command> = Vec::new();
    if instrumented {
        r.push(Command::ResetQueryPool { first_slot: 0, slot_count: QUERY_SLOT_COUNT });
    }
    r.push(Command::BindPipeline);
    if instrumented {
        r.push(Command::WriteTimestamp { slot: 0, point: StagePoint::TopOfPipe });
    }
    r.push(Command::BindResourceSet { set_index: 0 });
    if instrumented {
        r.push(Command::WriteTimestamp { slot: 1, point: StagePoint::BottomOfPipe });
    }
    r.push(Command::Dispatch { groups_x: group_count, groups_y: 1, groups_z: 1 });
    r
}

/// Law: in the instrumented sequence the query-pool reset precedes every
/// timestamp write, and the dispatch is the last recorded command.
pub proof fn lemma_reset_first_dispatch_last(group_count: u32)
    ensures
        spec_recorded(true, group_count)[0] == (Command::ResetQueryPool {
            first_slot: 0,
            slot_count: QUERY_SLOT_COUNT,
        }),
        forall|i: int|
            (0 <= i < spec_recorded(true, group_count).len()
                && ((#[trigger] spec_recorded(true, group_count)[i]) matches
                Command::WriteTimestamp { .. })) ==> i > 0,
        spec_recorded(true, group_count).last() == (Command::Dispatch {
            groups_x: group_count,
            groups_y: 1,
            groups_z: 1,
        }),
{
}

} // verus!
