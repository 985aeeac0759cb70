//! Synchronisation commands: pipeline barriers and events. Each command object
//! validates its arguments when it is built.

use vstd::prelude::*;

verus! {

/// Every pipeline-stage bit this library knows of.
pub const ALL_STAGE_BITS: u32 = 0x1_ffff;

/// The arguments of a pipeline barrier.
#[derive(Debug, Clone, Copy, PartialEq, Eq, Structural)]
pub struct BarrierArgs {
    pub source_stages: u32,
    pub destination_stages: u32,
    pub by_region: bool,
}

/// A validated pipeline barrier.
#[derive(Debug, Clone, Copy)]
pub struct CmdPipelineBarrier {
    args: BarrierArgs,
}

impl View for CmdPipelineBarrier {
    type V = BarrierArgs;

    closed spec fn view(&self) -> BarrierArgs {
        self.args
    }
}

#[derive(Debug, Clone, Copy, PartialEq, Eq, Structural)]
pub enum SyncError {
    /// No source stage to wait on.
    NoSourceStage,
    /// No destination stage to hold back.
    NoDestinationStage,
    /// A stage mask holds a bit that names no pipeline stage.
    UnknownStageBits { mask: u32 },
}

/// The mask names at least one stage and no unknown one.
pub open spec fn stage_mask_error(mask: u32, empty: SyncError) -> Option<SyncError> {
    if mask == 0 {
        Some(empty)
    } else if mask & !ALL_STAGE_BITS != 0 {
        Some(SyncError::UnknownStageBits { mask })
    } else {
        None
    }
}

pub open spec fn barrier_error(a: BarrierArgs) -> Option<SyncError> {
    match stage_mask_error(a.source_stages, SyncError::NoSourceStage) {
        Some(e) => Some(e),
        None => stage_mask_error(a.destination_stages, SyncError::NoDestinationStage),
    }
}

fn check_stage_mask(mask: u32, empty: SyncError) -> (r: Option<SyncError>)
    ensures
        r == stage_mask_error(mask, empty),
{
    if mask == 0 {
        Some(empty)
    } else if mask & !ALL_STAGE_BITS != 0 {
        Some(SyncError::UnknownStageBits { mask })
    } else {
        None
    }
}

impl CmdPipelineBarrier {
    pub fn new(source_stages: u32, destination_stages: u32, by_region: bool) -> (r: Result<CmdPipelineBarrier, SyncError>)
        ensures
            match r {
                Ok(c) => barrier_error(BarrierArgs { source_stages, destination_stages, by_region }) is None
                    && c@ == (BarrierArgs { source_stages, destination_stages, by_region }),
                Err(e) => barrier_error(BarrierArgs { source_stages, destination_stages, by_region }) == Some(e),
            },
    {
        match check_stage_mask(source_stages, SyncError::NoSourceStage) {
            Some(e) => {
                return Err(e);
            },
            None => {},
        }
        match check_stage_mask(destination_stages, SyncError::NoDestinationStage) {
            Some(e) => {
                return Err(e);
            },
            None => {},
        }
        Ok(CmdPipelineBarrier { args: BarrierArgs { source_stages, destination_stages, by_region } })
    }

    pub fn args(&self) -> (r: BarrierArgs)
        ensures
            r == self@,
    {
        self.args
    }
}

/// The arguments of setting or resetting an event.
#[derive(Debug, Clone, Copy, PartialEq, Eq, Structural)]
pub struct EventArgs {
    pub event: u64,
    pub stages: u32,
    /// True to set the event, false to reset it.
    pub set: bool,
}

/// A validated set or reset of an event.
#[derive(Debug, Clone, Copy)]
pub struct CmdSetEvent {
    args: EventArgs,
}

impl View for CmdSetEvent {
    type V = EventArgs;

    closed spec fn view(&self) -> EventArgs {
        self.args
    }
}

impl CmdSetEvent {
    /// Validates setting (`set`) or resetting an event once `stages` have run.
    pub fn new(event: u64, stages: u32, set: bool) -> (r: Result<CmdSetEvent, SyncError>)
        ensures
            match r {
                Ok(c) => stage_mask_error(stages, SyncError::NoSourceStage) is None
                    && c@ == (EventArgs { event, stages, set }),
                Err(e) => stage_mask_error(stages, SyncError::NoSourceStage) == Some(e),
            },
    {
        match check_stage_mask(stages, SyncError::NoSourceStage) {
            Some(e) => Err(e),
            None => Ok(CmdSetEvent { args: EventArgs { event, stages, set } }),
        }
    }

    pub fn args(&self) -> (r: EventArgs)
        ensures
            r == self@,
    {
        self.args
    }

    pub open spec fn resources_spec(&self) -> Seq<u64> {
        seq![self@.event]
    }
}

} // verus!
