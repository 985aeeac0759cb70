//! The command-buffer recorder: the state machine that orders command objects,
//! keeps render passes and subpasses well nested, and poisons itself on the
//! first sequencing violation.

use vstd::prelude::*;
use crate::checks::{clear_values_error_spec, clear_values_fit, convert_clear_values, ClearValuesError};
use crate::draw::{CmdClearAttachments, CmdDispatchRaw, CmdDrawIndexedRaw, CmdDrawRaw, CmdPushConstants};
use crate::format::ClearValue;
use crate::render_pass::RenderPassDesc;
use crate::binding::{CmdBindDescriptorSets, CmdBindIndexBuffer, CmdBindVertexBuffers};
use crate::execute::CmdExecuteCommands;
use crate::image_cmds::{CmdCopyImage, CmdResolveImage};
use crate::sync::{CmdPipelineBarrier, CmdSetEvent};
use crate::transfer::{CmdCopyBuffer, CmdFillBuffer, CmdUpdateBuffer};

verus! {

/// A validated start of a render pass: how many subpasses it has and the clear
/// values to use, one per attachment.
#[derive(Debug)]
pub struct CmdBeginRenderPass {
    num_subpasses: usize,
    clear_values: Vec<ClearValue>,
}

impl CmdBeginRenderPass {
    #[verifier::type_invariant]
    spec fn has_a_subpass(self) -> bool {
        self.num_subpasses >= 1
    }

    pub closed spec fn num_subpasses_spec(&self) -> usize {
        self.num_subpasses
    }

    pub closed spec fn clear_values_spec(&self) -> Seq<ClearValue> {
        self.clear_values@
    }

    /// Checks the clear values against the description and records its
    /// number of subpasses.
    pub fn new<D: RenderPassDesc>(desc: &D, clear_values: Vec<ClearValue>) -> (r: Result<CmdBeginRenderPass, ClearValuesError>)
        ensures
            r is Ok <==> clear_values_fit(desc.attachments_view(), clear_values@),
            r matches Ok(c) ==> c.num_subpasses_spec() == desc.subpasses_view().len()
                && c.clear_values_spec() == clear_values@,
            r matches Err(e) ==> clear_values_error_spec(desc.attachments_view(), clear_values@, e),
    {
        proof {
            desc.lemma_description_valid();
        }
        let values = convert_clear_values(desc, clear_values)?;
        Ok(CmdBeginRenderPass { num_subpasses: desc.num_subpasses(), clear_values: values })
    }

    pub fn num_subpasses(&self) -> (r: usize)
        ensures
            r == self.num_subpasses_spec(),
            r >= 1,
    {
        proof {
            use_type_invariant(self);
        }
        self.num_subpasses
    }

    pub fn clear_values(&self) -> (r: &Vec<ClearValue>)
        ensures
            r@ == self.clear_values_spec(),
    {
        &self.clear_values
    }
}

/// A command ready to be appended to a recorder.
#[derive(Debug)]
pub enum Command {
    BeginRenderPass(CmdBeginRenderPass),
    NextSubpass,
    EndRenderPass,
    Draw(CmdDrawRaw),
    DrawIndexed(CmdDrawIndexedRaw),
    ClearAttachments(CmdClearAttachments),
    Dispatch(CmdDispatchRaw),
    CopyBuffer(CmdCopyBuffer),
    FillBuffer(CmdFillBuffer),
    UpdateBuffer(CmdUpdateBuffer),
    PushConstants(CmdPushConstants),
    BindIndexBuffer(CmdBindIndexBuffer),
    BindVertexBuffers(CmdBindVertexBuffers),
    BindDescriptorSets(CmdBindDescriptorSets),
    PipelineBarrier(CmdPipelineBarrier),
    SetEvent(CmdSetEvent),
    CopyImage(CmdCopyImage),
    ResolveImage(CmdResolveImage),
    ExecuteCommands(CmdExecuteCommands),
}

/// Where a command may be recorded relative to a render pass.
#[derive(Debug, Clone, Copy, PartialEq, Eq, Structural)]
pub enum Placement {
    InsideRenderPass,
    OutsideRenderPass,
    Anywhere,
}

pub open spec fn placement_spec(c: Command) -> Placement {
    match c {
        Command::NextSubpass | Command::EndRenderPass | Command::Draw(_) | Command::DrawIndexed(_)
        | Command::ClearAttachments(_) => Placement::InsideRenderPass,
        Command::BeginRenderPass(_) | Command::Dispatch(_) | Command::CopyBuffer(_)
        | Command::FillBuffer(_) | Command::UpdateBuffer(_) | Command::SetEvent(_)
        | Command::CopyImage(_) | Command::ResolveImage(_) => Placement::OutsideRenderPass,
        Command::PushConstants(_) | Command::BindIndexBuffer(_) | Command::BindVertexBuffers(_)
        | Command::BindDescriptorSets(_) | Command::PipelineBarrier(_) => Placement::Anywhere,
        Command::ExecuteCommands(c) => if c.continues_render_pass_spec() {
            Placement::InsideRenderPass
        } else {
            Placement::OutsideRenderPass
        },
    }
}

/// The resources a command keeps alive, by identity.
pub open spec fn resources_spec(c: Command) -> Seq<u64> {
    match c {
        Command::CopyBuffer(cmd) => cmd.resources_spec(),
        Command::FillBuffer(cmd) => cmd.resources_spec(),
        Command::UpdateBuffer(cmd) => cmd.resources_spec(),
        Command::BindIndexBuffer(cmd) => seq![cmd@.buffer.id],
        Command::BindVertexBuffers(cmd) => cmd.resources_spec(),
        Command::BindDescriptorSets(cmd) => cmd.resources_spec(),
        Command::SetEvent(cmd) => cmd.resources_spec(),
        Command::CopyImage(cmd) => cmd.resources_spec(),
        Command::ResolveImage(cmd) => cmd.resources_spec(),
        Command::ExecuteCommands(cmd) => cmd.resources_spec(),
        _ => Seq::empty(),
    }
}

impl Command {
    /// Identities of the resources the command keeps alive.
    pub fn resources(&self) -> (r: Vec<u64>)
        ensures
            r@ == resources_spec(*self),
    {
        match self {
            Command::CopyBuffer(c) => {
                let a = c.args();
                vec![a.source.id, a.destination.id]
            },
            Command::FillBuffer(c) => vec![c.args().buffer.id],
            Command::UpdateBuffer(c) => vec![c.buffer().id],
            Command::BindIndexBuffer(c) => vec![c.args().buffer.id],
            Command::BindVertexBuffers(c) => c.resources(),
            Command::BindDescriptorSets(c) => c.resources(),
            Command::SetEvent(c) => vec![c.args().event],
            Command::CopyImage(c) => {
                let a = c.args();
                vec![a.source.id, a.destination.id]
            },
            Command::ResolveImage(c) => {
                let a = c.args();
                vec![a.source.id, a.destination.id]
            },
            Command::ExecuteCommands(c) => c.resources(),
            _ => {
                let r: Vec<u64> = Vec::new();
                assert(r@ =~= resources_spec(*self));
                r
            },
        }
    }

    pub fn placement(&self) -> (r: Placement)
        ensures
            r == placement_spec(*self),
    {
        match self {
            Command::NextSubpass | Command::EndRenderPass | Command::Draw(_) | Command::DrawIndexed(_)
            | Command::ClearAttachments(_) => Placement::InsideRenderPass,
            Command::BeginRenderPass(_) | Command::Dispatch(_) | Command::CopyBuffer(_)
            | Command::FillBuffer(_) | Command::UpdateBuffer(_) | Command::SetEvent(_)
            | Command::CopyImage(_) | Command::ResolveImage(_) => Placement::OutsideRenderPass,
            Command::PushConstants(_) | Command::BindIndexBuffer(_) | Command::BindVertexBuffers(_)
            | Command::BindDescriptorSets(_) | Command::PipelineBarrier(_) => Placement::Anywhere,
            Command::ExecuteCommands(c) => if c.continues_render_pass() {
                Placement::InsideRenderPass
            } else {
                Placement::OutsideRenderPass
            },
        }
    }
}

/// The state of a recorder.
#[derive(Debug, Clone, Copy, PartialEq, Eq, Structural)]
pub enum RecorderState {
    /// Nothing recorded yet.
    Initial,
    OutsideRenderPass,
    InsideRenderPass { subpass: usize, num_subpasses: usize },
    /// Finalized: ready for submission.
    Executable,
    /// Poisoned by a sequencing violation; nothing more can be recorded.
    Invalid,
}

/// A command issued in a state that does not allow it.
#[derive(Debug, Clone, Copy, PartialEq, Eq, Structural)]
pub enum SequencingError {
    /// An earlier violation poisoned the recorder.
    Poisoned,
    /// The recorder was already finalized.
    AlreadyFinalized,
    /// The command must be recorded inside a render pass.
    NotInsideRenderPass,
    /// The command must be recorded outside any render pass.
    NotOutsideRenderPass,
    /// The current subpass is the last one.
    NoNextSubpass { subpass: usize, num_subpasses: usize },
    /// The render pass ended before its last subpass.
    SubpassesRemaining { subpass: usize, num_subpasses: usize },
    /// Finalizing with no command recorded.
    NothingRecorded,
    /// Finalizing inside a render pass.
    RenderPassNotEnded,
}

/// The state after appending `c` in state `s`, or the violation.
pub open spec fn step(s: RecorderState, c: Command) -> Result<RecorderState, SequencingError> {
    match s {
        RecorderState::Invalid => Err(SequencingError::Poisoned),
        RecorderState::Executable => Err(SequencingError::AlreadyFinalized),
        RecorderState::Initial | RecorderState::OutsideRenderPass => match c {
            Command::BeginRenderPass(b) => Ok(
                RecorderState::InsideRenderPass { subpass: 0, num_subpasses: b.num_subpasses_spec() },
            ),
            _ => if placement_spec(c) == Placement::InsideRenderPass {
                Err(SequencingError::NotInsideRenderPass)
            } else {
                Ok(RecorderState::OutsideRenderPass)
            },
        },
        RecorderState::InsideRenderPass { subpass, num_subpasses } => match c {
            Command::NextSubpass => if subpass + 1 < num_subpasses {
                Ok(RecorderState::InsideRenderPass { subpass: (subpass + 1) as usize, num_subpasses })
            } else {
                Err(SequencingError::NoNextSubpass { subpass, num_subpasses })
            },
            Command::EndRenderPass => if subpass + 1 == num_subpasses {
                Ok(RecorderState::OutsideRenderPass)
            } else {
                Err(SequencingError::SubpassesRemaining { subpass, num_subpasses })
            },
            _ => if placement_spec(c) == Placement::OutsideRenderPass {
                Err(SequencingError::NotOutsideRenderPass)
            } else {
                Ok(s)
            },
        },
    }
}

/// The state after finalizing in state `s`, or the violation.
pub open spec fn finish_step(s: RecorderState) -> Result<RecorderState, SequencingError> {
    match s {
        RecorderState::OutsideRenderPass => Ok(RecorderState::Executable),
        RecorderState::Invalid => Err(SequencingError::Poisoned),
        RecorderState::Executable => Err(SequencingError::AlreadyFinalized),
        RecorderState::Initial => Err(SequencingError::NothingRecorded),
        RecorderState::InsideRenderPass { .. } => Err(SequencingError::RenderPassNotEnded),
    }
}

/// Records commands in order and enforces the render-pass state rules.
#[derive(Debug)]
pub struct CommandBufferRecorder {
    state: RecorderState,
    commands: Vec<Command>,
    retained: Vec<u64>,
}

impl CommandBufferRecorder {
    pub closed spec fn state_view(&self) -> RecorderState {
        self.state
    }

    pub closed spec fn commands_view(&self) -> Seq<Command> {
        self.commands@
    }

    /// Identities of the resources the recorded commands keep alive.
    pub closed spec fn retained_view(&self) -> Seq<u64> {
        self.retained@
    }

    pub fn new() -> (r: CommandBufferRecorder)
        ensures
            r.state_view() == RecorderState::Initial,
            r.commands_view().len() == 0,
            r.retained_view().len() == 0,
    {
        CommandBufferRecorder { state: RecorderState::Initial, commands: Vec::new(), retained: Vec::new() }
    }

    pub fn state(&self) -> (r: RecorderState)
        ensures
            r == self.state_view(),
    {
        self.state
    }

    pub fn num_commands(&self) -> (r: usize)
        ensures
            r == self.commands_view().len(),
    {
        self.commands.len()
    }

    pub fn retained(&self) -> (r: &Vec<u64>)
        ensures
            r@ == self.retained_view(),
    {
        &self.retained
    }

    /// Appends a command if the current state allows it; otherwise poisons the
    /// recorder and reports the violation.
    pub fn append(&mut self, cmd: Command) -> (r: Result<(), SequencingError>)
        ensures
            match step(old(self).state_view(), cmd) {
                Ok(s) => r is Ok && final(self).state_view() == s && final(self).commands_view()
                    == old(self).commands_view().push(cmd) && final(self).retained_view()
                    == old(self).retained_view() + resources_spec(cmd),
                Err(e) => r == Err::<(), SequencingError>(e) && final(self).state_view()
                    == RecorderState::Invalid && final(self).commands_view() == old(self).commands_view()
                    && final(self).retained_view() == old(self).retained_view(),
            },
    {
        let placement = cmd.placement();
        let next = match self.state {
            RecorderState::Invalid => Err(SequencingError::Poisoned),
            RecorderState::Executable => Err(SequencingError::AlreadyFinalized),
            RecorderState::Initial | RecorderState::OutsideRenderPass => match &cmd {
                Command::BeginRenderPass(b) => Ok(
                    RecorderState::InsideRenderPass { subpass: 0, num_subpasses: b.num_subpasses() },
                ),
                _ => if placement == Placement::InsideRenderPass {
                    Err(SequencingError::NotInsideRenderPass)
                } else {
                    Ok(RecorderState::OutsideRenderPass)
                },
            },
            RecorderState::InsideRenderPass { subpass, num_subpasses } => match &cmd {
                Command::NextSubpass => if num_subpasses > 0 && subpass < num_subpasses - 1 {
                    Ok(RecorderState::InsideRenderPass { subpass: subpass + 1, num_subpasses })
                } else {
                    Err(SequencingError::NoNextSubpass { subpass, num_subpasses })
                },
                Command::EndRenderPass => if num_subpasses > 0 && subpass == num_subpasses - 1 {
                    Ok(RecorderState::OutsideRenderPass)
                } else {
                    Err(SequencingError::SubpassesRemaining { subpass, num_subpasses })
                },
                _ => if placement == Placement::OutsideRenderPass {
                    Err(SequencingError::NotOutsideRenderPass)
                } else {
                    Ok(self.state)
                },
            },
        };
        assert(next == step(self.state, cmd));
        match next {
            Ok(s) => {
                let ids = cmd.resources();
                let mut i: usize = 0;
                while i < ids.len()
                    invariant
                        i <= ids@.len(),
                        ids@ == resources_spec(cmd),
                        self.commands@ == old(self).commands@,
                        self.state == old(self).state,
                        self.retained@ == old(self).retained@ + ids@.subrange(0, i as int),
                    decreases ids@.len() - i,
                {
                    self.retained.push(ids[i]);
                    i += 1;
                    assert(self.retained@ =~= old(self).retained@ + ids@.subrange(0, i as int));
                }
                assert(ids@.subrange(0, ids@.len() as int) =~= ids@);
                assert(self.retained@ =~= old(self).retained@ + resources_spec(cmd));
                self.commands.push(cmd);
                self.state = s;
                Ok(())
            },
            Err(e) => {
                self.state = RecorderState::Invalid;
                Err(e)
            },
        }
    }

    /// Finalizes the recording; only allowed outside a render pass after at
    /// least one command. A violation poisons the recorder.
    pub fn finalize(&mut self) -> (r: Result<(), SequencingError>)
        ensures
            match finish_step(old(self).state_view()) {
                Ok(s) => r is Ok && final(self).state_view() == s,
                Err(e) => r == Err::<(), SequencingError>(e) && final(self).state_view() == RecorderState::Invalid,
            },
            final(self).commands_view() == old(self).commands_view(),
            final(self).retained_view() == old(self).retained_view(),
    {
        match self.state {
            RecorderState::OutsideRenderPass => {
                self.state = RecorderState::Executable;
                Ok(())
            },
            RecorderState::Invalid => Err(SequencingError::Poisoned),
            RecorderState::Executable => {
                self.state = RecorderState::Invalid;
                Err(SequencingError::AlreadyFinalized)
            },
            RecorderState::Initial => {
                self.state = RecorderState::Invalid;
                Err(SequencingError::NothingRecorded)
            },
            RecorderState::InsideRenderPass { .. } => {
                self.state = RecorderState::Invalid;
                Err(SequencingError::RenderPassNotEnded)
            },
        }
    }
}

/// A poisoned recorder rejects every command and every attempt to finalize,
/// always with the same error, and stays poisoned.
pub proof fn lemma_poisoned_recorder_rejects_everything(c: Command)
    ensures
        step(RecorderState::Invalid, c) == Err::<RecorderState, SequencingError>(SequencingError::Poisoned),
        finish_step(RecorderState::Invalid) == Err::<RecorderState, SequencingError>(SequencingError::Poisoned),
{
}

/// A command that belongs inside a render pass (a draw, a clear of attachments,
/// a next-subpass or an end-of-pass) is a sequencing violation before any
/// render pass has begun; appending it therefore poisons the recorder.
pub proof fn lemma_inside_commands_rejected_outside(s: RecorderState, c: Command)
    requires
        s == RecorderState::Initial || s == RecorderState::OutsideRenderPass,
        placement_spec(c) == Placement::InsideRenderPass,
    ensures
        step(s, c) == Err::<RecorderState, SequencingError>(SequencingError::NotInsideRenderPass),
{
}

/// Inside a render pass of `num_subpasses` subpasses, moving to the next
/// subpass succeeds exactly when the current one is not the last.
pub proof fn lemma_next_subpass_bounded(subpass: usize, num_subpasses: usize)
    requires
        subpass < num_subpasses,
    ensures
        step(RecorderState::InsideRenderPass { subpass, num_subpasses }, Command::NextSubpass) is Ok
            <==> subpass + 1 < num_subpasses,
        subpass + 1 >= num_subpasses ==> step(
            RecorderState::InsideRenderPass { subpass, num_subpasses },
            Command::NextSubpass,
        ) == Err::<RecorderState, SequencingError>(SequencingError::NoNextSubpass { subpass, num_subpasses }),
{
}

/// Beginning a render pass and ending it at once succeeds exactly when the pass
/// has a single subpass.
pub proof fn lemma_begin_then_end(s: RecorderState, b: CmdBeginRenderPass)
    requires
        s == RecorderState::Initial || s == RecorderState::OutsideRenderPass,
    ensures
        ({
            let n = b.num_subpasses_spec();
            &&& step(s, Command::BeginRenderPass(b)) == Ok::<RecorderState, SequencingError>(
                RecorderState::InsideRenderPass { subpass: 0, num_subpasses: n },
            )
            &&& (step(RecorderState::InsideRenderPass { subpass: 0, num_subpasses: n }, Command::EndRenderPass) is Ok
                <==> n == 1)
        }),
{
}

} // verus!
