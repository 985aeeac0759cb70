//! Executing secondary command buffers from a primary one.

use vstd::prelude::*;

verus! {

/// What executing reads of a secondary command buffer.
#[derive(Debug, Clone, Copy, PartialEq, Eq, Structural)]
pub struct SecondaryBufferInfo {
    pub id: u64,
    /// The buffer has been finalized.
    pub executable: bool,
    /// The buffer was recorded to run inside a render pass.
    pub render_pass_continue: bool,
}

#[derive(Debug, Clone, Copy, PartialEq, Eq, Structural)]
pub enum CmdExecuteCommandsError {
    /// No buffer to execute.
    NoBuffer,
    /// The buffer at this position has not been finalized.
    NotExecutable { index: usize },
    /// The buffer at this position disagrees with the first one on whether it
    /// runs inside a render pass.
    MixedRenderPassContinue { index: usize },
}

/// The error of the first buffer, from position `start` on, that is not
/// executable or disagrees with `continues`.
pub open spec fn first_bad_secondary(s: Seq<SecondaryBufferInfo>, continues: bool, start: int) -> Option<CmdExecuteCommandsError>
    decreases s.len() - start,
{
    if start < 0 || start >= s.len() {
        None
    } else if !s[start].executable {
        Some(CmdExecuteCommandsError::NotExecutable { index: start as usize })
    } else if s[start].render_pass_continue != continues {
        Some(CmdExecuteCommandsError::MixedRenderPassContinue { index: start as usize })
    } else {
        first_bad_secondary(s, continues, start + 1)
    }
}

pub open spec fn execute_commands_error(s: Seq<SecondaryBufferInfo>) -> Option<CmdExecuteCommandsError> {
    if s.len() == 0 {
        Some(CmdExecuteCommandsError::NoBuffer)
    } else {
        first_bad_secondary(s, s[0].render_pass_continue, 0)
    }
}

/// A validated execution of secondary command buffers that all run inside, or
/// all outside, a render pass.
#[derive(Debug)]
pub struct CmdExecuteCommands {
    buffers: Vec<SecondaryBufferInfo>,
    continues_render_pass: bool,
}

impl CmdExecuteCommands {
    pub fn new(buffers: Vec<SecondaryBufferInfo>) -> (r: Result<CmdExecuteCommands, CmdExecuteCommandsError>)
        ensures
            match r {
                Ok(c) => execute_commands_error(buffers@) is None && c.buffers_spec() == buffers@
                    && c.continues_render_pass_spec() == buffers@[0].render_pass_continue,
                Err(e) => execute_commands_error(buffers@) == Some(e),
            },
    {
        let n = buffers.len();
        if n == 0 {
            return Err(CmdExecuteCommandsError::NoBuffer);
        }
        let continues = buffers[0].render_pass_continue;
        let mut i: usize = 0;
        while i < n
            invariant
                n == buffers@.len(),
                n > 0,
                continues == buffers@[0].render_pass_continue,
                i <= n,
                first_bad_secondary(buffers@, continues, 0) == first_bad_secondary(buffers@, continues, i as int),
            decreases n - i,
        {
            if !buffers[i].executable {
                return Err(CmdExecuteCommandsError::NotExecutable { index: i });
            }
            if buffers[i].render_pass_continue != continues {
                return Err(CmdExecuteCommandsError::MixedRenderPassContinue { index: i });
            }
            i += 1;
        }
        Ok(CmdExecuteCommands { buffers, continues_render_pass: continues })
    }

    pub closed spec fn buffers_spec(&self) -> Seq<SecondaryBufferInfo> {
        self.buffers@
    }

    pub closed spec fn continues_render_pass_spec(&self) -> bool {
        self.continues_render_pass
    }

    /// Identities of the buffers executed, in order.
    pub open spec fn resources_spec(&self) -> Seq<u64> {
        self.buffers_spec().map_values(|b: SecondaryBufferInfo| b.id)
    }

    pub fn buffers(&self) -> (r: &Vec<SecondaryBufferInfo>)
        ensures
            r@ == self.buffers_spec(),
    {
        &self.buffers
    }

    /// Whether the buffers run inside a render pass.
    pub fn continues_render_pass(&self) -> (r: bool)
        ensures
            r == self.continues_render_pass_spec(),
    {
        self.continues_render_pass
    }

    pub fn resources(&self) -> (r: Vec<u64>)
        ensures
            r@ == self.resources_spec(),
    {
        let mut r: Vec<u64> = Vec::new();
        let mut i: usize = 0;
        while i < self.buffers.len()
            invariant
                i <= self.buffers@.len(),
                r@.len() == i,
                forall|j: int| 0 <= j < i ==> r@[j] == (#[trigger] self.buffers@[j]).id,
            decreases self.buffers@.len() - i,
        {
            r.push(self.buffers[i].id);
            i += 1;
        }
        assert(r@ =~= self.resources_spec());
        r
    }
}

} // verus!
