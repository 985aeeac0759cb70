//! Commands that bind state for later draws: index and vertex buffers and
//! descriptor sets. Each command object validates its arguments when it is built.

use vstd::prelude::*;
use crate::transfer::BufferInfo;

verus! {

/// The width of the indices an index buffer holds.
#[derive(Debug, Clone, Copy, PartialEq, Eq, Structural)]
pub enum IndexType {
    U16,
    U32,
}

pub open spec fn index_size(t: IndexType) -> u64 {
    match t {
        IndexType::U16 => 2,
        IndexType::U32 => 4,
    }
}

/// The arguments of an index-buffer bind.
#[derive(Debug, Clone, Copy, PartialEq, Eq, Structural)]
pub struct BindIndexBufferArgs {
    pub buffer: BufferInfo,
    pub offset: u64,
    pub index_type: IndexType,
}

/// A validated bind of an index buffer.
#[derive(Debug, Clone, Copy)]
pub struct CmdBindIndexBuffer {
    args: BindIndexBufferArgs,
}

impl View for CmdBindIndexBuffer {
    type V = BindIndexBufferArgs;

    closed spec fn view(&self) -> BindIndexBufferArgs {
        self.args
    }
}

#[derive(Debug, Clone, Copy, PartialEq, Eq, Structural)]
pub enum CmdBindIndexBufferError {
    /// The offset is not a multiple of the index size.
    WrongAlignment,
    /// The offset is at or past the end of the buffer.
    OutOfRange,
}

pub open spec fn bind_index_buffer_error(a: BindIndexBufferArgs) -> Option<CmdBindIndexBufferError> {
    if a.offset % index_size(a.index_type) != 0 {
        Some(CmdBindIndexBufferError::WrongAlignment)
    } else if a.offset >= a.buffer.size {
        Some(CmdBindIndexBufferError::OutOfRange)
    } else {
        None
    }
}

impl CmdBindIndexBuffer {
    pub fn new(buffer: BufferInfo, offset: u64, index_type: IndexType) -> (r: Result<CmdBindIndexBuffer, CmdBindIndexBufferError>)
        ensures
            match r {
                Ok(c) => bind_index_buffer_error(BindIndexBufferArgs { buffer, offset, index_type }) is None
                    && c@ == (BindIndexBufferArgs { buffer, offset, index_type }),
                Err(e) => bind_index_buffer_error(BindIndexBufferArgs { buffer, offset, index_type }) == Some(e),
            },
    {
        let size: u64 = match index_type {
            IndexType::U16 => 2,
            IndexType::U32 => 4,
        };
        if offset % size != 0 {
            return Err(CmdBindIndexBufferError::WrongAlignment);
        }
        if offset >= buffer.size {
            return Err(CmdBindIndexBufferError::OutOfRange);
        }
        Ok(CmdBindIndexBuffer { args: BindIndexBufferArgs { buffer, offset, index_type } })
    }

    pub fn args(&self) -> (r: BindIndexBufferArgs)
        ensures
            r == self@,
    {
        self.args
    }
}

/// One vertex buffer and the offset its data starts at.
#[derive(Debug, Clone, Copy, PartialEq, Eq, Structural)]
pub struct VertexBinding {
    pub buffer: BufferInfo,
    pub offset: u64,
}

/// A validated bind of vertex buffers to consecutive binding slots.
#[derive(Debug)]
pub struct CmdBindVertexBuffers {
    first_binding: u32,
    bindings: Vec<VertexBinding>,
}

#[derive(Debug, Clone, Copy, PartialEq, Eq, Structural)]
pub enum CmdBindVertexBuffersError {
    /// No buffer to bind.
    NoBuffer,
    /// The slots bound run past the device's number of binding slots.
    TooManyBindings { max_bindings: u32 },
    /// The offset of the buffer at this position is at or past its end.
    OffsetOutOfRange { binding: usize },
}

/// The first position whose offset does not fall inside its buffer, from `start` on.
pub open spec fn first_bad_offset(s: Seq<VertexBinding>, start: int) -> Option<int>
    decreases s.len() - start,
{
    if start < 0 || start >= s.len() {
        None
    } else if s[start].offset >= s[start].buffer.size {
        Some(start)
    } else {
        first_bad_offset(s, start + 1)
    }
}

pub open spec fn bind_vertex_buffers_error(first_binding: u32, s: Seq<VertexBinding>, max_bindings: u32) -> Option<CmdBindVertexBuffersError> {
    if s.len() == 0 {
        Some(CmdBindVertexBuffersError::NoBuffer)
    } else if first_binding + s.len() > max_bindings {
        Some(CmdBindVertexBuffersError::TooManyBindings { max_bindings })
    } else {
        match first_bad_offset(s, 0) {
            Some(i) => Some(CmdBindVertexBuffersError::OffsetOutOfRange { binding: i as usize }),
            None => None,
        }
    }
}

impl CmdBindVertexBuffers {
    /// Validates binding `bindings` to the slots starting at `first_binding`,
    /// of `max_bindings` slots in all.
    pub fn new(first_binding: u32, bindings: Vec<VertexBinding>, max_bindings: u32) -> (r: Result<CmdBindVertexBuffers, CmdBindVertexBuffersError>)
        ensures
            match r {
                Ok(c) => bind_vertex_buffers_error(first_binding, bindings@, max_bindings) is None
                    && c.first_binding_spec() == first_binding && c.bindings_spec() == bindings@,
                Err(e) => bind_vertex_buffers_error(first_binding, bindings@, max_bindings) == Some(e),
            },
    {
        let n = bindings.len();
        if n == 0 {
            return Err(CmdBindVertexBuffersError::NoBuffer);
        }
        if first_binding > max_bindings || n > (max_bindings - first_binding) as usize {
            return Err(CmdBindVertexBuffersError::TooManyBindings { max_bindings });
        }
        let mut i: usize = 0;
        while i < n
            invariant
                n == bindings@.len(),
                n > 0,
                first_binding + n <= max_bindings,
                i <= n,
                first_bad_offset(bindings@, 0) == first_bad_offset(bindings@, i as int),
            decreases n - i,
        {
            if bindings[i].offset >= bindings[i].buffer.size {
                return Err(CmdBindVertexBuffersError::OffsetOutOfRange { binding: i });
            }
            i += 1;
        }
        Ok(CmdBindVertexBuffers { first_binding, bindings })
    }

    pub closed spec fn first_binding_spec(&self) -> u32 {
        self.first_binding
    }

    pub closed spec fn bindings_spec(&self) -> Seq<VertexBinding> {
        self.bindings@
    }

    /// Identities of the buffers bound, in binding order.
    pub open spec fn resources_spec(&self) -> Seq<u64> {
        self.bindings_spec().map_values(|b: VertexBinding| b.buffer.id)
    }

    pub fn resources(&self) -> (r: Vec<u64>)
        ensures
            r@ == self.resources_spec(),
    {
        let mut r: Vec<u64> = Vec::new();
        let mut i: usize = 0;
        while i < self.bindings.len()
            invariant
                i <= self.bindings@.len(),
                r@.len() == i,
                forall|j: int| 0 <= j < i ==> r@[j] == (#[trigger] self.bindings@[j]).buffer.id,
            decreases self.bindings@.len() - i,
        {
            r.push(self.bindings[i].buffer.id);
            i += 1;
        }
        assert(r@ =~= self.resources_spec());
        r
    }

    pub fn first_binding(&self) -> (r: u32)
        ensures
            r == self.first_binding_spec(),
    {
        self.first_binding
    }

    pub fn bindings(&self) -> (r: &Vec<VertexBinding>)
        ensures
            r@ == self.bindings_spec(),
    {
        &self.bindings
    }
}

/// What binding reads of a descriptor set: an identity and the identity of the
/// layout it was allocated against.
#[derive(Debug, Clone, Copy, PartialEq, Eq, Structural)]
pub struct DescriptorSetInfo {
    pub id: u64,
    pub layout: u64,
}

#[derive(Debug, Clone, Copy, PartialEq, Eq, Structural)]
pub enum CmdBindDescriptorSetsError {
    /// No set to bind.
    NoSet,
    /// The pipeline layout has no set slot at this number.
    SetIndexOutOfRange { set: usize },
    /// The set at this slot was allocated against another layout than the
    /// pipeline layout expects there.
    IncompatibleSetLayout { set: usize, expected: u64, obtained: u64 },
}

/// The first set, from position `start` on, whose slot does not exist or expects
/// another layout.
pub open spec fn first_bad_set(layouts: Seq<u64>, first_set: int, sets: Seq<DescriptorSetInfo>, start: int) -> Option<CmdBindDescriptorSetsError>
    decreases sets.len() - start,
{
    if start < 0 || start >= sets.len() {
        None
    } else if first_set + start >= layouts.len() {
        Some(CmdBindDescriptorSetsError::SetIndexOutOfRange { set: (first_set + start) as usize })
    } else if layouts[first_set + start] != sets[start].layout {
        Some(
            CmdBindDescriptorSetsError::IncompatibleSetLayout {
                set: (first_set + start) as usize,
                expected: layouts[first_set + start],
                obtained: sets[start].layout,
            },
        )
    } else {
        first_bad_set(layouts, first_set, sets, start + 1)
    }
}

pub open spec fn bind_descriptor_sets_error(layouts: Seq<u64>, first_set: usize, sets: Seq<DescriptorSetInfo>) -> Option<CmdBindDescriptorSetsError> {
    if sets.len() == 0 {
        Some(CmdBindDescriptorSetsError::NoSet)
    } else {
        first_bad_set(layouts, first_set as int, sets, 0)
    }
}

/// A validated bind of descriptor sets to consecutive set slots of a pipeline layout.
#[derive(Debug)]
pub struct CmdBindDescriptorSets {
    first_set: usize,
    sets: Vec<DescriptorSetInfo>,
}

impl CmdBindDescriptorSets {
    /// Validates binding `sets` at slots `first_set..` of a pipeline layout whose
    /// set slots expect the layouts `pipeline_set_layouts`, in order.
    pub fn new(pipeline_set_layouts: &Vec<u64>, first_set: usize, sets: Vec<DescriptorSetInfo>) -> (r: Result<CmdBindDescriptorSets, CmdBindDescriptorSetsError>)
        ensures
            match r {
                Ok(c) => bind_descriptor_sets_error(pipeline_set_layouts@, first_set, sets@) is None
                    && c.first_set_spec() == first_set && c.sets_spec() == sets@,
                Err(e) => bind_descriptor_sets_error(pipeline_set_layouts@, first_set, sets@) == Some(e),
            },
    {
        let n = sets.len();
        if n == 0 {
            return Err(CmdBindDescriptorSetsError::NoSet);
        }
        let ghost layouts = pipeline_set_layouts@;
        let mut i: usize = 0;
        while i < n
            invariant
                n == sets@.len(),
                layouts == pipeline_set_layouts@,
                n > 0,
                i <= n,
                i > 0 ==> first_set < layouts.len() && i <= layouts.len() - first_set,
                first_bad_set(layouts, first_set as int, sets@, 0) == first_bad_set(layouts, first_set as int, sets@, i as int),
            decreases n - i,
        {
            if first_set >= pipeline_set_layouts.len() || i >= pipeline_set_layouts.len() - first_set {
                return Err(CmdBindDescriptorSetsError::SetIndexOutOfRange { set: first_set + i });
            }
            let expected = pipeline_set_layouts[first_set + i];
            let obtained = sets[i].layout;
            if expected != obtained {
                return Err(CmdBindDescriptorSetsError::IncompatibleSetLayout { set: first_set + i, expected, obtained });
            }
            i += 1;
        }
        Ok(CmdBindDescriptorSets { first_set, sets })
    }

    pub closed spec fn first_set_spec(&self) -> usize {
        self.first_set
    }

    pub closed spec fn sets_spec(&self) -> Seq<DescriptorSetInfo> {
        self.sets@
    }

    /// Identities of the sets bound, in slot order.
    pub open spec fn resources_spec(&self) -> Seq<u64> {
        self.sets_spec().map_values(|s: DescriptorSetInfo| s.id)
    }

    pub fn resources(&self) -> (r: Vec<u64>)
        ensures
            r@ == self.resources_spec(),
    {
        let mut r: Vec<u64> = Vec::new();
        let mut i: usize = 0;
        while i < self.sets.len()
            invariant
                i <= self.sets@.len(),
                r@.len() == i,
                forall|j: int| 0 <= j < i ==> r@[j] == (#[trigger] self.sets@[j]).id,
            decreases self.sets@.len() - i,
        {
            r.push(self.sets[i].id);
            i += 1;
        }
        assert(r@ =~= self.resources_spec());
        r
    }

    pub fn first_set(&self) -> (r: usize)
        ensures
            r == self.first_set_spec(),
    {
        self.first_set
    }

    pub fn sets(&self) -> (r: &Vec<DescriptorSetInfo>)
        ensures
            r@ == self.sets_spec(),
    {
        &self.sets
    }
}

} // verus!
