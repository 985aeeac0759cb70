//! Transfer commands: copying, filling and updating buffers. Each command
//! object validates its arguments when it is built.

use vstd::prelude::*;

verus! {

/// Most bytes a single buffer update may carry.
pub const MAX_UPDATE_BYTES: usize = 65536;

/// What a command reads of a buffer: an identity and a size in bytes.
#[derive(Debug, Clone, Copy, PartialEq, Eq, Structural)]
pub struct BufferInfo {
    pub id: u64,
    pub size: u64,
}

/// The arguments of a buffer-to-buffer copy.
#[derive(Debug, Clone, Copy, PartialEq, Eq, Structural)]
pub struct CopyBufferArgs {
    pub source: BufferInfo,
    pub source_offset: u64,
    pub destination: BufferInfo,
    pub destination_offset: u64,
    pub size: u64,
}

/// A validated copy between two buffers.
#[derive(Debug, Clone, Copy)]
pub struct CmdCopyBuffer {
    args: CopyBufferArgs,
}

impl View for CmdCopyBuffer {
    type V = CopyBufferArgs;

    closed spec fn view(&self) -> CopyBufferArgs {
        self.args
    }
}

#[derive(Debug, Clone, Copy, PartialEq, Eq, Structural)]
pub enum CmdCopyBufferError {
    /// Nothing to copy.
    ZeroSize,
    /// The range read runs past the end of the source buffer.
    SourceOutOfRange,
    /// The range written runs past the end of the destination buffer.
    DestinationOutOfRange,
    /// Source and destination are one buffer and the two ranges overlap.
    OverlappingRanges,
}

pub open spec fn copy_buffer_error(
    source: BufferInfo,
    source_offset: u64,
    destination: BufferInfo,
    destination_offset: u64,
    size: u64,
) -> Option<CmdCopyBufferError> {
    if size == 0 {
        Some(CmdCopyBufferError::ZeroSize)
    } else if source_offset + size > source.size {
        Some(CmdCopyBufferError::SourceOutOfRange)
    } else if destination_offset + size > destination.size {
        Some(CmdCopyBufferError::DestinationOutOfRange)
    } else if source.id == destination.id && source_offset < destination_offset + size
        && destination_offset < source_offset + size {
        Some(CmdCopyBufferError::OverlappingRanges)
    } else {
        None
    }
}

/// The bytes `[offset, offset + size)` lie within a buffer of `buffer_size` bytes.
fn range_fits(offset: u64, size: u64, buffer_size: u64) -> (r: bool)
    ensures
        r == (offset + size <= buffer_size),
{
    size <= buffer_size && offset <= buffer_size - size
}

impl CmdCopyBuffer {
    /// Validates a copy of `size` bytes between two buffers.
    pub fn new(
        source: BufferInfo,
        source_offset: u64,
        destination: BufferInfo,
        destination_offset: u64,
        size: u64,
    ) -> (r: Result<CmdCopyBuffer, CmdCopyBufferError>)
        ensures
            match r {
                Ok(c) => copy_buffer_error(source, source_offset, destination, destination_offset, size) is None
                    && c@ == (CopyBufferArgs { source, source_offset, destination, destination_offset, size }),
                Err(e) => copy_buffer_error(source, source_offset, destination, destination_offset, size) == Some(e),
            },
    {
        if size == 0 {
            return Err(CmdCopyBufferError::ZeroSize);
        }
        if !range_fits(source_offset, size, source.size) {
            return Err(CmdCopyBufferError::SourceOutOfRange);
        }
        if !range_fits(destination_offset, size, destination.size) {
            return Err(CmdCopyBufferError::DestinationOutOfRange);
        }
        if source.id == destination.id && source_offset < destination_offset + size
            && destination_offset < source_offset + size {
            return Err(CmdCopyBufferError::OverlappingRanges);
        }
        Ok(CmdCopyBuffer { args: CopyBufferArgs { source, source_offset, destination, destination_offset, size } })
    }

    pub fn args(&self) -> (r: CopyBufferArgs)
        ensures
            r == self@,
    {
        self.args
    }

    pub open spec fn resources_spec(&self) -> Seq<u64> {
        seq![self@.source.id, self@.destination.id]
    }
}

/// The arguments of a buffer fill.
#[derive(Debug, Clone, Copy, PartialEq, Eq, Structural)]
pub struct FillBufferArgs {
    pub buffer: BufferInfo,
    pub offset: u64,
    pub size: u64,
    pub data: u32,
}

/// A validated fill of a buffer range with a repeated word.
#[derive(Debug, Clone, Copy)]
pub struct CmdFillBuffer {
    args: FillBufferArgs,
}

impl View for CmdFillBuffer {
    type V = FillBufferArgs;

    closed spec fn view(&self) -> FillBufferArgs {
        self.args
    }
}

#[derive(Debug, Clone, Copy, PartialEq, Eq, Structural)]
pub enum CmdFillBufferError {
    /// Nothing to fill.
    ZeroSize,
    /// The offset or the size is not a multiple of four.
    WrongAlignment,
    /// The range filled runs past the end of the buffer.
    OutOfRange,
}

pub open spec fn fill_buffer_error(buffer: BufferInfo, offset: u64, size: u64) -> Option<CmdFillBufferError> {
    if size == 0 {
        Some(CmdFillBufferError::ZeroSize)
    } else if offset % 4 != 0 || size % 4 != 0 {
        Some(CmdFillBufferError::WrongAlignment)
    } else if offset + size > buffer.size {
        Some(CmdFillBufferError::OutOfRange)
    } else {
        None
    }
}

impl CmdFillBuffer {
    /// Validates filling `size` bytes of a buffer with a repeated four-byte word.
    pub fn new(buffer: BufferInfo, offset: u64, size: u64, data: u32) -> (r: Result<CmdFillBuffer, CmdFillBufferError>)
        ensures
            match r {
                Ok(c) => fill_buffer_error(buffer, offset, size) is None
                    && c@ == (FillBufferArgs { buffer, offset, size, data }),
                Err(e) => fill_buffer_error(buffer, offset, size) == Some(e),
            },
    {
        if size == 0 {
            return Err(CmdFillBufferError::ZeroSize);
        }
        if offset % 4 != 0 || size % 4 != 0 {
            return Err(CmdFillBufferError::WrongAlignment);
        }
        if !range_fits(offset, size, buffer.size) {
            return Err(CmdFillBufferError::OutOfRange);
        }
        Ok(CmdFillBuffer { args: FillBufferArgs { buffer, offset, size, data } })
    }

    pub fn args(&self) -> (r: FillBufferArgs)
        ensures
            r == self@,
    {
        self.args
    }

    pub open spec fn resources_spec(&self) -> Seq<u64> {
        seq![self@.buffer.id]
    }
}

#[derive(Debug)]
pub struct CmdUpdateBuffer {
    buffer: BufferInfo,
    offset: u64,
    data: Vec<u8>,
}

#[derive(Debug, Clone, Copy, PartialEq, Eq, Structural)]
pub enum CmdUpdateBufferError {
    /// No byte to write.
    EmptyData,
    /// More than `MAX_UPDATE_BYTES` bytes.
    DataTooLarge,
    /// The offset or the length of the data is not a multiple of four.
    WrongAlignment,
    /// The range written runs past the end of the buffer.
    OutOfRange,
}

pub open spec fn update_buffer_error(buffer: BufferInfo, offset: u64, len: nat) -> Option<CmdUpdateBufferError> {
    if len == 0 {
        Some(CmdUpdateBufferError::EmptyData)
    } else if len > MAX_UPDATE_BYTES {
        Some(CmdUpdateBufferError::DataTooLarge)
    } else if offset % 4 != 0 || len % 4 != 0 {
        Some(CmdUpdateBufferError::WrongAlignment)
    } else if offset + len > buffer.size {
        Some(CmdUpdateBufferError::OutOfRange)
    } else {
        None
    }
}

impl CmdUpdateBuffer {
    /// Validates writing `data` into a buffer at `offset`.
    pub fn new(buffer: BufferInfo, offset: u64, data: Vec<u8>) -> (r: Result<CmdUpdateBuffer, CmdUpdateBufferError>)
        ensures
            match r {
                Ok(c) => update_buffer_error(buffer, offset, data@.len()) is None && c.buffer_spec() == buffer
                    && c.offset_spec() == offset && c.data_spec() == data@,
                Err(e) => update_buffer_error(buffer, offset, data@.len()) == Some(e),
            },
    {
        let len = data.len();
        if len == 0 {
            return Err(CmdUpdateBufferError::EmptyData);
        }
        if len > MAX_UPDATE_BYTES {
            return Err(CmdUpdateBufferError::DataTooLarge);
        }
        if offset % 4 != 0 || len % 4 != 0 {
            return Err(CmdUpdateBufferError::WrongAlignment);
        }
        if !range_fits(offset, len as u64, buffer.size) {
            return Err(CmdUpdateBufferError::OutOfRange);
        }
        Ok(CmdUpdateBuffer { buffer, offset, data })
    }

    pub closed spec fn buffer_spec(&self) -> BufferInfo {
        self.buffer
    }

    pub closed spec fn offset_spec(&self) -> u64 {
        self.offset
    }

    pub closed spec fn data_spec(&self) -> Seq<u8> {
        self.data@
    }

    pub open spec fn resources_spec(&self) -> Seq<u64> {
        seq![self.buffer_spec().id]
    }

    pub fn buffer(&self) -> (r: BufferInfo)
        ensures
            r == self.buffer_spec(),
    {
        self.buffer
    }

    pub fn offset(&self) -> (r: u64)
        ensures
            r == self.offset_spec(),
    {
        self.offset
    }

    pub fn data(&self) -> (r: &Vec<u8>)
        ensures
            r@ == self.data_spec(),
    {
        &self.data
    }
}

/// Validating a transfer command depends on its arguments alone: identical
/// arguments give the same outcome and the same error detail.
pub proof fn lemma_transfer_validation_is_pure(
    copy_a: CopyBufferArgs,
    copy_b: CopyBufferArgs,
    fill_a: FillBufferArgs,
    fill_b: FillBufferArgs,
)
    requires
        copy_a == copy_b,
        fill_a == fill_b,
    ensures
        copy_buffer_error(copy_a.source, copy_a.source_offset, copy_a.destination, copy_a.destination_offset, copy_a.size)
            == copy_buffer_error(copy_b.source, copy_b.source_offset, copy_b.destination, copy_b.destination_offset, copy_b.size),
        fill_buffer_error(fill_a.buffer, fill_a.offset, fill_a.size) == fill_buffer_error(fill_b.buffer, fill_b.offset, fill_b.size),
{
}

} // verus!
