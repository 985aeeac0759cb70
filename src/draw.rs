//! Draw, dispatch, push-constant and clear-attachment commands. Each command
//! object validates its arguments when it is built.

use vstd::prelude::*;
use crate::format::ClearValue;
use crate::render_pass::{depth_stencil_spec, num_color_attachments_spec, RenderPassDesc};

verus! {

/// The arguments of a non-indexed draw.
#[derive(Debug, Clone, Copy, PartialEq, Eq, Structural)]
pub struct DrawArgs {
    pub vertex_count: u32,
    pub instance_count: u32,
    pub first_vertex: u32,
    pub first_instance: u32,
}

/// A validated non-indexed draw.
#[derive(Debug, Clone, Copy)]
pub struct CmdDrawRaw {
    args: DrawArgs,
}

impl View for CmdDrawRaw {
    type V = DrawArgs;

    closed spec fn view(&self) -> DrawArgs {
        self.args
    }
}

#[derive(Debug, Clone, Copy, PartialEq, Eq, Structural)]
pub enum CmdDrawError {
    /// The last vertex index is not representable in 32 bits.
    VertexRangeOverflow,
    /// The last instance index is not representable in 32 bits.
    InstanceRangeOverflow,
    /// The indices read run past the end of the index buffer.
    IndexOutOfRange,
}

pub open spec fn draw_error(a: DrawArgs) -> Option<CmdDrawError> {
    if a.first_vertex + a.vertex_count > u32::MAX {
        Some(CmdDrawError::VertexRangeOverflow)
    } else if a.first_instance + a.instance_count > u32::MAX {
        Some(CmdDrawError::InstanceRangeOverflow)
    } else {
        None
    }
}

/// `first + count` fits in a `u32`.
fn sum_fits(first: u32, count: u32) -> (r: bool)
    ensures
        r == (first + count <= u32::MAX),
{
    first <= u32::MAX - count
}

impl CmdDrawRaw {
    pub fn new(vertex_count: u32, instance_count: u32, first_vertex: u32, first_instance: u32) -> (r: Result<CmdDrawRaw, CmdDrawError>)
        ensures
            match r {
                Ok(c) => draw_error(DrawArgs { vertex_count, instance_count, first_vertex, first_instance }) is None
                    && c@ == (DrawArgs { vertex_count, instance_count, first_vertex, first_instance }),
                Err(e) => draw_error(DrawArgs { vertex_count, instance_count, first_vertex, first_instance }) == Some(e),
            },
    {
        if !sum_fits(first_vertex, vertex_count) {
            return Err(CmdDrawError::VertexRangeOverflow);
        }
        if !sum_fits(first_instance, instance_count) {
            return Err(CmdDrawError::InstanceRangeOverflow);
        }
        Ok(CmdDrawRaw { args: DrawArgs { vertex_count, instance_count, first_vertex, first_instance } })
    }

    pub fn args(&self) -> (r: DrawArgs)
        ensures
            r == self@,
    {
        self.args
    }
}

/// The arguments of an indexed draw, with the number of indices the bound index
/// buffer holds.
#[derive(Debug, Clone, Copy, PartialEq, Eq, Structural)]
pub struct DrawIndexedArgs {
    pub index_count: u32,
    pub instance_count: u32,
    pub first_index: u32,
    pub vertex_offset: i32,
    pub first_instance: u32,
    pub index_buffer_len: u64,
}

/// A validated indexed draw.
#[derive(Debug, Clone, Copy)]
pub struct CmdDrawIndexedRaw {
    args: DrawIndexedArgs,
}

impl View for CmdDrawIndexedRaw {
    type V = DrawIndexedArgs;

    closed spec fn view(&self) -> DrawIndexedArgs {
        self.args
    }
}

pub open spec fn draw_indexed_error(a: DrawIndexedArgs) -> Option<CmdDrawError> {
    if a.first_index + a.index_count > a.index_buffer_len {
        Some(CmdDrawError::IndexOutOfRange)
    } else if a.first_instance + a.instance_count > u32::MAX {
        Some(CmdDrawError::InstanceRangeOverflow)
    } else {
        None
    }
}

impl CmdDrawIndexedRaw {
    pub fn new(args: DrawIndexedArgs) -> (r: Result<CmdDrawIndexedRaw, CmdDrawError>)
        ensures
            match r {
                Ok(c) => draw_indexed_error(args) is None && c@ == args,
                Err(e) => draw_indexed_error(args) == Some(e),
            },
    {
        if args.first_index as u64 + args.index_count as u64 > args.index_buffer_len {
            return Err(CmdDrawError::IndexOutOfRange);
        }
        if !sum_fits(args.first_instance, args.instance_count) {
            return Err(CmdDrawError::InstanceRangeOverflow);
        }
        Ok(CmdDrawIndexedRaw { args })
    }

    pub fn args(&self) -> (r: DrawIndexedArgs)
        ensures
            r == self@,
    {
        self.args
    }
}

/// Work-group counts along the three axes.
#[derive(Debug, Clone, Copy, PartialEq, Eq, Structural)]
pub struct Dimensions {
    pub x: u32,
    pub y: u32,
    pub z: u32,
}

/// A validated compute dispatch.
#[derive(Debug, Clone, Copy)]
pub struct CmdDispatchRaw {
    dimensions: Dimensions,
}

impl View for CmdDispatchRaw {
    type V = Dimensions;

    closed spec fn view(&self) -> Dimensions {
        self.dimensions
    }
}

#[derive(Debug, Clone, Copy, PartialEq, Eq, Structural)]
pub enum CmdDispatchRawError {
    /// The count along `axis` (0 for x, 1 for y, 2 for z) exceeds the device's maximum.
    DimensionTooLarge { axis: u8, requested: u32, max: u32 },
}

pub open spec fn dispatch_error(d: Dimensions, max: Dimensions) -> Option<CmdDispatchRawError> {
    if d.x > max.x {
        Some(CmdDispatchRawError::DimensionTooLarge { axis: 0, requested: d.x, max: max.x })
    } else if d.y > max.y {
        Some(CmdDispatchRawError::DimensionTooLarge { axis: 1, requested: d.y, max: max.y })
    } else if d.z > max.z {
        Some(CmdDispatchRawError::DimensionTooLarge { axis: 2, requested: d.z, max: max.z })
    } else {
        None
    }
}

impl CmdDispatchRaw {
    /// Validates a dispatch against the device's maximum work-group counts.
    pub fn new(dimensions: Dimensions, max: Dimensions) -> (r: Result<CmdDispatchRaw, CmdDispatchRawError>)
        ensures
            match r {
                Ok(c) => dispatch_error(dimensions, max) is None && c@ == dimensions,
                Err(e) => dispatch_error(dimensions, max) == Some(e),
            },
    {
        if dimensions.x > max.x {
            return Err(CmdDispatchRawError::DimensionTooLarge { axis: 0, requested: dimensions.x, max: max.x });
        }
        if dimensions.y > max.y {
            return Err(CmdDispatchRawError::DimensionTooLarge { axis: 1, requested: dimensions.y, max: max.y });
        }
        if dimensions.z > max.z {
            return Err(CmdDispatchRawError::DimensionTooLarge { axis: 2, requested: dimensions.z, max: max.z });
        }
        Ok(CmdDispatchRaw { dimensions })
    }

    pub fn dimensions(&self) -> (r: Dimensions)
        ensures
            r == self@,
    {
        self.dimensions
    }
}

/// A validated write of push constants.
#[derive(Debug)]
pub struct CmdPushConstants {
    offset: u32,
    data: Vec<u8>,
}

#[derive(Debug, Clone, Copy, PartialEq, Eq, Structural)]
pub enum CmdPushConstantsError {
    /// No byte to write.
    EmptyData,
    /// The offset or the length of the data is not a multiple of four.
    WrongAlignment,
    /// The bytes written run past the pipeline layout's push-constant range.
    OutOfRange,
}

pub open spec fn push_constants_error(offset: u32, len: nat, range_size: u32) -> Option<CmdPushConstantsError> {
    if len == 0 {
        Some(CmdPushConstantsError::EmptyData)
    } else if offset % 4 != 0 || len % 4 != 0 {
        Some(CmdPushConstantsError::WrongAlignment)
    } else if offset + len > range_size {
        Some(CmdPushConstantsError::OutOfRange)
    } else {
        None
    }
}

impl CmdPushConstants {
    /// Validates writing `data` at `offset` into a push-constant range of
    /// `range_size` bytes.
    pub fn new(offset: u32, data: Vec<u8>, range_size: u32) -> (r: Result<CmdPushConstants, CmdPushConstantsError>)
        ensures
            match r {
                Ok(c) => push_constants_error(offset, data@.len(), range_size) is None
                    && c.offset_spec() == offset && c.data_spec() == data@,
                Err(e) => push_constants_error(offset, data@.len(), range_size) == Some(e),
            },
    {
        let len = data.len();
        if len == 0 {
            return Err(CmdPushConstantsError::EmptyData);
        }
        if offset % 4 != 0 || len % 4 != 0 {
            return Err(CmdPushConstantsError::WrongAlignment);
        }
        if len > range_size as usize || offset > range_size - len as u32 {
            return Err(CmdPushConstantsError::OutOfRange);
        }
        Ok(CmdPushConstants { offset, data })
    }

    pub closed spec fn offset_spec(&self) -> u32 {
        self.offset
    }

    pub closed spec fn data_spec(&self) -> Seq<u8> {
        self.data@
    }

    pub fn offset(&self) -> (r: u32)
        ensures
            r == self.offset_spec(),
    {
        self.offset
    }

    pub fn data(&self) -> (r: &Vec<u8>)
        ensures
            r@ == self.data_spec(),
    {
        &self.data
    }
}

/// One aspect to clear inside the current subpass.
#[derive(Debug, Clone, Copy, PartialEq, Eq, Structural)]
pub enum ClearAttachment {
    /// The subpass's color attachment at this position, and its value.
    Color { attachment: u32, value: ClearValue },
    /// The depth aspect, to a value given as its bit pattern.
    Depth(u32),
    Stencil(u32),
    DepthStencil(u32, u32),
}

#[derive(Debug, Clone, Copy, PartialEq, Eq, Structural)]
pub enum CmdClearAttachmentsError {
    /// The render pass has no such subpass.
    SubpassOutOfRange,
    /// Nothing to clear.
    EmptyList,
    /// The subpass has fewer color attachments than the position named.
    ColorAttachmentOutOfRange { attachment: u32, num_color_attachments: u32 },
    /// A depth clear in a subpass without a depth attachment.
    NoDepthAttachment,
    /// A stencil clear in a subpass without a stencil attachment.
    NoStencilAttachment,
}

pub open spec fn clear_attachment_error(num_color: u32, depth: bool, stencil: bool, a: ClearAttachment) -> Option<CmdClearAttachmentsError> {
    match a {
        ClearAttachment::Color { attachment, value } => if attachment < num_color {
            None
        } else {
            Some(CmdClearAttachmentsError::ColorAttachmentOutOfRange { attachment, num_color_attachments: num_color })
        },
        ClearAttachment::Depth(_) => if depth {
            None
        } else {
            Some(CmdClearAttachmentsError::NoDepthAttachment)
        },
        ClearAttachment::Stencil(_) => if stencil {
            None
        } else {
            Some(CmdClearAttachmentsError::NoStencilAttachment)
        },
        ClearAttachment::DepthStencil(_, _) => if !depth {
            Some(CmdClearAttachmentsError::NoDepthAttachment)
        } else if !stencil {
            Some(CmdClearAttachmentsError::NoStencilAttachment)
        } else {
            None
        },
    }
}

/// The error of the first entry that does not fit the subpass, if any.
pub open spec fn clear_list_error(num_color: u32, depth: bool, stencil: bool, s: Seq<ClearAttachment>) -> Option<CmdClearAttachmentsError>
    decreases s.len(),
{
    if s.len() == 0 {
        None
    } else {
        match clear_attachment_error(num_color, depth, stencil, s[0]) {
            Some(e) => Some(e),
            None => clear_list_error(num_color, depth, stencil, s.drop_first()),
        }
    }
}

/// What clearing `list` inside `subpass` of a render pass with these subpasses
/// and attachments comes to.
pub open spec fn clear_attachments_error<D: RenderPassDesc>(desc: &D, subpass: u32, list: Seq<ClearAttachment>) -> Option<CmdClearAttachmentsError> {
    match (num_color_attachments_spec(desc.subpasses_view(), subpass), depth_stencil_spec(desc.attachments_view(), desc.subpasses_view(), subpass)) {
        (Some(n), Some(ds)) => if list.len() == 0 {
            Some(CmdClearAttachmentsError::EmptyList)
        } else {
            clear_list_error(n, ds.0, ds.1, list)
        },
        _ => Some(CmdClearAttachmentsError::SubpassOutOfRange),
    }
}

/// A validated clear of attachments inside a subpass.
#[derive(Debug)]
pub struct CmdClearAttachments {
    attachments: Vec<ClearAttachment>,
}

impl View for CmdClearAttachments {
    type V = Seq<ClearAttachment>;

    closed spec fn view(&self) -> Seq<ClearAttachment> {
        self.attachments@
    }
}

impl CmdClearAttachments {
    /// Validates clearing `attachments` while `subpass` of `desc` is current.
    pub fn new<D: RenderPassDesc>(desc: &D, subpass: u32, attachments: Vec<ClearAttachment>) -> (r: Result<CmdClearAttachments, CmdClearAttachmentsError>)
        ensures
            match r {
                Ok(c) => clear_attachments_error(desc, subpass, attachments@) is None && c@ == attachments@,
                Err(e) => clear_attachments_error(desc, subpass, attachments@) == Some(e),
            },
    {
        let n = match desc.num_color_attachments(subpass) {
            Some(n) => n,
            None => {
                return Err(CmdClearAttachmentsError::SubpassOutOfRange);
            },
        };
        let ds = match desc.has_depth_stencil_attachment(subpass) {
            Some(ds) => ds,
            None => {
                return Err(CmdClearAttachmentsError::SubpassOutOfRange);
            },
        };
        if attachments.len() == 0 {
            return Err(CmdClearAttachmentsError::EmptyList);
        }
        let ghost s = attachments@;
        assert(s.subrange(0, s.len() as int) =~= s);
        let mut i: usize = 0;
        while i < attachments.len()
            invariant
                s == attachments@,
                s.len() > 0,
                num_color_attachments_spec(desc.subpasses_view(), subpass) == Some(n),
                depth_stencil_spec(desc.attachments_view(), desc.subpasses_view(), subpass) == Some(ds),
                i <= s.len(),
                clear_list_error(n, ds.0, ds.1, s) == clear_list_error(n, ds.0, ds.1, s.subrange(i as int, s.len() as int)),
            decreases s.len() - i,
        {
            let ghost rest = s.subrange(i as int, s.len() as int);
            assert(rest[0] == s[i as int]);
            assert(rest.drop_first() =~= s.subrange(i + 1, s.len() as int));
            let a = attachments[i];
            let bad = match a {
                ClearAttachment::Color { attachment, value } => if attachment < n {
                    None
                } else {
                    Some(CmdClearAttachmentsError::ColorAttachmentOutOfRange { attachment, num_color_attachments: n })
                },
                ClearAttachment::Depth(_) => if ds.0 {
                    None
                } else {
                    Some(CmdClearAttachmentsError::NoDepthAttachment)
                },
                ClearAttachment::Stencil(_) => if ds.1 {
                    None
                } else {
                    Some(CmdClearAttachmentsError::NoStencilAttachment)
                },
                ClearAttachment::DepthStencil(_, _) => if !ds.0 {
                    Some(CmdClearAttachmentsError::NoDepthAttachment)
                } else if !ds.1 {
                    Some(CmdClearAttachmentsError::NoStencilAttachment)
                } else {
                    None
                },
            };
            assert(bad == clear_attachment_error(n, ds.0, ds.1, a));
            match bad {
                Some(e) => {
                    assert(clear_list_error(n, ds.0, ds.1, rest) == Some(e));
                    return Err(e);
                },
                None => {},
            }
            i += 1;
        }
        assert(s.subrange(s.len() as int, s.len() as int).len() == 0);
        Ok(CmdClearAttachments { attachments })
    }
}

/// Validating a draw, a dispatch or a clear of attachments depends on its
/// arguments alone: identical arguments give the same outcome and error detail.
pub proof fn lemma_draw_validation_is_pure<D: RenderPassDesc>(
    draw_a: DrawArgs,
    draw_b: DrawArgs,
    dims_a: Dimensions,
    dims_b: Dimensions,
    max: Dimensions,
    desc: &D,
    subpass: u32,
    clears_a: Seq<ClearAttachment>,
    clears_b: Seq<ClearAttachment>,
)
    requires
        draw_a == draw_b,
        dims_a == dims_b,
        clears_a == clears_b,
    ensures
        draw_error(draw_a) == draw_error(draw_b),
        dispatch_error(dims_a, max) == dispatch_error(dims_b, max),
        clear_attachments_error(desc, subpass, clears_a) == clear_attachments_error(desc, subpass, clears_b),
{
}

} // verus!
