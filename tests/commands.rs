use vulkano::desc::{AttachmentDescription, AttachmentRef, PassDescription};
use vulkano::draw::{
    ClearAttachment, CmdClearAttachments, CmdClearAttachmentsError, CmdDispatchRaw,
    CmdDispatchRawError, CmdDrawError, CmdDrawIndexedRaw, CmdDrawRaw, CmdPushConstants,
    CmdPushConstantsError, Dimensions, DrawArgs, DrawIndexedArgs,
};
use vulkano::empty::EmptySinglePassRenderPassDesc;
use vulkano::format::{ClearValue, Format, ImageLayout, LoadOp, StoreOp};
use vulkano::simple::RenderPassDescription;
use vulkano::transfer::{
    BufferInfo, CmdCopyBuffer, CmdCopyBufferError, CmdFillBuffer, CmdFillBufferError,
    CmdUpdateBuffer, CmdUpdateBufferError, CopyBufferArgs, FillBufferArgs, MAX_UPDATE_BYTES,
};

const A: BufferInfo = BufferInfo { id: 1, size: 256 };
const B: BufferInfo = BufferInfo { id: 2, size: 64 };

#[test]
fn copy_buffer_validation() {
    let c = CmdCopyBuffer::new(A, 16, B, 0, 64).unwrap();
    assert_eq!(
        c.args(),
        CopyBufferArgs { source: A, source_offset: 16, destination: B, destination_offset: 0, size: 64 }
    );
    assert_eq!(CmdCopyBuffer::new(A, 0, B, 0, 0).unwrap_err(), CmdCopyBufferError::ZeroSize);
    assert_eq!(CmdCopyBuffer::new(A, 200, B, 0, 57).unwrap_err(), CmdCopyBufferError::SourceOutOfRange);
    assert_eq!(CmdCopyBuffer::new(A, 0, B, 1, 64).unwrap_err(), CmdCopyBufferError::DestinationOutOfRange);
    assert_eq!(
        CmdCopyBuffer::new(A, u64::MAX, B, 0, 2).unwrap_err(),
        CmdCopyBufferError::SourceOutOfRange
    );
    assert_eq!(CmdCopyBuffer::new(A, 0, A, 32, 64).unwrap_err(), CmdCopyBufferError::OverlappingRanges);
    assert!(CmdCopyBuffer::new(A, 0, A, 64, 64).is_ok());
}

#[test]
fn fill_buffer_validation() {
    let c = CmdFillBuffer::new(A, 8, 16, 0xdead_beef).unwrap();
    assert_eq!(c.args(), FillBufferArgs { buffer: A, offset: 8, size: 16, data: 0xdead_beef });
    assert_eq!(CmdFillBuffer::new(A, 0, 0, 0).unwrap_err(), CmdFillBufferError::ZeroSize);
    assert_eq!(CmdFillBuffer::new(A, 2, 16, 0).unwrap_err(), CmdFillBufferError::WrongAlignment);
    assert_eq!(CmdFillBuffer::new(A, 0, 6, 0).unwrap_err(), CmdFillBufferError::WrongAlignment);
    assert_eq!(CmdFillBuffer::new(A, 252, 8, 0).unwrap_err(), CmdFillBufferError::OutOfRange);
}

#[test]
fn update_buffer_validation() {
    let c = CmdUpdateBuffer::new(B, 4, vec![1, 2, 3, 4]).unwrap();
    assert_eq!(c.buffer(), B);
    assert_eq!(c.offset(), 4);
    assert_eq!(c.data(), &vec![1, 2, 3, 4]);
    assert_eq!(CmdUpdateBuffer::new(B, 0, vec![]).unwrap_err(), CmdUpdateBufferError::EmptyData);
    let big = BufferInfo { id: 3, size: 1 << 20 };
    assert!(CmdUpdateBuffer::new(big, 0, vec![0; MAX_UPDATE_BYTES]).is_ok());
    assert_eq!(
        CmdUpdateBuffer::new(big, 0, vec![0; MAX_UPDATE_BYTES + 4]).unwrap_err(),
        CmdUpdateBufferError::DataTooLarge
    );
    assert_eq!(CmdUpdateBuffer::new(B, 0, vec![0; 3]).unwrap_err(), CmdUpdateBufferError::WrongAlignment);
    assert_eq!(CmdUpdateBuffer::new(B, 2, vec![0; 4]).unwrap_err(), CmdUpdateBufferError::WrongAlignment);
    assert_eq!(CmdUpdateBuffer::new(B, 64, vec![0; 4]).unwrap_err(), CmdUpdateBufferError::OutOfRange);
}

#[test]
fn draw_validation() {
    let c = CmdDrawRaw::new(3, 1, 0, 0).unwrap();
    assert_eq!(c.args(), DrawArgs { vertex_count: 3, instance_count: 1, first_vertex: 0, first_instance: 0 });
    assert!(CmdDrawRaw::new(u32::MAX, 1, 0, 0).is_ok());
    assert_eq!(CmdDrawRaw::new(u32::MAX, 1, 1, 0).unwrap_err(), CmdDrawError::VertexRangeOverflow);
    assert_eq!(CmdDrawRaw::new(3, 2, 0, u32::MAX - 1).unwrap_err(), CmdDrawError::InstanceRangeOverflow);
    let args = DrawIndexedArgs {
        index_count: 6,
        instance_count: 1,
        first_index: 0,
        vertex_offset: -2,
        first_instance: 0,
        index_buffer_len: 6,
    };
    assert_eq!(CmdDrawIndexedRaw::new(args).unwrap().args(), args);
    let past = DrawIndexedArgs { first_index: 1, ..args };
    assert_eq!(CmdDrawIndexedRaw::new(past).unwrap_err(), CmdDrawError::IndexOutOfRange);
    let many = DrawIndexedArgs { instance_count: 2, first_instance: u32::MAX, ..args };
    assert_eq!(CmdDrawIndexedRaw::new(many).unwrap_err(), CmdDrawError::InstanceRangeOverflow);
}

#[test]
fn dispatch_validation() {
    let max = Dimensions { x: 65535, y: 65535, z: 64 };
    let d = Dimensions { x: 8, y: 8, z: 1 };
    assert_eq!(CmdDispatchRaw::new(d, max).unwrap().dimensions(), d);
    assert_eq!(
        CmdDispatchRaw::new(Dimensions { x: 8, y: 8, z: 65 }, max).unwrap_err(),
        CmdDispatchRawError::DimensionTooLarge { axis: 2, requested: 65, max: 64 }
    );
    assert_eq!(
        CmdDispatchRaw::new(Dimensions { x: 70000, y: 70000, z: 1 }, max).unwrap_err(),
        CmdDispatchRawError::DimensionTooLarge { axis: 0, requested: 70000, max: 65535 }
    );
}

#[test]
fn push_constants_validation() {
    let c = CmdPushConstants::new(4, vec![0; 8], 16).unwrap();
    assert_eq!(c.offset(), 4);
    assert_eq!(c.data().len(), 8);
    assert_eq!(CmdPushConstants::new(0, vec![], 16).unwrap_err(), CmdPushConstantsError::EmptyData);
    assert_eq!(CmdPushConstants::new(1, vec![0; 4], 16).unwrap_err(), CmdPushConstantsError::WrongAlignment);
    assert_eq!(CmdPushConstants::new(12, vec![0; 8], 16).unwrap_err(), CmdPushConstantsError::OutOfRange);
    assert_eq!(CmdPushConstants::new(0, vec![0; 20], 16).unwrap_err(), CmdPushConstantsError::OutOfRange);
}

fn color_and_depth() -> RenderPassDescription {
    let att = |format| AttachmentDescription {
        format,
        samples: 1,
        load: LoadOp::Load,
        store: StoreOp::Store,
        stencil_load: LoadOp::DontCare,
        stencil_store: StoreOp::DontCare,
        initial_layout: ImageLayout::Undefined,
        final_layout: ImageLayout::General,
    };
    let p = PassDescription {
        color_attachments: vec![AttachmentRef { index: 0, layout: ImageLayout::ColorAttachmentOptimal }],
        depth_stencil: Some(AttachmentRef { index: 1, layout: ImageLayout::DepthStencilAttachmentOptimal }),
        input_attachments: vec![],
        resolve_attachments: vec![],
        preserve_attachments: vec![],
    };
    RenderPassDescription::new(vec![att(Format::B8G8R8A8Srgb), att(Format::D32Sfloat)], vec![p], vec![]).unwrap()
}

#[test]
fn clear_attachments_validation() {
    let d = color_and_depth();
    let color = ClearAttachment::Color { attachment: 0, value: ClearValue::ColorBits(0, 0, 0, 0) };
    assert!(CmdClearAttachments::new(&d, 0, vec![color, ClearAttachment::Depth(0)]).is_ok());
    assert_eq!(
        CmdClearAttachments::new(&d, 1, vec![color]).unwrap_err(),
        CmdClearAttachmentsError::SubpassOutOfRange
    );
    assert_eq!(CmdClearAttachments::new(&d, 0, vec![]).unwrap_err(), CmdClearAttachmentsError::EmptyList);
    let far = ClearAttachment::Color { attachment: 1, value: ClearValue::Int(0, 0, 0, 0) };
    assert_eq!(
        CmdClearAttachments::new(&d, 0, vec![color, far, ClearAttachment::Stencil(0)]).unwrap_err(),
        CmdClearAttachmentsError::ColorAttachmentOutOfRange { attachment: 1, num_color_attachments: 1 }
    );
    assert_eq!(
        CmdClearAttachments::new(&d, 0, vec![ClearAttachment::DepthStencil(0, 0)]).unwrap_err(),
        CmdClearAttachmentsError::NoStencilAttachment
    );
    let e = EmptySinglePassRenderPassDesc;
    assert_eq!(
        CmdClearAttachments::new(&e, 0, vec![ClearAttachment::Depth(0)]).unwrap_err(),
        CmdClearAttachmentsError::NoDepthAttachment
    );
}

#[test]
fn validation_is_repeatable() {
    assert_eq!(
        CmdCopyBuffer::new(A, 0, A, 32, 64).unwrap_err(),
        CmdCopyBuffer::new(A, 0, A, 32, 64).unwrap_err()
    );
    assert_eq!(
        CmdCopyBuffer::new(A, 16, B, 0, 64).unwrap().args(),
        CmdCopyBuffer::new(A, 16, B, 0, 64).unwrap().args()
    );
    assert_eq!(CmdFillBuffer::new(A, 2, 16, 0).unwrap_err(), CmdFillBuffer::new(A, 2, 16, 0).unwrap_err());
    assert_eq!(CmdDrawRaw::new(u32::MAX, 1, 1, 0).unwrap_err(), CmdDrawRaw::new(u32::MAX, 1, 1, 0).unwrap_err());
    let max = Dimensions { x: 1, y: 1, z: 1 };
    let d = Dimensions { x: 1, y: 2, z: 1 };
    assert_eq!(CmdDispatchRaw::new(d, max).unwrap_err(), CmdDispatchRaw::new(d, max).unwrap_err());
}
