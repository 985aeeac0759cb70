use vulkano::binding::{
    CmdBindDescriptorSets, CmdBindDescriptorSetsError, CmdBindIndexBuffer, CmdBindIndexBufferError,
    CmdBindVertexBuffers, CmdBindVertexBuffersError, DescriptorSetInfo, IndexType, VertexBinding,
};
use vulkano::format::Format;
use vulkano::image_cmds::{CmdCopyImage, CmdImageError, CmdResolveImage, ImageInfo, ImageTransferArgs, Region};
use vulkano::recorder::{Command, CommandBufferRecorder, Placement, SequencingError};
use vulkano::sync::{CmdPipelineBarrier, CmdSetEvent, SyncError};
use vulkano::transfer::BufferInfo;

const VB: BufferInfo = BufferInfo { id: 11, size: 1024 };
const IB: BufferInfo = BufferInfo { id: 12, size: 600 };

#[test]
fn index_buffer_validation() {
    let c = CmdBindIndexBuffer::new(IB, 4, IndexType::U32).unwrap();
    assert_eq!(c.args().offset, 4);
    assert!(CmdBindIndexBuffer::new(IB, 2, IndexType::U16).is_ok());
    assert_eq!(
        CmdBindIndexBuffer::new(IB, 2, IndexType::U32).unwrap_err(),
        CmdBindIndexBufferError::WrongAlignment
    );
    assert_eq!(
        CmdBindIndexBuffer::new(IB, 600, IndexType::U16).unwrap_err(),
        CmdBindIndexBufferError::OutOfRange
    );
}

#[test]
fn vertex_buffers_validation() {
    let good = VertexBinding { buffer: VB, offset: 0 };
    let bad = VertexBinding { buffer: IB, offset: 600 };
    let c = CmdBindVertexBuffers::new(1, vec![good, good], 4).unwrap();
    assert_eq!(c.first_binding(), 1);
    assert_eq!(c.bindings().len(), 2);
    assert_eq!(c.resources(), vec![11, 11]);
    assert_eq!(CmdBindVertexBuffers::new(0, vec![], 4).unwrap_err(), CmdBindVertexBuffersError::NoBuffer);
    assert_eq!(
        CmdBindVertexBuffers::new(3, vec![good, good], 4).unwrap_err(),
        CmdBindVertexBuffersError::TooManyBindings { max_bindings: 4 }
    );
    assert_eq!(
        CmdBindVertexBuffers::new(0, vec![good, bad, bad], 4).unwrap_err(),
        CmdBindVertexBuffersError::OffsetOutOfRange { binding: 1 }
    );
}

#[test]
fn descriptor_sets_validation() {
    let layouts = vec![100, 200, 300];
    let s1 = DescriptorSetInfo { id: 1, layout: 200 };
    let s2 = DescriptorSetInfo { id: 2, layout: 300 };
    let c = CmdBindDescriptorSets::new(&layouts, 1, vec![s1, s2]).unwrap();
    assert_eq!(c.first_set(), 1);
    assert_eq!(c.sets().len(), 2);
    assert_eq!(c.resources(), vec![1, 2]);
    assert_eq!(CmdBindDescriptorSets::new(&layouts, 0, vec![]).unwrap_err(), CmdBindDescriptorSetsError::NoSet);
    assert_eq!(
        CmdBindDescriptorSets::new(&layouts, 0, vec![s1]).unwrap_err(),
        CmdBindDescriptorSetsError::IncompatibleSetLayout { set: 0, expected: 100, obtained: 200 }
    );
    assert_eq!(
        CmdBindDescriptorSets::new(&layouts, 2, vec![s2, s2]).unwrap_err(),
        CmdBindDescriptorSetsError::SetIndexOutOfRange { set: 3 }
    );
    assert_eq!(
        CmdBindDescriptorSets::new(&layouts, 7, vec![s1]).unwrap_err(),
        CmdBindDescriptorSetsError::SetIndexOutOfRange { set: 7 }
    );
}

#[test]
fn barrier_and_event_validation() {
    let b = CmdPipelineBarrier::new(0x400, 0x8, true).unwrap();
    assert_eq!(b.args().source_stages, 0x400);
    assert_eq!(CmdPipelineBarrier::new(0, 0x8, false).unwrap_err(), SyncError::NoSourceStage);
    assert_eq!(CmdPipelineBarrier::new(0x1, 0, false).unwrap_err(), SyncError::NoDestinationStage);
    assert_eq!(
        CmdPipelineBarrier::new(0x1, 0x2_0000, false).unwrap_err(),
        SyncError::UnknownStageBits { mask: 0x2_0000 }
    );
    let e = CmdSetEvent::new(42, 0x1, true).unwrap();
    assert_eq!(e.args().event, 42);
    assert!(e.args().set);
    assert_eq!(CmdSetEvent::new(42, 0, false).unwrap_err(), SyncError::NoSourceStage);
}

fn image(id: u64, format: Format, samples: u32) -> ImageInfo {
    ImageInfo { id, format, samples, width: 64, height: 32 }
}

fn transfer(source: ImageInfo, destination: ImageInfo, region: Region) -> ImageTransferArgs {
    ImageTransferArgs { source, source_region: region, destination, destination_x: 0, destination_y: 0 }
}

#[test]
fn image_copy_and_resolve_validation() {
    let whole = Region { x: 0, y: 0, width: 64, height: 32 };
    let a = image(1, Format::R8G8B8A8Unorm, 1);
    let b = image(2, Format::R8G8B8A8Unorm, 1);
    let ms = image(3, Format::R8G8B8A8Unorm, 4);
    assert!(CmdCopyImage::new(transfer(a, b, whole)).is_ok());
    assert_eq!(
        CmdCopyImage::new(transfer(a, image(4, Format::B8G8R8A8Srgb, 1), whole)).unwrap_err(),
        CmdImageError::FormatMismatch { source: Format::R8G8B8A8Unorm, destination: Format::B8G8R8A8Srgb }
    );
    assert_eq!(
        CmdCopyImage::new(transfer(a, ms, whole)).unwrap_err(),
        CmdImageError::SamplesMismatch { source: 1, destination: 4 }
    );
    let shifted = Region { x: 1, y: 0, width: 64, height: 32 };
    assert_eq!(CmdCopyImage::new(transfer(a, b, shifted)).unwrap_err(), CmdImageError::SourceRegionOutOfRange);
    let mut args = transfer(a, b, Region { x: 0, y: 0, width: 16, height: 16 });
    args.destination_y = 20;
    assert_eq!(CmdCopyImage::new(args).unwrap_err(), CmdImageError::DestinationRegionOutOfRange);

    assert_eq!(CmdResolveImage::new(transfer(ms, a, whole)).unwrap().args().source.id, 3);
    assert_eq!(CmdResolveImage::new(transfer(a, b, whole)).unwrap_err(), CmdImageError::SourceNotMultisampled);
    assert_eq!(CmdResolveImage::new(transfer(ms, ms, whole)).unwrap_err(), CmdImageError::DestinationMultisampled);
}

#[test]
fn new_families_in_recorder() {
    let mut r = CommandBufferRecorder::new();
    let bind = Command::BindVertexBuffers(
        CmdBindVertexBuffers::new(0, vec![VertexBinding { buffer: VB, offset: 0 }], 4).unwrap(),
    );
    assert_eq!(bind.placement(), Placement::Anywhere);
    assert_eq!(r.append(bind), Ok(()));
    assert_eq!(r.append(Command::SetEvent(CmdSetEvent::new(9, 1, true).unwrap())), Ok(()));
    assert_eq!(r.append(Command::PipelineBarrier(CmdPipelineBarrier::new(1, 1, false).unwrap())), Ok(()));
    assert_eq!(r.retained(), &vec![11, 9]);
    let a = image(1, Format::R8G8B8A8Unorm, 4);
    let b = image(2, Format::R8G8B8A8Unorm, 1);
    let region = Region { x: 0, y: 0, width: 8, height: 8 };
    assert_eq!(r.append(Command::ResolveImage(CmdResolveImage::new(transfer(a, b, region)).unwrap())), Ok(()));
    assert_eq!(r.retained(), &vec![11, 9, 1, 2]);
    assert_eq!(r.num_commands(), 4);
    assert_eq!(r.append(Command::EndRenderPass), Err(SequencingError::NotInsideRenderPass));
}
