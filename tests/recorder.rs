use vulkano::desc::{AttachmentDescription, PassDescription};
use vulkano::draw::CmdDrawRaw;
use vulkano::empty::EmptySinglePassRenderPassDesc;
use vulkano::format::{ClearValue, Format, ImageLayout, LoadOp, StoreOp};
use vulkano::recorder::{
    CmdBeginRenderPass, Command, CommandBufferRecorder, Placement, RecorderState, SequencingError,
};
use vulkano::checks::ClearValuesError;
use vulkano::simple::RenderPassDescription;
use vulkano::transfer::{BufferInfo, CmdCopyBuffer, CmdFillBuffer};

fn passes(n: usize) -> RenderPassDescription {
    let mut subpasses = Vec::new();
    for _ in 0..n {
        subpasses.push(PassDescription::empty());
    }
    RenderPassDescription::new(vec![], subpasses, vec![]).unwrap()
}

fn begin(n: usize) -> Command {
    Command::BeginRenderPass(CmdBeginRenderPass::new(&passes(n), vec![]).unwrap())
}

fn draw() -> Command {
    Command::Draw(CmdDrawRaw::new(3, 1, 0, 0).unwrap())
}

#[test]
fn draw_outside_render_pass_poisons() {
    let mut r = CommandBufferRecorder::new();
    assert_eq!(r.state(), RecorderState::Initial);
    assert_eq!(r.append(draw()), Err(SequencingError::NotInsideRenderPass));
    assert_eq!(r.state(), RecorderState::Invalid);
    assert_eq!(r.num_commands(), 0);
    assert_eq!(r.append(begin(1)), Err(SequencingError::Poisoned));
    assert_eq!(r.append(draw()), Err(SequencingError::Poisoned));
    assert_eq!(r.finalize(), Err(SequencingError::Poisoned));
    assert_eq!(r.state(), RecorderState::Invalid);

    let mut r = CommandBufferRecorder::new();
    let buf = BufferInfo { id: 9, size: 16 };
    assert_eq!(r.append(Command::FillBuffer(CmdFillBuffer::new(buf, 0, 16, 0).unwrap())), Ok(()));
    assert_eq!(r.state(), RecorderState::OutsideRenderPass);
    assert_eq!(r.append(draw()), Err(SequencingError::NotInsideRenderPass));
    assert_eq!(r.state(), RecorderState::Invalid);
    assert_eq!(r.num_commands(), 1);
}

#[test]
fn next_subpass_past_the_last_fails() {
    let mut r = CommandBufferRecorder::new();
    assert_eq!(r.append(begin(3)), Ok(()));
    assert_eq!(r.state(), RecorderState::InsideRenderPass { subpass: 0, num_subpasses: 3 });
    assert_eq!(r.append(Command::NextSubpass), Ok(()));
    assert_eq!(r.append(draw()), Ok(()));
    assert_eq!(r.append(Command::NextSubpass), Ok(()));
    assert_eq!(r.state(), RecorderState::InsideRenderPass { subpass: 2, num_subpasses: 3 });
    assert_eq!(
        r.append(Command::NextSubpass),
        Err(SequencingError::NoNextSubpass { subpass: 2, num_subpasses: 3 })
    );
    assert_eq!(r.state(), RecorderState::Invalid);
}

#[test]
fn begin_then_end_needs_single_subpass() {
    let mut r = CommandBufferRecorder::new();
    assert_eq!(r.append(begin(1)), Ok(()));
    assert_eq!(r.append(Command::EndRenderPass), Ok(()));
    assert_eq!(r.state(), RecorderState::OutsideRenderPass);
    assert_eq!(r.finalize(), Ok(()));
    assert_eq!(r.state(), RecorderState::Executable);
    assert_eq!(r.num_commands(), 2);

    let mut r = CommandBufferRecorder::new();
    assert_eq!(r.append(begin(2)), Ok(()));
    assert_eq!(
        r.append(Command::EndRenderPass),
        Err(SequencingError::SubpassesRemaining { subpass: 0, num_subpasses: 2 })
    );
    assert_eq!(r.state(), RecorderState::Invalid);

    let mut r = CommandBufferRecorder::new();
    assert_eq!(r.append(begin(2)), Ok(()));
    assert_eq!(r.append(Command::NextSubpass), Ok(()));
    assert_eq!(r.append(Command::EndRenderPass), Ok(()));
    assert_eq!(r.finalize(), Ok(()));
}

#[test]
fn outside_commands_rejected_inside() {
    let mut r = CommandBufferRecorder::new();
    assert_eq!(r.append(begin(1)), Ok(()));
    assert_eq!(r.append(begin(1)), Err(SequencingError::NotOutsideRenderPass));
    assert_eq!(r.state(), RecorderState::Invalid);
}

#[test]
fn finalize_states() {
    let mut r = CommandBufferRecorder::new();
    assert_eq!(r.finalize(), Err(SequencingError::NothingRecorded));
    assert_eq!(r.state(), RecorderState::Invalid);

    let mut r = CommandBufferRecorder::new();
    assert_eq!(r.append(begin(1)), Ok(()));
    assert_eq!(r.finalize(), Err(SequencingError::RenderPassNotEnded));

    let mut r = CommandBufferRecorder::new();
    assert_eq!(r.append(begin(1)), Ok(()));
    assert_eq!(r.append(Command::EndRenderPass), Ok(()));
    assert_eq!(r.finalize(), Ok(()));
    assert_eq!(r.finalize(), Err(SequencingError::AlreadyFinalized));
    assert_eq!(r.state(), RecorderState::Invalid);
}

#[test]
fn retained_resources_accumulate() {
    let a = BufferInfo { id: 5, size: 64 };
    let b = BufferInfo { id: 6, size: 64 };
    let mut r = CommandBufferRecorder::new();
    assert_eq!(r.append(Command::CopyBuffer(CmdCopyBuffer::new(a, 0, b, 0, 32).unwrap())), Ok(()));
    assert_eq!(r.append(Command::FillBuffer(CmdFillBuffer::new(b, 0, 4, 7).unwrap())), Ok(()));
    assert_eq!(r.retained(), &vec![5, 6, 6]);
    assert_eq!(r.append(draw()), Err(SequencingError::NotInsideRenderPass));
    assert_eq!(r.retained(), &vec![5, 6, 6]);
}

#[test]
fn begin_render_pass_checks_clear_values() {
    let att = AttachmentDescription {
        format: Format::R8G8B8A8Unorm,
        samples: 1,
        load: LoadOp::Clear,
        store: StoreOp::Store,
        stencil_load: LoadOp::DontCare,
        stencil_store: StoreOp::DontCare,
        initial_layout: ImageLayout::Undefined,
        final_layout: ImageLayout::PresentSrc,
    };
    let d = RenderPassDescription::new(vec![att], vec![PassDescription::empty()], vec![]).unwrap();
    let b = CmdBeginRenderPass::new(&d, vec![ClearValue::ColorBits(0, 0, 0, 0)]).unwrap();
    assert_eq!(b.num_subpasses(), 1);
    assert_eq!(b.clear_values(), &vec![ClearValue::ColorBits(0, 0, 0, 0)]);
    assert_eq!(
        CmdBeginRenderPass::new(&d, vec![]).unwrap_err(),
        ClearValuesError::CountMismatch { expected: 1, obtained: 0 }
    );
    let e = CmdBeginRenderPass::new(&EmptySinglePassRenderPassDesc, vec![]).unwrap();
    assert_eq!(e.num_subpasses(), 1);
    assert!(e.clear_values().is_empty());
}

#[test]
fn command_placement() {
    assert_eq!(draw().placement(), Placement::InsideRenderPass);
    assert_eq!(begin(1).placement(), Placement::OutsideRenderPass);
    assert_eq!(Command::EndRenderPass.placement(), Placement::InsideRenderPass);
}
