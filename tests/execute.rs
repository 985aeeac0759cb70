use vulkano::execute::{CmdExecuteCommands, CmdExecuteCommandsError, SecondaryBufferInfo};
use vulkano::desc::PassDescription;
use vulkano::recorder::{CmdBeginRenderPass, Command, CommandBufferRecorder, Placement, SequencingError};
use vulkano::simple::RenderPassDescription;

fn secondary(id: u64, executable: bool, render_pass_continue: bool) -> SecondaryBufferInfo {
    SecondaryBufferInfo { id, executable, render_pass_continue }
}

#[test]
fn execute_commands_validation() {
    let c = CmdExecuteCommands::new(vec![secondary(1, true, true), secondary(2, true, true)]).unwrap();
    assert!(c.continues_render_pass());
    assert_eq!(c.buffers().len(), 2);
    assert_eq!(c.resources(), vec![1, 2]);
    assert_eq!(CmdExecuteCommands::new(vec![]).unwrap_err(), CmdExecuteCommandsError::NoBuffer);
    assert_eq!(
        CmdExecuteCommands::new(vec![secondary(1, true, false), secondary(2, false, false)]).unwrap_err(),
        CmdExecuteCommandsError::NotExecutable { index: 1 }
    );
    assert_eq!(
        CmdExecuteCommands::new(vec![secondary(1, true, false), secondary(2, true, true)]).unwrap_err(),
        CmdExecuteCommandsError::MixedRenderPassContinue { index: 1 }
    );
    assert_eq!(
        CmdExecuteCommands::new(vec![secondary(1, false, false)]).unwrap_err(),
        CmdExecuteCommandsError::NotExecutable { index: 0 }
    );
}

#[test]
fn execute_commands_placement() {
    let inside = Command::ExecuteCommands(CmdExecuteCommands::new(vec![secondary(1, true, true)]).unwrap());
    let outside = Command::ExecuteCommands(CmdExecuteCommands::new(vec![secondary(2, true, false)]).unwrap());
    assert_eq!(inside.placement(), Placement::InsideRenderPass);
    assert_eq!(outside.placement(), Placement::OutsideRenderPass);

    let desc = RenderPassDescription::new(vec![], vec![PassDescription::empty()], vec![]).unwrap();
    let mut r = CommandBufferRecorder::new();
    assert_eq!(r.append(outside), Ok(()));
    let begin = Command::BeginRenderPass(CmdBeginRenderPass::new(&desc, vec![]).unwrap());
    assert_eq!(r.append(begin), Ok(()));
    assert_eq!(r.append(inside), Ok(()));
    assert_eq!(r.retained(), &vec![2, 1]);
    let again = Command::ExecuteCommands(CmdExecuteCommands::new(vec![secondary(3, true, false)]).unwrap());
    assert_eq!(r.append(again), Err(SequencingError::NotOutsideRenderPass));
}
