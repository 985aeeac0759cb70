//! Render-pass descriptions, the checks that match attachments and clear values
//! against them, validated command objects, and the recorder state machine that
//! orders those commands inside a command buffer.

pub mod format;
pub mod desc;
pub mod render_pass;
pub mod checks;
pub mod empty;
pub mod simple;
pub mod transfer;
pub mod draw;
pub mod binding;
pub mod sync;
pub mod image_cmds;
pub mod execute;
pub mod recorder;
