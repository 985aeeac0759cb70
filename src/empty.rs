//! The render pass with one subpass and no attachment.

use vstd::prelude::*;
use crate::checks::{AttachmentsList, ClearValuesError, FramebufferCreationError, ImageViewInfo};
use crate::desc::{
    empty_pass_view, AttachmentDescription, PassDependencyDescription, PassDescription,
    PassDescriptionView,
};
use crate::format::ClearValue;
use crate::render_pass::RenderPassDesc;

verus! {

/// Description of an empty render pass: one subpass and no attachment.
///
/// A render pass created from it accepts nothing for both the list of
/// attachments and the clear values.
#[derive(Debug, Clone, Copy)]
pub struct EmptySinglePassRenderPassDesc;

impl RenderPassDesc for EmptySinglePassRenderPassDesc {
    open spec fn attachments_view(&self) -> Seq<AttachmentDescription> {
        Seq::empty()
    }

    open spec fn subpasses_view(&self) -> Seq<PassDescriptionView> {
        seq![empty_pass_view()]
    }

    open spec fn dependencies_view(&self) -> Seq<PassDependencyDescription> {
        Seq::empty()
    }

    proof fn lemma_description_valid(&self) {
    }

    fn num_attachments(&self) -> (r: usize) {
        0
    }

    fn attachment_desc(&self, num: usize) -> (r: Option<AttachmentDescription>) {
        None
    }

    fn num_subpasses(&self) -> (r: usize) {
        1
    }

    fn subpass_desc(&self, num: usize) -> (r: Option<PassDescription>) {
        if num == 0 {
            Some(PassDescription::empty())
        } else {
            None
        }
    }

    fn num_dependencies(&self) -> (r: usize) {
        0
    }

    fn dependency_desc(&self, num: usize) -> (r: Option<PassDependencyDescription>) {
        None
    }

    fn num_color_attachments(&self, subpass: u32) -> (r: Option<u32>) {
        if subpass == 0 {
            Some(0)
        } else {
            None
        }
    }

    fn num_samples(&self, subpass: u32) -> (r: Option<u32>) {
        None
    }

    fn has_depth_stencil_attachment(&self, subpass: u32) -> (r: Option<(bool, bool)>) {
        if subpass == 0 {
            Some((false, false))
        } else {
            None
        }
    }

    fn has_depth(&self, subpass: u32) -> (r: Option<bool>) {
        if subpass == 0 {
            Some(false)
        } else {
            None
        }
    }

    fn has_writable_depth(&self, subpass: u32) -> (r: Option<bool>) {
        if subpass == 0 {
            Some(false)
        } else {
            None
        }
    }

    fn has_stencil(&self, subpass: u32) -> (r: Option<bool>) {
        if subpass == 0 {
            Some(false)
        } else {
            None
        }
    }

    fn has_writable_stencil(&self, subpass: u32) -> (r: Option<bool>) {
        if subpass == 0 {
            Some(false)
        } else {
            None
        }
    }
}

impl EmptySinglePassRenderPassDesc {
    /// Checks a list of images: only the empty list fits.
    pub fn check_attachments_list(&self, list: Vec<ImageViewInfo>) -> (r: Result<AttachmentsList, FramebufferCreationError>)
        ensures
            r is Ok <==> list@.len() == 0,
            r matches Ok(l) ==> l@.len() == 0,
            r matches Err(e) ==> e == (FramebufferCreationError::AttachmentsCountMismatch {
                expected: 0,
                obtained: list@.len() as usize,
            }),
    {
        if list.len() == 0 {
            Ok(AttachmentsList::empty())
        } else {
            Err(FramebufferCreationError::AttachmentsCountMismatch { expected: 0, obtained: list.len() })
        }
    }

    /// The attachments list for a pass that has none; always succeeds.
    pub fn check_empty_attachments_list(&self) -> (r: Result<AttachmentsList, FramebufferCreationError>)
        ensures
            r matches Ok(l) && l@.len() == 0,
    {
        Ok(AttachmentsList::empty())
    }

    /// Checks a list of clear values: only the empty list fits, and yields no value.
    pub fn convert_clear_values(&self, values: Vec<ClearValue>) -> (r: Result<Vec<ClearValue>, ClearValuesError>)
        ensures
            r is Ok <==> values@.len() == 0,
            r matches Ok(v) ==> v@.len() == 0,
            r matches Err(e) ==> e == (ClearValuesError::CountMismatch {
                expected: 0,
                obtained: values@.len() as usize,
            }),
    {
        if values.len() == 0 {
            Ok(Vec::new())
        } else {
            Err(ClearValuesError::CountMismatch { expected: 0, obtained: values.len() })
        }
    }

    /// The clear values for a pass that has no attachment: none.
    pub fn convert_empty_clear_values(&self) -> (r: Vec<ClearValue>)
        ensures
            r@.len() == 0,
    {
        Vec::new()
    }
}

} // verus!
