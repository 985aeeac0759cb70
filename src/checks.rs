//! Matching concrete attachment images and clear values against a render-pass
//! description.

use vstd::prelude::*;
use crate::desc::AttachmentDescription;
use crate::format::{ClearValue, Format, LoadOp};
use crate::render_pass::RenderPassDesc;

verus! {

/// What the checks read of an image view: its format and sample count.
#[derive(Debug, Clone, Copy, PartialEq, Eq, Structural)]
pub struct ImageViewInfo {
    pub format: Format,
    pub samples: u32,
}

/// A list of images that has been matched against a description, one per
/// attachment slot, in slot order.
#[derive(Debug)]
pub struct AttachmentsList {
    images: Vec<ImageViewInfo>,
}

impl View for AttachmentsList {
    type V = Seq<ImageViewInfo>;

    closed spec fn view(&self) -> Seq<ImageViewInfo> {
        self.images@
    }
}

impl AttachmentsList {
    /// The list that holds no image.
    pub fn empty() -> (r: AttachmentsList)
        ensures
            r@.len() == 0,
    {
        AttachmentsList { images: Vec::new() }
    }

    pub fn len(&self) -> (r: usize)
        ensures
            r == self@.len(),
    {
        self.images.len()
    }

    pub fn is_empty(&self) -> (r: bool)
        ensures
            r == (self@.len() == 0),
    {
        self.images.len() == 0
    }

    /// The image bound to an attachment slot.
    pub fn get(&self, i: usize) -> (r: Option<ImageViewInfo>)
        ensures
            r == (if i < self@.len() {
                Some(self@[i as int])
            } else {
                None
            }),
    {
        if i < self.images.len() {
            Some(self.images[i])
        } else {
            None
        }
    }
}

/// Why a list of images does not fit a render pass.
#[derive(Debug, Clone, Copy, PartialEq, Eq, Structural)]
pub enum FramebufferCreationError {
    /// The list does not hold one image per attachment.
    AttachmentsCountMismatch { expected: usize, obtained: usize },
    /// An image's format differs from its slot's format.
    FormatMismatch { attachment: usize, expected: Format, obtained: Format },
    /// An image's sample count differs from its slot's sample count.
    SamplesMismatch { attachment: usize, expected: u32, obtained: u32 },
}

pub open spec fn image_fits(a: AttachmentDescription, img: ImageViewInfo) -> bool {
    a.format == img.format && a.samples == img.samples
}

/// The images fit the slots one for one.
pub open spec fn images_fit(atts: Seq<AttachmentDescription>, imgs: Seq<ImageViewInfo>) -> bool {
    &&& imgs.len() == atts.len()
    &&& forall|i: int| 0 <= i < imgs.len() ==> image_fits(atts[i], #[trigger] imgs[i])
}

/// The error a check of `imgs` against `atts` reports: the count first, then the
/// first slot whose image does not fit, format before sample count.
pub open spec fn attachments_error_spec(
    atts: Seq<AttachmentDescription>,
    imgs: Seq<ImageViewInfo>,
    e: FramebufferCreationError,
) -> bool {
    match e {
        FramebufferCreationError::AttachmentsCountMismatch { expected, obtained } => {
            &&& imgs.len() != atts.len()
            &&& expected == atts.len()
            &&& obtained == imgs.len()
        },
        FramebufferCreationError::FormatMismatch { attachment, expected, obtained } => {
            &&& imgs.len() == atts.len()
            &&& attachment < imgs.len()
            &&& (forall|j: int| 0 <= j < attachment ==> image_fits(atts[j], #[trigger] imgs[j]))
            &&& atts[attachment as int].format != imgs[attachment as int].format
            &&& expected == atts[attachment as int].format
            &&& obtained == imgs[attachment as int].format
        },
        FramebufferCreationError::SamplesMismatch { attachment, expected, obtained } => {
            &&& imgs.len() == atts.len()
            &&& attachment < imgs.len()
            &&& (forall|j: int| 0 <= j < attachment ==> image_fits(atts[j], #[trigger] imgs[j]))
            &&& atts[attachment as int].format == imgs[attachment as int].format
            &&& atts[attachment as int].samples != imgs[attachment as int].samples
            &&& expected == atts[attachment as int].samples
            &&& obtained == imgs[attachment as int].samples
        },
    }
}

/// Checks a list of images against a description's attachment slots.
pub fn check_attachments_list<D: RenderPassDesc>(desc: &D, list: Vec<ImageViewInfo>) -> (r: Result<AttachmentsList, FramebufferCreationError>)
    ensures
        r is Ok <==> images_fit(desc.attachments_view(), list@),
        r matches Ok(l) ==> l@ == list@,
        r matches Err(e) ==> attachments_error_spec(desc.attachments_view(), list@, e),
{
    let n = desc.num_attachments();
    if list.len() != n {
        return Err(FramebufferCreationError::AttachmentsCountMismatch { expected: n, obtained: list.len() });
    }
    let ghost atts = desc.attachments_view();
    let mut i: usize = 0;
    while i < n
        invariant
            n == atts.len(),
            atts == desc.attachments_view(),
            list@.len() == n,
            i <= n,
            forall|j: int| 0 <= j < i ==> image_fits(atts[j], #[trigger] list@[j]),
        decreases n - i,
    {
        let a = match desc.attachment_desc(i) {
            Some(a) => a,
            None => {
                return Err(FramebufferCreationError::AttachmentsCountMismatch { expected: n, obtained: list.len() });
            },
        };
        let img = list[i];
        if a.format != img.format {
            return Err(FramebufferCreationError::FormatMismatch { attachment: i, expected: a.format, obtained: img.format });
        }
        if a.samples != img.samples {
            return Err(FramebufferCreationError::SamplesMismatch { attachment: i, expected: a.samples, obtained: img.samples });
        }
        i += 1;
    }
    Ok(AttachmentsList { images: list })
}

/// Why a list of clear values does not fit a render pass.
#[derive(Debug, Clone, Copy, PartialEq, Eq, Structural)]
pub enum ClearValuesError {
    /// The list does not hold one value per attachment.
    CountMismatch { expected: usize, obtained: usize },
    /// An attachment cleared on load was given no clear value.
    MissingClearValue { attachment: usize },
    /// An attachment that is not cleared on load was given a clear value.
    UnexpectedClearValue { attachment: usize },
}

/// The attachment is cleared, in its color/depth or its stencil aspect, when the
/// render pass begins.
pub open spec fn clears_on_load(a: AttachmentDescription) -> bool {
    a.load == LoadOp::Clear || a.stencil_load == LoadOp::Clear
}

pub open spec fn clear_value_fits(a: AttachmentDescription, v: ClearValue) -> bool {
    clears_on_load(a) <==> v != ClearValue::NoClear
}

pub open spec fn clear_values_fit(atts: Seq<AttachmentDescription>, vals: Seq<ClearValue>) -> bool {
    &&& vals.len() == atts.len()
    &&& forall|i: int| 0 <= i < vals.len() ==> clear_value_fits(atts[i], #[trigger] vals[i])
}

/// The error a check of `vals` against `atts` reports: the count first, then the
/// first attachment whose value does not fit.
pub open spec fn clear_values_error_spec(
    atts: Seq<AttachmentDescription>,
    vals: Seq<ClearValue>,
    e: ClearValuesError,
) -> bool {
    match e {
        ClearValuesError::CountMismatch { expected, obtained } => {
            &&& vals.len() != atts.len()
            &&& expected == atts.len()
            &&& obtained == vals.len()
        },
        ClearValuesError::MissingClearValue { attachment } => {
            &&& vals.len() == atts.len()
            &&& attachment < vals.len()
            &&& (forall|j: int| 0 <= j < attachment ==> clear_value_fits(atts[j], #[trigger] vals[j]))
            &&& clears_on_load(atts[attachment as int])
            &&& vals[attachment as int] == ClearValue::NoClear
        },
        ClearValuesError::UnexpectedClearValue { attachment } => {
            &&& vals.len() == atts.len()
            &&& attachment < vals.len()
            &&& (forall|j: int| 0 <= j < attachment ==> clear_value_fits(atts[j], #[trigger] vals[j]))
            &&& !clears_on_load(atts[attachment as int])
            &&& vals[attachment as int] != ClearValue::NoClear
        },
    }
}

/// Checks a list of clear values against a description's attachments and returns
/// the values to use when the render pass begins, one per attachment.
pub fn convert_clear_values<D: RenderPassDesc>(desc: &D, values: Vec<ClearValue>) -> (r: Result<Vec<ClearValue>, ClearValuesError>)
    ensures
        r is Ok <==> clear_values_fit(desc.attachments_view(), values@),
        r matches Ok(v) ==> v@ == values@,
        r matches Err(e) ==> clear_values_error_spec(desc.attachments_view(), values@, e),
{
    let n = desc.num_attachments();
    if values.len() != n {
        return Err(ClearValuesError::CountMismatch { expected: n, obtained: values.len() });
    }
    let ghost atts = desc.attachments_view();
    let mut i: usize = 0;
    while i < n
        invariant
            n == atts.len(),
            atts == desc.attachments_view(),
            values@.len() == n,
            i <= n,
            forall|j: int| 0 <= j < i ==> clear_value_fits(atts[j], #[trigger] values@[j]),
        decreases n - i,
    {
        let a = match desc.attachment_desc(i) {
            Some(a) => a,
            None => {
                return Err(ClearValuesError::CountMismatch { expected: n, obtained: values.len() });
            },
        };
        let clears = a.load == LoadOp::Clear || a.stencil_load == LoadOp::Clear;
        let given = values[i] != ClearValue::NoClear;
        if clears && !given {
            return Err(ClearValuesError::MissingClearValue { attachment: i });
        }
        if !clears && given {
            return Err(ClearValuesError::UnexpectedClearValue { attachment: i });
        }
        i += 1;
    }
    Ok(values)
}

} // verus!
