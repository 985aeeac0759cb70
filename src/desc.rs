//! The plain records that make up a render pass: attachments, subpasses and
//! dependencies, and what it means for a set of them to form a valid pass.

use vstd::prelude::*;
use crate::format::{Format, ImageLayout, LoadOp, StoreOp};

verus! {

/// Subpass index standing for "outside the render pass" in a dependency.
pub const SUBPASS_EXTERNAL: usize = 0xffff_ffff;

/// Description of one attachment slot of a render pass.
#[derive(Debug, Clone, Copy, PartialEq, Eq, Structural)]
pub struct AttachmentDescription {
    pub format: Format,
    pub samples: u32,
    pub load: LoadOp,
    pub store: StoreOp,
    pub stencil_load: LoadOp,
    pub stencil_store: StoreOp,
    pub initial_layout: ImageLayout,
    pub final_layout: ImageLayout,
}

/// A reference from a subpass to an attachment, with the layout the attachment
/// must be in during that subpass.
#[derive(Debug, Clone, Copy, PartialEq, Eq, Structural)]
pub struct AttachmentRef {
    pub index: usize,
    pub layout: ImageLayout,
}

/// Description of one subpass.
#[derive(Debug, Clone, PartialEq, Eq)]
pub struct PassDescription {
    pub color_attachments: Vec<AttachmentRef>,
    pub depth_stencil: Option<AttachmentRef>,
    pub input_attachments: Vec<AttachmentRef>,
    /// Parallel to `color_attachments` when not empty.
    pub resolve_attachments: Vec<AttachmentRef>,
    pub preserve_attachments: Vec<usize>,
}

/// The mathematical value of a [`PassDescription`].
pub struct PassDescriptionView {
    pub color_attachments: Seq<AttachmentRef>,
    pub depth_stencil: Option<AttachmentRef>,
    pub input_attachments: Seq<AttachmentRef>,
    pub resolve_attachments: Seq<AttachmentRef>,
    pub preserve_attachments: Seq<usize>,
}

impl View for PassDescription {
    type V = PassDescriptionView;

    open spec fn view(&self) -> PassDescriptionView {
        PassDescriptionView {
            color_attachments: self.color_attachments@,
            depth_stencil: self.depth_stencil,
            input_attachments: self.input_attachments@,
            resolve_attachments: self.resolve_attachments@,
            preserve_attachments: self.preserve_attachments@,
        }
    }
}

/// The subpass that uses no attachment at all.
pub open spec fn empty_pass_view() -> PassDescriptionView {
    PassDescriptionView {
        color_attachments: Seq::empty(),
        depth_stencil: None,
        input_attachments: Seq::empty(),
        resolve_attachments: Seq::empty(),
        preserve_attachments: Seq::empty(),
    }
}

/// Description of a dependency between two subpasses.
#[derive(Debug, Clone, Copy, PartialEq, Eq, Structural)]
pub struct PassDependencyDescription {
    /// Index of the source subpass, or `SUBPASS_EXTERNAL`.
    pub source_subpass: usize,
    /// Index of the destination subpass, or `SUBPASS_EXTERNAL`.
    pub destination_subpass: usize,
    pub source_stages: u32,
    pub destination_stages: u32,
    pub source_access: u32,
    pub destination_access: u32,
    pub by_region: bool,
}

pub open spec fn refs_in_range(refs: Seq<AttachmentRef>, num_attachments: nat) -> bool {
    forall|i: int| 0 <= i < refs.len() ==> (#[trigger] refs[i]).index < num_attachments
}

/// Every attachment that the subpass references exists, the resolve list is
/// empty or parallel to the color list, and the color list can be counted in a `u32`.
pub open spec fn pass_valid(p: PassDescriptionView, num_attachments: nat) -> bool {
    &&& refs_in_range(p.color_attachments, num_attachments)
    &&& refs_in_range(p.input_attachments, num_attachments)
    &&& refs_in_range(p.resolve_attachments, num_attachments)
    &&& (forall|i: int|
        0 <= i < p.preserve_attachments.len() ==> (#[trigger] p.preserve_attachments[i])
            < num_attachments)
    &&& (p.depth_stencil matches Some(r) ==> r.index < num_attachments)
    &&& (p.resolve_attachments.len() == 0 || p.resolve_attachments.len()
        == p.color_attachments.len())
    &&& p.color_attachments.len() <= u32::MAX
}

pub open spec fn dependency_valid(d: PassDependencyDescription, num_subpasses: nat) -> bool {
    &&& (d.source_subpass < num_subpasses || d.source_subpass == SUBPASS_EXTERNAL)
    &&& (d.destination_subpass < num_subpasses || d.destination_subpass == SUBPASS_EXTERNAL)
}

/// The shape rules of a render pass: at least one subpass, every subpass and
/// every dependency refers only to what exists.
pub open spec fn description_valid(
    attachments: Seq<AttachmentDescription>,
    subpasses: Seq<PassDescriptionView>,
    dependencies: Seq<PassDependencyDescription>,
) -> bool {
    &&& subpasses.len() >= 1
    &&& (forall|i: int| 0 <= i < subpasses.len() ==> pass_valid(#[trigger] subpasses[i], attachments.len()))
    &&& (forall|i: int| 0 <= i < dependencies.len() ==> dependency_valid(#[trigger] dependencies[i], subpasses.len()))
}

/// Copies a list of attachment references.
pub fn copy_refs(v: &Vec<AttachmentRef>) -> (r: Vec<AttachmentRef>)
    ensures
        r@ == v@,
{
    let mut r: Vec<AttachmentRef> = Vec::with_capacity(v.len());
    let mut i: usize = 0;
    while i < v.len()
        invariant
            i <= v@.len(),
            r@ == v@.subrange(0, i as int),
        decreases v@.len() - i,
    {
        r.push(v[i]);
        i += 1;
        assert(r@ =~= v@.subrange(0, i as int));
    }
    assert(r@ =~= v@);
    r
}

/// Copies a list of attachment indices.
pub fn copy_indices(v: &Vec<usize>) -> (r: Vec<usize>)
    ensures
        r@ == v@,
{
    let mut r: Vec<usize> = Vec::with_capacity(v.len());
    let mut i: usize = 0;
    while i < v.len()
        invariant
            i <= v@.len(),
            r@ == v@.subrange(0, i as int),
        decreases v@.len() - i,
    {
        r.push(v[i]);
        i += 1;
        assert(r@ =~= v@.subrange(0, i as int));
    }
    assert(r@ =~= v@);
    r
}

impl PassDescription {
    /// The subpass that uses no attachment.
    pub fn empty() -> (r: PassDescription)
        ensures
            r@ == empty_pass_view(),
    {
        let r = PassDescription {
            color_attachments: Vec::new(),
            depth_stencil: None,
            input_attachments: Vec::new(),
            resolve_attachments: Vec::new(),
            preserve_attachments: Vec::new(),
        };
        assert(r@.color_attachments =~= Seq::<AttachmentRef>::empty());
        assert(r@.input_attachments =~= Seq::<AttachmentRef>::empty());
        assert(r@.resolve_attachments =~= Seq::<AttachmentRef>::empty());
        assert(r@.preserve_attachments =~= Seq::<usize>::empty());
        r
    }

    /// A copy of this description with the same view.
    pub fn duplicate(&self) -> (r: PassDescription)
        ensures
            r@ == self@,
    {
        PassDescription {
            color_attachments: copy_refs(&self.color_attachments),
            depth_stencil: self.depth_stencil,
            input_attachments: copy_refs(&self.input_attachments),
            resolve_attachments: copy_refs(&self.resolve_attachments),
            preserve_attachments: copy_indices(&self.preserve_attachments),
        }
    }
}

} // verus!
