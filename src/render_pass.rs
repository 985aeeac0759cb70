//! The render-pass description capability and the queries derived from it.

use vstd::prelude::*;
use crate::desc::{
    description_valid, AttachmentDescription, AttachmentRef, PassDependencyDescription,
    PassDescription, PassDescriptionView,
};
use crate::format::{has_depth_aspect, has_stencil_aspect, ImageLayout};

verus! {

/// The attachments a subpass draws into: its color attachments, then its
/// depth-stencil attachment if it has one.
pub open spec fn used_refs(p: PassDescriptionView) -> Seq<AttachmentRef> {
    match p.depth_stencil {
        Some(r) => p.color_attachments.push(r),
        None => p.color_attachments,
    }
}

pub open spec fn samples_agree(
    atts: Seq<AttachmentDescription>,
    refs: Seq<AttachmentRef>,
    s: u32,
) -> bool {
    forall|i: int| 0 <= i < refs.len() ==> atts[(#[trigger] refs[i]).index as int].samples == s
}

pub open spec fn num_color_attachments_spec(subs: Seq<PassDescriptionView>, subpass: u32) -> Option<u32> {
    if subpass < subs.len() {
        Some(subs[subpass as int].color_attachments.len() as u32)
    } else {
        None
    }
}

/// The sample count shared by every attachment the subpass draws into; none when
/// the subpass does not exist, draws into nothing, or its attachments disagree.
pub open spec fn num_samples_spec(
    atts: Seq<AttachmentDescription>,
    subs: Seq<PassDescriptionView>,
    subpass: u32,
) -> Option<u32> {
    if subpass < subs.len() {
        let refs = used_refs(subs[subpass as int]);
        if refs.len() == 0 {
            None
        } else {
            let s = atts[refs[0].index as int].samples;
            if samples_agree(atts, refs, s) {
                Some(s)
            } else {
                None
            }
        }
    } else {
        None
    }
}

/// Whether the subpass's depth-stencil attachment has a depth and a stencil aspect.
pub open spec fn depth_stencil_spec(
    atts: Seq<AttachmentDescription>,
    subs: Seq<PassDescriptionView>,
    subpass: u32,
) -> Option<(bool, bool)> {
    if subpass < subs.len() {
        match subs[subpass as int].depth_stencil {
            Some(r) => Some(
                (
                    has_depth_aspect(atts[r.index as int].format),
                    has_stencil_aspect(atts[r.index as int].format),
                ),
            ),
            None => Some((false, false)),
        }
    } else {
        None
    }
}

/// Whether the subpass's depth-stencil attachment is written: it has the aspect
/// and is not in the read-only layout.
pub open spec fn writable_spec(
    atts: Seq<AttachmentDescription>,
    subs: Seq<PassDescriptionView>,
    subpass: u32,
    stencil: bool,
) -> Option<bool> {
    if subpass < subs.len() {
        match subs[subpass as int].depth_stencil {
            Some(r) => Some(
                r.layout != ImageLayout::DepthStencilReadOnlyOptimal && if stencil {
                    has_stencil_aspect(atts[r.index as int].format)
                } else {
                    has_depth_aspect(atts[r.index as int].format)
                },
            ),
            None => Some(false),
        }
    } else {
        None
    }
}

/// A description of a render pass: its attachments, subpasses and dependencies,
/// enumerated by index.
///
/// Implementors state their contents through the three spec functions and prove
/// that these form a valid pass; the derived queries then come for free.
pub trait RenderPassDesc {
    spec fn attachments_view(&self) -> Seq<AttachmentDescription>;

    spec fn subpasses_view(&self) -> Seq<PassDescriptionView>;

    spec fn dependencies_view(&self) -> Seq<PassDependencyDescription>;

    /// The contents form a valid render pass.
    proof fn lemma_description_valid(&self)
        ensures
            description_valid(
                self.attachments_view(),
                self.subpasses_view(),
                self.dependencies_view(),
            ),
    ;

    fn num_attachments(&self) -> (r: usize)
        ensures
            r == self.attachments_view().len(),
    ;

    fn attachment_desc(&self, num: usize) -> (r: Option<AttachmentDescription>)
        ensures
            r == (if num < self.attachments_view().len() {
                Some(self.attachments_view()[num as int])
            } else {
                None
            }),
    ;

    fn num_subpasses(&self) -> (r: usize)
        ensures
            r == self.subpasses_view().len(),
    ;

    fn subpass_desc(&self, num: usize) -> (r: Option<PassDescription>)
        ensures
            match r {
                Some(p) => num < self.subpasses_view().len() && p@ == self.subpasses_view()[num as int],
                None => num >= self.subpasses_view().len(),
            },
    ;

    fn num_dependencies(&self) -> (r: usize)
        ensures
            r == self.dependencies_view().len(),
    ;

    fn dependency_desc(&self, num: usize) -> (r: Option<PassDependencyDescription>)
        ensures
            r == (if num < self.dependencies_view().len() {
                Some(self.dependencies_view()[num as int])
            } else {
                None
            }),
    ;

    /// Number of color attachments of a subpass.
    fn num_color_attachments(&self, subpass: u32) -> (r: Option<u32>)
        ensures
            r == num_color_attachments_spec(self.subpasses_view(), subpass),
    {
        proof {
            self.lemma_description_valid();
        }
        match self.subpass_desc(subpass as usize) {
            Some(p) => {
                assert(crate::desc::pass_valid(self.subpasses_view()[subpass as int], self.attachments_view().len()));
                Some(p.color_attachments.len() as u32)
            },
            None => None,
        }
    }

    /// Sample count of the attachments a subpass draws into.
    fn num_samples(&self, subpass: u32) -> (r: Option<u32>)
        ensures
            r == num_samples_spec(self.attachments_view(), self.subpasses_view(), subpass),
    {
        proof {
            self.lemma_description_valid();
        }
        let p = match self.subpass_desc(subpass as usize) {
            Some(p) => p,
            None => {
                return None;
            },
        };
        let ghost atts = self.attachments_view();
        let ghost pv = self.subpasses_view()[subpass as int];
        assert(crate::desc::pass_valid(pv, atts.len()));
        let ghost refs = used_refs(pv);
        assert(forall|i: int| 0 <= i < refs.len() ==> (#[trigger] refs[i]).index < atts.len()) by {
            assert forall|i: int| 0 <= i < refs.len() implies (#[trigger] refs[i]).index < atts.len() by {
                if i < pv.color_attachments.len() {
                    assert(refs[i] == pv.color_attachments[i]);
                }
            }
        }
        let first = if p.color_attachments.len() > 0 {
            p.color_attachments[0]
        } else {
            match p.depth_stencil {
                Some(r) => r,
                None => {
                    return None;
                },
            }
        };
        assert(first == refs[0]);
        let s = match self.attachment_desc(first.index) {
            Some(a) => a.samples,
            None => {
                return None;
            },
        };
        let mut i: usize = 0;
        while i < p.color_attachments.len()
            invariant
                p@ == pv,
                subpass < self.subpasses_view().len(),
                pv == self.subpasses_view()[subpass as int],
                refs == used_refs(pv),
                atts == self.attachments_view(),
                forall|j: int| 0 <= j < refs.len() ==> (#[trigger] refs[j]).index < atts.len(),
                i <= pv.color_attachments.len(),
                refs.len() > 0,
                s == atts[refs[0].index as int].samples,
                forall|j: int| 0 <= j < i ==> atts[(#[trigger] refs[j]).index as int].samples == s,
            decreases pv.color_attachments.len() - i,
        {
            let r = p.color_attachments[i];
            assert(refs[i as int] == r);
            match self.attachment_desc(r.index) {
                Some(a) => {
                    if a.samples != s {
                        assert(!samples_agree(atts, refs, s));
                        return None;
                    }
                },
                None => {
                    return None;
                },
            }
            i += 1;
        }
        match p.depth_stencil {
            Some(r) => {
                assert(refs[pv.color_attachments.len() as int] == r);
                match self.attachment_desc(r.index) {
                    Some(a) => {
                        if a.samples != s {
                            assert(!samples_agree(atts, refs, s));
                            return None;
                        }
                    },
                    None => {
                        return None;
                    },
                }
            },
            None => {},
        }
        Some(s)
    }

    /// Whether a subpass's depth-stencil attachment has a depth and a stencil aspect.
    fn has_depth_stencil_attachment(&self, subpass: u32) -> (r: Option<(bool, bool)>)
        ensures
            r == depth_stencil_spec(self.attachments_view(), self.subpasses_view(), subpass),
    {
        proof {
            self.lemma_description_valid();
        }
        match self.subpass_desc(subpass as usize) {
            Some(p) => {
                assert(crate::desc::pass_valid(self.subpasses_view()[subpass as int], self.attachments_view().len()));
                match p.depth_stencil {
                    Some(ds) => match self.attachment_desc(ds.index) {
                        Some(a) => Some((a.format.has_depth(), a.format.has_stencil())),
                        None => None,
                    },
                    None => Some((false, false)),
                }
            },
            None => None,
        }
    }

    /// Whether a subpass has a depth attachment.
    fn has_depth(&self, subpass: u32) -> (r: Option<bool>)
        ensures
            r == (match depth_stencil_spec(self.attachments_view(), self.subpasses_view(), subpass) {
                Some(ds) => Some(ds.0),
                None => None,
            }),
    {
        match self.has_depth_stencil_attachment(subpass) {
            Some(ds) => Some(ds.0),
            None => None,
        }
    }

    /// Whether a subpass has a stencil attachment.
    fn has_stencil(&self, subpass: u32) -> (r: Option<bool>)
        ensures
            r == (match depth_stencil_spec(self.attachments_view(), self.subpasses_view(), subpass) {
                Some(ds) => Some(ds.1),
                None => None,
            }),
    {
        match self.has_depth_stencil_attachment(subpass) {
            Some(ds) => Some(ds.1),
            None => None,
        }
    }

    /// Whether a subpass writes to its depth attachment.
    fn has_writable_depth(&self, subpass: u32) -> (r: Option<bool>)
        ensures
            r == writable_spec(self.attachments_view(), self.subpasses_view(), subpass, false),
    {
        proof {
            self.lemma_description_valid();
        }
        match self.subpass_desc(subpass as usize) {
            Some(p) => {
                assert(crate::desc::pass_valid(self.subpasses_view()[subpass as int], self.attachments_view().len()));
                match p.depth_stencil {
                    Some(ds) => {
                        if ds.layout == ImageLayout::DepthStencilReadOnlyOptimal {
                            return Some(false);
                        }
                        match self.attachment_desc(ds.index) {
                            Some(a) => Some(a.format.has_depth()),
                            None => None,
                        }
                    },
                    None => Some(false),
                }
            },
            None => None,
        }
    }

    /// Whether a subpass writes to its stencil attachment.
    fn has_writable_stencil(&self, subpass: u32) -> (r: Option<bool>)
        ensures
            r == writable_spec(self.attachments_view(), self.subpasses_view(), subpass, true),
    {
        proof {
            self.lemma_description_valid();
        }
        match self.subpass_desc(subpass as usize) {
            Some(p) => {
                assert(crate::desc::pass_valid(self.subpasses_view()[subpass as int], self.attachments_view().len()));
                match p.depth_stencil {
                    Some(ds) => {
                        if ds.layout == ImageLayout::DepthStencilReadOnlyOptimal {
                            return Some(false);
                        }
                        match self.attachment_desc(ds.index) {
                            Some(a) => Some(a.format.has_stencil()),
                            None => None,
                        }
                    },
                    None => Some(false),
                }
            },
            None => None,
        }
    }

    /// All attachment descriptions, collected by index until the first absent one.
    fn attachment_descs(&self) -> (r: Vec<AttachmentDescription>)
        ensures
            r@ == self.attachments_view(),
    {
        let n = self.num_attachments();
        let mut r: Vec<AttachmentDescription> = Vec::new();
        let mut i: usize = 0;
        loop
            invariant
                n == self.attachments_view().len(),
                i <= n,
                r@ == self.attachments_view().subrange(0, i as int),
            ensures
                i == n,
            decreases n - i,
        {
            match self.attachment_desc(i) {
                Some(a) => {
                    r.push(a);
                    i += 1;
                    assert(r@ =~= self.attachments_view().subrange(0, i as int));
                },
                None => {
                    break;
                },
            }
        }
        assert(r@ =~= self.attachments_view());
        r
    }

    /// All subpass descriptions, collected by index until the first absent one.
    fn subpass_descs(&self) -> (r: Vec<PassDescription>)
        ensures
            r@.len() == self.subpasses_view().len(),
            forall|i: int| 0 <= i < r@.len() ==> (#[trigger] r@[i])@ == self.subpasses_view()[i],
    {
        let n = self.num_subpasses();
        let mut r: Vec<PassDescription> = Vec::new();
        let mut i: usize = 0;
        loop
            invariant
                n == self.subpasses_view().len(),
                i <= n,
                r@.len() == i,
                forall|j: int| 0 <= j < i ==> (#[trigger] r@[j])@ == self.subpasses_view()[j],
            ensures
                i == n,
            decreases n - i,
        {
            match self.subpass_desc(i) {
                Some(p) => {
                    r.push(p);
                    i += 1;
                },
                None => {
                    break;
                },
            }
        }
        r
    }

    /// All dependency descriptions, collected by index until the first absent one.
    fn dependency_descs(&self) -> (r: Vec<PassDependencyDescription>)
        ensures
            r@ == self.dependencies_view(),
    {
        let n = self.num_dependencies();
        let mut r: Vec<PassDependencyDescription> = Vec::new();
        let mut i: usize = 0;
        loop
            invariant
                n == self.dependencies_view().len(),
                i <= n,
                r@ == self.dependencies_view().subrange(0, i as int),
            ensures
                i == n,
            decreases n - i,
        {
            match self.dependency_desc(i) {
                Some(d) => {
                    r.push(d);
                    i += 1;
                    assert(r@ =~= self.dependencies_view().subrange(0, i as int));
                },
                None => {
                    break;
                },
            }
        }
        assert(r@ =~= self.dependencies_view());
        r
    }
}


/// What `attachment_desc` returns for an index.
pub open spec fn attachment_at<D: RenderPassDesc>(d: &D, i: int) -> Option<AttachmentDescription> {
    if 0 <= i < d.attachments_view().len() {
        Some(d.attachments_view()[i])
    } else {
        None
    }
}

/// The view of what `subpass_desc` returns for an index.
pub open spec fn subpass_at<D: RenderPassDesc>(d: &D, i: int) -> Option<PassDescriptionView> {
    if 0 <= i < d.subpasses_view().len() {
        Some(d.subpasses_view()[i])
    } else {
        None
    }
}

/// What `dependency_desc` returns for an index.
pub open spec fn dependency_at<D: RenderPassDesc>(d: &D, i: int) -> Option<PassDependencyDescription> {
    if 0 <= i < d.dependencies_view().len() {
        Some(d.dependencies_view()[i])
    } else {
        None
    }
}

/// For every description, enumerating attachments, subpasses and dependencies
/// by index yields an entry at every index below the matching count and none at
/// the count itself; and every description has at least one subpass.
pub proof fn lemma_enumeration_bounded_by_counts<D: RenderPassDesc>(d: &D)
    ensures
        forall|i: int| 0 <= i < d.attachments_view().len() ==> (#[trigger] attachment_at(d, i)) is Some,
        attachment_at(d, d.attachments_view().len() as int) is None,
        forall|i: int| 0 <= i < d.subpasses_view().len() ==> (#[trigger] subpass_at(d, i)) is Some,
        subpass_at(d, d.subpasses_view().len() as int) is None,
        subpass_at(d, 0) is Some,
        forall|i: int| 0 <= i < d.dependencies_view().len() ==> (#[trigger] dependency_at(d, i)) is Some,
        dependency_at(d, d.dependencies_view().len() as int) is None,
{
    d.lemma_description_valid();
}

} // verus!
