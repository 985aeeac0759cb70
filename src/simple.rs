//! A render-pass description held as lists, checked once when it is built.

use vstd::prelude::*;
use crate::desc::{
    dependency_valid, description_valid, empty_pass_view, pass_valid, refs_in_range, AttachmentDescription,
    AttachmentRef, PassDependencyDescription, PassDescription, PassDescriptionView,
    SUBPASS_EXTERNAL,
};
use crate::render_pass::RenderPassDesc;

verus! {

/// A render-pass description with any number of attachments, subpasses and
/// dependencies.
#[derive(Debug)]
pub struct RenderPassDescription {
    attachments: Vec<AttachmentDescription>,
    subpasses: Vec<PassDescription>,
    dependencies: Vec<PassDependencyDescription>,
}

/// Why lists of attachments, subpasses and dependencies do not form a render pass.
#[derive(Debug, Clone, Copy, PartialEq, Eq, Structural)]
pub enum RenderPassDescError {
    /// A render pass needs at least one subpass.
    NoSubpass,
    /// A subpass refers to an attachment that does not exist, has a resolve list
    /// that is not parallel to its color list, or too many color attachments.
    InvalidSubpass { subpass: usize },
    /// A dependency refers to a subpass that does not exist.
    InvalidDependency { dependency: usize },
}

pub open spec fn subpass_views(subs: Seq<PassDescription>) -> Seq<PassDescriptionView> {
    subs.map_values(|p: PassDescription| p@)
}

fn refs_valid(v: &Vec<AttachmentRef>, n: usize) -> (r: bool)
    ensures
        r == refs_in_range(v@, n as nat),
{
    let mut i: usize = 0;
    while i < v.len()
        invariant
            i <= v@.len(),
            forall|j: int| 0 <= j < i ==> (#[trigger] v@[j]).index < n,
        decreases v@.len() - i,
    {
        if v[i].index >= n {
            return false;
        }
        i += 1;
    }
    true
}

fn pass_is_valid(p: &PassDescription, n: usize) -> (r: bool)
    ensures
        r == pass_valid(p@, n as nat),
{
    if !refs_valid(&p.color_attachments, n) || !refs_valid(&p.input_attachments, n)
        || !refs_valid(&p.resolve_attachments, n) {
        return false;
    }
    let mut i: usize = 0;
    while i < p.preserve_attachments.len()
        invariant
            i <= p.preserve_attachments@.len(),
            forall|j: int| 0 <= j < i ==> (#[trigger] p.preserve_attachments@[j]) < n,
        decreases p.preserve_attachments@.len() - i,
    {
        if p.preserve_attachments[i] >= n {
            assert(p@.preserve_attachments[i as int] >= n);
            return false;
        }
        i += 1;
    }
    match p.depth_stencil {
        Some(r) => {
            if r.index >= n {
                return false;
            }
        },
        None => {},
    }
    if p.resolve_attachments.len() != 0 && p.resolve_attachments.len() != p.color_attachments.len() {
        return false;
    }
    p.color_attachments.len() <= 0xffff_ffff
}

fn dependency_is_valid(d: &PassDependencyDescription, num_subpasses: usize) -> (r: bool)
    ensures
        r == dependency_valid(*d, num_subpasses as nat),
{
    (d.source_subpass < num_subpasses || d.source_subpass == SUBPASS_EXTERNAL)
        && (d.destination_subpass < num_subpasses || d.destination_subpass == SUBPASS_EXTERNAL)
}

impl RenderPassDescription {
    #[verifier::type_invariant]
    spec fn well_formed(self) -> bool {
        description_valid(self.attachments@, subpass_views(self.subpasses@), self.dependencies@)
    }

    /// Builds a description, checking that it has a subpass and that every index
    /// it holds refers to something that exists.
    pub fn new(
        attachments: Vec<AttachmentDescription>,
        subpasses: Vec<PassDescription>,
        dependencies: Vec<PassDependencyDescription>,
    ) -> (r: Result<RenderPassDescription, RenderPassDescError>)
        ensures
            r is Ok <==> description_valid(attachments@, subpass_views(subpasses@), dependencies@),
            r matches Ok(d) ==> d.attachments_view() == attachments@ && d.subpasses_view()
                == subpass_views(subpasses@) && d.dependencies_view() == dependencies@,
            r == Err::<RenderPassDescription, _>(RenderPassDescError::NoSubpass) <==> subpasses@.len() == 0,
            r matches Err(RenderPassDescError::InvalidSubpass { subpass }) ==> subpass < subpasses@.len()
                && !pass_valid(subpasses@[subpass as int]@, attachments@.len()),
            r matches Err(RenderPassDescError::InvalidDependency { dependency }) ==> dependency
                < dependencies@.len() && !dependency_valid(dependencies@[dependency as int], subpasses@.len()),
    {
        if subpasses.len() == 0 {
            return Err(RenderPassDescError::NoSubpass);
        }
        let ghost subs = subpass_views(subpasses@);
        let mut i: usize = 0;
        while i < subpasses.len()
            invariant
                subs == subpass_views(subpasses@),
                i <= subpasses@.len(),
                forall|j: int| 0 <= j < i ==> pass_valid(#[trigger] subs[j], attachments@.len()),
            decreases subpasses@.len() - i,
        {
            assert(subs[i as int] == subpasses@[i as int]@);
            if !pass_is_valid(&subpasses[i], attachments.len()) {
                return Err(RenderPassDescError::InvalidSubpass { subpass: i });
            }
            i += 1;
        }
        let mut k: usize = 0;
        while k < dependencies.len()
            invariant
                k <= dependencies@.len(),
                subpasses@.len() > 0,
                forall|j: int| 0 <= j < k ==> dependency_valid(#[trigger] dependencies@[j], subpasses@.len()),
            decreases dependencies@.len() - k,
        {
            if !dependency_is_valid(&dependencies[k], subpasses.len()) {
                return Err(RenderPassDescError::InvalidDependency { dependency: k });
            }
            k += 1;
        }
        Ok(RenderPassDescription { attachments, subpasses, dependencies })
    }
}

impl RenderPassDescription {
    /// The lists as they are held; a built description always satisfies the
    /// shape rules, so the views below are these lists.
    closed spec fn held_valid(&self) -> bool {
        description_valid(self.attachments@, subpass_views(self.subpasses@), self.dependencies@)
    }
}

impl RenderPassDesc for RenderPassDescription {
    closed spec fn attachments_view(&self) -> Seq<AttachmentDescription> {
        if self.held_valid() {
            self.attachments@
        } else {
            Seq::empty()
        }
    }

    closed spec fn subpasses_view(&self) -> Seq<PassDescriptionView> {
        if self.held_valid() {
            subpass_views(self.subpasses@)
        } else {
            seq![empty_pass_view()]
        }
    }

    closed spec fn dependencies_view(&self) -> Seq<PassDependencyDescription> {
        if self.held_valid() {
            self.dependencies@
        } else {
            Seq::empty()
        }
    }

    proof fn lemma_description_valid(&self) {
        if self.held_valid() {
            assert(self.attachments_view() == self.attachments@);
            assert(self.subpasses_view() == subpass_views(self.subpasses@));
            assert(self.dependencies_view() == self.dependencies@);
        } else {
            let fallback = seq![empty_pass_view()];
            assert(fallback[0] == empty_pass_view());
            assert(pass_valid(empty_pass_view(), 0));
            assert(self.subpasses_view() == fallback);
            assert(self.attachments_view().len() == 0);
            assert(self.dependencies_view().len() == 0);
        }
    }

    fn num_attachments(&self) -> (r: usize) {
        proof {
            use_type_invariant(self);
        }
        self.attachments.len()
    }

    fn attachment_desc(&self, num: usize) -> (r: Option<AttachmentDescription>) {
        proof {
            use_type_invariant(self);
        }
        if num < self.attachments.len() {
            Some(self.attachments[num])
        } else {
            None
        }
    }

    fn num_subpasses(&self) -> (r: usize) {
        proof {
            use_type_invariant(self);
        }
        self.subpasses.len()
    }

    fn subpass_desc(&self, num: usize) -> (r: Option<PassDescription>) {
        proof {
            use_type_invariant(self);
        }
        if num < self.subpasses.len() {
            Some(self.subpasses[num].duplicate())
        } else {
            None
        }
    }

    fn num_dependencies(&self) -> (r: usize) {
        proof {
            use_type_invariant(self);
        }
        self.dependencies.len()
    }

    fn dependency_desc(&self, num: usize) -> (r: Option<PassDependencyDescription>) {
        proof {
            use_type_invariant(self);
        }
        if num < self.dependencies.len() {
            Some(self.dependencies[num])
        } else {
            None
        }
    }
}

} // verus!
