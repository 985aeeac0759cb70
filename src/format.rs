//! Image formats, layouts, load/store operations and clear values.

use vstd::prelude::*;

verus! {

/// An image format, reduced to what the render-pass logic reads of it.
#[derive(Debug, Clone, Copy, PartialEq, Eq, Structural)]
pub enum Format {
    R8G8B8A8Unorm,
    R8G8B8A8Srgb,
    B8G8R8A8Unorm,
    B8G8R8A8Srgb,
    R16G16B16A16Uint,
    D16Unorm,
    X8D24UnormPack32,
    D32Sfloat,
    S8Uint,
    D16UnormS8Uint,
    D24UnormS8Uint,
    D32SfloatS8Uint,
}

/// The aspect family a format belongs to.
#[derive(Debug, Clone, Copy, PartialEq, Eq, Structural)]
pub enum FormatTy {
    Color,
    Depth,
    Stencil,
    DepthStencil,
}

pub open spec fn format_ty_spec(f: Format) -> FormatTy {
    match f {
        Format::D16Unorm | Format::X8D24UnormPack32 | Format::D32Sfloat => FormatTy::Depth,
        Format::S8Uint => FormatTy::Stencil,
        Format::D16UnormS8Uint | Format::D24UnormS8Uint | Format::D32SfloatS8Uint => FormatTy::DepthStencil,
        _ => FormatTy::Color,
    }
}

/// True when images of this format carry a depth aspect.
pub open spec fn has_depth_aspect(f: Format) -> bool {
    format_ty_spec(f) == FormatTy::Depth || format_ty_spec(f) == FormatTy::DepthStencil
}

/// True when images of this format carry a stencil aspect.
pub open spec fn has_stencil_aspect(f: Format) -> bool {
    format_ty_spec(f) == FormatTy::Stencil || format_ty_spec(f) == FormatTy::DepthStencil
}

impl Format {
    /// The aspect family of the format.
    pub fn ty(&self) -> (r: FormatTy)
        ensures
            r == format_ty_spec(*self),
    {
        match self {
            Format::D16Unorm | Format::X8D24UnormPack32 | Format::D32Sfloat => FormatTy::Depth,
            Format::S8Uint => FormatTy::Stencil,
            Format::D16UnormS8Uint | Format::D24UnormS8Uint | Format::D32SfloatS8Uint => FormatTy::DepthStencil,
            _ => FormatTy::Color,
        }
    }

    pub fn has_depth(&self) -> (r: bool)
        ensures
            r == has_depth_aspect(*self),
    {
        let t = self.ty();
        match t {
            FormatTy::Depth | FormatTy::DepthStencil => true,
            _ => false,
        }
    }

    pub fn has_stencil(&self) -> (r: bool)
        ensures
            r == has_stencil_aspect(*self),
    {
        let t = self.ty();
        match t {
            FormatTy::Stencil | FormatTy::DepthStencil => true,
            _ => false,
        }
    }
}

/// The layout an image is in while a render pass uses it.
#[derive(Debug, Clone, Copy, PartialEq, Eq, Structural)]
pub enum ImageLayout {
    Undefined,
    General,
    ColorAttachmentOptimal,
    DepthStencilAttachmentOptimal,
    DepthStencilReadOnlyOptimal,
    ShaderReadOnlyOptimal,
    TransferSrcOptimal,
    TransferDstOptimal,
    Preinitialized,
    PresentSrc,
}

/// What happens to an attachment's contents when a render pass begins.
#[derive(Debug, Clone, Copy, PartialEq, Eq, Structural)]
pub enum LoadOp {
    Load,
    Clear,
    DontCare,
}

/// What happens to an attachment's contents when a render pass ends.
#[derive(Debug, Clone, Copy, PartialEq, Eq, Structural)]
pub enum StoreOp {
    Store,
    DontCare,
}

/// The value an attachment is cleared to when a render pass begins.
///
/// Floating-point components are held as their IEEE-754 bit patterns.
#[derive(Debug, Clone, Copy, PartialEq, Eq, Structural)]
pub enum ClearValue {
    /// No clear value: the attachment is not cleared on load.
    NoClear,
    ColorBits(u32, u32, u32, u32),
    Int(i32, i32, i32, i32),
    Uint(u32, u32, u32, u32),
    DepthBits(u32),
    Stencil(u32),
    DepthStencilBits(u32, u32),
}

} // verus!
