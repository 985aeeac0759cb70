//! Image-to-image commands: copies and multisample resolves. Each command
//! object validates its arguments when it is built.

use vstd::prelude::*;
use crate::format::Format;

verus! {

/// What a command reads of an image: an identity, its format, sample count and
/// extent in texels.
#[derive(Debug, Clone, Copy, PartialEq, Eq, Structural)]
pub struct ImageInfo {
    pub id: u64,
    pub format: Format,
    pub samples: u32,
    pub width: u32,
    pub height: u32,
}

/// A rectangle of texels, from an offset, of a given extent.
#[derive(Debug, Clone, Copy, PartialEq, Eq, Structural)]
pub struct Region {
    pub x: u32,
    pub y: u32,
    pub width: u32,
    pub height: u32,
}

pub open spec fn region_inside(r: Region, img: ImageInfo) -> bool {
    r.x + r.width <= img.width && r.y + r.height <= img.height
}

fn region_fits(r: Region, img: ImageInfo) -> (b: bool)
    ensures
        b == region_inside(r, img),
{
    r.width <= img.width && r.x <= img.width - r.width && r.height <= img.height && r.y <= img.height
        - r.height
}

/// The arguments shared by image copies and resolves: the two images, a region
/// of each, of the same extent.
#[derive(Debug, Clone, Copy, PartialEq, Eq, Structural)]
pub struct ImageTransferArgs {
    pub source: ImageInfo,
    pub source_region: Region,
    pub destination: ImageInfo,
    pub destination_x: u32,
    pub destination_y: u32,
}

pub open spec fn destination_region(a: ImageTransferArgs) -> Region {
    Region {
        x: a.destination_x,
        y: a.destination_y,
        width: a.source_region.width,
        height: a.source_region.height,
    }
}

#[derive(Debug, Clone, Copy, PartialEq, Eq, Structural)]
pub enum CmdImageError {
    /// The two images have different formats.
    FormatMismatch { source: Format, destination: Format },
    /// The two images of a copy have different sample counts.
    SamplesMismatch { source: u32, destination: u32 },
    /// The source of a resolve is single-sampled.
    SourceNotMultisampled,
    /// The destination of a resolve is multisampled.
    DestinationMultisampled,
    /// The region read runs past the source image.
    SourceRegionOutOfRange,
    /// The region written runs past the destination image.
    DestinationRegionOutOfRange,
}

pub open spec fn regions_error(a: ImageTransferArgs) -> Option<CmdImageError> {
    if !region_inside(a.source_region, a.source) {
        Some(CmdImageError::SourceRegionOutOfRange)
    } else if !region_inside(destination_region(a), a.destination) {
        Some(CmdImageError::DestinationRegionOutOfRange)
    } else {
        None
    }
}

pub open spec fn copy_image_error(a: ImageTransferArgs) -> Option<CmdImageError> {
    if a.source.format != a.destination.format {
        Some(CmdImageError::FormatMismatch { source: a.source.format, destination: a.destination.format })
    } else if a.source.samples != a.destination.samples {
        Some(CmdImageError::SamplesMismatch { source: a.source.samples, destination: a.destination.samples })
    } else {
        regions_error(a)
    }
}

pub open spec fn resolve_image_error(a: ImageTransferArgs) -> Option<CmdImageError> {
    if a.source.samples <= 1 {
        Some(CmdImageError::SourceNotMultisampled)
    } else if a.destination.samples != 1 {
        Some(CmdImageError::DestinationMultisampled)
    } else if a.source.format != a.destination.format {
        Some(CmdImageError::FormatMismatch { source: a.source.format, destination: a.destination.format })
    } else {
        regions_error(a)
    }
}

fn check_regions(a: &ImageTransferArgs) -> (r: Option<CmdImageError>)
    ensures
        r == regions_error(*a),
{
    if !region_fits(a.source_region, a.source) {
        return Some(CmdImageError::SourceRegionOutOfRange);
    }
    let d = Region { x: a.destination_x, y: a.destination_y, width: a.source_region.width, height: a.source_region.height };
    if !region_fits(d, a.destination) {
        return Some(CmdImageError::DestinationRegionOutOfRange);
    }
    None
}

/// A validated copy of a region between two images of one format.
#[derive(Debug, Clone, Copy)]
pub struct CmdCopyImage {
    args: ImageTransferArgs,
}

impl View for CmdCopyImage {
    type V = ImageTransferArgs;

    closed spec fn view(&self) -> ImageTransferArgs {
        self.args
    }
}

impl CmdCopyImage {
    pub fn new(args: ImageTransferArgs) -> (r: Result<CmdCopyImage, CmdImageError>)
        ensures
            match r {
                Ok(c) => copy_image_error(args) is None && c@ == args,
                Err(e) => copy_image_error(args) == Some(e),
            },
    {
        if args.source.format != args.destination.format {
            return Err(CmdImageError::FormatMismatch { source: args.source.format, destination: args.destination.format });
        }
        if args.source.samples != args.destination.samples {
            return Err(CmdImageError::SamplesMismatch { source: args.source.samples, destination: args.destination.samples });
        }
        match check_regions(&args) {
            Some(e) => Err(e),
            None => Ok(CmdCopyImage { args }),
        }
    }

    pub fn args(&self) -> (r: ImageTransferArgs)
        ensures
            r == self@,
    {
        self.args
    }

    pub open spec fn resources_spec(&self) -> Seq<u64> {
        seq![self@.source.id, self@.destination.id]
    }
}

/// A validated resolve of a multisampled region into a single-sampled image.
#[derive(Debug, Clone, Copy)]
pub struct CmdResolveImage {
    args: ImageTransferArgs,
}

impl View for CmdResolveImage {
    type V = ImageTransferArgs;

    closed spec fn view(&self) -> ImageTransferArgs {
        self.args
    }
}

impl CmdResolveImage {
    pub fn new(args: ImageTransferArgs) -> (r: Result<CmdResolveImage, CmdImageError>)
        ensures
            match r {
                Ok(c) => resolve_image_error(args) is None && c@ == args,
                Err(e) => resolve_image_error(args) == Some(e),
            },
    {
        if args.source.samples <= 1 {
            return Err(CmdImageError::SourceNotMultisampled);
        }
        if args.destination.samples != 1 {
            return Err(CmdImageError::DestinationMultisampled);
        }
        if args.source.format != args.destination.format {
            return Err(CmdImageError::FormatMismatch { source: args.source.format, destination: args.destination.format });
        }
        match check_regions(&args) {
            Some(e) => Err(e),
            None => Ok(CmdResolveImage { args }),
        }
    }

    pub fn args(&self) -> (r: ImageTransferArgs)
        ensures
            r == self@,
    {
        self.args
    }

    pub open spec fn resources_spec(&self) -> Seq<u64> {
        seq![self@.source.id, self@.destination.id]
    }
}

} // verus!
