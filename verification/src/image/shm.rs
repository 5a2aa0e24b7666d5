//! Images in shared memory.
//!
//! Such an image is built in a chain: an image header is created, a shared
//! memory segment of its size is created, the segment is mapped, and the
//! server is told to attach it. Each link can fail. The types of this module
//! walk the chain one link at a time and say, for a failure at any link,
//! exactly what was acquired before it and must now be released.

use crate::handle::Handle;
use vstd::prelude::*;

verus! {

/// The image format in which each pixel is stored whole.
pub const IMAGE_FORMAT_Z_PIXMAP: u32 = 2;

/// The access rights of a new segment: read and write for everyone.
pub const SEGMENT_MODE: i32 = 0o666;

/// One pixmap format of the server.
#[derive(Clone, Copy, Debug, PartialEq, Eq, Structural)]
pub struct Format {
    pub depth: u8,
    pub bits_per_pixel: u8,
    pub scanline_pad: u8,
}

/// What the set-up data of the server says about images.
#[derive(Clone, Debug, PartialEq, Eq)]
pub struct Setup {
    pub pixmap_formats: Vec<Format>,
    pub bitmap_format_scanline_unit: u8,
    pub image_byte_order: u8,
    pub bitmap_format_bit_order: u8,
}

/// First link: the header to create. It has no pixel memory of its own.
#[derive(Clone, Copy, Debug, PartialEq, Eq, Structural)]
pub struct CreateImage {
    pub width: u16,
    pub height: u16,
    pub format: u32,
    pub scanline_pad: u8,
    pub depth: u8,
    pub bits_per_pixel: u8,
    pub unit: u8,
    pub byte_order: u32,
    pub bit_order: u32,
}

/// Second link: the segment to create. The header is held.
#[derive(Clone, Copy, Debug, PartialEq, Eq, Structural)]
pub struct GetSegment {
    pub width: u16,
    pub height: u16,
    /// The size of the segment in bytes: the size of the image.
    pub size: usize,
    /// The access rights of the segment.
    pub mode: i32,
}

/// Third link: the segment to map. The header and the segment are held.
#[derive(Clone, Copy, Debug, PartialEq, Eq, Structural)]
pub struct AttachSegment {
    pub width: u16,
    pub height: u16,
    pub id: i32,
}

/// What a failed link leaves to release, in this order: the header first,
/// the segment second.
#[derive(Clone, Copy, Debug, PartialEq, Eq, Structural)]
pub struct Failure {
    /// The header is to be destroyed.
    pub destroy_image: bool,
    /// The segment with this identifier is to be removed.
    pub remove_segment: Option<i32>,
}

/// An image whose pixels lie in a shared memory segment.
#[derive(Clone, Copy, Debug, PartialEq, Eq, Structural)]
pub struct Image {
    /// The name of the segment on the server.
    pub shmseg: u32,
    /// The identifier of the segment.
    pub shmid: u32,
    /// Where the segment is mapped.
    pub shmaddr: usize,
    /// The width that the segment has room for.
    pub width: u16,
    /// The height that the segment has room for.
    pub height: u16,
}

/// One step of releasing an image.
#[derive(Clone, Copy, Debug, PartialEq, Eq, Structural)]
pub enum Release {
    /// The server detaches the segment.
    Detach { shmseg: u32 },
    /// The mapping of the segment is removed.
    Unmap { shmaddr: usize },
    /// The segment is marked for removal.
    Remove { shmid: u32 },
}

/// `true` when `formats[index]` is the first format of depth `depth`.
pub open spec fn first_of_depth(formats: Seq<Format>, depth: u8, index: int) -> bool {
    &&& 0 <= index < formats.len()
    &&& formats[index].depth == depth
    &&& forall|k: int| 0 <= k < index ==> formats[k].depth != depth
}

/// `true` when some format of `formats` has depth `depth`.
pub open spec fn has_depth(formats: Seq<Format>, depth: u8) -> bool {
    exists|k: int| 0 <= k < formats.len() && formats[k].depth == depth
}

/// The first pixmap format of depth `depth`, if the server has one.
pub fn find_format(formats: &[Format], depth: u8) -> (found: Option<Format>)
    ensures
        found is Some <==> has_depth(formats@, depth),
        found is Some ==> exists|index: int|
            first_of_depth(formats@, depth, index) && formats@[index] == found->Some_0,
{
    let mut i: usize = 0;
    while i < formats.len()
        invariant
            i <= formats.len(),
            forall|k: int| 0 <= k < i ==> formats@[k].depth != depth,
        decreases formats.len() - i,
    {
        if formats[i].depth == depth {
            proof {
                assert(first_of_depth(formats@, depth, i as int));
            }
            return Some(formats[i]);
        }
        i += 1;
    }
    None
}

/// Starts the chain for an image of `width` by `height` pixels of depth
/// `depth`: the header to create, or an error where the server has no pixmap
/// format of that depth. Nothing is held yet.
pub fn create(setup: &Setup, depth: u8, width: u16, height: u16) -> (link: Result<CreateImage, ()>)
    ensures
        link is Ok <==> has_depth(setup.pixmap_formats@, depth),
        link is Ok ==> exists|index: int|
            first_of_depth(setup.pixmap_formats@, depth, index) && link->Ok_0 == (CreateImage {
                width,
                height,
                format: IMAGE_FORMAT_Z_PIXMAP,
                scanline_pad: setup.pixmap_formats@[index].scanline_pad,
                depth: setup.pixmap_formats@[index].depth,
                bits_per_pixel: setup.pixmap_formats@[index].bits_per_pixel,
                unit: setup.bitmap_format_scanline_unit,
                byte_order: setup.image_byte_order as u32,
                bit_order: setup.bitmap_format_bit_order as u32,
            }),
{
    match find_format(setup.pixmap_formats.as_slice(), depth) {
        None => Err(()),
        Some(format) => Ok(
            CreateImage {
                width,
                height,
                format: IMAGE_FORMAT_Z_PIXMAP,
                scanline_pad: format.scanline_pad,
                depth: format.depth,
                bits_per_pixel: format.bits_per_pixel,
                unit: setup.bitmap_format_scanline_unit,
                byte_order: setup.image_byte_order as u32,
                bit_order: setup.bitmap_format_bit_order as u32,
            },
        ),
    }
}

impl CreateImage {
    /// What follows this link when `size` is the size in bytes of the header
    /// that was created, or `None` where none was.
    pub open spec fn spec_created(self, size: Option<u32>) -> Result<GetSegment, Failure> {
        match size {
            None => Err(Failure { destroy_image: false, remove_segment: None }),
            Some(bytes) => Ok(
                GetSegment {
                    width: self.width,
                    height: self.height,
                    size: bytes as usize,
                    mode: SEGMENT_MODE,
                },
            ),
        }
    }

    /// Moves on after the header was asked for. `size` is the size in bytes
    /// of the image that was created, or `None` where none was: the chain
    /// then fails with nothing to release.
    pub fn created(self, size: Option<u32>) -> (link: Result<GetSegment, Failure>)
        ensures
            link == self.spec_created(size),
    {
        match size {
            None => Err(Failure { destroy_image: false, remove_segment: None }),
            Some(bytes) => Ok(
                GetSegment {
                    width: self.width,
                    height: self.height,
                    size: bytes as usize,
                    mode: SEGMENT_MODE,
                },
            ),
        }
    }
}

impl GetSegment {
    /// What follows this link when `id` is what asking for the segment gave.
    pub open spec fn spec_got(self, id: i32) -> Result<AttachSegment, Failure> {
        if id == -1 {
            Err(Failure { destroy_image: true, remove_segment: None })
        } else {
            Ok(AttachSegment { width: self.width, height: self.height, id })
        }
    }

    /// Moves on after the segment was asked for. `id` is what the system
    /// gave: -1 where it gave no segment, and then the header is released.
    pub fn got(self, id: i32) -> (link: Result<AttachSegment, Failure>)
        ensures
            link == self.spec_got(id),
    {
        if id == -1 {
            Err(Failure { destroy_image: true, remove_segment: None })
        } else {
            Ok(AttachSegment { width: self.width, height: self.height, id })
        }
    }
}

impl AttachSegment {
    /// What ends the chain when `address` is what mapping the segment gave.
    pub open spec fn spec_attached(self, shmseg: u32, address: isize) -> Result<Image, Failure> {
        if address == -1 {
            Err(Failure { destroy_image: true, remove_segment: Some(self.id) })
        } else {
            Ok(
                Image {
                    shmseg,
                    shmid: self.id as u32,
                    shmaddr: address as usize,
                    width: self.width,
                    height: self.height,
                },
            )
        }
    }

    /// Ends the chain after the segment was asked to be mapped. `address` is
    /// what the system gave: -1 where the segment was not mapped, and then
    /// the header and the segment are released. Otherwise the image stands:
    /// the server attaches the segment under the name `shmseg`, and the
    /// pixels of the image are at `address`.
    pub fn attached(self, shmseg: u32, address: isize) -> (link: Result<Image, Failure>)
        ensures
            link == self.spec_attached(shmseg, address),
    {
        if address == -1 {
            Err(Failure { destroy_image: true, remove_segment: Some(self.id) })
        } else {
            Ok(
                Image {
                    shmseg,
                    shmid: self.id as u32,
                    shmaddr: address as usize,
                    width: self.width,
                    height: self.height,
                },
            )
        }
    }
}

/// How the whole chain ends when `size`, `id` and `address` are what the
/// three foreign calls give, as far as they are made.
pub open spec fn chain(
    first: CreateImage,
    size: Option<u32>,
    id: i32,
    shmseg: u32,
    address: isize,
) -> Result<Image, Failure> {
    match first.spec_created(size) {
        Err(failure) => Err(failure),
        Ok(second) => match second.spec_got(id) {
            Err(failure) => Err(failure),
            Ok(third) => third.spec_attached(shmseg, address),
        },
    }
}

/// The chain gives an image exactly when every link succeeds. When it fails,
/// it releases what was acquired before the failed link and nothing else:
/// the header when one was created, the segment when one was created.
pub proof fn failure_releases_what_is_held(
    first: CreateImage,
    size: Option<u32>,
    id: i32,
    shmseg: u32,
    address: isize,
)
    ensures
        chain(first, size, id, shmseg, address) is Ok <==> size is Some && id != -1 && address
            != -1,
        chain(first, size, id, shmseg, address) is Err ==> {
            let failure = chain(first, size, id, shmseg, address)->Err_0;
            &&& failure.destroy_image == (size is Some)
            &&& failure.remove_segment == if size is Some && id != -1 {
                Some(id)
            } else {
                None
            }
        },
        chain(first, size, id, shmseg, address) is Ok ==> {
            let image = chain(first, size, id, shmseg, address)->Ok_0;
            &&& image.shmseg == shmseg
            &&& image.shmid == id as u32
            &&& image.shmaddr == address as usize
            &&& image.width == first.width
            &&& image.height == first.height
        },
{
}

impl Image {
    /// The steps that release the image, in order: the server detaches the
    /// segment, the mapping goes, the segment is removed.
    pub fn release(&self) -> (steps: [Release; 3])
        ensures
            steps@ == seq![
                Release::Detach { shmseg: self.shmseg },
                Release::Unmap { shmaddr: self.shmaddr },
                Release::Remove { shmid: self.shmid },
            ],
    {
        [
            Release::Detach { shmseg: self.shmseg },
            Release::Unmap { shmaddr: self.shmaddr },
            Release::Remove { shmid: self.shmid },
        ]
    }
}

/// Concludes fetching an area of `width` by `height` pixels from a drawable
/// into `image`. The area must fit into the image. `status` is what the
/// foreign call gave: 1 where the pixels have arrived.
pub fn get(image: &Image, width: u16, height: u16, status: i32) -> (fetched: Result<(), ()>)
    requires
        width <= image.width,
        height <= image.height,
    ensures
        fetched is Ok <==> status == 1,
{
    if status == 1 {
        Ok(())
    } else {
        Err(())
    }
}

/// Concludes sending an area of an image to a drawable. `sent` is what the
/// foreign call gave: null where nothing was sent.
pub fn put(sent: Handle) -> (done: Result<(), ()>)
    ensures
        done is Ok <==> !sent.is_null(),
{
    if sent.is_null() {
        Err(())
    } else {
        Ok(())
    }
}

} // verus!
