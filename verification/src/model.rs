//! The metadata entities: a document of images, each with one pixel set, its
//! channels and its plane records. Every entity has a mathematical view over
//! sequences and natural numbers, in which the contracts are stated.

use vstd::prelude::*;
use crate::plane_index::{dimension_order_of, parse_dimension_order};

verus! {

/// The view of an optional machine integer as an optional natural number.
pub open spec fn opt_nat(value: Option<usize>) -> Option<nat> {
    match value {
        Some(n) => Some(n as nat),
        None => None,
    }
}

/// The view of an optional string as an optional sequence of characters.
pub open spec fn opt_text(value: Option<String>) -> Option<Seq<char>> {
    match value {
        Some(s) => Some(s@),
        None => None,
    }
}

/// A reference to the file that stores a plane.
#[derive(Clone, Debug)]
pub struct Uuid {
    pub file_name: String,
}

/// The mathematical value of a [`Uuid`].
pub struct UuidView {
    pub file_name: Seq<char>,
}

impl View for Uuid {
    type V = UuidView;

    open spec fn view(&self) -> UuidView {
        UuidView { file_name: self.file_name@ }
    }
}

/// The storage location of one plane, or of a run of planes. Every field may
/// be absent: absence is distinct from zero.
#[derive(Clone, Debug)]
pub struct TiffData {
    pub ifd: Option<usize>,
    pub plane_count: Option<usize>,
    pub first_c: Option<usize>,
    pub first_z: Option<usize>,
    pub first_t: Option<usize>,
    pub uuid: Option<Uuid>,
}

/// The mathematical value of a [`TiffData`].
pub struct TiffDataView {
    pub ifd: Option<nat>,
    pub plane_count: Option<nat>,
    pub first_c: Option<nat>,
    pub first_z: Option<nat>,
    pub first_t: Option<nat>,
    pub file_name: Option<Seq<char>>,
}

impl View for TiffData {
    type V = TiffDataView;

    open spec fn view(&self) -> TiffDataView {
        TiffDataView {
            ifd: opt_nat(self.ifd),
            plane_count: opt_nat(self.plane_count),
            first_c: opt_nat(self.first_c),
            first_z: opt_nat(self.first_z),
            first_t: opt_nat(self.first_t),
            file_name: match self.uuid {
                Some(u) => Some(u.file_name@),
                None => None,
            },
        }
    }
}

/// The light path of a channel. It carries no content and is only passed on.
#[derive(Clone, Copy, Debug, PartialEq, Eq, Structural)]
pub struct LightPath {}

/// One channel of a pixel set.
#[derive(Clone, Debug)]
pub struct Channel {
    pub id: String,
    pub samples_per_pixel: usize,
    pub name: String,
    pub light_path: LightPath,
}

/// The mathematical value of a [`Channel`].
pub struct ChannelView {
    pub id: Seq<char>,
    pub samples_per_pixel: nat,
    pub name: Seq<char>,
}

impl View for Channel {
    type V = ChannelView;

    open spec fn view(&self) -> ChannelView {
        ChannelView {
            id: self.id@,
            samples_per_pixel: self.samples_per_pixel as nat,
            name: self.name@,
        }
    }
}

/// The shape and the physical calibration of a volume, with its channels and
/// plane records.
///
/// A physical size is held as the bit pattern of an IEEE 754 binary64 number,
/// so that the library passes it on exactly and never computes with it.
#[derive(Clone, Debug)]
pub struct Pixels {
    pub id: String,
    pub pixel_type: String,
    pub size_x: usize,
    pub size_y: usize,
    pub size_z: usize,
    pub size_c: usize,
    pub size_t: usize,
    pub physical_size_x: Option<u64>,
    pub physical_size_x_unit: Option<String>,
    pub physical_size_y: Option<u64>,
    pub physical_size_y_unit: Option<String>,
    pub physical_size_z: Option<u64>,
    pub physical_size_z_unit: Option<String>,
    pub dimension_order: String,
    pub channels: Vec<Channel>,
    pub tiff_data: Vec<TiffData>,
}

/// The mathematical value of a [`Pixels`].
pub struct PixelsView {
    pub id: Seq<char>,
    pub pixel_type: Seq<char>,
    pub size_x: nat,
    pub size_y: nat,
    pub size_z: nat,
    pub size_c: nat,
    pub size_t: nat,
    pub physical_size_x: Option<u64>,
    pub physical_size_x_unit: Option<Seq<char>>,
    pub physical_size_y: Option<u64>,
    pub physical_size_y_unit: Option<Seq<char>>,
    pub physical_size_z: Option<u64>,
    pub physical_size_z_unit: Option<Seq<char>>,
    pub dimension_order: Seq<char>,
    pub channels: Seq<ChannelView>,
    pub tiff_data: Seq<TiffDataView>,
}

impl View for Pixels {
    type V = PixelsView;

    open spec fn view(&self) -> PixelsView {
        PixelsView {
            id: self.id@,
            pixel_type: self.pixel_type@,
            size_x: self.size_x as nat,
            size_y: self.size_y as nat,
            size_z: self.size_z as nat,
            size_c: self.size_c as nat,
            size_t: self.size_t as nat,
            physical_size_x: self.physical_size_x,
            physical_size_x_unit: opt_text(self.physical_size_x_unit),
            physical_size_y: self.physical_size_y,
            physical_size_y_unit: opt_text(self.physical_size_y_unit),
            physical_size_z: self.physical_size_z,
            physical_size_z_unit: opt_text(self.physical_size_z_unit),
            dimension_order: self.dimension_order@,
            channels: self.channels@.map_values(|c: Channel| c@),
            tiff_data: self.tiff_data@.map_values(|p: TiffData| p@),
        }
    }
}

impl PixelsView {
    /// Structural validity: every axis has at least one position, the
    /// dimension order is one of the six known ones, and there is one channel
    /// entry per position of the channel axis.
    pub open spec fn well_formed(self) -> bool {
        &&& dimension_order_of(self.dimension_order).is_some()
        &&& self.size_x >= 1
        &&& self.size_y >= 1
        &&& self.size_z >= 1
        &&& self.size_c >= 1
        &&& self.size_t >= 1
        &&& self.channels.len() == self.size_c
    }
}

/// One image of a document.
#[derive(Clone, Debug)]
pub struct Image {
    pub id: String,
    pub name: String,
    pub pixels: Pixels,
}

/// The mathematical value of an [`Image`].
pub struct ImageView {
    pub id: Seq<char>,
    pub name: Seq<char>,
    pub pixels: PixelsView,
}

impl View for Image {
    type V = ImageView;

    open spec fn view(&self) -> ImageView {
        ImageView { id: self.id@, name: self.name@, pixels: self.pixels@ }
    }
}

/// A metadata document: its images in the order of their declaration.
#[derive(Clone, Debug)]
pub struct OME {
    pub images: Vec<Image>,
}

/// The mathematical value of an [`OME`].
pub struct OMEView {
    pub images: Seq<ImageView>,
}

impl View for OME {
    type V = OMEView;

    open spec fn view(&self) -> OMEView {
        OMEView { images: self.images@.map_values(|i: Image| i@) }
    }
}

impl Pixels {
    /// Tells whether the pixel set is structurally valid.
    pub fn is_well_formed(&self) -> (ok: bool)
        ensures
            ok == self@.well_formed(),
    {
        parse_dimension_order(self.dimension_order.as_str()).is_some() && self.size_x >= 1
            && self.size_y >= 1 && self.size_z >= 1 && self.size_c >= 1 && self.size_t >= 1
            && self.channels.len() == self.size_c
    }
}

} // verus!
