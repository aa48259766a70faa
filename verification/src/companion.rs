//! The companion transformation: the first image of a document is described
//! anew as a stack of single-slice files.

use vstd::prelude::*;
use vstd::arithmetic::div_mod::{
    lemma_fundamental_div_mod_converse_div,
    lemma_fundamental_div_mod_converse_mod,
};
use crate::error::CompanionError;
use crate::filename::{slice_file_name, supported_depth_count, StackConfig, StackConfigView};
use crate::model::{Image, ImageView, OMEView, PixelsView, TiffData, TiffDataView, Uuid, OME};
use crate::plane_index::{
    dimension_order_of,
    get_relative_ifd_index,
    parse_dimension_order,
    plane_index,
    DimensionOrder,
    Selection,
};

verus! {

/// The index, in the single file, of the plane at depth `z` and channel `c`
/// of the first time point. The axis sizes are those of the pixel set as it
/// was read, whatever depth the companion layout has.
pub open spec fn source_plane_index(order: DimensionOrder, pixels: PixelsView, z: nat, c: nat) -> nat {
    plane_index(order, z, c, 0, pixels.size_z, pixels.size_c, pixels.size_t)
}

/// The `k`-th plane record of the companion layout. The records run through
/// the depths, and within each depth through the channels as declared.
pub open spec fn companion_plane(
    order: DimensionOrder,
    pixels: PixelsView,
    config: StackConfigView,
    k: int,
) -> TiffDataView {
    let z = (k / pixels.channels.len() as int) as nat;
    let c = (k % pixels.channels.len() as int) as nat;
    TiffDataView {
        ifd: Some(source_plane_index(order, pixels, z, c)),
        plane_count: Some(1),
        first_c: Some(c),
        first_z: Some(z),
        first_t: Some(0),
        file_name: Some(slice_file_name(config.filename_template, config.size_z, z)),
    }
}

/// The plane records of the companion layout: one for each pair of a depth
/// and a channel.
pub open spec fn companion_planes(
    order: DimensionOrder,
    pixels: PixelsView,
    config: StackConfigView,
) -> Seq<TiffDataView> {
    Seq::new(
        config.size_z * pixels.channels.len(),
        |k: int| companion_plane(order, pixels, config, k),
    )
}

/// The pixel set of the companion layout: the depth and the calibration in
/// depth are the configured ones, the plane records are made anew, and all
/// else is kept.
pub open spec fn companion_pixels(
    order: DimensionOrder,
    pixels: PixelsView,
    config: StackConfigView,
) -> PixelsView {
    PixelsView {
        size_z: config.size_z,
        physical_size_z: Some(config.physical_size_z),
        physical_size_z_unit: Some(config.physical_size_z_unit),
        tiff_data: companion_planes(order, pixels, config),
        ..pixels
    }
}

/// Tells whether some plane of the companion layout has an index, in the
/// single file, that is too large for a machine word.
pub open spec fn some_index_overflows(
    order: DimensionOrder,
    pixels: PixelsView,
    config: StackConfigView,
) -> bool {
    exists|z: nat, c: nat|
        z < config.size_z && c < pixels.channels.len() && #[trigger] source_plane_index(
            order,
            pixels,
            z,
            c,
        ) > usize::MAX
}

/// The reason for which a document has no companion, if there is one. The
/// conditions are looked at in this order: no image; a time count other than
/// one; a depth count that has no file names; an unknown dimension order; a
/// plane index too large.
pub open spec fn companion_failure(doc: OMEView, config: StackConfigView) -> Option<
    CompanionError,
> {
    if doc.images.len() == 0 {
        Some(CompanionError::MissingImage)
    } else if doc.images[0].pixels.size_t != 1 {
        Some(CompanionError::UnsupportedTimeCount)
    } else if !supported_depth_count(config.size_z) {
        Some(CompanionError::UnsupportedDepthCount)
    } else {
        match dimension_order_of(doc.images[0].pixels.dimension_order) {
            None => Some(CompanionError::InvalidDimensionOrder),
            Some(order) => if some_index_overflows(order, doc.images[0].pixels, config) {
                Some(CompanionError::IndexOverflow)
            } else {
                None
            },
        }
    }
}

/// The companion of a document that has one: the first image with the
/// companion pixel set, and the other images as they were.
pub open spec fn companion_document(doc: OMEView, config: StackConfigView) -> OMEView
    recommends
        companion_failure(doc, config).is_none(),
{
    let first = doc.images[0];
    let order = dimension_order_of(first.pixels.dimension_order).unwrap();
    OMEView {
        images: doc.images.update(
            0,
            ImageView { pixels: companion_pixels(order, first.pixels, config), ..first },
        ),
    }
}

/// The companion has one plane record for each pair of a target depth and a
/// channel entry, whatever plane records the document had; on a well-formed
/// pixel set that is the target depth count times the channel count.
pub proof fn lemma_companion_plane_count(doc: OMEView, config: StackConfigView)
    requires
        companion_failure(doc, config).is_none(),
    ensures
        companion_document(doc, config).images[0].pixels.tiff_data.len() == config.size_z
            * doc.images[0].pixels.channels.len(),
        doc.images[0].pixels.well_formed() ==> companion_document(
            doc,
            config,
        ).images[0].pixels.tiff_data.len() == config.size_z * doc.images[0].pixels.size_c,
{
}

/// The companion keeps the single time point, takes the target depth count
/// as its depth, and leaves the other axis sizes, the dimension order and the
/// channels as they were.
pub proof fn lemma_companion_shape(doc: OMEView, config: StackConfigView)
    requires
        companion_failure(doc, config).is_none(),
    ensures
        companion_document(doc, config).images.len() == doc.images.len(),
        companion_document(doc, config).images[0].pixels.size_t == 1,
        companion_document(doc, config).images[0].pixels.size_z == config.size_z,
        companion_document(doc, config).images[0].pixels.size_x == doc.images[0].pixels.size_x,
        companion_document(doc, config).images[0].pixels.size_y == doc.images[0].pixels.size_y,
        companion_document(doc, config).images[0].pixels.size_c == doc.images[0].pixels.size_c,
        companion_document(doc, config).images[0].pixels.dimension_order
            == doc.images[0].pixels.dimension_order,
        companion_document(doc, config).images[0].pixels.channels
            == doc.images[0].pixels.channels,
{
}

/// The companion of a document whose first pixel set is well formed has a
/// well-formed first pixel set, with one plane record for each pair of a
/// depth and a channel of its own axis sizes.
pub proof fn lemma_companion_well_formed(doc: OMEView, config: StackConfigView)
    requires
        companion_failure(doc, config).is_none(),
        doc.images[0].pixels.well_formed(),
    ensures
        companion_document(doc, config).images[0].pixels.well_formed(),
        companion_document(doc, config).images[0].pixels.tiff_data.len() == companion_document(
            doc,
            config,
        ).images[0].pixels.size_z * companion_document(doc, config).images[0].pixels.size_c,
{
}

/// The plane record for depth `z` and channel `c` stands at position
/// `z * channels + c`, and names that depth and that channel.
pub proof fn lemma_companion_plane_position(
    order: DimensionOrder,
    pixels: PixelsView,
    config: StackConfigView,
    z: nat,
    c: nat,
)
    requires
        z < config.size_z,
        c < pixels.channels.len(),
    ensures
        0 <= z * pixels.channels.len() + c < config.size_z * pixels.channels.len(),
        companion_planes(order, pixels, config)[(z * pixels.channels.len() + c) as int] == (TiffDataView {
            ifd: Some(source_plane_index(order, pixels, z, c)),
            plane_count: Some(1),
            first_c: Some(c),
            first_z: Some(z),
            first_t: Some(0),
            file_name: Some(slice_file_name(config.filename_template, config.size_z, z)),
        }),
{
    let n = pixels.channels.len() as int;
    let k = z * n + c;
    assert(0 <= k < config.size_z * n) by (nonlinear_arith)
        requires
            k == z * n + c,
            0 <= c < n,
            0 <= z < config.size_z,
    ;
    lemma_fundamental_div_mod_converse_div(k, n, z as int, c as int);
    lemma_fundamental_div_mod_converse_mod(k, n, z as int, c as int);
}

/// The companion transformer. It takes a document that describes a volume of
/// one time point in a single file, and gives the document that describes the
/// same volume as `config.size_z` files of one slice each.
///
/// It fails, and gives no document, where `companion_failure` names a reason.
/// Otherwise the result is `companion_document`: in the first image the
/// calibration in depth is the configured one, the plane records are replaced
/// by one for each depth and channel, in that order, and the depth is the
/// configured one.
pub fn to_multifile_companion_ome(doc: OME, config: &StackConfig) -> (result: Result<
    OME,
    CompanionError,
>)
    ensures
        match companion_failure(doc@, config@) {
            Some(reason) => result.is_err() && result.unwrap_err() == reason,
            None => result.is_ok() && result.unwrap()@ == companion_document(doc@, config@),
        },
        result matches Ok(out) ==> {
            let was = doc@.images[0].pixels;
            let now = out@.images[0].pixels;
            &&& out@.images.len() == doc@.images.len()
            &&& now.tiff_data.len() == config@.size_z * was.channels.len()
            &&& now.size_t == 1
            &&& now.size_z == config@.size_z
            &&& now.size_x == was.size_x
            &&& now.size_y == was.size_y
            &&& now.size_c == was.size_c
            &&& now.dimension_order == was.dimension_order
            &&& now.channels == was.channels
        },
{
    let OME { images } = doc;
    let mut images = images;
    let ghost before = images@;
    if images.len() == 0 {
        return Err(CompanionError::MissingImage);
    }
    let mut image: Image = images.remove(0);
    let ghost first = image@;
    assert(first == doc@.images[0]);
    if image.pixels.size_t != 1 {
        return Err(CompanionError::UnsupportedTimeCount);
    }
    if config.size_z == 0 || config.size_z > 999 {
        return Err(CompanionError::UnsupportedDepthCount);
    }
    let order = match parse_dimension_order(image.pixels.dimension_order.as_str()) {
        Some(order) => order,
        None => {
            return Err(CompanionError::InvalidDimensionOrder);
        },
    };
    let channels: usize = image.pixels.channels.len();
    assert(channels == first.pixels.channels.len());
    let mut planes: Vec<TiffData> = Vec::new();
    let mut z: usize = 0;
    while z < config.size_z
        invariant
            z <= config.size_z,
            image@ == first,
            doc@.images.len() > 0,
            first == doc@.images[0],
            first.pixels.size_t == 1,
            channels == first.pixels.channels.len(),
            supported_depth_count(config@.size_z),
            dimension_order_of(first.pixels.dimension_order) == Some(order),
            planes@.len() == z * channels,
            forall|k: int|
                0 <= k < planes@.len() ==> (#[trigger] planes@[k])@ == companion_plane(
                    order,
                    first.pixels,
                    config@,
                    k,
                ),
            forall|z1: nat, c1: nat|
                z1 < z && c1 < channels ==> #[trigger] source_plane_index(
                    order,
                    first.pixels,
                    z1,
                    c1,
                ) <= usize::MAX,
        decreases config.size_z - z,
    {
        let mut c: usize = 0;
        while c < channels
            invariant
                z < config.size_z,
                c <= channels,
                image@ == first,
                doc@.images.len() > 0,
                first == doc@.images[0],
                first.pixels.size_t == 1,
                channels == first.pixels.channels.len(),
                supported_depth_count(config@.size_z),
                dimension_order_of(first.pixels.dimension_order) == Some(order),
                planes@.len() == z * channels + c,
                forall|k: int|
                    0 <= k < planes@.len() ==> (#[trigger] planes@[k])@ == companion_plane(
                        order,
                        first.pixels,
                        config@,
                        k,
                    ),
                forall|z1: nat, c1: nat|
                    (z1 < z || (z1 == z && c1 < c)) && c1 < channels
                        ==> #[trigger] source_plane_index(order, first.pixels, z1, c1)
                        <= usize::MAX,
            decreases channels - c,
        {
            let ifd: usize = match get_relative_ifd_index(Selection { t: 0, z, c }, &image.pixels) {
                Ok(ifd) => ifd,
                Err(_) => {
                    assert(source_plane_index(order, first.pixels, z as nat, c as nat)
                        > usize::MAX);
                    assert(some_index_overflows(order, first.pixels, config@));
                    return Err(CompanionError::IndexOverflow);
                },
            };
            assert(ifd == source_plane_index(order, first.pixels, z as nat, c as nat));
            let file_name = match config.filename(z) {
                Ok(file_name) => file_name,
                Err(reason) => {
                    return Err(reason);
                },
            };
            let plane = TiffData {
                ifd: Some(ifd),
                plane_count: Some(1),
                first_c: Some(c),
                first_z: Some(z),
                first_t: Some(0),
                uuid: Some(Uuid { file_name }),
            };
            proof {
                lemma_companion_plane_position(order, first.pixels, config@, z as nat, c as nat);
                assert(plane@ == companion_plane(
                    order,
                    first.pixels,
                    config@,
                    z * channels + c,
                ));
            }
            planes.push(plane);
            c = c + 1;
        }
        assert(z * channels + channels == (z + 1) * channels) by (nonlinear_arith);
        z = z + 1;
    }
    assert(!some_index_overflows(order, first.pixels, config@));
    image.pixels.physical_size_z = Some(config.physical_size_z);
    image.pixels.physical_size_z_unit = Some(config.physical_size_z_unit.clone());
    image.pixels.tiff_data = planes;
    image.pixels.size_z = config.size_z;
    proof {
        assert(image.pixels@.tiff_data =~= companion_planes(order, first.pixels, config@));
        assert(image.pixels@ == companion_pixels(order, first.pixels, config@));
    }
    images.insert(0, image);
    let out = OME { images };
    proof {
        assert(out@.images =~= companion_document(doc@, config@).images);
        lemma_companion_plane_count(doc@, config@);
        lemma_companion_shape(doc@, config@);
    }
    Ok(out)
}

} // verus!
