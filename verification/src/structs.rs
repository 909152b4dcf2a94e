//! Context properties, buffer regions, image formats and descriptors:
//! typed values with verified packing into the native wire layouts.

use vstd::prelude::*;
use vstd::string::*;

use crate::enums::{
    ContextProperty, ImageChannelDataType, ImageChannelOrder, MemObjectType,
};
use crate::error::{OclError, OclResult};
use crate::handles::{Mem, PlatformId};

verus! {

/// A context property value.  Only the platform, interop-user-sync,
/// GL-context and CGL-sharegroup variants are supported through the public
/// setters; the rest are placeholders for native properties this layer
/// does not handle yet.
#[derive(Clone, Copy, Debug, PartialEq, Eq, Structural)]
pub enum ContextPropertyValue {
    Platform(PlatformId),
    InteropUserSync(bool),
    D3d10DeviceKhr(usize),
    GlContextKhr(u32),
    EglDisplayKhr(usize),
    GlxDisplayKhr(usize),
    CglSharegroupKhr(usize),
    WglHdcKhr(usize),
    AdapterD3d9Khr,
    AdapterD3d9exKhr,
    AdapterDxvaKhr,
    D3d11DeviceKhr,
}

/// True of the property variants the generic setter accepts.
pub open spec fn supported_property(prop: ContextPropertyValue) -> bool {
    ||| prop is Platform
    ||| prop is InteropUserSync
    ||| prop is GlContextKhr
    ||| prop is CglSharegroupKhr
}

/// A context property list: at most one value per property kind, the
/// later `set` winning.
#[derive(Clone, Debug, PartialEq)]
pub struct ContextProperties {
    platform: Option<PlatformId>,
    interop_user_sync: Option<bool>,
    gl_context: Option<u32>,
    cgl_sharegroup: Option<usize>,
}

/// The mathematical state of a [`ContextProperties`] list.
pub ghost struct ContextPropertiesView {
    pub platform: Option<PlatformId>,
    pub interop_user_sync: Option<bool>,
    pub gl_context: Option<u32>,
    pub cgl_sharegroup: Option<usize>,
}

impl View for ContextProperties {
    type V = ContextPropertiesView;

    closed spec fn view(&self) -> ContextPropertiesView {
        ContextPropertiesView {
            platform: self.platform,
            interop_user_sync: self.interop_user_sync,
            gl_context: self.gl_context,
            cgl_sharegroup: self.cgl_sharegroup,
        }
    }
}

/// The packed word sequence of a property list: a `(kind, value)` pair
/// for each property present, closed by a zero sentinel.  The native
/// consumer treats pair order as insignificant; this layer emits the
/// platform pair, then the interop pair, then the GL-context pair, then
/// the sharegroup pair.
pub open spec fn spec_to_raw(v: ContextPropertiesView) -> Seq<isize> {
    (match v.platform {
        Some(p) => seq![ContextProperty::Platform.spec_as_raw(), p.raw as isize],
        None => Seq::<isize>::empty(),
    }) + (match v.interop_user_sync {
        Some(sync) => seq![
            ContextProperty::InteropUserSync.spec_as_raw(),
            if sync {
                1
            } else {
                0
            },
        ],
        None => Seq::<isize>::empty(),
    }) + (match v.gl_context {
        Some(g) => seq![ContextProperty::GlContextKhr.spec_as_raw(), g as isize],
        None => Seq::<isize>::empty(),
    }) + (match v.cgl_sharegroup {
        Some(w) => seq![ContextProperty::CglSharegroupKhr.spec_as_raw(), w as isize],
        None => Seq::<isize>::empty(),
    }) + seq![0]
}

impl ContextProperties {
    /// Returns an empty property list.
    pub fn new() -> (r: ContextProperties)
        ensures
            r@ == (ContextPropertiesView {
                platform: None,
                interop_user_sync: None,
                gl_context: None,
                cgl_sharegroup: None,
            }),
    {
        ContextProperties {
            platform: None,
            interop_user_sync: None,
            gl_context: None,
            cgl_sharegroup: None,
        }
    }

    /// Specifies a platform (builder-style).
    pub fn platform(self, platform: PlatformId) -> (r: ContextProperties)
        ensures
            r@ == (ContextPropertiesView { platform: Some(platform), ..self@ }),
    {
        let mut props = self;
        props.set_platform(platform);
        props
    }

    /// Specifies whether the user is responsible for synchronization
    /// between this API and others (builder-style).
    pub fn interop_user_sync(self, sync: bool) -> (r: ContextProperties)
        ensures
            r@ == (ContextPropertiesView { interop_user_sync: Some(sync), ..self@ }),
    {
        let mut props = self;
        props.set_interop_user_sync(sync);
        props
    }

    /// Specifies an OpenGL context handle (builder-style).
    pub fn gl_context(self, gl_ctx: u32) -> (r: ContextProperties)
        ensures
            r@ == (ContextPropertiesView { gl_context: Some(gl_ctx), ..self@ }),
    {
        let mut props = self;
        props.set_gl_context(gl_ctx);
        props
    }

    /// Specifies a CGL share group to associate the context with
    /// (builder-style).
    pub fn cgl_sharegroup(self, gl_sharegroup: usize) -> (r: ContextProperties)
        ensures
            r@ == (ContextPropertiesView { cgl_sharegroup: Some(gl_sharegroup), ..self@ }),
    {
        let mut props = self;
        props.set_cgl_sharegroup(gl_sharegroup);
        props
    }

    /// Sets a property value of any supported variant (builder-style).
    /// Unsupported variants may never enter the list this way.
    pub fn property_value(self, prop: ContextPropertyValue) -> (r: ContextProperties)
        requires
            supported_property(prop),
        ensures
            r@ == spec_with_property(self@, prop),
    {
        let mut props = self;
        props.set_property_value(prop);
        props
    }

    /// Specifies a platform.
    pub fn set_platform(&mut self, platform: PlatformId)
        ensures
            final(self)@ == (ContextPropertiesView { platform: Some(platform), ..old(self)@ }),
    {
        self.platform = Some(platform);
    }

    /// Specifies whether the user is responsible for synchronization
    /// between this API and others.
    pub fn set_interop_user_sync(&mut self, sync: bool)
        ensures
            final(self)@ == (ContextPropertiesView {
                interop_user_sync: Some(sync),
                ..old(self)@
            }),
    {
        self.interop_user_sync = Some(sync);
    }

    /// Specifies an OpenGL context handle.
    pub fn set_gl_context(&mut self, gl_ctx: u32)
        ensures
            final(self)@ == (ContextPropertiesView { gl_context: Some(gl_ctx), ..old(self)@ }),
    {
        self.gl_context = Some(gl_ctx);
    }

    /// Specifies a CGL share group to associate the context with.
    pub fn set_cgl_sharegroup(&mut self, gl_sharegroup: usize)
        ensures
            final(self)@ == (ContextPropertiesView {
                cgl_sharegroup: Some(gl_sharegroup),
                ..old(self)@
            }),
    {
        self.cgl_sharegroup = Some(gl_sharegroup);
    }

    /// Sets a property value of any supported variant.  Unsupported
    /// variants may never enter the list this way.
    pub fn set_property_value(&mut self, prop: ContextPropertyValue)
        requires
            supported_property(prop),
        ensures
            final(self)@ == spec_with_property(old(self)@, prop),
    {
        match prop {
            ContextPropertyValue::Platform(val) => {
                self.platform = Some(val);
            },
            ContextPropertyValue::InteropUserSync(val) => {
                self.interop_user_sync = Some(val);
            },
            ContextPropertyValue::GlContextKhr(val) => {
                self.gl_context = Some(val);
            },
            ContextPropertyValue::CglSharegroupKhr(val) => {
                self.cgl_sharegroup = Some(val);
            },
            _ => {
                proof {
                    assert(false);
                }
            },
        }
    }

    /// Returns the platform, if one was set.
    pub fn get_platform(&self) -> (r: Option<PlatformId>)
        ensures
            r == self@.platform,
    {
        self.platform
    }

    /// Returns the CGL share group, if one was set.
    pub fn get_cgl_sharegroup(&self) -> (r: Option<usize>)
        ensures
            r == self@.cgl_sharegroup,
    {
        self.cgl_sharegroup
    }

    /// Packs this list into the native word layout: a `(kind, value)`
    /// pair per property present, closed by a zero sentinel.
    pub fn to_raw(&self) -> (r: Vec<isize>)
        ensures
            r@ == spec_to_raw(self@),
    {
        let mut props_raw: Vec<isize> = Vec::new();
        if let Some(platform) = self.platform {
            props_raw.push(ContextProperty::Platform.as_raw());
            props_raw.push(platform.raw as isize);
        }
        if let Some(sync) = self.interop_user_sync {
            props_raw.push(ContextProperty::InteropUserSync.as_raw());
            props_raw.push(if sync {
                1
            } else {
                0
            });
        }
        if let Some(gl_ctx) = self.gl_context {
            props_raw.push(ContextProperty::GlContextKhr.as_raw());
            props_raw.push(gl_ctx as isize);
        }
        if let Some(sharegroup) = self.cgl_sharegroup {
            props_raw.push(ContextProperty::CglSharegroupKhr.as_raw());
            props_raw.push(sharegroup as isize);
        }
        props_raw.push(0);
        proof {
            assert(props_raw@ =~= spec_to_raw(self@));
        }
        props_raw
    }
}

/// The list state after setting one supported property value.
pub open spec fn spec_with_property(
    v: ContextPropertiesView,
    prop: ContextPropertyValue,
) -> ContextPropertiesView {
    match prop {
        ContextPropertyValue::Platform(val) => ContextPropertiesView {
            platform: Some(val),
            ..v
        },
        ContextPropertyValue::InteropUserSync(val) => ContextPropertiesView {
            interop_user_sync: Some(val),
            ..v
        },
        ContextPropertyValue::GlContextKhr(val) => ContextPropertiesView {
            gl_context: Some(val),
            ..v
        },
        ContextPropertyValue::CglSharegroupKhr(val) => ContextPropertiesView {
            cgl_sharegroup: Some(val),
            ..v
        },
        _ => v,
    }
}

/// Law: a list holding exactly a platform and an interop-user-sync flag
/// packs to five words — the platform pair, the interop pair, and the
/// closing zero sentinel — whatever the platform is.
pub proof fn lemma_platform_interop_to_raw(p: PlatformId)
    ensures
        ({
            let packed = spec_to_raw(
                ContextPropertiesView {
                    platform: Some(p),
                    interop_user_sync: Some(true),
                    gl_context: None,
                    cgl_sharegroup: None,
                },
            );
            &&& packed.len() == 5
            &&& packed[0] == ContextProperty::Platform.spec_as_raw()
            &&& packed[1] == p.raw as isize
            &&& packed[2] == ContextProperty::InteropUserSync.spec_as_raw()
            &&& packed[3] == 1
            &&& packed[4] == 0
        }),
{
}

/// The native buffer-region layout: offset and size in bytes.
#[derive(Clone, Copy, Debug, PartialEq, Eq, Structural)]
pub struct RawBufferRegion {
    pub origin: usize,
    pub size: usize,
}

/// A buffer region for creating a sub-buffer, counted in elements of `T`.
pub struct BufferRegion<T> {
    origin: usize,
    len: usize,
    elem: core::marker::PhantomData<T>,
}

impl<T> BufferRegion<T> {
    /// The region's first element.
    pub closed spec fn spec_origin(&self) -> usize {
        self.origin
    }

    /// The region's element count.
    pub closed spec fn spec_len(&self) -> usize {
        self.len
    }

    /// A region of `len` elements starting at element `origin`.
    pub fn new(origin: usize, len: usize) -> (r: BufferRegion<T>)
        ensures
            r.spec_origin() == origin,
            r.spec_len() == len,
    {
        BufferRegion { origin, len, elem: core::marker::PhantomData }
    }

    /// Converts the region to the native byte-counted layout.
    pub fn to_bytes(&self) -> (r: RawBufferRegion)
        requires
            self.spec_origin() * vstd::layout::size_of::<T>() <= usize::MAX,
            self.spec_len() * vstd::layout::size_of::<T>() <= usize::MAX,
        ensures
            r.origin == self.spec_origin() * vstd::layout::size_of::<T>(),
            r.size == self.spec_len() * vstd::layout::size_of::<T>(),
    {
        RawBufferRegion {
            origin: self.origin * core::mem::size_of::<T>(),
            size: self.len * core::mem::size_of::<T>(),
        }
    }
}

/// The native image-format layout.
#[derive(Clone, Copy, Debug, PartialEq, Eq, Structural)]
pub struct RawImageFormat {
    pub image_channel_order: u32,
    pub image_channel_data_type: u32,
}

/// Image format properties used by images: a channel layout and a channel
/// component encoding.
#[derive(Clone, Copy, Debug, PartialEq, Eq, Structural)]
pub struct ImageFormat {
    pub channel_order: ImageChannelOrder,
    pub channel_data_type: ImageChannelDataType,
}

/// The decoded format of a raw image-format value, when both words are
/// known encodings.
pub open spec fn spec_decoded_format(raw: RawImageFormat) -> Option<ImageFormat> {
    match (
        ImageChannelOrder::spec_from_u32(raw.image_channel_order),
        ImageChannelDataType::spec_from_u32(raw.image_channel_data_type),
    ) {
        (Some(order), Some(data_type)) => Some(
            ImageFormat { channel_order: order, channel_data_type: data_type },
        ),
        _ => None,
    }
}

/// The per-order factor of the pixel-size table.  This is not always the
/// literal channel count: `Rgb` counts 1 because it pairs only with the
/// packed single-word encodings, `Intensity` and `Luminance` count 4 per
/// the sizing table, and the depth orders count 0 because this layer
/// does not size them.
pub open spec fn spec_channel_count(order: ImageChannelOrder) -> usize {
    match order {
        ImageChannelOrder::R => 1,
        ImageChannelOrder::A => 1,
        ImageChannelOrder::Rg => 2,
        ImageChannelOrder::Ra => 2,
        ImageChannelOrder::Rgb => 1,
        ImageChannelOrder::Rgba => 4,
        ImageChannelOrder::Bgra => 4,
        ImageChannelOrder::Argb => 4,
        ImageChannelOrder::Intensity => 4,
        ImageChannelOrder::Luminance => 4,
        ImageChannelOrder::Rx => 2,
        ImageChannelOrder::Rgx => 4,
        ImageChannelOrder::Rgbx => 4,
        ImageChannelOrder::Depth => 0,
        ImageChannelOrder::DepthStencil => 0,
    }
}

/// The byte size of one channel component; zero for the 24-bit encoding,
/// which this layer does not size.
pub open spec fn spec_channel_size(data_type: ImageChannelDataType) -> usize {
    match data_type {
        ImageChannelDataType::SnormInt8 => 1,
        ImageChannelDataType::SnormInt16 => 2,
        ImageChannelDataType::UnormInt8 => 1,
        ImageChannelDataType::UnormInt16 => 2,
        ImageChannelDataType::UnormShort565 => 2,
        ImageChannelDataType::UnormShort555 => 2,
        ImageChannelDataType::UnormInt101010 => 4,
        ImageChannelDataType::SignedInt8 => 1,
        ImageChannelDataType::SignedInt16 => 2,
        ImageChannelDataType::SignedInt32 => 4,
        ImageChannelDataType::UnsignedInt8 => 1,
        ImageChannelDataType::UnsignedInt16 => 2,
        ImageChannelDataType::UnsignedInt32 => 4,
        ImageChannelDataType::HalfFloat => 2,
        ImageChannelDataType::Float => 4,
        ImageChannelDataType::UnormInt24 => 0,
    }
}

impl ImageFormat {
    /// A format from a channel order and a channel data type.
    pub fn new(order: ImageChannelOrder, data_type: ImageChannelDataType) -> (r: ImageFormat)
        ensures
            r.channel_order == order,
            r.channel_data_type == data_type,
    {
        ImageFormat { channel_order: order, channel_data_type: data_type }
    }

    /// The default RGBA format: normalized signed 8-bit channels.
    pub fn new_rgba() -> (r: ImageFormat)
        ensures
            r.channel_order == ImageChannelOrder::Rgba,
            r.channel_data_type == ImageChannelDataType::SnormInt8,
    {
        ImageFormat {
            channel_order: ImageChannelOrder::Rgba,
            channel_data_type: ImageChannelDataType::SnormInt8,
        }
    }

    /// Decodes a native format value; an unknown channel-order or
    /// channel-data-type word is an error.
    pub fn from_raw(raw: RawImageFormat) -> (r: OclResult<ImageFormat>)
        ensures
            match r {
                Ok(f) => spec_decoded_format(raw) == Some(f),
                Err(e) => spec_decoded_format(raw) is None && (e matches OclError::Configuration(
                    m,
                ) && (if ImageChannelOrder::spec_from_u32(raw.image_channel_order) is None {
                    m@ == "Error converting to 'ImageChannelOrder'."@
                } else {
                    m@ == "Error converting to 'ImageChannelDataType'."@
                })),
            },
    {
        let order = match ImageChannelOrder::from_u32(raw.image_channel_order) {
            Some(order) => order,
            None => {
                return Err(
                    OclError::Configuration(
                        String::from_str("Error converting to 'ImageChannelOrder'."),
                    ),
                );
            },
        };
        let data_type = match ImageChannelDataType::from_u32(raw.image_channel_data_type) {
            Some(data_type) => data_type,
            None => {
                return Err(
                    OclError::Configuration(
                        String::from_str("Error converting to 'ImageChannelDataType'."),
                    ),
                );
            },
        };
        Ok(ImageFormat { channel_order: order, channel_data_type: data_type })
    }

    /// Decodes a list of native format values; the first undecodable
    /// entry fails the whole conversion.
    pub fn list_from_raw(list_raw: Vec<RawImageFormat>) -> (r: OclResult<Vec<ImageFormat>>)
        ensures
            match r {
                Ok(v) => v@.len() == list_raw@.len() && forall|i: int|
                    0 <= i < list_raw@.len() ==> spec_decoded_format(list_raw@[i]) == Some(
                        v@[i],
                    ),
                Err(e) => exists|i: int|
                    {
                        &&& 0 <= i < list_raw@.len()
                        &&& spec_decoded_format(list_raw@[i]) is None
                        &&& (forall|j: int|
                            0 <= j < i ==> spec_decoded_format(list_raw@[j]) is Some)
                        &&& (e matches OclError::Configuration(m) && (
                        if ImageChannelOrder::spec_from_u32(
                            list_raw@[i].image_channel_order,
                        ) is None {
                            m@ == "Error converting to 'ImageChannelOrder'."@
                        } else {
                            m@ == "Error converting to 'ImageChannelDataType'."@
                        }))
                    },
            },
    {
        let mut result_list: Vec<ImageFormat> = Vec::new();
        let count = list_raw.len();
        let mut i: usize = 0;
        while i < count
            invariant
                count == list_raw@.len(),
                i <= count,
                result_list@.len() == i,
                forall|j: int|
                    0 <= j < i ==> spec_decoded_format(list_raw@[j]) == Some(result_list@[j]),
            decreases count - i,
        {
            let decoded = match ImageFormat::from_raw(list_raw[i]) {
                Ok(f) => f,
                Err(e) => {
                    return Err(e);
                },
            };
            result_list.push(decoded);
            i = i + 1;
        }
        Ok(result_list)
    }

    /// Encodes this format as the native layout.
    pub fn to_raw(&self) -> (r: RawImageFormat)
        ensures
            r.image_channel_order == self.channel_order.spec_as_raw(),
            r.image_channel_data_type == self.channel_data_type.spec_as_raw(),
    {
        RawImageFormat {
            image_channel_order: self.channel_order.as_raw(),
            image_channel_data_type: self.channel_data_type.as_raw(),
        }
    }

    /// A zeroed native format value, for the driver to fill in.
    pub fn new_raw() -> (r: RawImageFormat)
        ensures
            r.image_channel_order == 0,
            r.image_channel_data_type == 0,
    {
        RawImageFormat { image_channel_order: 0, image_channel_data_type: 0 }
    }

    /// The size in bytes of one pixel in this format: the channel count
    /// times the per-channel byte size.
    pub fn pixel_bytes(&self) -> (r: usize)
        ensures
            r == spec_channel_count(self.channel_order) * spec_channel_size(
                self.channel_data_type,
            ),
    {
        let channel_count: usize = match self.channel_order {
            ImageChannelOrder::R => 1,
            ImageChannelOrder::A => 1,
            ImageChannelOrder::Rg => 2,
            ImageChannelOrder::Ra => 2,
            ImageChannelOrder::Rgb => 1,
            ImageChannelOrder::Rgba => 4,
            ImageChannelOrder::Bgra => 4,
            ImageChannelOrder::Argb => 4,
            ImageChannelOrder::Intensity => 4,
            ImageChannelOrder::Luminance => 4,
            ImageChannelOrder::Rx => 2,
            ImageChannelOrder::Rgx => 4,
            ImageChannelOrder::Rgbx => 4,
            ImageChannelOrder::Depth => 0,
            ImageChannelOrder::DepthStencil => 0,
        };
        let channel_size: usize = match self.channel_data_type {
            ImageChannelDataType::SnormInt8 => 1,
            ImageChannelDataType::SnormInt16 => 2,
            ImageChannelDataType::UnormInt8 => 1,
            ImageChannelDataType::UnormInt16 => 2,
            ImageChannelDataType::UnormShort565 => 2,
            ImageChannelDataType::UnormShort555 => 2,
            ImageChannelDataType::UnormInt101010 => 4,
            ImageChannelDataType::SignedInt8 => 1,
            ImageChannelDataType::SignedInt16 => 2,
            ImageChannelDataType::SignedInt32 => 4,
            ImageChannelDataType::UnsignedInt8 => 1,
            ImageChannelDataType::UnsignedInt16 => 2,
            ImageChannelDataType::UnsignedInt32 => 4,
            ImageChannelDataType::HalfFloat => 2,
            ImageChannelDataType::Float => 4,
            ImageChannelDataType::UnormInt24 => 0,
        };
        channel_count * channel_size
    }
}

/// The native image-descriptor layout.
#[derive(Clone, Copy, Debug, PartialEq, Eq, Structural)]
pub struct RawImageDescriptor {
    pub image_type: u32,
    pub image_width: usize,
    pub image_height: usize,
    pub image_depth: usize,
    pub image_array_size: usize,
    pub image_row_pitch: usize,
    pub image_slice_pitch: usize,
    pub num_mip_levels: u32,
    pub num_samples: u32,
    pub buffer: usize,
}

/// An image descriptor used when creating an image.  Mip levels and
/// sample counts must be zero per the native contract, so they are not
/// settable.
#[derive(Clone, Debug, PartialEq)]
pub struct ImageDescriptor {
    image_type: MemObjectType,
    image_width: usize,
    image_height: usize,
    image_depth: usize,
    image_array_size: usize,
    image_row_pitch: usize,
    image_slice_pitch: usize,
    num_mip_levels: u32,
    num_samples: u32,
    buffer: Option<Mem>,
}

/// The mathematical state of an [`ImageDescriptor`].
pub ghost struct ImageDescriptorView {
    pub image_type: MemObjectType,
    pub image_width: usize,
    pub image_height: usize,
    pub image_depth: usize,
    pub image_array_size: usize,
    pub image_row_pitch: usize,
    pub image_slice_pitch: usize,
    pub num_mip_levels: u32,
    pub num_samples: u32,
    pub buffer: Option<Mem>,
}

impl View for ImageDescriptor {
    type V = ImageDescriptorView;

    closed spec fn view(&self) -> ImageDescriptorView {
        ImageDescriptorView {
            image_type: self.image_type,
            image_width: self.image_width,
            image_height: self.image_height,
            image_depth: self.image_depth,
            image_array_size: self.image_array_size,
            image_row_pitch: self.image_row_pitch,
            image_slice_pitch: self.image_slice_pitch,
            num_mip_levels: self.num_mip_levels,
            num_samples: self.num_samples,
            buffer: self.buffer,
        }
    }
}

impl ImageDescriptor {
    /// A descriptor from its dimensions and optional backing buffer.
    pub fn new(
        image_type: MemObjectType,
        width: usize,
        height: usize,
        depth: usize,
        array_size: usize,
        row_pitch: usize,
        slc_pitch: usize,
        buffer: Option<Mem>,
    ) -> (r: ImageDescriptor)
        ensures
            r@ == (ImageDescriptorView {
                image_type,
                image_width: width,
                image_height: height,
                image_depth: depth,
                image_array_size: array_size,
                image_row_pitch: row_pitch,
                image_slice_pitch: slc_pitch,
                num_mip_levels: 0,
                num_samples: 0,
                buffer,
            }),
    {
        ImageDescriptor {
            image_type,
            image_width: width,
            image_height: height,
            image_depth: depth,
            image_array_size: array_size,
            image_row_pitch: row_pitch,
            image_slice_pitch: slc_pitch,
            num_mip_levels: 0,
            num_samples: 0,
            buffer,
        }
    }

    /// Encodes this descriptor as the native layout; an absent backing
    /// buffer becomes a null word.
    pub fn to_raw(&self) -> (r: RawImageDescriptor)
        ensures
            r.image_type == self@.image_type.spec_as_raw(),
            r.image_width == self@.image_width,
            r.image_height == self@.image_height,
            r.image_depth == self@.image_depth,
            r.image_array_size == self@.image_array_size,
            r.image_row_pitch == self@.image_row_pitch,
            r.image_slice_pitch == self@.image_slice_pitch,
            r.num_mip_levels == self@.num_mip_levels,
            r.num_samples == self@.num_samples,
            r.buffer == (match self@.buffer {
                Some(b) => b.raw,
                None => 0usize,
            }),
    {
        RawImageDescriptor {
            image_type: self.image_type.as_raw(),
            image_width: self.image_width,
            image_height: self.image_height,
            image_depth: self.image_depth,
            image_array_size: self.image_array_size,
            image_row_pitch: self.image_row_pitch,
            image_slice_pitch: self.image_slice_pitch,
            num_mip_levels: self.num_mip_levels,
            num_samples: self.num_samples,
            buffer: match &self.buffer {
                Some(b) => b.raw,
                None => 0,
            },
        }
    }
}

} // verus!
