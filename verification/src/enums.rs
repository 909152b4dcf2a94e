//! Enumerations mirrored from the native API, each with an explicit
//! wire-integer mapping instead of discriminant casts.

use vstd::prelude::*;

verus! {

/// Context info query kinds.
#[derive(Clone, Copy, Debug, PartialEq, Eq, Structural)]
pub enum ContextInfo {
    ReferenceCount,
    Devices,
    Properties,
}

impl ContextInfo {
    /// The native query identifier for this kind.
    pub open spec fn spec_as_raw(&self) -> u32 {
        match self {
            ContextInfo::ReferenceCount => 0x1080,
            ContextInfo::Devices => 0x1081,
            ContextInfo::Properties => 0x1082,
        }
    }

    /// Returns the native query identifier for this kind.
    #[verifier::when_used_as_spec(spec_as_raw)]
    pub fn as_raw(&self) -> (r: u32)
        ensures
            r == self.spec_as_raw(),
    {
        match self {
            ContextInfo::ReferenceCount => 0x1080,
            ContextInfo::Devices => 0x1081,
            ContextInfo::Properties => 0x1082,
        }
    }
}

/// Device type bitfield values.
#[derive(Clone, Copy, Debug, PartialEq, Eq, Structural)]
pub enum DeviceType {
    Default,
    Cpu,
    Gpu,
    Accelerator,
    Custom,
    All,
}

impl DeviceType {
    /// The native bitfield value of this device type.
    pub open spec fn spec_as_raw(&self) -> u64 {
        match self {
            DeviceType::Default => 1,
            DeviceType::Cpu => 2,
            DeviceType::Gpu => 4,
            DeviceType::Accelerator => 8,
            DeviceType::Custom => 16,
            DeviceType::All => 0xFFFFFFFF,
        }
    }

    /// Returns the native bitfield value of this device type.
    #[verifier::when_used_as_spec(spec_as_raw)]
    pub fn as_raw(&self) -> (r: u64)
        ensures
            r == self.spec_as_raw(),
    {
        match self {
            DeviceType::Default => 1,
            DeviceType::Cpu => 2,
            DeviceType::Gpu => 4,
            DeviceType::Accelerator => 8,
            DeviceType::Custom => 16,
            DeviceType::All => 0xFFFFFFFF,
        }
    }
}

/// Context property kinds, the keys of a property list.
#[derive(Clone, Copy, Debug, PartialEq, Eq, Structural)]
pub enum ContextProperty {
    Platform,
    InteropUserSync,
    D3d10DeviceKhr,
    GlContextKhr,
    EglDisplayKhr,
    GlxDisplayKhr,
    CglSharegroupKhr,
    WglHdcKhr,
    AdapterD3d9Khr,
    AdapterD3d9exKhr,
    AdapterDxvaKhr,
    D3d11DeviceKhr,
}

impl ContextProperty {
    /// The native word identifying this property kind.
    pub open spec fn spec_as_raw(&self) -> isize {
        match self {
            ContextProperty::Platform => 0x1084,
            ContextProperty::InteropUserSync => 0x1085,
            ContextProperty::D3d10DeviceKhr => 0x4014,
            ContextProperty::GlContextKhr => 0x2008,
            ContextProperty::EglDisplayKhr => 0x2009,
            ContextProperty::GlxDisplayKhr => 0x200A,
            ContextProperty::CglSharegroupKhr => 0x200C,
            ContextProperty::WglHdcKhr => 0x200B,
            ContextProperty::AdapterD3d9Khr => 0x2025,
            ContextProperty::AdapterD3d9exKhr => 0x2026,
            ContextProperty::AdapterDxvaKhr => 0x2027,
            ContextProperty::D3d11DeviceKhr => 0x401D,
        }
    }

    /// Returns the native word identifying this property kind.
    #[verifier::when_used_as_spec(spec_as_raw)]
    pub fn as_raw(&self) -> (r: isize)
        ensures
            r == self.spec_as_raw(),
    {
        match self {
            ContextProperty::Platform => 0x1084,
            ContextProperty::InteropUserSync => 0x1085,
            ContextProperty::D3d10DeviceKhr => 0x4014,
            ContextProperty::GlContextKhr => 0x2008,
            ContextProperty::EglDisplayKhr => 0x2009,
            ContextProperty::GlxDisplayKhr => 0x200A,
            ContextProperty::CglSharegroupKhr => 0x200C,
            ContextProperty::WglHdcKhr => 0x200B,
            ContextProperty::AdapterD3d9Khr => 0x2025,
            ContextProperty::AdapterD3d9exKhr => 0x2026,
            ContextProperty::AdapterDxvaKhr => 0x2027,
            ContextProperty::D3d11DeviceKhr => 0x401D,
        }
    }
}

/// Program info query kinds.
#[derive(Clone, Copy, Debug, PartialEq, Eq, Structural)]
pub enum ProgramInfo {
    ReferenceCount,
    Context,
    NumDevices,
    Devices,
    Source,
    BinarySizes,
    Binaries,
    NumKernels,
    KernelNames,
}

impl ProgramInfo {
    /// The native query identifier for this kind.
    pub open spec fn spec_as_raw(&self) -> u32 {
        match self {
            ProgramInfo::ReferenceCount => 0x1160,
            ProgramInfo::Context => 0x1161,
            ProgramInfo::NumDevices => 0x1162,
            ProgramInfo::Devices => 0x1163,
            ProgramInfo::Source => 0x1164,
            ProgramInfo::BinarySizes => 0x1165,
            ProgramInfo::Binaries => 0x1166,
            ProgramInfo::NumKernels => 0x1167,
            ProgramInfo::KernelNames => 0x1168,
        }
    }

    /// Returns the native query identifier for this kind.
    #[verifier::when_used_as_spec(spec_as_raw)]
    pub fn as_raw(&self) -> (r: u32)
        ensures
            r == self.spec_as_raw(),
    {
        match self {
            ProgramInfo::ReferenceCount => 0x1160,
            ProgramInfo::Context => 0x1161,
            ProgramInfo::NumDevices => 0x1162,
            ProgramInfo::Devices => 0x1163,
            ProgramInfo::Source => 0x1164,
            ProgramInfo::BinarySizes => 0x1165,
            ProgramInfo::Binaries => 0x1166,
            ProgramInfo::NumKernels => 0x1167,
            ProgramInfo::KernelNames => 0x1168,
        }
    }
}

/// Program build info query kinds.
#[derive(Clone, Copy, Debug, PartialEq, Eq, Structural)]
pub enum ProgramBuildInfo {
    BuildStatus,
    BuildOptions,
    BuildLog,
}

impl ProgramBuildInfo {
    /// The native query identifier for this kind.
    pub open spec fn spec_as_raw(&self) -> u32 {
        match self {
            ProgramBuildInfo::BuildStatus => 0x1181,
            ProgramBuildInfo::BuildOptions => 0x1182,
            ProgramBuildInfo::BuildLog => 0x1183,
        }
    }

    /// Returns the native query identifier for this kind.
    #[verifier::when_used_as_spec(spec_as_raw)]
    pub fn as_raw(&self) -> (r: u32)
        ensures
            r == self.spec_as_raw(),
    {
        match self {
            ProgramBuildInfo::BuildStatus => 0x1181,
            ProgramBuildInfo::BuildOptions => 0x1182,
            ProgramBuildInfo::BuildLog => 0x1183,
        }
    }
}

/// Memory object kinds used by image descriptors.
#[derive(Clone, Copy, Debug, PartialEq, Eq, Structural)]
pub enum MemObjectType {
    Buffer,
    Image2d,
    Image3d,
    Image2dArray,
    Image1d,
    Image1dArray,
    Image1dBuffer,
}

impl MemObjectType {
    /// The native word for this memory object kind.
    pub open spec fn spec_as_raw(&self) -> u32 {
        match self {
            MemObjectType::Buffer => 0x10F0,
            MemObjectType::Image2d => 0x10F1,
            MemObjectType::Image3d => 0x10F2,
            MemObjectType::Image2dArray => 0x10F3,
            MemObjectType::Image1d => 0x10F4,
            MemObjectType::Image1dArray => 0x10F5,
            MemObjectType::Image1dBuffer => 0x10F6,
        }
    }

    /// Returns the native word for this memory object kind.
    #[verifier::when_used_as_spec(spec_as_raw)]
    pub fn as_raw(&self) -> (r: u32)
        ensures
            r == self.spec_as_raw(),
    {
        match self {
            MemObjectType::Buffer => 0x10F0,
            MemObjectType::Image2d => 0x10F1,
            MemObjectType::Image3d => 0x10F2,
            MemObjectType::Image2dArray => 0x10F3,
            MemObjectType::Image1d => 0x10F4,
            MemObjectType::Image1dArray => 0x10F5,
            MemObjectType::Image1dBuffer => 0x10F6,
        }
    }
}

/// Image channel layouts.
#[derive(Clone, Copy, Debug, PartialEq, Eq, Structural)]
pub enum ImageChannelOrder {
    R,
    A,
    Rg,
    Ra,
    Rgb,
    Rgba,
    Bgra,
    Argb,
    Intensity,
    Luminance,
    Rx,
    Rgx,
    Rgbx,
    Depth,
    DepthStencil,
}

impl ImageChannelOrder {
    /// The native word for this channel order.
    pub open spec fn spec_as_raw(&self) -> u32 {
        match self {
            ImageChannelOrder::R => 0x10B0,
            ImageChannelOrder::A => 0x10B1,
            ImageChannelOrder::Rg => 0x10B2,
            ImageChannelOrder::Ra => 0x10B3,
            ImageChannelOrder::Rgb => 0x10B4,
            ImageChannelOrder::Rgba => 0x10B5,
            ImageChannelOrder::Bgra => 0x10B6,
            ImageChannelOrder::Argb => 0x10B7,
            ImageChannelOrder::Intensity => 0x10B8,
            ImageChannelOrder::Luminance => 0x10B9,
            ImageChannelOrder::Rx => 0x10BA,
            ImageChannelOrder::Rgx => 0x10BB,
            ImageChannelOrder::Rgbx => 0x10BC,
            ImageChannelOrder::Depth => 0x10BD,
            ImageChannelOrder::DepthStencil => 0x10BE,
        }
    }

    /// Returns the native word for this channel order.
    #[verifier::when_used_as_spec(spec_as_raw)]
    pub fn as_raw(&self) -> (r: u32)
        ensures
            r == self.spec_as_raw(),
    {
        match self {
            ImageChannelOrder::R => 0x10B0,
            ImageChannelOrder::A => 0x10B1,
            ImageChannelOrder::Rg => 0x10B2,
            ImageChannelOrder::Ra => 0x10B3,
            ImageChannelOrder::Rgb => 0x10B4,
            ImageChannelOrder::Rgba => 0x10B5,
            ImageChannelOrder::Bgra => 0x10B6,
            ImageChannelOrder::Argb => 0x10B7,
            ImageChannelOrder::Intensity => 0x10B8,
            ImageChannelOrder::Luminance => 0x10B9,
            ImageChannelOrder::Rx => 0x10BA,
            ImageChannelOrder::Rgx => 0x10BB,
            ImageChannelOrder::Rgbx => 0x10BC,
            ImageChannelOrder::Depth => 0x10BD,
            ImageChannelOrder::DepthStencil => 0x10BE,
        }
    }

    /// The channel order encoded by `raw`, if any.
    pub open spec fn spec_from_u32(raw: u32) -> Option<ImageChannelOrder> {
        if raw == 0x10B0 {
            Some(ImageChannelOrder::R)
        } else if raw == 0x10B1 {
            Some(ImageChannelOrder::A)
        } else if raw == 0x10B2 {
            Some(ImageChannelOrder::Rg)
        } else if raw == 0x10B3 {
            Some(ImageChannelOrder::Ra)
        } else if raw == 0x10B4 {
            Some(ImageChannelOrder::Rgb)
        } else if raw == 0x10B5 {
            Some(ImageChannelOrder::Rgba)
        } else if raw == 0x10B6 {
            Some(ImageChannelOrder::Bgra)
        } else if raw == 0x10B7 {
            Some(ImageChannelOrder::Argb)
        } else if raw == 0x10B8 {
            Some(ImageChannelOrder::Intensity)
        } else if raw == 0x10B9 {
            Some(ImageChannelOrder::Luminance)
        } else if raw == 0x10BA {
            Some(ImageChannelOrder::Rx)
        } else if raw == 0x10BB {
            Some(ImageChannelOrder::Rgx)
        } else if raw == 0x10BC {
            Some(ImageChannelOrder::Rgbx)
        } else if raw == 0x10BD {
            Some(ImageChannelOrder::Depth)
        } else if raw == 0x10BE {
            Some(ImageChannelOrder::DepthStencil)
        } else {
            None
        }
    }

    /// Decodes a native channel-order word.
    #[verifier::when_used_as_spec(spec_from_u32)]
    pub fn from_u32(raw: u32) -> (r: Option<ImageChannelOrder>)
        ensures
            r == ImageChannelOrder::spec_from_u32(raw),
    {
        if raw == 0x10B0 {
            Some(ImageChannelOrder::R)
        } else if raw == 0x10B1 {
            Some(ImageChannelOrder::A)
        } else if raw == 0x10B2 {
            Some(ImageChannelOrder::Rg)
        } else if raw == 0x10B3 {
            Some(ImageChannelOrder::Ra)
        } else if raw == 0x10B4 {
            Some(ImageChannelOrder::Rgb)
        } else if raw == 0x10B5 {
            Some(ImageChannelOrder::Rgba)
        } else if raw == 0x10B6 {
            Some(ImageChannelOrder::Bgra)
        } else if raw == 0x10B7 {
            Some(ImageChannelOrder::Argb)
        } else if raw == 0x10B8 {
            Some(ImageChannelOrder::Intensity)
        } else if raw == 0x10B9 {
            Some(ImageChannelOrder::Luminance)
        } else if raw == 0x10BA {
            Some(ImageChannelOrder::Rx)
        } else if raw == 0x10BB {
            Some(ImageChannelOrder::Rgx)
        } else if raw == 0x10BC {
            Some(ImageChannelOrder::Rgbx)
        } else if raw == 0x10BD {
            Some(ImageChannelOrder::Depth)
        } else if raw == 0x10BE {
            Some(ImageChannelOrder::DepthStencil)
        } else {
            None
        }
    }
}

/// Image channel component encodings.
#[derive(Clone, Copy, Debug, PartialEq, Eq, Structural)]
pub enum ImageChannelDataType {
    SnormInt8,
    SnormInt16,
    UnormInt8,
    UnormInt16,
    UnormShort565,
    UnormShort555,
    UnormInt101010,
    SignedInt8,
    SignedInt16,
    SignedInt32,
    UnsignedInt8,
    UnsignedInt16,
    UnsignedInt32,
    HalfFloat,
    Float,
    UnormInt24,
}

impl ImageChannelDataType {
    /// The native word for this channel data type.
    pub open spec fn spec_as_raw(&self) -> u32 {
        match self {
            ImageChannelDataType::SnormInt8 => 0x10D0,
            ImageChannelDataType::SnormInt16 => 0x10D1,
            ImageChannelDataType::UnormInt8 => 0x10D2,
            ImageChannelDataType::UnormInt16 => 0x10D3,
            ImageChannelDataType::UnormShort565 => 0x10D4,
            ImageChannelDataType::UnormShort555 => 0x10D5,
            ImageChannelDataType::UnormInt101010 => 0x10D6,
            ImageChannelDataType::SignedInt8 => 0x10D7,
            ImageChannelDataType::SignedInt16 => 0x10D8,
            ImageChannelDataType::SignedInt32 => 0x10D9,
            ImageChannelDataType::UnsignedInt8 => 0x10DA,
            ImageChannelDataType::UnsignedInt16 => 0x10DB,
            ImageChannelDataType::UnsignedInt32 => 0x10DC,
            ImageChannelDataType::HalfFloat => 0x10DD,
            ImageChannelDataType::Float => 0x10DE,
            ImageChannelDataType::UnormInt24 => 0x10DF,
        }
    }

    /// Returns the native word for this channel data type.
    #[verifier::when_used_as_spec(spec_as_raw)]
    pub fn as_raw(&self) -> (r: u32)
        ensures
            r == self.spec_as_raw(),
    {
        match self {
            ImageChannelDataType::SnormInt8 => 0x10D0,
            ImageChannelDataType::SnormInt16 => 0x10D1,
            ImageChannelDataType::UnormInt8 => 0x10D2,
            ImageChannelDataType::UnormInt16 => 0x10D3,
            ImageChannelDataType::UnormShort565 => 0x10D4,
            ImageChannelDataType::UnormShort555 => 0x10D5,
            ImageChannelDataType::UnormInt101010 => 0x10D6,
            ImageChannelDataType::SignedInt8 => 0x10D7,
            ImageChannelDataType::SignedInt16 => 0x10D8,
            ImageChannelDataType::SignedInt32 => 0x10D9,
            ImageChannelDataType::UnsignedInt8 => 0x10DA,
            ImageChannelDataType::UnsignedInt16 => 0x10DB,
            ImageChannelDataType::UnsignedInt32 => 0x10DC,
            ImageChannelDataType::HalfFloat => 0x10DD,
            ImageChannelDataType::Float => 0x10DE,
            ImageChannelDataType::UnormInt24 => 0x10DF,
        }
    }

    /// The channel data type encoded by `raw`, if any.
    pub open spec fn spec_from_u32(raw: u32) -> Option<ImageChannelDataType> {
        if raw == 0x10D0 {
            Some(ImageChannelDataType::SnormInt8)
        } else if raw == 0x10D1 {
            Some(ImageChannelDataType::SnormInt16)
        } else if raw == 0x10D2 {
            Some(ImageChannelDataType::UnormInt8)
        } else if raw == 0x10D3 {
            Some(ImageChannelDataType::UnormInt16)
        } else if raw == 0x10D4 {
            Some(ImageChannelDataType::UnormShort565)
        } else if raw == 0x10D5 {
            Some(ImageChannelDataType::UnormShort555)
        } else if raw == 0x10D6 {
            Some(ImageChannelDataType::UnormInt101010)
        } else if raw == 0x10D7 {
            Some(ImageChannelDataType::SignedInt8)
        } else if raw == 0x10D8 {
            Some(ImageChannelDataType::SignedInt16)
        } else if raw == 0x10D9 {
            Some(ImageChannelDataType::SignedInt32)
        } else if raw == 0x10DA {
            Some(ImageChannelDataType::UnsignedInt8)
        } else if raw == 0x10DB {
            Some(ImageChannelDataType::UnsignedInt16)
        } else if raw == 0x10DC {
            Some(ImageChannelDataType::UnsignedInt32)
        } else if raw == 0x10DD {
            Some(ImageChannelDataType::HalfFloat)
        } else if raw == 0x10DE {
            Some(ImageChannelDataType::Float)
        } else if raw == 0x10DF {
            Some(ImageChannelDataType::UnormInt24)
        } else {
            None
        }
    }

    /// Decodes a native channel-data-type word.
    #[verifier::when_used_as_spec(spec_from_u32)]
    pub fn from_u32(raw: u32) -> (r: Option<ImageChannelDataType>)
        ensures
            r == ImageChannelDataType::spec_from_u32(raw),
    {
        if raw == 0x10D0 {
            Some(ImageChannelDataType::SnormInt8)
        } else if raw == 0x10D1 {
            Some(ImageChannelDataType::SnormInt16)
        } else if raw == 0x10D2 {
            Some(ImageChannelDataType::UnormInt8)
        } else if raw == 0x10D3 {
            Some(ImageChannelDataType::UnormInt16)
        } else if raw == 0x10D4 {
            Some(ImageChannelDataType::UnormShort565)
        } else if raw == 0x10D5 {
            Some(ImageChannelDataType::UnormShort555)
        } else if raw == 0x10D6 {
            Some(ImageChannelDataType::UnormInt101010)
        } else if raw == 0x10D7 {
            Some(ImageChannelDataType::SignedInt8)
        } else if raw == 0x10D8 {
            Some(ImageChannelDataType::SignedInt16)
        } else if raw == 0x10D9 {
            Some(ImageChannelDataType::SignedInt32)
        } else if raw == 0x10DA {
            Some(ImageChannelDataType::UnsignedInt8)
        } else if raw == 0x10DB {
            Some(ImageChannelDataType::UnsignedInt16)
        } else if raw == 0x10DC {
            Some(ImageChannelDataType::UnsignedInt32)
        } else if raw == 0x10DD {
            Some(ImageChannelDataType::HalfFloat)
        } else if raw == 0x10DE {
            Some(ImageChannelDataType::Float)
        } else if raw == 0x10DF {
            Some(ImageChannelDataType::UnormInt24)
        } else {
            None
        }
    }
}

} // verus!
