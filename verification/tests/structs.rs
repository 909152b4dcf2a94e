use ocl::enums::{ImageChannelDataType, ImageChannelOrder, MemObjectType};
use ocl::error::OclError;
use ocl::handles::{Mem, PlatformId};
use ocl::structs::{
    BufferRegion, ContextProperties, ContextPropertyValue, ImageDescriptor, ImageFormat,
    RawImageFormat,
};

#[test]
fn platform_interop_round_trip() {
    let raw = ContextProperties::new()
        .platform(PlatformId::new(0x42))
        .interop_user_sync(true)
        .to_raw();
    assert_eq!(raw.len(), 5);
    assert_eq!(raw, vec![0x1084, 0x42, 0x1085, 1, 0]);
}

#[test]
fn empty_property_list_packs_to_sentinel() {
    let raw = ContextProperties::new().to_raw();
    assert_eq!(raw, vec![0]);
}

#[test]
fn interop_false_packs_zero() {
    let raw = ContextProperties::new().interop_user_sync(false).to_raw();
    assert_eq!(raw, vec![0x1085, 0, 0]);
}

#[test]
fn cgl_sharegroup_packs_its_word() {
    let raw = ContextProperties::new().cgl_sharegroup(0xABC).to_raw();
    assert_eq!(raw, vec![0x200C, 0xABC, 0]);
}

#[test]
fn gl_context_packs_its_pair() {
    let raw = ContextProperties::new().gl_context(0x77).to_raw();
    assert_eq!(raw, vec![0x2008, 0x77, 0]);
}

#[test]
fn all_supported_properties_pack_together() {
    let raw = ContextProperties::new()
        .platform(PlatformId::new(0x42))
        .interop_user_sync(true)
        .gl_context(0x77)
        .cgl_sharegroup(0xABC)
        .to_raw();
    assert_eq!(raw.len(), 9);
    assert_eq!(raw, vec![0x1084, 0x42, 0x1085, 1, 0x2008, 0x77, 0x200C, 0xABC, 0]);
}

#[test]
fn getters_report_presence() {
    let props = ContextProperties::new().platform(PlatformId::new(0x42));
    assert_eq!(props.get_platform(), Some(PlatformId::new(0x42)));
    assert_eq!(props.get_cgl_sharegroup(), None);
    let props = props.cgl_sharegroup(7);
    assert_eq!(props.get_cgl_sharegroup(), Some(7));
}

#[test]
fn later_set_overwrites_earlier() {
    let mut props = ContextProperties::new();
    props.set_platform(PlatformId::new(1));
    props.set_platform(PlatformId::new(2));
    assert_eq!(props.get_platform(), Some(PlatformId::new(2)));
}

#[test]
fn generic_setter_takes_supported_variants() {
    let props = ContextProperties::new()
        .property_value(ContextPropertyValue::Platform(PlatformId::new(9)))
        .property_value(ContextPropertyValue::InteropUserSync(true))
        .property_value(ContextPropertyValue::GlContextKhr(5))
        .property_value(ContextPropertyValue::CglSharegroupKhr(11));
    assert_eq!(props.get_platform(), Some(PlatformId::new(9)));
    assert_eq!(props.get_cgl_sharegroup(), Some(11));
    let raw = props.to_raw();
    assert_eq!(raw, vec![0x1084, 9, 0x1085, 1, 0x2008, 5, 0x200C, 11, 0]);
}

#[test]
fn buffer_region_to_bytes_scales_by_element_size() {
    let region: BufferRegion<u32> = BufferRegion::new(2, 8);
    let raw = region.to_bytes();
    assert_eq!(raw.origin, 8);
    assert_eq!(raw.size, 32);
}

#[test]
fn buffer_region_of_bytes_is_unscaled() {
    let region: BufferRegion<u8> = BufferRegion::new(3, 5);
    let raw = region.to_bytes();
    assert_eq!(raw.origin, 3);
    assert_eq!(raw.size, 5);
}

#[test]
fn image_format_round_trips_through_raw() {
    let format = ImageFormat::new(ImageChannelOrder::Rgba, ImageChannelDataType::UnormInt8);
    let raw = format.to_raw();
    assert_eq!(raw.image_channel_order, 0x10B5);
    assert_eq!(raw.image_channel_data_type, 0x10D2);
    let decoded = ImageFormat::from_raw(raw).unwrap();
    assert_eq!(decoded, format);
}

#[test]
fn image_format_default_rgba() {
    let format = ImageFormat::new_rgba();
    assert_eq!(format.channel_order, ImageChannelOrder::Rgba);
    assert_eq!(format.channel_data_type, ImageChannelDataType::SnormInt8);
}

#[test]
fn image_format_rejects_unknown_order() {
    let raw = RawImageFormat { image_channel_order: 0x9999, image_channel_data_type: 0x10D2 };
    match ImageFormat::from_raw(raw) {
        Err(OclError::Configuration(m)) => {
            assert_eq!(m, "Error converting to 'ImageChannelOrder'.");
        }
        other => panic!("expected a configuration error, got {:?}", other),
    }
}

#[test]
fn image_format_rejects_unknown_data_type() {
    let raw = RawImageFormat { image_channel_order: 0x10B5, image_channel_data_type: 0x9999 };
    match ImageFormat::from_raw(raw) {
        Err(OclError::Configuration(m)) => {
            assert_eq!(m, "Error converting to 'ImageChannelDataType'.");
        }
        other => panic!("expected a configuration error, got {:?}", other),
    }
}

#[test]
fn image_format_list_decodes_all() {
    let list = vec![
        RawImageFormat { image_channel_order: 0x10B0, image_channel_data_type: 0x10DE },
        RawImageFormat { image_channel_order: 0x10B5, image_channel_data_type: 0x10D2 },
    ];
    let formats = ImageFormat::list_from_raw(list).unwrap();
    assert_eq!(formats.len(), 2);
    assert_eq!(formats[0], ImageFormat::new(ImageChannelOrder::R, ImageChannelDataType::Float));
    assert_eq!(
        formats[1],
        ImageFormat::new(ImageChannelOrder::Rgba, ImageChannelDataType::UnormInt8)
    );
}

#[test]
fn image_format_list_fails_on_first_bad_entry() {
    let list = vec![
        RawImageFormat { image_channel_order: 0x10B0, image_channel_data_type: 0x10DE },
        RawImageFormat { image_channel_order: 0x9999, image_channel_data_type: 0x9999 },
    ];
    match ImageFormat::list_from_raw(list) {
        Err(OclError::Configuration(m)) => {
            assert_eq!(m, "Error converting to 'ImageChannelOrder'.");
        }
        other => panic!("expected a configuration error, got {:?}", other),
    }
}

#[test]
fn new_raw_format_is_zeroed() {
    let raw = ImageFormat::new_raw();
    assert_eq!(raw.image_channel_order, 0);
    assert_eq!(raw.image_channel_data_type, 0);
}

#[test]
fn pixel_bytes_multiplies_count_and_size() {
    let rgba8 = ImageFormat::new(ImageChannelOrder::Rgba, ImageChannelDataType::UnormInt8);
    assert_eq!(rgba8.pixel_bytes(), 4);
    let r_float = ImageFormat::new(ImageChannelOrder::R, ImageChannelDataType::Float);
    assert_eq!(r_float.pixel_bytes(), 4);
    let rg16 = ImageFormat::new(ImageChannelOrder::Rg, ImageChannelDataType::SnormInt16);
    assert_eq!(rg16.pixel_bytes(), 4);
    let rgb565 = ImageFormat::new(ImageChannelOrder::Rgb, ImageChannelDataType::UnormShort565);
    assert_eq!(rgb565.pixel_bytes(), 2);
    let depth = ImageFormat::new(ImageChannelOrder::Depth, ImageChannelDataType::Float);
    assert_eq!(depth.pixel_bytes(), 0);
}

#[test]
fn image_descriptor_packs_fields_and_null_buffer() {
    let desc = ImageDescriptor::new(MemObjectType::Image2d, 640, 480, 1, 1, 0, 0, None);
    let raw = desc.to_raw();
    assert_eq!(raw.image_type, 0x10F1);
    assert_eq!(raw.image_width, 640);
    assert_eq!(raw.image_height, 480);
    assert_eq!(raw.image_depth, 1);
    assert_eq!(raw.image_array_size, 1);
    assert_eq!(raw.image_row_pitch, 0);
    assert_eq!(raw.image_slice_pitch, 0);
    assert_eq!(raw.num_mip_levels, 0);
    assert_eq!(raw.num_samples, 0);
    assert_eq!(raw.buffer, 0);
}

#[test]
fn image_descriptor_packs_backing_buffer() {
    let desc = ImageDescriptor::new(
        MemObjectType::Image1dBuffer,
        1024,
        1,
        1,
        1,
        0,
        0,
        Some(Mem::new(0xBEE)),
    );
    let raw = desc.to_raw();
    assert_eq!(raw.image_type, 0x10F6);
    assert_eq!(raw.buffer, 0xBEE);
}

#[test]
fn error_kind_accessors() {
    let config = OclError::Configuration(String::from("x"));
    assert!(config.is_configuration());
    assert!(!config.is_contract_violation());
    let violation = OclError::ContractViolation(String::from("y"));
    assert!(violation.is_contract_violation());
    assert!(!violation.is_configuration());
}
