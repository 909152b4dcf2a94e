use ocl::enums::{ContextInfo, DeviceType, ProgramBuildInfo, ProgramInfo};
use ocl::error::OclError;
use ocl::handles::{PlatformId, ProgramCore};
use ocl::program::{BuildOpt, Program, ProgramBuilder};
use ocl::standard::{Context, Device, DeviceSpecifier};

fn context_with(devices: Vec<Device>) -> Context {
    Context::new(0x900, PlatformId::new(0x100), devices)
}

fn two_devices() -> Vec<Device> {
    vec![Device::new(0x10, 2), Device::new(0x20, 4)]
}

#[test]
fn builder_starts_empty() {
    let b = ProgramBuilder::new();
    assert!(b.get_src_file_names().is_empty());
    assert!(b.get_device_spec().is_none());
    assert_eq!(b.get_compiler_options().unwrap(), " ");
    let texts: Vec<String> = Vec::new();
    assert_eq!(
        b.get_src_strings(&texts).unwrap(),
        vec![String::from("\n"), String::from("\n")]
    );
}

#[test]
fn program_builder_shortcut() {
    let b = Program::builder();
    assert!(b.get_src_file_names().is_empty());
}

#[test]
fn cmplr_def_renders_decimal() {
    let b = ProgramBuilder::new().cmplr_def("MAX_VAL", 15);
    let opts = b.get_compiler_options().unwrap();
    assert_eq!(opts, "  -DMAX_VAL=15");
}

#[test]
fn cmplr_def_renders_negative_decimal() {
    let b = ProgramBuilder::new().cmplr_def("OFFSET", -3);
    let opts = b.get_compiler_options().unwrap();
    assert_eq!(opts, "  -DOFFSET=-3");
}

#[test]
fn compiler_options_keep_order_and_skip_source_options() {
    let b = ProgramBuilder::new()
        .cmplr_def("MAX_VAL", 15)
        .bo(BuildOpt::include_def("SRC_ONLY", "7"))
        .cmplr_opt("-cl-fast-relaxed-math")
        .src("kernel body")
        .bo(BuildOpt::CmplrInclDir { path: String::from("/usr/include/cl") });
    let opts = b.get_compiler_options().unwrap();
    assert_eq!(opts, "  -DMAX_VAL=15 -cl-fast-relaxed-math -I/usr/include/cl");
}

#[test]
fn compiler_options_reject_embedded_nul() {
    let b = ProgramBuilder::new().cmplr_opt("bad\0flag");
    match b.get_compiler_options() {
        Err(OclError::Encoding(_)) => {}
        other => panic!("expected an encoding error, got {:?}", other),
    }
}

#[test]
fn src_strings_reverse_file_order() {
    let b = ProgramBuilder::new()
        .src_file("alpha.cl")
        .src_file("beta.cl")
        .src_file("gamma.cl");
    let texts = vec![
        String::from("alpha-content"),
        String::from("beta-content"),
        String::from("gamma-content"),
    ];
    let blocks = b.get_src_strings(&texts).unwrap();
    assert_eq!(
        blocks,
        vec![
            String::from("\n"),
            String::from("gamma-content"),
            String::from("beta-content"),
            String::from("alpha-content"),
            String::from("\n"),
        ]
    );
}

#[test]
fn src_strings_include_defines_and_eof_blocks() {
    let b = ProgramBuilder::new()
        .bo(BuildOpt::include_def("WIDTH", "16"))
        .bo(BuildOpt::IncludeCore(String::from("core text\n")))
        .src("appended kernel");
    let texts: Vec<String> = Vec::new();
    let blocks = b.get_src_strings(&texts).unwrap();
    assert_eq!(
        blocks,
        vec![
            String::from("\n"),
            String::from("#define WIDTH  16\n"),
            String::from("core text\n"),
            String::from("\n"),
            String::from("appended kernel"),
        ]
    );
}

#[test]
fn src_strings_reject_embedded_nul() {
    let b = ProgramBuilder::new().src("bad\0kernel");
    let texts: Vec<String> = Vec::new();
    match b.get_src_strings(&texts) {
        Err(OclError::Encoding(_)) => {}
        other => panic!("expected an encoding error, got {:?}", other),
    }
}

#[test]
fn duplicate_src_file_listed_once() {
    let b = ProgramBuilder::new()
        .src_file("alpha.cl")
        .src_file("beta.cl")
        .src_file("alpha.cl");
    assert_eq!(
        b.get_src_file_names(),
        &vec![String::from("alpha.cl"), String::from("beta.cl")]
    );
}

#[test]
fn duplicate_src_file_read_at_most_once() {
    let b = ProgramBuilder::new().src_file("alpha.cl").src_file("alpha.cl");
    let mut read_count = 0usize;
    let mut texts: Vec<String> = Vec::new();
    for name in b.get_src_file_names() {
        // stands in for the real file reader
        read_count += 1;
        texts.push(format!("contents of {}", name));
    }
    assert_eq!(read_count, 1);
    let blocks = b.get_src_strings(&texts).unwrap();
    let hits = blocks
        .iter()
        .filter(|block| block.as_str() == "contents of alpha.cl")
        .count();
    assert_eq!(hits, 1);
}

#[test]
fn second_device_selector_rejected_first_kept() {
    let mut b = ProgramBuilder::new();
    b.devices(DeviceSpecifier::All).unwrap();
    let second = b.devices(DeviceSpecifier::TypeFlags(2));
    match second {
        Err(OclError::Configuration(_)) => {}
        other => panic!("expected a configuration error, got {:?}", other),
    }
    assert_eq!(b.get_device_spec(), &Some(DeviceSpecifier::All));
}

#[test]
fn build_without_selector_finds_no_devices() {
    let b = ProgramBuilder::new();
    let texts: Vec<String> = Vec::new();
    match b.build(&context_with(two_devices()), &texts) {
        Err(OclError::Configuration(m)) => {
            assert_eq!(m, "ocl::ProgramBuilder::build: No devices found.");
        }
        other => panic!("expected a configuration error, got {:?}", other),
    }
}

#[test]
fn build_with_zero_resolving_selector_makes_no_native_call() {
    let mut b = ProgramBuilder::new().src("kernel");
    b.devices(DeviceSpecifier::List(Vec::new())).unwrap();
    let texts: Vec<String> = Vec::new();
    let mut native_build_calls = 0usize;
    let outcome = b.build(&context_with(two_devices()), &texts);
    if let Ok(request) = &outcome {
        // the native build entry point runs only on a produced request
        native_build_calls += 1;
        let _ = request;
    }
    assert_eq!(native_build_calls, 0);
    match outcome {
        Err(OclError::Configuration(m)) => {
            assert_eq!(m, "ocl::ProgramBuilder::build: No devices found.");
        }
        other => panic!("expected a configuration error, got {:?}", other),
    }
}

#[test]
fn build_assembles_request() {
    let mut b = ProgramBuilder::new()
        .cmplr_def("N", 4)
        .src_file("alpha.cl")
        .src("tail");
    b.devices(DeviceSpecifier::All).unwrap();
    let texts = vec![String::from("alpha-content")];
    let request = b.build(&context_with(two_devices()), &texts).unwrap();
    assert_eq!(request.context_raw, 0x900);
    assert_eq!(request.devices, two_devices());
    assert_eq!(
        request.src_strings,
        vec![
            String::from("\n"),
            String::from("alpha-content"),
            String::from("\n"),
            String::from("tail"),
        ]
    );
    assert_eq!(request.cmplr_opts, "  -DN=4");
}

#[test]
fn build_checks_devices_before_sources() {
    // a zero-device selector wins over an encoding problem
    let mut b = ProgramBuilder::new().src("bad\0kernel");
    b.devices(DeviceSpecifier::List(Vec::new())).unwrap();
    let texts: Vec<String> = Vec::new();
    match b.build(&context_with(two_devices()), &texts) {
        Err(OclError::Configuration(_)) => {}
        other => panic!("expected a configuration error, got {:?}", other),
    }
}

#[test]
fn build_reports_out_of_range_index() {
    let mut b = ProgramBuilder::new();
    b.devices(DeviceSpecifier::Indices(vec![5])).unwrap();
    let texts: Vec<String> = Vec::new();
    match b.build(&context_with(two_devices()), &texts) {
        Err(OclError::Configuration(m)) => {
            assert_eq!(m, "DeviceSpecifier::to_device_list: Device index out of range.");
        }
        other => panic!("expected a configuration error, got {:?}", other),
    }
}

#[test]
fn build_reports_nul_in_flags_after_clean_sources() {
    let mut b = ProgramBuilder::new().cmplr_opt("bad\0flag");
    b.devices(DeviceSpecifier::All).unwrap();
    let texts: Vec<String> = Vec::new();
    match b.build(&context_with(two_devices()), &texts) {
        Err(OclError::Encoding(m)) => {
            assert_eq!(m, "ProgramBuilder: embedded NUL byte in compiler options.");
        }
        other => panic!("expected an encoding error, got {:?}", other),
    }
}

#[test]
fn selector_all_resolves_to_every_device() {
    let devices = two_devices();
    let resolved = DeviceSpecifier::All.to_device_list(&devices).unwrap();
    assert_eq!(resolved, devices);
}

#[test]
fn selector_single_and_list_pass_through() {
    let devices = two_devices();
    let single = DeviceSpecifier::Single(devices[1]);
    assert_eq!(single.to_device_list(&devices).unwrap(), vec![devices[1]]);
    let list = DeviceSpecifier::List(vec![devices[1], devices[0]]);
    assert_eq!(
        list.to_device_list(&devices).unwrap(),
        vec![devices[1], devices[0]]
    );
}

#[test]
fn selector_indices_resolve_in_order() {
    let devices = two_devices();
    let spec = DeviceSpecifier::Indices(vec![1, 0, 1]);
    assert_eq!(
        spec.to_device_list(&devices).unwrap(),
        vec![devices[1], devices[0], devices[1]]
    );
}

#[test]
fn selector_index_out_of_range_is_configuration_error() {
    let devices = two_devices();
    let spec = DeviceSpecifier::Indices(vec![0, 2]);
    match spec.to_device_list(&devices) {
        Err(OclError::Configuration(_)) => {}
        other => panic!("expected a configuration error, got {:?}", other),
    }
}

#[test]
fn selector_type_flags_filter_devices() {
    let devices = two_devices();
    let spec = DeviceSpecifier::TypeFlags(4);
    assert_eq!(spec.to_device_list(&devices).unwrap(), vec![devices[1]]);
    let none = DeviceSpecifier::TypeFlags(8);
    assert_eq!(none.to_device_list(&devices).unwrap(), Vec::<Device>::new());
}

#[test]
fn program_wraps_handle_and_devices() {
    let devices = two_devices();
    let program = Program::new(ProgramCore::new(0x777), &devices);
    assert_eq!(program.core_as_ref().raw, 0x777);
    assert_eq!(program.devices(), devices.as_slice());
}

#[test]
fn program_info_queries_carry_handle_and_kind() {
    let devices = two_devices();
    let program = Program::new(ProgramCore::new(0x777), &devices);
    let query = program.info(ProgramInfo::KernelNames);
    assert_eq!(query.program, ProgramCore::new(0x777));
    assert_eq!(query.kind.as_raw(), 0x1168);
    let build_query = program.build_info(devices[0], ProgramBuildInfo::BuildLog);
    assert_eq!(build_query.program, ProgramCore::new(0x777));
    assert_eq!(build_query.device, devices[0]);
    assert_eq!(build_query.kind.as_raw(), 0x1183);
}

#[test]
fn device_type_bitfield_values() {
    assert_eq!(DeviceType::Default.as_raw(), 1);
    assert_eq!(DeviceType::Cpu.as_raw(), 2);
    assert_eq!(DeviceType::Gpu.as_raw(), 4);
    assert_eq!(DeviceType::Accelerator.as_raw(), 8);
    assert_eq!(DeviceType::Custom.as_raw(), 16);
    assert_eq!(DeviceType::All.as_raw(), 0xFFFF_FFFF);
}

#[test]
fn context_info_query_words() {
    assert_eq!(ContextInfo::ReferenceCount.as_raw(), 0x1080);
    assert_eq!(ContextInfo::Devices.as_raw(), 0x1081);
    assert_eq!(ContextInfo::Properties.as_raw(), 0x1082);
}

#[test]
fn context_reports_platform() {
    let ctx = context_with(two_devices());
    assert_eq!(ctx.platform(), PlatformId::new(0x100));
}
