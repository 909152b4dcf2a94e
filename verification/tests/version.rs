use ocl::error::OclError;
use ocl::text::{i32_to_string, join_with_spaces, str_contains_nul, u64_to_string};
use ocl::version::OpenclVersion;

#[test]
fn parses_plain_version_string() {
    let v = OpenclVersion::from_info_str("OpenCL 1.2").unwrap();
    assert_eq!(v, OpenclVersion::new(1, 2));
}

#[test]
fn parses_version_with_vendor_tail() {
    let v = OpenclVersion::from_info_str("OpenCL 2.1 CUDA 11.4.112").unwrap();
    assert_eq!(v, OpenclVersion::new(2, 1));
}

#[test]
fn parses_case_insensitively() {
    let v = OpenclVersion::from_info_str("opencl 3.0").unwrap();
    assert_eq!(v, OpenclVersion::new(3, 0));
    let v = OpenclVersion::from_info_str("OPENCL 1.1").unwrap();
    assert_eq!(v, OpenclVersion::new(1, 1));
}

#[test]
fn first_api_word_selects_the_next_word() {
    let v = OpenclVersion::from_info_str("Platform: OpenCL 1.2 OpenCL 9.9").unwrap();
    assert_eq!(v, OpenclVersion::new(1, 2));
}

#[test]
fn version_joined_to_api_word_is_rejected() {
    // the version must stand in the word after the API name
    assert!(OpenclVersion::from_info_str("OpenCL1.2").is_err());
}

#[test]
fn missing_version_word_is_rejected() {
    match OpenclVersion::from_info_str("OpenCL") {
        Err(OclError::Configuration(m)) => {
            assert_eq!(
                m,
                "OpenclVersion::from_info_str: Error parsing version from the string: 'OpenCL'."
            );
        }
        other => panic!("expected a configuration error, got {:?}", other),
    }
}

#[test]
fn malformed_version_words_are_rejected() {
    assert!(OpenclVersion::from_info_str("OpenCL 1.x").is_err());
    assert!(OpenclVersion::from_info_str("OpenCL 1.2.3").is_err());
    assert!(OpenclVersion::from_info_str("OpenCL 12").is_err());
    assert!(OpenclVersion::from_info_str("OpenCL .5").is_err());
    assert!(OpenclVersion::from_info_str("OpenCL 5.").is_err());
    assert!(OpenclVersion::from_info_str("").is_err());
    assert!(OpenclVersion::from_info_str("no api name here 1.2").is_err());
}

#[test]
fn version_components_out_of_range_are_rejected() {
    assert!(OpenclVersion::from_info_str("OpenCL 99999.1").is_err());
    assert!(OpenclVersion::from_info_str("OpenCL 1.65536").is_err());
    let v = OpenclVersion::from_info_str("OpenCL 65535.65535").unwrap();
    assert_eq!(v, OpenclVersion::new(65535, 65535));
}

#[test]
fn whitespace_variants_separate_words() {
    let v = OpenclVersion::from_info_str("\t OpenCL\n2.0 \r").unwrap();
    assert_eq!(v, OpenclVersion::new(2, 0));
}

#[test]
fn version_accessors_and_max() {
    let v = OpenclVersion::new(1, 2);
    assert_eq!(v.major_value(), 1);
    assert_eq!(v.minor_value(), 2);
    assert_eq!(OpenclVersion::max(&v), OpenclVersion::new(u16::MAX, u16::MAX));
    assert_eq!(v.version_string(), "1.2");
}

#[test]
fn version_orders_by_major_then_minor() {
    assert!(OpenclVersion::new(1, 2) < OpenclVersion::new(2, 0));
    assert!(OpenclVersion::new(2, 0) < OpenclVersion::new(2, 1));
}

#[test]
fn version_from_pair() {
    let v = OpenclVersion::from([3, 1]);
    assert_eq!(v, OpenclVersion::new(3, 1));
}

#[test]
fn decimal_rendering() {
    assert_eq!(u64_to_string(0), "0");
    assert_eq!(u64_to_string(907), "907");
    assert_eq!(i32_to_string(15), "15");
    assert_eq!(i32_to_string(-15), "-15");
    assert_eq!(i32_to_string(i32::MIN), "-2147483648");
    assert_eq!(u64_to_string(u64::MAX), "18446744073709551615");
}

#[test]
fn join_and_nul_scan() {
    let tokens = vec![String::from("a"), String::from("bc"), String::from("d")];
    assert_eq!(join_with_spaces(&tokens), "a bc d");
    assert_eq!(join_with_spaces(&Vec::new()), "");
    assert!(str_contains_nul("a\0b"));
    assert!(!str_contains_nul("ab"));
}
