use kvm_install_vm::strutil::{path_join, str_eq, trim_trailing_slashes, u32_to_string};

#[test]
fn test_decimal_rendering() {
    assert_eq!(u32_to_string(0), "0");
    assert_eq!(u32_to_string(7), "7");
    assert_eq!(u32_to_string(10), "10");
    assert_eq!(u32_to_string(2048), "2048");
    assert_eq!(u32_to_string(u32::MAX), "4294967295");
}

#[test]
fn test_path_join() {
    assert_eq!(path_join("/cache", "img.qcow2"), "/cache/img.qcow2");
}

#[test]
fn test_trim_trailing_slashes() {
    assert_eq!(trim_trailing_slashes("https://a.example/x/"), "https://a.example/x");
    assert_eq!(trim_trailing_slashes("https://a.example/x///"), "https://a.example/x");
    assert_eq!(trim_trailing_slashes("no-slash"), "no-slash");
    assert_eq!(trim_trailing_slashes(""), "");
    assert_eq!(trim_trailing_slashes("///"), "");
}

#[test]
fn test_str_eq() {
    assert!(str_eq("abc", "abc"));
    assert!(!str_eq("abc", "abd"));
    assert!(!str_eq("abc", "ab"));
    assert!(str_eq("", ""));
}
