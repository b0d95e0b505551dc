use sopush::config::app_so_dir;
use sopush::config::data_lib_dir;
use sopush::config::parse_arch;
use sopush::config::validate_source;
use sopush::config::Arch;
use sopush::config::Config;
use sopush::config::Source;
use sopush::error::Error;

fn b(s: &str) -> Vec<u8> {
    s.as_bytes().to_vec()
}

#[test]
fn arch_values() {
    assert!(matches!(parse_arch(&b("arm")), Ok(Arch::Arm)));
    assert!(matches!(parse_arch(&b("arm64")), Ok(Arch::Arm64)));
    assert_eq!(parse_arch(&b("x86")).unwrap_err(), Error::ConfigurationError);
    assert_eq!(parse_arch(&b("")).unwrap_err(), Error::ConfigurationError);
}

#[test]
fn jni_names() {
    assert_eq!(Arch::Arm.jni_name(), b("armeabi-v7a"));
    assert_eq!(Arch::Arm64.jni_name(), b("arm64-v8a"));
}

#[test]
fn both_sources_rejected() {
    let r = validate_source(Some(b("a.so")), true, Some(b("x.aar")));
    assert_eq!(r.unwrap_err(), Error::ConfigurationError);
}

#[test]
fn neither_source_rejected() {
    let r = validate_source(None, false, None);
    assert_eq!(r.unwrap_err(), Error::ConfigurationError);
}

#[test]
fn direct_library_path_accepted() {
    match validate_source(Some(b("a.so")), false, None) {
        Ok(Source::Lib(p)) => assert_eq!(p, b("a.so")),
        _ => panic!("a lone library path is a valid source"),
    }
}

#[test]
fn archive_needs_a_name() {
    match validate_source(None, true, Some(b("x.aar"))) {
        Ok(Source::Aar(n)) => assert_eq!(n, b("x.aar")),
        _ => panic!("the archive flag with a name is a valid source"),
    }
    let r = validate_source(None, true, None);
    assert_eq!(r.unwrap_err(), Error::ConfigurationError);
}

#[test]
fn config_getters() {
    let c = Config::new(b("com.a"), b("/tmp/libx.so"), Arch::Arm64);
    assert_eq!(c.target_package(), &b("com.a"));
    assert_eq!(c.local_lib(), &b("/tmp/libx.so"));
    assert_eq!(c.jni_name(), b("arm64-v8a"));
}

#[test]
fn destination_directories() {
    assert_eq!(app_so_dir(&b("/data/app/com.a-1"), &b("arm64-v8a")), b(
        "/data/app/com.a-1/lib/arm64-v8a"
    ));
    assert_eq!(data_lib_dir(&b("com.a")), b("/data/data/com.a/lib"));
}
