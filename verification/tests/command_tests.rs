use sopush::command::compose_output;
use sopush::command::cp_cmd;
use sopush::command::ls_cmd;
use sopush::command::push_cmd;
use sopush::command::rm_cmd;
use sopush::error::Error;

fn b(s: &str) -> Vec<u8> {
    s.as_bytes().to_vec()
}

#[test]
fn ls_command_text() {
    assert_eq!(ls_cmd(&b("/data/app")), b("adb shell su -c \"ls /data/app\""));
}

#[test]
fn push_command_text() {
    assert_eq!(push_cmd(&b("/tmp/libx.so"), &b("libx.so")), b(
        "adb push /tmp/libx.so /sdcard/libx.so"
    ));
}

#[test]
fn cp_command_text() {
    assert_eq!(cp_cmd(&b("libx.so"), &b("/data/data/com.a/lib")), b(
        "adb shell su -c \"cp /sdcard/libx.so /data/data/com.a/lib\""
    ));
}

#[test]
fn rm_command_text() {
    assert_eq!(rm_cmd(&b("libx.so")), b("adb shell rm /sdcard/libx.so"));
}

#[test]
fn compose_success_returns_stdout() {
    let r = compose_output(true, Some(0), b("listing\n"), b(""));
    assert_eq!(r, Ok(b("listing\n")));
}

#[test]
fn compose_failure_joins_streams() {
    let r = compose_output(false, Some(1), b("out"), b("err"));
    assert_eq!(r, Err(Error::CommandFailed { exit_code: Some(1), output: b("out\nerr") }));
}

#[test]
fn compose_failure_without_code() {
    let r = compose_output(false, None, b(""), b("killed"));
    assert_eq!(r, Err(Error::CommandFailed { exit_code: None, output: b("\nkilled") }));
}
