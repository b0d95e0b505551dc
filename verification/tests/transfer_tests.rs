use sopush::error::Error;
use sopush::transfer::push;
use sopush::transfer::TransferAction;

fn b(s: &str) -> Vec<u8> {
    s.as_bytes().to_vec()
}

fn cmd_of(act: &TransferAction) -> Vec<u8> {
    match act {
        TransferAction::Run(c) => c.clone(),
        TransferAction::Done(_) => panic!("expected a command, got a result"),
    }
}

#[test]
fn failed_copy_is_tolerated_and_cleanup_still_runs() {
    let dests = vec![b("/data/app/com.a-1/lib/arm64-v8a"), b("/data/data/com.a/lib")];
    let (mut st, act) = push(&b("/tmp/libx.so"), dests).unwrap();
    assert_eq!(cmd_of(&act), b("adb push /tmp/libx.so /sdcard/libx.so"));
    // Staging succeeded; the first copy fails, the second succeeds.
    let act = st.on_result(true);
    assert_eq!(cmd_of(&act), b(
        "adb shell su -c \"cp /sdcard/libx.so /data/app/com.a-1/lib/arm64-v8a\""
    ));
    let act = st.on_result(false);
    assert_eq!(cmd_of(&act), b("adb shell su -c \"cp /sdcard/libx.so /data/data/com.a/lib\""));
    let act = st.on_result(true);
    // The staged file's removal is still issued, and the transfer
    // succeeds overall.
    assert_eq!(cmd_of(&act), b("adb shell rm /sdcard/libx.so"));
    let act = st.on_result(true);
    match act {
        TransferAction::Done(r) => assert_eq!(r, Ok(())),
        TransferAction::Run(_) => panic!("the transfer must end after the removal"),
    }
}

#[test]
fn every_destination_is_attempted_in_order() {
    let dests = vec![b("/d/one"), b("/d/two"), b("/d/three")];
    let (mut st, act) = push(&b("/tmp/libx.so"), dests).unwrap();
    assert_eq!(cmd_of(&act), b("adb push /tmp/libx.so /sdcard/libx.so"));
    let mut act = st.on_result(true);
    let mut issued = Vec::new();
    // Every copy fails; each destination must still get its turn.
    loop {
        let c = cmd_of(&act);
        if c == b("adb shell rm /sdcard/libx.so") {
            break;
        }
        issued.push(c);
        act = st.on_result(false);
    }
    assert_eq!(issued, vec![
        b("adb shell su -c \"cp /sdcard/libx.so /d/one\""),
        b("adb shell su -c \"cp /sdcard/libx.so /d/two\""),
        b("adb shell su -c \"cp /sdcard/libx.so /d/three\""),
    ]);
    let act = st.on_result(true);
    match act {
        TransferAction::Done(r) => assert_eq!(r, Ok(())),
        TransferAction::Run(_) => panic!("the transfer must end after the removal"),
    }
}

#[test]
fn staging_failure_is_fatal() {
    let dests = vec![b("/data/data/com.a/lib")];
    let (mut st, _) = push(&b("/tmp/libx.so"), dests).unwrap();
    let act = st.on_result(false);
    match act {
        TransferAction::Done(r) => assert_eq!(r, Err(Error::StageTransferFailed)),
        TransferAction::Run(_) => panic!("a failed staging ends the transfer"),
    }
}

#[test]
fn failed_removal_still_succeeds() {
    let (mut st, _) = push(&b("libx.so"), Vec::new()).unwrap();
    let act = st.on_result(true);
    assert_eq!(cmd_of(&act), b("adb shell rm /sdcard/libx.so"));
    let act = st.on_result(false);
    match act {
        TransferAction::Done(r) => assert_eq!(r, Ok(())),
        TransferAction::Run(_) => panic!("the transfer must end after the removal"),
    }
}

#[test]
fn path_without_base_name_is_rejected() {
    match push(&b("/tmp/dir/"), Vec::new()) {
        Err(e) => assert_eq!(e, Error::ConfigurationError),
        Ok(_) => panic!("a path with an empty base name must be rejected"),
    }
}
