use sopush::error::Error;
use sopush::lookup::app_lib_location;
use sopush::lookup::LookupAction;

fn b(s: &str) -> Vec<u8> {
    s.as_bytes().to_vec()
}

fn cmd_of(act: &LookupAction) -> Vec<u8> {
    match act {
        LookupAction::Run(c) => c.clone(),
        LookupAction::Done(_) => panic!("expected a command, got a result"),
    }
}

#[test]
fn root_entry_match_needs_no_second_listing() {
    let (mut st, act) = app_lib_location(b("com.example"));
    assert_eq!(cmd_of(&act), b("adb shell su -c \"ls /data/app\""));
    // The matching entry wins at once: the next action is the result,
    // not another listing command.
    let act = st.on_listing(Ok(b("com.other-1\ncom.example-2\n")));
    match act {
        LookupAction::Run(c) => {
            // The non-matching first entry is probed before the match
            // is reached; its probe fails, and the match still wins.
            assert_eq!(c, b("adb shell su -c \"ls /data/app/com.other-1\""));
            let act = st.on_listing(Err(Error::CommandFailed { exit_code: Some(1), output: b("") }));
            assert_eq!(
                match act {
                    LookupAction::Done(r) => r,
                    _ => panic!("expected the result"),
                },
                Ok(b("/data/app/com.example-2"))
            );
        }
        LookupAction::Done(_) => panic!("the first entry should be probed first"),
    }
}

#[test]
fn first_root_entry_match_is_immediate() {
    let (mut st, _) = app_lib_location(b("com.example"));
    let act = st.on_listing(Ok(b("com.example-1\ncom.other-2\n")));
    match act {
        LookupAction::Done(r) => assert_eq!(r, Ok(b("/data/app/com.example-1"))),
        LookupAction::Run(_) => panic!("a direct match must not issue a second-level listing"),
    }
}

#[test]
fn nested_entry_found_one_level_down() {
    let (mut st, _) = app_lib_location(b("com.example"));
    let act = st.on_listing(Ok(b("splits\ncom.other-1\n")));
    assert_eq!(cmd_of(&act), b("adb shell su -c \"ls /data/app/splits\""));
    let act = st.on_listing(Ok(b("com.example-9\n")));
    match act {
        LookupAction::Done(r) => assert_eq!(r, Ok(b("/data/app/splits/com.example-9"))),
        LookupAction::Run(_) => panic!("the nested match must end the search"),
    }
}

#[test]
fn exhausted_search_fails_with_one_listing_per_directory() {
    let (mut st, act) = app_lib_location(b("com.example"));
    let mut listings = vec![cmd_of(&act)];
    let mut act = st.on_listing(Ok(b("a\nb\n")));
    loop {
        match act {
            LookupAction::Run(c) => {
                listings.push(c);
                act = st.on_listing(Ok(b("x\ny\n")));
            }
            LookupAction::Done(r) => {
                assert_eq!(r, Err(Error::NotFound));
                break;
            }
        }
    }
    // One listing for the root and one per root entry, each visited once.
    assert_eq!(listings, vec![
        b("adb shell su -c \"ls /data/app\""),
        b("adb shell su -c \"ls /data/app/a\""),
        b("adb shell su -c \"ls /data/app/b\""),
    ]);
}

#[test]
fn empty_root_listing_fails() {
    let (mut st, _) = app_lib_location(b("com.example"));
    let act = st.on_listing(Ok(b("\n  \n")));
    match act {
        LookupAction::Done(r) => assert_eq!(r, Err(Error::NotFound)),
        LookupAction::Run(_) => panic!("nothing to probe in an empty listing"),
    }
}

#[test]
fn root_listing_failure_propagates() {
    let (mut st, _) = app_lib_location(b("com.example"));
    let err = Error::CommandFailed { exit_code: Some(127), output: b("no adb\n") };
    let act = st.on_listing(Err(err));
    match act {
        LookupAction::Done(r) => {
            assert_eq!(r, Err(Error::CommandFailed { exit_code: Some(127), output: b("no adb\n") }));
        }
        LookupAction::Run(_) => panic!("a failed root listing ends the search"),
    }
}

#[test]
fn failed_probe_moves_to_next_entry() {
    let (mut st, _) = app_lib_location(b("com.example"));
    let act = st.on_listing(Ok(b("a\nb\n")));
    assert_eq!(cmd_of(&act), b("adb shell su -c \"ls /data/app/a\""));
    let act = st.on_listing(Err(Error::CommandFailed { exit_code: Some(1), output: b("") }));
    assert_eq!(cmd_of(&act), b("adb shell su -c \"ls /data/app/b\""));
    let act = st.on_listing(Ok(b("com.example-3\n")));
    match act {
        LookupAction::Done(r) => assert_eq!(r, Ok(b("/data/app/b/com.example-3"))),
        LookupAction::Run(_) => panic!("the nested match must end the search"),
    }
}
