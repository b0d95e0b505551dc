use sopush::command::parse_command;
use sopush::error::Error;
use sopush::tokenize::tokenize;

fn b(s: &str) -> Vec<u8> {
    s.as_bytes().to_vec()
}

fn toks(s: &str) -> Vec<Vec<u8>> {
    tokenize(&b(s))
}

#[test]
fn quoted_tokens() {
    assert_eq!(toks("foo \"bar baz\" 'qux'"), vec![b("foo"), b("bar baz"), b("qux")]);
}

#[test]
fn plain_words() {
    assert_eq!(toks("adb shell ls /data/app"), vec![
        b("adb"),
        b("shell"),
        b("ls"),
        b("/data/app"),
    ]);
}

#[test]
fn empty_and_blank_lines() {
    assert_eq!(toks(""), Vec::<Vec<u8>>::new());
    assert_eq!(toks("   \t  "), Vec::<Vec<u8>>::new());
}

#[test]
fn unclosed_quote_is_dropped() {
    assert_eq!(toks("a \"bc"), vec![b("a"), b("bc")]);
}

#[test]
fn quote_adjacent_to_word() {
    assert_eq!(toks("ab\"cd e\"f"), vec![b("ab"), b("cd e"), b("f")]);
}

#[test]
fn empty_quotes_give_empty_token() {
    assert_eq!(toks("a '' b"), vec![b("a"), b(""), b("b")]);
}

#[test]
fn ls_command_line_splits() {
    assert_eq!(toks("adb shell su -c \"ls /data/app\""), vec![
        b("adb"),
        b("shell"),
        b("su"),
        b("-c"),
        b("ls /data/app"),
    ]);
}

#[test]
fn parse_command_splits_program_and_args() {
    let r = parse_command(&b("adb push a.so /sdcard/a.so")).unwrap();
    assert_eq!(r.0, b("adb"));
    assert_eq!(r.1, vec![b("push"), b("a.so"), b("/sdcard/a.so")]);
}

#[test]
fn parse_command_empty_line() {
    assert_eq!(parse_command(&b("")), Err(Error::EmptyCommand));
    assert_eq!(parse_command(&b("  \t ")), Err(Error::EmptyCommand));
}
