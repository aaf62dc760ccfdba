use cdparanoia::messages::append_lines;
use cdparanoia::{Diagnostic, Drive, DriveState, Level};

fn lines_of(text: &[u8]) -> Vec<Vec<u8>> {
    let mut out: Vec<Diagnostic> = Vec::new();
    append_lines(text, Level::Info, &mut out);
    for d in &out {
        assert_eq!(d.level, Level::Info);
    }
    out.into_iter().map(|d| d.line).collect()
}

fn expect(text: &str, lines: &[&str]) {
    let got = lines_of(text.as_bytes());
    let want: Vec<Vec<u8>> = lines.iter().map(|l| l.as_bytes().to_vec()).collect();
    assert_eq!(got, want);
}

#[test]
fn empty_text_has_no_line() {
    expect("", &[]);
}

#[test]
fn text_without_line_feed_is_one_line() {
    expect("no medium", &["no medium"]);
}

#[test]
fn line_feeds_end_lines() {
    expect("one\ntwo\nthree", &["one", "two", "three"]);
    expect("one\ntwo\n", &["one", "two"]);
    expect("\n", &[""]);
    expect("\n\n", &["", ""]);
    expect("a\n\nb", &["a", "", "b"]);
}

#[test]
fn carriage_return_before_line_feed_is_dropped() {
    expect("foo\r\nbar\n\nbaz\r", &["foo", "bar", "", "baz\r"]);
    expect("\r\n", &[""]);
    expect("a\r\r\nb", &["a\r", "b"]);
    expect("a\rb\n", &["a\rb"]);
    expect("\r", &["\r"]);
}

#[test]
fn lines_agree_with_the_standard_library() {
    let samples = [
        "",
        "x",
        "\n",
        "\r\n",
        "\r",
        "Checking /dev/cdrom for cdrom...\n\tTesting /dev/cdrom for SCSI interface\n",
        "a\r\nb\r\nc",
        "a\n\r\n\rb\r",
        "\n\n\n",
        "tail without end\r",
    ];
    for text in samples {
        let want: Vec<Vec<u8>> = text.lines().map(|l| l.as_bytes().to_vec()).collect();
        assert_eq!(lines_of(text.as_bytes()), want, "{:?}", text);
    }
}

#[test]
fn appended_lines_follow_what_was_there() {
    let mut out: Vec<Diagnostic> = Vec::new();
    append_lines(b"first\n", Level::Error, &mut out);
    append_lines(b"second\nthird", Level::Info, &mut out);
    assert_eq!(out.len(), 3);
    assert_eq!(out[0].level, Level::Error);
    assert_eq!(out[0].line, b"first".to_vec());
    assert_eq!(out[1].level, Level::Info);
    assert_eq!(out[1].line, b"second".to_vec());
    assert_eq!(out[2].level, Level::Info);
    assert_eq!(out[2].line, b"third".to_vec());
}

#[test]
fn drive_messages_come_errors_first() {
    let drive = Drive::located(0x1000).unwrap();
    assert_eq!(drive.state(), DriveState::Unopened);
    let got = drive.check_messages(Some(b"bad toc\r\nno disc\n"), Some(b"found drive"));
    assert_eq!(got.len(), 3);
    assert_eq!((got[0].level, got[0].line.as_slice()), (Level::Error, &b"bad toc"[..]));
    assert_eq!((got[1].level, got[1].line.as_slice()), (Level::Error, &b"no disc"[..]));
    assert_eq!((got[2].level, got[2].line.as_slice()), (Level::Info, &b"found drive"[..]));
}

#[test]
fn absent_buffers_give_no_line() {
    let drive = Drive::located(0x1000).unwrap();
    assert!(drive.check_messages(None, None).is_empty());
    let only_info = drive.check_messages(None, Some(b"hello\n"));
    assert_eq!(only_info.len(), 1);
    assert_eq!(only_info[0].level, Level::Info);
    assert_eq!(only_info[0].line, b"hello".to_vec());
    let only_errors = drive.check_messages(Some(b"oops"), None);
    assert_eq!(only_errors.len(), 1);
    assert_eq!(only_errors[0].level, Level::Error);
}
