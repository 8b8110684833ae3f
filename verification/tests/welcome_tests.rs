use lilypad::welcome::{acknowledges, to_chars, ACKNOWLEDGED_MARKER, MARKER_FILE_NAME};

#[test]
fn marker_is_as_documented() {
    assert_eq!(ACKNOWLEDGED_MARKER, "acknowledged=true");
    assert_eq!(MARKER_FILE_NAME, "welcome_ack");
}

#[test]
fn bare_marker_acknowledges() {
    assert!(acknowledges("acknowledged=true"));
    assert!(acknowledges(ACKNOWLEDGED_MARKER));
}

#[test]
fn whitespace_around_the_marker_is_ignored() {
    assert!(acknowledges("acknowledged=true\n"));
    assert!(acknowledges("acknowledged=true\r\n"));
    assert!(acknowledges("  acknowledged=true"));
    assert!(acknowledges("\t\n acknowledged=true \n\n"));
    assert!(acknowledges("\u{a0}acknowledged=true\u{3000}"));
    assert!(acknowledges("\u{2028}\u{85}acknowledged=true\u{2009}"));
}

#[test]
fn anything_else_does_not_acknowledge() {
    assert!(!acknowledges(""));
    assert!(!acknowledges(" "));
    assert!(!acknowledges("\n\n\n"));
    assert!(!acknowledges("acknowledged=false"));
    assert!(!acknowledges("acknowledged=tru"));
    assert!(!acknowledges("cknowledged=true"));
    assert!(!acknowledges("acknowledged=truee"));
    assert!(!acknowledges("xacknowledged=true"));
    assert!(!acknowledges("acknowledged = true"));
    assert!(!acknowledges("acknowledged=true x"));
    assert!(!acknowledges("x acknowledged=true"));
    assert!(!acknowledges("acknowledged=true acknowledged=true"));
    assert!(!acknowledges("Acknowledged=true"));
    assert!(!acknowledges("acknowledged=TRUE"));
    assert!(!acknowledges("acknowledged=true\u{0}"));
    assert!(!acknowledges("\u{200b}acknowledged=true"));
    assert!(!acknowledges("acknowledged\n=true"));
    assert!(!acknowledges("true"));
}

#[test]
fn acknowledges_agrees_with_trimming() {
    let samples = [
        "",
        " ",
        "a",
        " a ",
        "acknowledged=true",
        " acknowledged=true",
        "acknowledged=true ",
        "\n\tacknowledged=true\r\n",
        "acknowledged=true\n# later",
        "acknowledged=true\u{a0}",
        "\u{feff}acknowledged=true",
        "acknowledged=tru\u{e9}",
        "acknowledged= true",
        "  acknowledged=tr",
        "\u{1f600}",
    ];
    for contents in samples {
        assert_eq!(acknowledges(contents), contents.trim() == "acknowledged=true", "{:?}", contents);
    }
}

#[test]
fn characters_come_out_one_by_one() {
    assert_eq!(to_chars(""), Vec::<char>::new());
    assert_eq!(to_chars("abc"), vec!['a', 'b', 'c']);
    assert_eq!(to_chars("\u{e9} \u{1f600}"), vec!['\u{e9}', ' ', '\u{1f600}']);
}
