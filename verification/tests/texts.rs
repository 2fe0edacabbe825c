use mcp_client::text::{contains, join, lines, slice_to_string, starts_with, to_chars};

#[test]
fn finds_a_pattern_anywhere() {
    assert!(contains("status: 404 Not Found", "404"));
    assert!(contains("404", "404"));
    assert!(contains("x404", "404"));
    assert!(contains("40404", "404"));
    assert!(!contains("4-04", "404"));
    assert!(!contains("40", "404"));
    assert!(!contains("", "4"));
    assert!(contains("", ""));
    assert!(contains("abc", ""));
    assert!(contains("äöü", "öü"));
}

#[test]
fn finds_a_prefix() {
    assert!(starts_with("data: {}", "data: "));
    assert!(starts_with("data: ", "data: "));
    assert!(!starts_with("data:{}", "data: "));
    assert!(!starts_with(" data: {}", "data: "));
    assert!(!starts_with("", "d"));
    assert!(starts_with("", ""));
}

#[test]
fn splits_into_lines_as_std_does() {
    let samples = [
        "",
        "one",
        "one\n",
        "one\ntwo",
        "one\r\ntwo\r\n",
        "\n",
        "\n\n",
        "\r\n",
        "a\rb\nc",
        "end\r",
        "x\r\r\ny",
        "event: message\ndata: {}\n\n",
        "ä\n🔧\n",
    ];
    for sample in samples {
        let expected: Vec<String> = sample.lines().map(|l| l.to_string()).collect();
        assert_eq!(lines(sample), expected, "{:?}", sample);
    }
}

#[test]
fn joins_with_a_separator() {
    let parts = vec!["a".to_string(), "b".to_string(), "".to_string()];
    assert_eq!(join(&parts, ", "), "a, b, ");
    assert_eq!(join(&parts[..1].to_vec(), ", "), "a");
    assert_eq!(join(&Vec::new(), ", "), "");
}

#[test]
fn cuts_out_chars() {
    let chars = to_chars("hällo");
    assert_eq!(chars.len(), 5);
    assert_eq!(slice_to_string(&chars, 1, 4), "äll");
    assert_eq!(slice_to_string(&chars, 2, 2), "");
}
